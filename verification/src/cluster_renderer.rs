//! Decisions behind the cluster-occupancy debug visualization.
//!
//! The draw pass itself binds the resource set's buffers and submits
//! indirect or instanced draws; what the library states is the shader-facing
//! encoding of each visualization mode, which modes need the second,
//! blended volumetric pass, and the fixed binding points the pass uses.

use vstd::prelude::*;

verus! {

/// Binding point of the per-cluster fragment counts buffer.
pub const CLUSTER_FRAGMENT_COUNTS_BUFFER_BINDING: u32 = 0;

/// Binding point of the active-cluster index buffer.
pub const ACTIVE_CLUSTER_CLUSTER_INDICES_BUFFER_BINDING: u32 = 1;

/// Binding point of the per-active-cluster light counts buffer.
pub const ACTIVE_CLUSTER_LIGHT_COUNTS_BUFFER_BINDING: u32 = 2;

/// Binding point of the per-active-cluster light offsets buffer.
pub const ACTIVE_CLUSTER_LIGHT_OFFSETS_BUFFER_BINDING: u32 = 3;

/// Binding point of the flat light-index buffer.
pub const LIGHT_INDICES_BUFFER_BINDING: u32 = 4;

/// Binding point of the cluster-space uniform block.
pub const CLUSTER_SPACE_BUFFER_BINDING: u32 = 5;

/// Uniform location of the cluster-camera-to-clip transform.
pub const CLU_CAM_TO_REN_CLP_LOC: u32 = 0;

/// Uniform location of the visible-only toggle.
pub const VISIBLE_ONLY_LOC: u32 = 1;

/// Uniform location of the visualization mode code.
pub const VISUALISATION_LOC: u32 = 2;

/// Uniform location of the pass index.
pub const PASS_LOC: u32 = 3;

/// What the debug pass paints per cluster.
#[derive(Debug, Copy, Clone, Eq, PartialEq, Structural)]
pub enum ClusterVisualisation {
    /// Each cluster tinted by its index.
    ClusterIndices,
    /// Opaque heatmap of per-cluster light counts.
    LightCountHeatmap,
    /// Volumetric (blended) rendering of per-cluster light counts.
    LightCountVolumetric,
    /// Opaque heatmap of per-cluster fragment counts.
    FragmentCountHeatmap,
    /// Volumetric (blended) rendering of per-cluster fragment counts.
    FragmentCountVolumetric,
}

/// The shader-facing code of each visualization mode.
pub open spec fn spec_visualisation_code(v: ClusterVisualisation) -> u32 {
    match v {
        ClusterVisualisation::ClusterIndices => 1,
        ClusterVisualisation::LightCountHeatmap => 8,
        ClusterVisualisation::LightCountVolumetric => 9,
        ClusterVisualisation::FragmentCountHeatmap => 16,
        ClusterVisualisation::FragmentCountVolumetric => 17,
    }
}

impl ClusterVisualisation {
    /// The code the visualization uniform is set to.
    pub fn code(self) -> (r: u32)
        ensures
            r == spec_visualisation_code(self),
    {
        match self {
            ClusterVisualisation::ClusterIndices => 1,
            ClusterVisualisation::LightCountHeatmap => 8,
            ClusterVisualisation::LightCountVolumetric => 9,
            ClusterVisualisation::FragmentCountHeatmap => 16,
            ClusterVisualisation::FragmentCountVolumetric => 17,
        }
    }

    /// Whether the mode draws the second, blended volumetric pass after the
    /// opaque pass.
    pub fn is_volumetric(self) -> (r: bool)
        ensures
            r == (self is LightCountVolumetric || self is FragmentCountVolumetric),
    {
        match self {
            ClusterVisualisation::LightCountVolumetric => true,
            ClusterVisualisation::FragmentCountVolumetric => true,
            _ => false,
        }
    }
}

} // verus!
