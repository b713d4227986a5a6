//! Fixed uniform locations of the light-counting stage's compute program.
//!
//! The stage tests every light's sphere against each active cluster's cell
//! volume on the device; the host only sets these uniforms before the
//! dispatch.

use vstd::prelude::*;

verus! {

/// Uniform location of the grid dimensions.
pub const CLUSTER_DIMS_LOC: u32 = 0;

/// Uniform location of the cluster-space translation.
pub const TRANSLATION_LOC: u32 = 1;

/// Uniform location of the cluster-space scale.
pub const SCALE_LOC: u32 = 2;

/// Uniform location of the live light count.
pub const LIGHT_COUNT_LOC: u32 = 3;

} // verus!
