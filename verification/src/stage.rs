//! The five stages of the cluster-light pipeline and their per-stage data.
//!
//! The stages form a strict total order, not a graph: each one's dispatch
//! consumes the previous one's output sizing, so stage n+1 must never be
//! submitted before stage n within a frame. Per-stage data (such as the
//! profiling-sample handle registered for each stage) lives in a fixed
//! record with one field per stage, so the mapping from stage to datum is
//! total by construction.

use vstd::prelude::*;

verus! {

/// One stage of the fixed five-stage compute pipeline, in declaration order.
#[derive(Debug, Copy, Clone, Eq, PartialEq, Structural)]
pub enum ClusterStage {
    /// Stream-compacts per-cluster fragment counts into the list of active
    /// cluster indices and produces the active-cluster count.
    CompactClusters,
    /// Transfers the frame's light position and radius list to the device,
    /// sized exactly to the live light count.
    UploadLights,
    /// Writes, for each active cluster, how many lights overlap it.
    CountLights,
    /// Exclusive prefix sum over the per-cluster light counts, yielding each
    /// cluster's starting offset into the flat light-index list and the
    /// grand total.
    LightOffsets,
    /// Writes each active cluster's overlapping light indices into its
    /// pre-reserved, disjoint sub-range.
    AssignLights,
}

/// The five stages in declaration order.
pub open spec fn spec_stage_values() -> Seq<ClusterStage> {
    seq![
        ClusterStage::CompactClusters,
        ClusterStage::UploadLights,
        ClusterStage::CountLights,
        ClusterStage::LightOffsets,
        ClusterStage::AssignLights,
    ]
}

/// The position of a stage in declaration order.
pub open spec fn spec_stage_index(stage: ClusterStage) -> int {
    match stage {
        ClusterStage::CompactClusters => 0,
        ClusterStage::UploadLights => 1,
        ClusterStage::CountLights => 2,
        ClusterStage::LightOffsets => 3,
        ClusterStage::AssignLights => 4,
    }
}

impl ClusterStage {
    /// The five stages, in declaration order.
    pub fn values() -> (r: [ClusterStage; 5])
        ensures
            r@ == spec_stage_values(),
    {
        let r = [
            ClusterStage::CompactClusters,
            ClusterStage::UploadLights,
            ClusterStage::CountLights,
            ClusterStage::LightOffsets,
            ClusterStage::AssignLights,
        ];
        proof {
            assert(r@ =~= spec_stage_values());
        }
        r
    }

    /// The fixed title under which this stage registers its
    /// profiling sample.
    pub fn title(self) -> (r: &'static str)
        ensures
            r@ == spec_stage_title(self),
    {
        match self {
            ClusterStage::CompactClusters => "cluster.compact_clusters",
            ClusterStage::UploadLights => "cluster.upload_lights",
            ClusterStage::CountLights => "cluster.count_lights",
            ClusterStage::LightOffsets => "cluster.compact_lights",
            ClusterStage::AssignLights => "cluster.assign_lights",
        }
    }
}

/// The fixed profiling title of each stage.
pub open spec fn spec_stage_title(stage: ClusterStage) -> Seq<char> {
    match stage {
        ClusterStage::CompactClusters => "cluster.compact_clusters"@,
        ClusterStage::UploadLights => "cluster.upload_lights"@,
        ClusterStage::CountLights => "cluster.count_lights"@,
        ClusterStage::LightOffsets => "cluster.compact_lights"@,
        ClusterStage::AssignLights => "cluster.assign_lights"@,
    }
}

/// The declared stage order is total: iterating the stages in declaration
/// order always yields compact, upload, count, offset, assign — each stage
/// exactly once, at its own position.
pub proof fn lemma_stage_order()
    ensures
        spec_stage_values().len() == 5,
        forall|stage: ClusterStage|
            spec_stage_values()[spec_stage_index(stage)] == stage,
        forall|i: int| #![auto] 0 <= i < 5 ==> spec_stage_index(spec_stage_values()[i]) == i,
{
    assert forall|i: int| #![auto] 0 <= i < 5 implies
        spec_stage_index(spec_stage_values()[i]) == i by {
        if i == 0 {
        } else if i == 1 {
        } else if i == 2 {
        } else if i == 3 {
        } else {
            assert(i == 4);
        }
    }
}

/// A stable handle to a profiling sample, registered once per stage at
/// construction with the external profiling collaborator.
#[derive(Debug, Copy, Clone, Eq, PartialEq, Structural)]
pub struct SampleIndex(pub usize);

/// One datum per pipeline stage; the mapping is total by construction, so
/// every stage has exactly one entry.
#[derive(Debug, Copy, Clone, Eq, PartialEq, Structural)]
pub struct ClusterStages<T> {
    pub compact_clusters: T,
    pub upload_lights: T,
    pub count_lights: T,
    pub light_offsets: T,
    pub assign_lights: T,
}

impl<T> ClusterStages<T> {
    /// The datum held for `stage`.
    pub open spec fn spec_index(&self, stage: ClusterStage) -> T {
        match stage {
            ClusterStage::CompactClusters => self.compact_clusters,
            ClusterStage::UploadLights => self.upload_lights,
            ClusterStage::CountLights => self.count_lights,
            ClusterStage::LightOffsets => self.light_offsets,
            ClusterStage::AssignLights => self.assign_lights,
        }
    }

    /// Builds the record, one datum per stage in declaration order.
    pub fn new(
        compact_clusters: T,
        upload_lights: T,
        count_lights: T,
        light_offsets: T,
        assign_lights: T,
    ) -> (r: ClusterStages<T>)
        ensures
            r.spec_index(ClusterStage::CompactClusters) == compact_clusters,
            r.spec_index(ClusterStage::UploadLights) == upload_lights,
            r.spec_index(ClusterStage::CountLights) == count_lights,
            r.spec_index(ClusterStage::LightOffsets) == light_offsets,
            r.spec_index(ClusterStage::AssignLights) == assign_lights,
    {
        ClusterStages {
            compact_clusters,
            upload_lights,
            count_lights,
            light_offsets,
            assign_lights,
        }
    }

    /// The datum held for `stage`.
    pub fn index(&self, stage: ClusterStage) -> (r: &T)
        ensures
            *r == self.spec_index(stage),
    {
        match stage {
            ClusterStage::CompactClusters => &self.compact_clusters,
            ClusterStage::UploadLights => &self.upload_lights,
            ClusterStage::CountLights => &self.count_lights,
            ClusterStage::LightOffsets => &self.light_offsets,
            ClusterStage::AssignLights => &self.assign_lights,
        }
    }
}

} // verus!
