//! The cluster grid's resource set: the capacity ledgers of the device
//! buffers backing the pipeline, the per-frame derived state, and the
//! frame-scoped camera pool.
//!
//! Construction pre-sizes the configuration-driven buffers against the
//! parameters' maxima so the steady-state pipeline never grows mid-frame.
//! `recompute` replaces the derived state wholesale; `reset` replaces the
//! parameters, clears the camera pool and falls back to the default derived
//! state without touching any buffer capacity.

use vstd::prelude::*;
use crate::buffer::DynamicBuffer;
use crate::buffer::spec_mult_16;
use crate::cluster::CameraArrangement;
use crate::cluster::ClusterCameraResources;
use crate::cluster::ClusterComputed;
use crate::cluster::ClusterParameters;
use crate::cluster::Dimensions;
use crate::cluster::FitError;
use crate::cluster::monocular_grid_xy;
use crate::cluster::perspective_camera_arrangement;
use crate::cluster::spec_ceil_div;
use crate::pool::FramePool;
use crate::stage::ClusterStages;
use crate::stage::SampleIndex;

verus! {

/// The frame-scoped pool of per-camera resources one configuration reads.
pub type ClusterCameraResourcesPool = FramePool<ClusterCameraResources>;

/// A frame-scoped pool of whole cluster-grid configurations: several may
/// coexist, one per render target, each with its own derived state and
/// buffer set.
pub type ClusterResourcesPool = FramePool<ClusterResources>;

/// Everything one cluster-grid configuration owns: the device buffer
/// ledgers, one profiling-sample handle per stage, the host-side mirrors of
/// the pipeline's outputs, the camera pool, and the per-frame parameters and
/// derived state.
pub struct ClusterResources {
    /// Uniform block describing the cluster space; its byte layout is the
    /// device's, so its size is reconciled by the caller.
    pub cluster_space_buffer: DynamicBuffer,
    /// One fragment count per cluster; sized to `max_clusters` entries.
    pub cluster_fragment_counts_buffer: DynamicBuffer,
    /// Compaction scratch, one entry per cluster.
    pub cluster_maybe_active_cluster_indices_buffer: DynamicBuffer,
    /// The compacted active-cluster index list.
    pub active_cluster_cluster_indices_buffer: DynamicBuffer,
    /// Per active cluster, how many lights overlap it.
    pub active_cluster_light_counts_buffer: DynamicBuffer,
    /// Per active cluster, its starting offset into the flat light-index
    /// list.
    pub active_cluster_light_offsets_buffer: DynamicBuffer,
    /// The frame's light positions and radii; sized per frame to the live
    /// light count.
    pub light_xyzr_buffer: DynamicBuffer,
    /// The flat light-index list.
    pub light_indices_buffer: DynamicBuffer,
    /// Per-draw offsets; sized per frame.
    pub offset_buffer: DynamicBuffer,
    /// Indirect draw commands, one five-word record.
    pub draw_commands_buffer: DynamicBuffer,
    /// Indirect compute-dispatch commands, three three-word records.
    pub compute_commands_buffer: DynamicBuffer,
    /// Per-stage profiling counters; its byte layout is the device's, so its
    /// size is reconciled by the caller.
    pub profiling_cluster_buffer: DynamicBuffer,
    /// One profiling-sample handle per pipeline stage, registered once at
    /// construction under the stage's fixed title.
    pub profilers: ClusterStages<SampleIndex>,
    /// Host mirror of the active-cluster index list.
    pub active_clusters: Vec<u32>,
    /// Host mirror of the per-active-cluster light counts.
    pub active_cluster_lengths: Vec<u32>,
    /// Host mirror of the per-active-cluster light offsets.
    pub active_cluster_offsets: Vec<u32>,
    /// Host mirror of the flat light-index list.
    pub light_indices: Vec<u32>,
    /// The cameras supplied for the current frame.
    pub camera_resources_pool: ClusterCameraResourcesPool,
    /// The frame's configuration; replaced wholesale on `reset`.
    pub parameters: ClusterParameters,
    /// The derived state, fully replaced by every `recompute`.
    pub computed: ClusterComputed,
}

impl ClusterResources {
    /// The camera pool is well formed and the parameters' maxima describe
    /// byte sizes the capacity policy accepts.
    pub open spec fn wf(&self) -> bool {
        &&& self.camera_resources_pool.wf()
        &&& self.parameters.wf()
    }

    /// Builds the resource set for one cluster-grid configuration,
    /// pre-sizing the configuration-driven buffers against the parameters'
    /// maxima: one four-byte word per cluster for the fragment counts and the
    /// compaction scratch, one per possible active cluster for the index,
    /// count and offset lists, one per possible light index, and the fixed
    /// command records. The caller registers one profiling sample per stage,
    /// under the stage's fixed title, and hands the handles in.
    pub fn new(profilers: ClusterStages<SampleIndex>, parameters: ClusterParameters) -> (r:
        ClusterResources)
        requires
            parameters.wf(),
        ensures
            r.wf(),
            r.cluster_space_buffer.spec_byte_capacity() == 0,
            r.cluster_fragment_counts_buffer.spec_byte_capacity() == spec_mult_16(
                4 * parameters.max_clusters as int,
            ),
            r.cluster_maybe_active_cluster_indices_buffer.spec_byte_capacity()
                == spec_mult_16(4 * parameters.max_clusters as int),
            r.active_cluster_cluster_indices_buffer.spec_byte_capacity() == spec_mult_16(
                4 * parameters.max_active_clusters as int,
            ),
            r.active_cluster_light_counts_buffer.spec_byte_capacity() == spec_mult_16(
                4 * parameters.max_active_clusters as int,
            ),
            r.active_cluster_light_offsets_buffer.spec_byte_capacity() == spec_mult_16(
                4 * parameters.max_active_clusters as int,
            ),
            r.light_xyzr_buffer.spec_byte_capacity() == 0,
            r.light_indices_buffer.spec_byte_capacity() == spec_mult_16(
                4 * parameters.max_light_indices as int,
            ),
            r.offset_buffer.spec_byte_capacity() == 0,
            r.draw_commands_buffer.spec_byte_capacity() == 32,
            r.compute_commands_buffer.spec_byte_capacity() == 48,
            r.profiling_cluster_buffer.spec_byte_capacity() == 0,
            r.profilers == profilers,
            r.active_clusters@ == Seq::<u32>::empty(),
            r.active_cluster_lengths@ == Seq::<u32>::empty(),
            r.active_cluster_offsets@ == Seq::<u32>::empty(),
            r.light_indices@ == Seq::<u32>::empty(),
            r.camera_resources_pool.view() == Seq::<ClusterCameraResources>::empty(),
            r.parameters == parameters,
            r.computed.dimensions == (Dimensions { x: 0, y: 0, z: 0 }),
    {
        let cluster_words = 4 * parameters.max_clusters as usize;
        let active_words = 4 * parameters.max_active_clusters as usize;
        let light_index_words = 4 * parameters.max_light_indices as usize;

        let cluster_space_buffer = DynamicBuffer::new();

        let mut cluster_fragment_counts_buffer = DynamicBuffer::new();
        cluster_fragment_counts_buffer.ensure_capacity(cluster_words);

        let mut cluster_maybe_active_cluster_indices_buffer = DynamicBuffer::new();
        cluster_maybe_active_cluster_indices_buffer.ensure_capacity(cluster_words);

        let mut active_cluster_cluster_indices_buffer = DynamicBuffer::new();
        active_cluster_cluster_indices_buffer.ensure_capacity(active_words);

        let mut active_cluster_light_counts_buffer = DynamicBuffer::new();
        active_cluster_light_counts_buffer.ensure_capacity(active_words);

        let mut active_cluster_light_offsets_buffer = DynamicBuffer::new();
        active_cluster_light_offsets_buffer.ensure_capacity(active_words);

        let light_xyzr_buffer = DynamicBuffer::new();

        let mut light_indices_buffer = DynamicBuffer::new();
        light_indices_buffer.ensure_capacity(light_index_words);

        let offset_buffer = DynamicBuffer::new();

        let mut draw_commands_buffer = DynamicBuffer::new();
        draw_commands_buffer.ensure_capacity(20);

        let mut compute_commands_buffer = DynamicBuffer::new();
        compute_commands_buffer.ensure_capacity(36);

        let profiling_cluster_buffer = DynamicBuffer::new();

        ClusterResources {
            cluster_space_buffer,
            cluster_fragment_counts_buffer,
            cluster_maybe_active_cluster_indices_buffer,
            active_cluster_cluster_indices_buffer,
            active_cluster_light_counts_buffer,
            active_cluster_light_offsets_buffer,
            light_xyzr_buffer,
            light_indices_buffer,
            offset_buffer,
            draw_commands_buffer,
            compute_commands_buffer,
            profiling_cluster_buffer,
            profilers,
            active_clusters: Vec::new(),
            active_cluster_lengths: Vec::new(),
            active_cluster_offsets: Vec::new(),
            light_indices: Vec::new(),
            camera_resources_pool: FramePool::new(),
            parameters,
            computed: ClusterComputed { dimensions: Dimensions { x: 0, y: 0, z: 0 } },
        }
    }

    /// The state `recompute` leaves behind: the derived state is replaced
    /// wholesale by the clamped raw dimensions, and nothing else moves.
    pub open spec fn spec_recompute(self, raw: Dimensions) -> ClusterResources {
        ClusterResources {
            computed: ClusterComputed { dimensions: raw.spec_clamped() },
            ..self
        }
    }

    /// Replaces the derived state from this frame's fitting. The raw grid
    /// dimensions come from the enclosing-frustum geometry the caller ran
    /// over the live cameras; each is clamped into `[1, 1000]`,
    /// unconditionally and silently, before it is stored. The derived state
    /// is always fully replaced; partial updates are forbidden.
    pub fn recompute(&mut self, raw: Dimensions)
        ensures
            *final(self) == old(self).spec_recompute(raw),
            final(self).computed.dimensions.wf(),
            1 <= final(self).computed.dimensions.x <= 1000,
            1 <= final(self).computed.dimensions.y <= 1000,
            1 <= final(self).computed.dimensions.z <= 1000,
    {
        self.computed = ClusterComputed { dimensions: raw.clamped() };
    }

    /// Chooses the perspective fitting path from the number of live cameras
    /// in the pool: one is monocular, two are stereo, and any other count is
    /// the fatal too-many-cameras condition.
    pub fn perspective_arrangement(&self) -> (r: Result<CameraArrangement, FitError>)
        requires
            self.wf(),
        ensures
            self.camera_resources_pool.view().len() == 1 <==> r == Ok::<_, FitError>(
                CameraArrangement::Monocular,
            ),
            self.camera_resources_pool.view().len() == 2 <==> r == Ok::<_, FitError>(
                CameraArrangement::Stereo,
            ),
            !(self.camera_resources_pool.view().len() == 1
                || self.camera_resources_pool.view().len() == 2) <==> r == Err::<
                CameraArrangement,
                _,
            >(FitError::TooManyCameras),
    {
        perspective_camera_arrangement(self.camera_resources_pool.len())
    }

    /// The monocular grid extent as a function of the pool's single camera
    /// and the depth slice count.
    pub open spec fn spec_monocular_dimensions(self, z_slices: u32) -> Dimensions {
        Dimensions {
            x: spec_ceil_div(
                self.camera_resources_pool.view()[0].frame_dims.x as int,
                64,
            ) as u32,
            y: spec_ceil_div(
                self.camera_resources_pool.view()[0].frame_dims.y as int,
                64,
            ) as u32,
            z: z_slices,
        }
    }

    /// The monocular grid extent: one cluster per 64-pixel tile of the
    /// single live camera's frame, with the depth slice count handed in from
    /// the logarithmic slicing the caller solved over the camera's frustum.
    pub fn monocular_dimensions(&self, z_slices: u32) -> (r: Dimensions)
        requires
            self.wf(),
            self.camera_resources_pool.view().len() == 1,
        ensures
            r == self.spec_monocular_dimensions(z_slices),
            r.x == spec_ceil_div(self.camera_resources_pool.view()[0].frame_dims.x as int, 64),
            r.y == spec_ceil_div(self.camera_resources_pool.view()[0].frame_dims.y as int, 64),
            r.z == z_slices,
    {
        let camera = self.camera_resources_pool.get(0);
        let (x, y) = monocular_grid_xy(camera.frame_dims);
        Dimensions { x, y, z: z_slices }
    }

    /// Replaces the parameters wholesale, clears the camera pool (keeping
    /// its storage for reuse), and falls back to the default derived state
    /// so a read before the next recompute surfaces as such. No device
    /// buffer is resized.
    pub fn reset(&mut self, parameters: ClusterParameters)
        requires
            old(self).wf(),
            parameters.wf(),
        ensures
            final(self).wf(),
            final(self).camera_resources_pool.view()
                == Seq::<ClusterCameraResources>::empty(),
            final(self).camera_resources_pool.spec_storage_len() == old(
                self,
            ).camera_resources_pool.spec_storage_len(),
            final(self).parameters == parameters,
            final(self).computed.dimensions == (Dimensions { x: 0, y: 0, z: 0 }),
            final(self).cluster_space_buffer == old(self).cluster_space_buffer,
            final(self).cluster_fragment_counts_buffer == old(
                self,
            ).cluster_fragment_counts_buffer,
            final(self).cluster_maybe_active_cluster_indices_buffer == old(
                self,
            ).cluster_maybe_active_cluster_indices_buffer,
            final(self).active_cluster_cluster_indices_buffer == old(
                self,
            ).active_cluster_cluster_indices_buffer,
            final(self).active_cluster_light_counts_buffer == old(
                self,
            ).active_cluster_light_counts_buffer,
            final(self).active_cluster_light_offsets_buffer == old(
                self,
            ).active_cluster_light_offsets_buffer,
            final(self).light_xyzr_buffer == old(self).light_xyzr_buffer,
            final(self).light_indices_buffer == old(self).light_indices_buffer,
            final(self).offset_buffer == old(self).offset_buffer,
            final(self).draw_commands_buffer == old(self).draw_commands_buffer,
            final(self).compute_commands_buffer == old(self).compute_commands_buffer,
            final(self).profiling_cluster_buffer == old(self).profiling_cluster_buffer,
            final(self).profilers == old(self).profilers,
    {
        self.camera_resources_pool.reset();
        self.parameters = parameters;
        self.computed = ClusterComputed { dimensions: Dimensions { x: 0, y: 0, z: 0 } };
    }
}

/// Recomputing is deterministic in its inputs, and repeating it without
/// mutating them changes nothing: the derived state is a pure function of
/// the raw fitted dimensions, so two resource sets given the same raw
/// dimensions derive the same state, and a second recompute leaves the
/// first one's result in place.
pub proof fn lemma_recompute_deterministic(
    a: ClusterResources,
    b: ClusterResources,
    raw: Dimensions,
)
    ensures
        a.spec_recompute(raw).computed == b.spec_recompute(raw).computed,
        a.spec_recompute(raw).spec_recompute(raw) == a.spec_recompute(raw),
{
}

/// The monocular path is deterministic in the camera pool's contents: two
/// resource sets holding the same single camera derive, for the same depth
/// slicing, bit-identical dimensions and bit-identical derived state.
pub proof fn lemma_monocular_recompute_deterministic(
    a: ClusterResources,
    b: ClusterResources,
    z_slices: u32,
)
    requires
        a.camera_resources_pool.view() == b.camera_resources_pool.view(),
    ensures
        a.spec_monocular_dimensions(z_slices) == b.spec_monocular_dimensions(z_slices),
        a.spec_recompute(a.spec_monocular_dimensions(z_slices)).computed == b.spec_recompute(
            b.spec_monocular_dimensions(z_slices),
        ).computed,
{
}

} // verus!
