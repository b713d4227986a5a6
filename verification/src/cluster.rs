//! The cluster-grid data model: per-frame parameters, camera input, and the
//! derived grid extent.
//!
//! The geometric inputs a camera supplies (frustum planes, transforms) feed
//! the real-valued frustum fitting that runs outside this crate; what the
//! verified logic reads is held here as plain values: the projection mode,
//! the buffer-sizing maxima, frame pixel dimensions, and the integer grid
//! dimensions derived from them.

use vstd::prelude::*;
use crate::buffer::MAX_BYTE_CAPACITY;

verus! {

/// The projection mode the cluster grid is fitted under.
#[derive(Debug, Copy, Clone, Eq, PartialEq, Structural)]
pub enum ClusteringProjection {
    /// Axis-aligned cells of a fixed world-space size.
    Orthographic,
    /// Cells follow a perspective frustum fitted over the live cameras.
    Perspective,
}

/// Per-frame cluster configuration, immutable for the duration of one frame
/// and replaced wholesale on `reset`.
#[derive(Debug, Copy, Clone, Eq, PartialEq, Structural)]
pub struct ClusterParameters {
    /// The projection mode.
    pub projection: ClusteringProjection,
    /// Upper bound on clusters in the grid; sizes the per-cluster buffers.
    pub max_clusters: u32,
    /// Upper bound on clusters touched by fragments in one frame.
    pub max_active_clusters: u32,
    /// Upper bound on entries in the flat light-index list.
    pub max_light_indices: u32,
}

impl ClusterParameters {
    /// The buffer-sizing maxima must describe byte sizes (four bytes per
    /// entry) that the capacity policy accepts.
    pub open spec fn wf(&self) -> bool {
        &&& 4 * self.max_clusters as int <= MAX_BYTE_CAPACITY as int
        &&& 4 * self.max_active_clusters as int <= MAX_BYTE_CAPACITY as int
        &&& 4 * self.max_light_indices as int <= MAX_BYTE_CAPACITY as int
    }
}

/// A camera's frame size in pixels.
#[derive(Debug, Copy, Clone, Eq, PartialEq, Structural)]
pub struct FrameDims {
    pub x: u32,
    pub y: u32,
}

/// What the grid fitting reads of one live camera. The camera's real-valued
/// pose and frustum feed the external geometry pass; the grid's integer
/// sizing depends only on the frame's pixel dimensions held here.
#[derive(Debug, Copy, Clone, Eq, PartialEq, Structural)]
pub struct ClusterCameraResources {
    /// The camera's frame size in pixels.
    pub frame_dims: FrameDims,
}

/// The grid extent along each axis.
#[derive(Debug, Copy, Clone, Eq, PartialEq, Structural)]
pub struct Dimensions {
    pub x: u32,
    pub y: u32,
    pub z: u32,
}

/// Every stored grid dimension is clamped into `[1, 1000]`: a hard safety
/// bound against degenerate or runaway allocations from malformed camera
/// input. The clamp is unconditional and silent.
pub open spec fn spec_clamp_dimension(d: int) -> int {
    if d < 1 {
        1
    } else if d > 1000 {
        1000
    } else {
        d
    }
}

/// Clamps one raw grid dimension into `[1, 1000]`.
pub fn clamp_dimension(d: u32) -> (r: u32)
    ensures
        r == spec_clamp_dimension(d as int),
        1 <= r <= 1000,
{
    if d < 1 {
        1
    } else if d > 1000 {
        1000
    } else {
        d
    }
}

impl Dimensions {
    /// A zero extent, the well-defined default before the first recompute.
    pub fn zero() -> (r: Dimensions)
        ensures
            r == (Dimensions { x: 0, y: 0, z: 0 }),
    {
        Dimensions { x: 0, y: 0, z: 0 }
    }

    /// All components clamped into `[1, 1000]`.
    pub open spec fn spec_clamped(self) -> Dimensions {
        Dimensions {
            x: spec_clamp_dimension(self.x as int) as u32,
            y: spec_clamp_dimension(self.y as int) as u32,
            z: spec_clamp_dimension(self.z as int) as u32,
        }
    }

    /// Clamps every component into `[1, 1000]`.
    pub fn clamped(self) -> (r: Dimensions)
        ensures
            r == self.spec_clamped(),
            1 <= r.x <= 1000,
            1 <= r.y <= 1000,
            1 <= r.z <= 1000,
    {
        Dimensions {
            x: clamp_dimension(self.x),
            y: clamp_dimension(self.y),
            z: clamp_dimension(self.z),
        }
    }

    /// Whether every component lies at or under the clamp's upper bound, so
    /// the cluster count fits a `u32`.
    pub open spec fn wf(self) -> bool {
        self.x <= 1000 && self.y <= 1000 && self.z <= 1000
    }

    /// The number of grid cells: the product of the three extents.
    pub fn product(self) -> (r: u32)
        requires
            self.wf(),
        ensures
            r == self.x as int * self.y as int * self.z as int,
    {
        proof {
            assert(self.x as int * self.y as int <= 1000000) by (nonlinear_arith)
                requires
                    self.x <= 1000,
                    self.y <= 1000,
            ;
            assert(self.x as int * self.y as int * self.z as int <= 1000000000)
                by (nonlinear_arith)
                requires
                    0 <= self.x as int * self.y as int <= 1000000,
                    self.z <= 1000,
            ;
        }
        self.x * self.y * self.z
    }
}

/// What one frame's fitting derives from the parameters and the live
/// cameras. Always replaced wholesale on recompute; partial updates are
/// forbidden. The fitted real-valued frustum and the world-to-cluster-camera
/// transforms derived alongside these dimensions live with the external
/// geometry pass.
#[derive(Debug, Copy, Clone, Eq, PartialEq, Structural)]
pub struct ClusterComputed {
    /// The grid extent along each axis, clamped into `[1, 1000]` whenever it
    /// was stored by a recompute.
    pub dimensions: Dimensions,
}

impl Default for ClusterComputed {
    /// Before the first recompute the grid is empty.
    fn default() -> (r: ClusterComputed)
        ensures
            r.dimensions == (Dimensions { x: 0, y: 0, z: 0 }),
    {
        ClusterComputed { dimensions: Dimensions { x: 0, y: 0, z: 0 } }
    }
}

impl ClusterComputed {
    /// The number of grid cells.
    pub fn cluster_count(&self) -> (r: u32)
        requires
            self.dimensions.wf(),
        ensures
            r == self.dimensions.x as int * self.dimensions.y as int
                * self.dimensions.z as int,
    {
        self.dimensions.product()
    }
}

/// How many live cameras the perspective fitting covers.
#[derive(Debug, Copy, Clone, Eq, PartialEq, Structural)]
pub enum CameraArrangement {
    /// Exactly one camera: grid cells track its own frustum.
    Monocular,
    /// Exactly two cameras: an enclosing frustum is fitted over both.
    Stereo,
}

/// The fatal, unrecoverable fitting conditions. Both stand for configuration
/// errors, not transient runtime conditions.
#[derive(Debug, Copy, Clone, Eq, PartialEq, Structural)]
pub enum FitError {
    /// More than two (or zero) live cameras were supplied for perspective
    /// clustering.
    TooManyCameras,
    /// A monocular camera's horizontal and vertical per-cluster pixel pitch
    /// differ beyond floating-point epsilon; non-square projected cells are
    /// an unsupported configuration.
    NonSquarePitch,
}

impl FitError {
    /// The diagnostic the process terminates with.
    pub fn message(&self) -> (r: &'static str)
        ensures
            *self is TooManyCameras ==> r@
                == "Too many cameras for enclosed perspective clustering."@,
            *self is NonSquarePitch ==> r@
                == "Non-square cluster pixel pitch."@,
    {
        match self {
            FitError::TooManyCameras => {
                "Too many cameras for enclosed perspective clustering."
            },
            FitError::NonSquarePitch => "Non-square cluster pixel pitch.",
        }
    }
}

/// Chooses the perspective fitting path from the number of live cameras:
/// one camera is monocular, two are stereo, and any other count is the
/// fatal too-many-cameras condition.
pub fn perspective_camera_arrangement(camera_count: usize) -> (r: Result<
    CameraArrangement,
    FitError,
>)
    ensures
        camera_count == 1 <==> r == Ok::<_, FitError>(CameraArrangement::Monocular),
        camera_count == 2 <==> r == Ok::<_, FitError>(CameraArrangement::Stereo),
        !(camera_count == 1 || camera_count == 2) <==> r == Err::<CameraArrangement, _>(
            FitError::TooManyCameras,
        ),
{
    match camera_count {
        1 => Ok(CameraArrangement::Monocular),
        2 => Ok(CameraArrangement::Stereo),
        _ => Err(FitError::TooManyCameras),
    }
}

/// `ceil(n / d)`.
pub open spec fn spec_ceil_div(n: int, d: int) -> int {
    (n + d - 1) / d
}

/// Division rounding up.
pub fn ceiled_div(n: u32, d: u32) -> (r: u32)
    requires
        d >= 1,
    ensures
        r == spec_ceil_div(n as int, d as int),
{
    let wide = (n as u64 + d as u64 - 1) / d as u64;
    proof {
        let ni = n as int;
        let di = d as int;
        vstd::arithmetic::div_mod::lemma_div_is_ordered(ni + di - 1, ni + di, di);
        vstd::arithmetic::div_mod::lemma_div_plus_one(ni, di);
        vstd::arithmetic::div_mod::lemma_div_nonincreasing(ni, di);
        if di == 1 {
            assert((ni + di - 1) / di == ni / di);
        } else if ni == 0 {
            vstd::arithmetic::div_mod::lemma_basic_div(di - 1, di);
        } else {
            vstd::arithmetic::div_mod::lemma_div_decreases(ni, di);
        }
        assert((ni + di - 1) / di <= u32::MAX);
    }
    wide as u32
}

/// The side of one grid cell's screen footprint, in pixels: the target cell
/// footprint is a fixed 64 by 64 pixel tile.
pub const PIXELS_PER_CLUSTER: u32 = 64;

/// The monocular grid's x and y extents: one cluster per 64-pixel tile of
/// the camera's frame, rounded up so the frame is covered. A 1920 by 1080
/// frame yields 30 by 17 clusters.
pub fn monocular_grid_xy(frame_dims: FrameDims) -> (r: (u32, u32))
    ensures
        r.0 == spec_ceil_div(frame_dims.x as int, PIXELS_PER_CLUSTER as int),
        r.1 == spec_ceil_div(frame_dims.y as int, PIXELS_PER_CLUSTER as int),
{
    (ceiled_div(frame_dims.x, PIXELS_PER_CLUSTER), ceiled_div(frame_dims.y, PIXELS_PER_CLUSTER))
}

} // verus!
