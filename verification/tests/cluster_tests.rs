use clustered_shading::cluster::CameraArrangement;
use clustered_shading::cluster::ClusterComputed;
use clustered_shading::cluster::Dimensions;
use clustered_shading::cluster::FitError;
use clustered_shading::cluster::FrameDims;
use clustered_shading::cluster::PIXELS_PER_CLUSTER;
use clustered_shading::cluster::ceiled_div;
use clustered_shading::cluster::clamp_dimension;
use clustered_shading::cluster::monocular_grid_xy;
use clustered_shading::cluster::perspective_camera_arrangement;

#[test]
fn monocular_sizing_full_hd() {
    let (x, y) = monocular_grid_xy(FrameDims { x: 1920, y: 1080 });
    assert_eq!(x, 30);
    assert_eq!(y, 17);
}

#[test]
fn monocular_sizing_rounds_partial_tiles_up() {
    let (x, y) = monocular_grid_xy(FrameDims { x: 65, y: 64 });
    assert_eq!(x, 2);
    assert_eq!(y, 1);
    let (x, y) = monocular_grid_xy(FrameDims { x: 1, y: 63 });
    assert_eq!(x, 1);
    assert_eq!(y, 1);
}

#[test]
fn monocular_sizing_empty_frame() {
    let (x, y) = monocular_grid_xy(FrameDims { x: 0, y: 0 });
    assert_eq!(x, 0);
    assert_eq!(y, 0);
}

#[test]
fn pixels_per_cluster_is_a_64_pixel_tile() {
    assert_eq!(PIXELS_PER_CLUSTER, 64);
}

#[test]
fn ceiled_div_exact_values() {
    assert_eq!(ceiled_div(0, 64), 0);
    assert_eq!(ceiled_div(1, 64), 1);
    assert_eq!(ceiled_div(64, 64), 1);
    assert_eq!(ceiled_div(65, 64), 2);
    assert_eq!(ceiled_div(u32::MAX, 1), u32::MAX);
    assert_eq!(ceiled_div(u32::MAX, u32::MAX), 1);
}

#[test]
fn clamp_keeps_dimensions_in_bounds() {
    assert_eq!(clamp_dimension(0), 1);
    assert_eq!(clamp_dimension(1), 1);
    assert_eq!(clamp_dimension(30), 30);
    assert_eq!(clamp_dimension(1000), 1000);
    assert_eq!(clamp_dimension(1001), 1000);
    assert_eq!(clamp_dimension(u32::MAX), 1000);
}

#[test]
fn clamped_dimensions_componentwise() {
    let d = Dimensions { x: 0, y: 400, z: 5000 }.clamped();
    assert_eq!(d, Dimensions { x: 1, y: 400, z: 1000 });
}

#[test]
fn cluster_count_is_the_product() {
    let c = ClusterComputed { dimensions: Dimensions { x: 30, y: 17, z: 12 } };
    assert_eq!(c.cluster_count(), 30 * 17 * 12);
    let max = ClusterComputed { dimensions: Dimensions { x: 1000, y: 1000, z: 1000 } };
    assert_eq!(max.cluster_count(), 1_000_000_000);
}

#[test]
fn default_computed_is_zero() {
    let c: ClusterComputed = Default::default();
    assert_eq!(c.dimensions, Dimensions { x: 0, y: 0, z: 0 });
    assert_eq!(c.cluster_count(), 0);
}

#[test]
fn one_camera_is_monocular() {
    assert_eq!(perspective_camera_arrangement(1), Ok(CameraArrangement::Monocular));
}

#[test]
fn two_cameras_are_stereo() {
    assert_eq!(perspective_camera_arrangement(2), Ok(CameraArrangement::Stereo));
}

#[test]
fn three_cameras_are_fatal() {
    assert_eq!(perspective_camera_arrangement(3), Err(FitError::TooManyCameras));
}

#[test]
fn zero_cameras_are_fatal_too() {
    assert_eq!(perspective_camera_arrangement(0), Err(FitError::TooManyCameras));
    assert_eq!(perspective_camera_arrangement(17), Err(FitError::TooManyCameras));
}

#[test]
fn fatal_messages() {
    assert_eq!(
        FitError::TooManyCameras.message(),
        "Too many cameras for enclosed perspective clustering."
    );
    assert_eq!(FitError::NonSquarePitch.message(), "Non-square cluster pixel pitch.");
}
