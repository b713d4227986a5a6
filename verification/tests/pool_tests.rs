use clustered_shading::cluster::ClusterCameraResources;
use clustered_shading::cluster::FrameDims;
use clustered_shading::pool::FramePool;
use clustered_shading::pool::Ring3;

fn camera(w: u32, h: u32) -> ClusterCameraResources {
    ClusterCameraResources { frame_dims: FrameDims { x: w, y: h } }
}

#[test]
fn fresh_pool_is_empty() {
    let p: FramePool<ClusterCameraResources> = FramePool::new();
    assert_eq!(p.len(), 0);
    assert!(p.used_slice().is_empty());
}

#[test]
fn acquire_returns_ascending_stable_indices() {
    let mut p: FramePool<ClusterCameraResources> = FramePool::new();
    let a = p.acquire(camera(1920, 1080));
    let b = p.acquire(camera(1280, 720));
    assert_eq!(a, 0);
    assert_eq!(b, 1);
    assert_eq!(*p.get(a), camera(1920, 1080));
    assert_eq!(*p.get(b), camera(1280, 720));
}

#[test]
fn used_slice_lists_occupied_slots_in_order() {
    let mut p: FramePool<ClusterCameraResources> = FramePool::new();
    p.acquire(camera(1, 2));
    p.acquire(camera(3, 4));
    let used = p.used_slice();
    assert_eq!(used, &[camera(1, 2), camera(3, 4)]);
}

#[test]
fn reset_empties_a_pool_of_one() {
    let mut p: FramePool<ClusterCameraResources> = FramePool::new();
    p.acquire(camera(1920, 1080));
    assert_eq!(p.len(), 1);
    p.reset();
    assert_eq!(p.len(), 0);
    assert!(p.used_slice().is_empty());
}

#[test]
fn reset_empties_a_pool_of_two() {
    let mut p: FramePool<ClusterCameraResources> = FramePool::new();
    p.acquire(camera(1920, 1080));
    p.acquire(camera(1920, 1080));
    p.reset();
    assert!(p.used_slice().is_empty());
}

#[test]
fn slots_are_reused_after_reset() {
    let mut p: FramePool<ClusterCameraResources> = FramePool::new();
    p.acquire(camera(1, 1));
    p.acquire(camera(2, 2));
    p.reset();
    let a = p.acquire(camera(9, 9));
    assert_eq!(a, 0);
    assert_eq!(p.len(), 1);
    assert_eq!(*p.get(0), camera(9, 9));
}

#[test]
fn ring3_wraps_every_three() {
    let r = Ring3::new([10u32, 20, 30]);
    assert_eq!(*r.index(0), 10);
    assert_eq!(*r.index(1), 20);
    assert_eq!(*r.index(2), 30);
    assert_eq!(*r.index(3), 10);
    assert_eq!(*r.index(7), 20);
}

#[test]
fn ring3_set_replaces_the_wrapped_slot() {
    let mut r = Ring3::new([0u32, 0, 0]);
    r.set(4, 99);
    assert_eq!(*r.index(1), 99);
    assert_eq!(*r.index(4), 99);
    assert_eq!(*r.index(0), 0);
}
