use clustered_shading::buffer::DynamicBuffer;
use clustered_shading::buffer::StorageBufferKind;
use clustered_shading::buffer::StorageBufferKindWO;
use clustered_shading::buffer::StorageBufferWO;
use clustered_shading::buffer::StorageReconcileAction;
use clustered_shading::buffer::Variant;
use clustered_shading::buffer::make_mult_64_usize;

#[test]
fn fresh_buffer_reserves_nothing() {
    let b: DynamicBuffer = DynamicBuffer::new();
    assert_eq!(b.byte_capacity(), 0);
    assert!(!b.invalidate());
}

#[test]
fn first_growth_is_the_request_rounded_to_16() {
    let mut b: DynamicBuffer = DynamicBuffer::new();
    let r = b.ensure_capacity(100);
    assert_eq!(r, Some(112));
    assert_eq!(b.byte_capacity(), 112);
    assert!(b.invalidate());
}

#[test]
fn covered_request_is_a_no_op() {
    let mut b: DynamicBuffer = DynamicBuffer::new();
    b.ensure_capacity(100);
    let r = b.ensure_capacity(50);
    assert_eq!(r, None);
    assert_eq!(b.byte_capacity(), 112);
    let r = b.ensure_capacity(112);
    assert_eq!(r, None);
    assert_eq!(b.byte_capacity(), 112);
}

#[test]
fn small_overrun_grows_by_half() {
    let mut b: DynamicBuffer = DynamicBuffer::new();
    b.ensure_capacity(100);
    // 113 is above 112 but under 112 + 56, so capacity goes to 168,
    // rounded up to 176.
    let r = b.ensure_capacity(113);
    assert_eq!(r, Some(176));
    assert_eq!(b.byte_capacity(), 176);
}

#[test]
fn large_request_wins_over_half_growth() {
    let mut b: DynamicBuffer = DynamicBuffer::new();
    b.ensure_capacity(100);
    let r = b.ensure_capacity(1000);
    assert_eq!(r, Some(1008));
    assert_eq!(b.byte_capacity(), 1008);
}

#[test]
fn capacity_never_decreases() {
    let mut b: DynamicBuffer = DynamicBuffer::new();
    let mut last = 0;
    let requests = [10usize, 5, 300, 20, 301, 4096, 1];
    for &req in requests.iter() {
        b.ensure_capacity(req);
        assert!(b.byte_capacity() >= last);
        assert!(b.byte_capacity() >= req);
        last = b.byte_capacity();
    }
}

#[test]
fn make_mult_64_values() {
    assert_eq!(make_mult_64_usize(0), 0);
    assert_eq!(make_mult_64_usize(1), 64);
    assert_eq!(make_mult_64_usize(64), 64);
    assert_eq!(make_mult_64_usize(65), 128);
    assert_eq!(make_mult_64_usize(1000), 1024);
}

#[test]
fn storage_first_reservation() {
    let mut s: StorageBufferWO = StorageBufferWO::new();
    assert_eq!(s.capacity(), 0);
    let a = s.reconcile(100);
    assert_eq!(a, StorageReconcileAction::Resize { recreate: false, reserve: 128 });
    assert_eq!(s.capacity(), 128);
}

#[test]
fn storage_covered_request_only_invalidates() {
    let mut s: StorageBufferWO = StorageBufferWO::new();
    s.reconcile(100);
    let a = s.reconcile(100);
    assert_eq!(a, StorageReconcileAction::Keep { invalidate: true });
    assert_eq!(s.capacity(), 128);
    // Just under the shrink threshold: 90 + 45 >= 128 keeps the storage.
    let a = s.reconcile(90);
    assert_eq!(a, StorageReconcileAction::Keep { invalidate: true });
    assert_eq!(s.capacity(), 128);
}

#[test]
fn storage_shrinks_to_the_request() {
    let mut s: StorageBufferWO = StorageBufferWO::new();
    s.reconcile(1000);
    assert_eq!(s.capacity(), 1024);
    let a = s.reconcile(100);
    assert_eq!(a, StorageReconcileAction::Resize { recreate: true, reserve: 128 });
    assert_eq!(s.capacity(), 128);
}

#[test]
fn storage_empty_reconcile_does_nothing() {
    let mut s: StorageBufferWO = StorageBufferWO::new();
    let a = s.reconcile(0);
    assert_eq!(a, StorageReconcileAction::Keep { invalidate: false });
    assert_eq!(s.capacity(), 0);
}

#[test]
fn usage_codes_match_the_device_api() {
    assert_eq!(
        clustered_shading::buffer::Static::value(),
        0x88E4
    );
    assert_eq!(
        clustered_shading::buffer::Dynamic::value(),
        0x88E8
    );
    assert_eq!(
        clustered_shading::buffer::Stream::value(),
        0x88E0
    );
}

#[test]
fn write_only_storage_flags() {
    assert_eq!(StorageBufferKindWO::create_flags(), 0x0102);
}
