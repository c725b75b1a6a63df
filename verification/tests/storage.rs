use mybox::lifecycle::judge_allocation;
use mybox::lifecycle::AllocVerdict;
use mybox::lifecycle::StorageHandle;
use mybox::plan::plan_storage;
use mybox::plan::StoragePlan;
use mybox::MyBox;

#[test]
fn plan_request_for_plain_integer() {
    match plan_storage::<u64>() {
        StoragePlan::Request { size, align } => {
            assert_eq!(size, core::mem::size_of::<u64>());
            assert!(align >= core::mem::align_of::<u64>());
            assert!(align >= core::mem::size_of::<usize>());
            assert!(align.is_power_of_two());
            assert_eq!(align % core::mem::size_of::<usize>(), 0);
        }
        StoragePlan::Sentinel { .. } => panic!("a non-zero-sized payload must be allocated"),
    }
}

#[test]
fn plan_sentinel_for_zero_sized() {
    match plan_storage::<()>() {
        StoragePlan::Sentinel { addr } => {
            assert_eq!(addr, core::mem::align_of::<()>());
            assert_ne!(addr, 0);
        }
        StoragePlan::Request { .. } => panic!("a zero-sized payload must not be allocated"),
    }
}

#[test]
fn plan_alignment_floor_for_over_aligned_payload() {
    // On this target u128's natural alignment exceeds the pointer size, so
    // the request must carry the natural alignment, not the pointer floor.
    assert!(core::mem::align_of::<u128>() > core::mem::size_of::<usize>());
    match plan_storage::<u128>() {
        StoragePlan::Request { size, align } => {
            assert_eq!(size, core::mem::size_of::<u128>());
            assert_eq!(align, core::mem::align_of::<u128>());
            assert!(align >= core::mem::size_of::<usize>());
        }
        StoragePlan::Sentinel { .. } => panic!("a non-zero-sized payload must be allocated"),
    }
}

#[test]
fn plan_alignment_floor_for_under_aligned_payload() {
    // u8's natural alignment is below the pointer size, so the floor wins.
    match plan_storage::<u8>() {
        StoragePlan::Request { size, align } => {
            assert_eq!(size, 1);
            assert_eq!(align, core::mem::size_of::<usize>());
        }
        StoragePlan::Sentinel { .. } => panic!("a non-zero-sized payload must be allocated"),
    }
}

#[test]
fn judge_allocation_verdicts() {
    assert!(matches!(judge_allocation(0, 0x1000), AllocVerdict::Proceed));
    assert!(matches!(judge_allocation(12, 0x1000), AllocVerdict::Fatal));
    assert!(matches!(judge_allocation(0, 0), AllocVerdict::Fatal));
    assert!(matches!(judge_allocation(-1, 0), AllocVerdict::Fatal));
}

#[test]
fn allocated_handle_releases_its_address() {
    let h = StorageHandle::from_allocation(0x2000);
    assert_eq!(h.address_value(), 0x2000);
    assert_eq!(h.release(), Some(0x2000));
}

#[test]
fn sentinel_handle_releases_nothing() {
    let h = StorageHandle::sentinel(16);
    assert_eq!(h.address_value(), 16);
    assert_eq!(h.release(), None);
}

#[test]
fn concrete_integer_lifecycle() {
    // Construct(4) reads back 4; writing 20 through the mutable view reads
    // back 20; ending the lifecycle releases exactly the one allocated block.
    let mut b = MyBox::new(4);
    assert_eq!(*b.deref(), 4);
    *b.deref_mut() = 20;
    assert_eq!(*b.deref(), 20);

    let h = StorageHandle::from_allocation(4096);
    assert_eq!(h.release(), Some(4096));
}

#[test]
fn zero_sized_lifecycle() {
    // A zero-sized payload round-trips through the box while its whole
    // lifecycle makes no allocation request and releases nothing.
    let b = MyBox::new(());
    assert_eq!(*b.deref(), ());

    assert!(matches!(plan_storage::<()>(), StoragePlan::Sentinel { .. }));
    let h = StorageHandle::sentinel(core::mem::align_of::<()>());
    assert_eq!(h.release(), None);
}
