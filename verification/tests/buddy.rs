use ferros::cap::wrap_untyped;
use ferros::cnode::CNodeSlots;
use ferros::error::CapOpError;
use ferros::kernel::Kernel;
use ferros::kernel::KernelMode;
use ferros::kernel::RetypeTarget;
use ferros::kernel::KERNEL_INVALID_CAPABILITY;
use ferros::kernel::KERNEL_OK;
use ferros::micro_alloc::Allocator;

#[test]
fn split_18_three_times() {
    let mut k = Kernel::new(KernelMode::Normal);
    let mut slots = CNodeSlots::new(0, 64);
    let ut18 = wrap_untyped(&mut k, 18);
    let (ut17, sibling17) = ut18.split(&mut slots, &mut k).unwrap();
    assert_eq!(ut17.size_bits(), 17);
    assert_eq!(sibling17.size_bits(), 17);
    let (ut16, sibling16) = ut17.split(&mut slots, &mut k).unwrap();
    assert_eq!(ut16.size_bits(), 16);
    assert_eq!(sibling16.size_bits(), 16);
    let (ut15, sibling15) = ut16.split(&mut slots, &mut k).unwrap();
    assert_eq!(ut15.size_bits(), 15);
    assert_eq!(sibling15.size_bits(), 15);
}

#[test]
fn quarter_20_gives_four_18s() {
    let mut k = Kernel::new(KernelMode::Normal);
    let mut slots = CNodeSlots::new(0, 64);
    let ut20 = wrap_untyped(&mut k, 20);
    let (a, b, c, d) = ut20.quarter(&mut slots, &mut k).unwrap();
    assert_eq!(a.size_bits(), 18);
    assert_eq!(b.size_bits(), 18);
    assert_eq!(c.size_bits(), 18);
    assert_eq!(d.size_bits(), 18);
}

#[test]
fn split_conserves_total_size() {
    let mut k = Kernel::new(KernelMode::Normal);
    let mut slots = CNodeSlots::new(0, 64);
    let ut = wrap_untyped(&mut k, 10);
    let parent_bytes = 1u64 << ut.size_bits();
    let (a, b) = ut.split(&mut slots, &mut k).unwrap();
    assert_eq!((1u64 << a.size_bits()) + (1u64 << b.size_bits()), parent_bytes);
}

#[test]
fn quarter_conserves_total_size() {
    let mut k = Kernel::new(KernelMode::Normal);
    let mut slots = CNodeSlots::new(0, 64);
    let ut = wrap_untyped(&mut k, 9);
    let parent_bytes = 1u64 << ut.size_bits();
    let (a, b, c, d) = ut.quarter(&mut slots, &mut k).unwrap();
    let total = (1u64 << a.size_bits())
        + (1u64 << b.size_bits())
        + (1u64 << c.size_bits())
        + (1u64 << d.size_bits());
    assert_eq!(total, parent_bytes);
}

#[test]
fn consumed_parent_is_dead_and_rejected() {
    let mut k = Kernel::new(KernelMode::Normal);
    let mut slots = CNodeSlots::new(0, 64);
    let ut = wrap_untyped(&mut k, 12);
    let parent_cptr = ut.cptr;
    assert!(k.untyped_is_live(parent_cptr));
    let _children = ut.split(&mut slots, &mut k).unwrap();
    // The used-value probe fails deterministically once the value is
    // consumed, and any further retype of it is rejected by the kernel.
    assert!(!k.untyped_is_live(parent_cptr));
    let status = k.untyped_retype(parent_cptr, RetypeTarget::TargetUntyped { size_bits: 11 }, 2);
    assert_eq!(status, KERNEL_INVALID_CAPABILITY);
}

#[test]
fn split_without_slots_consumes_nothing() {
    let mut k = Kernel::new(KernelMode::Normal);
    let mut slots = CNodeSlots::new(0, 1);
    let ut = wrap_untyped(&mut k, 12);
    let cptr = ut.cptr;
    match ut.split(&mut slots, &mut k) {
        Ok(_) => panic!("split without two slots should fail"),
        Err((e, back)) => {
            assert_eq!(e, CapOpError::SlotsExhausted);
            assert_eq!(back.cptr, cptr);
            assert_eq!(back.size_bits(), 12);
        }
    }
    // Exhaustion is detected before any kernel call: the region is live.
    assert!(k.untyped_is_live(cptr));
    assert_eq!(slots.used, 0);
}

#[test]
fn split_of_zero_bit_region_is_unexpressible_but_quarter_needs_two() {
    let mut k = Kernel::new(KernelMode::Normal);
    let mut slots = CNodeSlots::new(0, 8);
    // A region of 2^2 bytes quarters into four single-byte regions.
    let ut = wrap_untyped(&mut k, 2);
    let (a, _, _, d) = ut.quarter(&mut slots, &mut k).unwrap();
    assert_eq!(a.size_bits(), 0);
    assert_eq!(d.size_bits(), 0);
}

#[test]
fn allocator_hands_out_each_region_once() {
    let mut k = Kernel::new(KernelMode::Normal);
    let grant = vec![
        wrap_untyped(&mut k, 20),
        wrap_untyped(&mut k, 18),
        wrap_untyped(&mut k, 20),
    ];
    let mut alloc20 = Allocator::bootstrap(grant);
    let first = alloc20.get_untyped(20).expect("a 20-bit region is stocked");
    assert_eq!(first.size_bits(), 20);
    let second = alloc20.get_untyped(20).expect("a second 20-bit region is stocked");
    assert_eq!(second.size_bits(), 20);
    assert_ne!(first.cptr, second.cptr);
    assert!(alloc20.get_untyped(20).is_none());
    assert!(alloc20.get_untyped(19).is_none());
    assert_eq!(alloc20.get_untyped(18).expect("the 18-bit region").size_bits(), 18);
}

#[test]
fn kernel_retype_status_values() {
    let mut k = Kernel::new(KernelMode::Normal);
    let ut = wrap_untyped(&mut k, 12);
    // Children larger than the source are out of range.
    let status = k.untyped_retype(ut.cptr, RetypeTarget::TargetUntyped { size_bits: 13 }, 1);
    assert_ne!(status, KERNEL_OK);
    // An exact fit of four quarters is accepted.
    let status = k.untyped_retype(ut.cptr, RetypeTarget::TargetUntyped { size_bits: 10 }, 4);
    assert_eq!(status, KERNEL_OK);
}
