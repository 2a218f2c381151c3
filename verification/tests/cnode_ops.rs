use ferros::cap::wrap_untyped;
use ferros::cap::Cap;
use ferros::cnode::retype_cnode;
use ferros::cnode::CNode;
use ferros::cnode::CNodeSlots;
use ferros::error::CapOpError;
use ferros::error::SeL4Error;
use ferros::kernel::Kernel;
use ferros::kernel::KernelMode;
use ferros::kernel::KernelObject;
use ferros::kernel::RetypeTarget;
use ferros::kernel::KERNEL_INVALID_CAPABILITY;
use ferros::kernel::KERNEL_RANGE_ERROR;

#[test]
fn retype_cnode_from_12_bit_region() {
    let mut k = Kernel::new(KernelMode::Normal);
    let mut slots = CNodeSlots::new(0, 16);
    // A capability table of 2^8 slots of 2^4 bytes needs exactly 2^12
    // bytes.
    let ut12 = wrap_untyped(&mut k, 12);
    let source_cptr = ut12.cptr;
    let (cnode, view) = retype_cnode(ut12, 8, &mut slots, &mut k).unwrap();
    assert_eq!(cnode.cap_data.radix, 8);
    // The fresh slot-allocator view has zero slots occupied.
    assert_eq!(view.used, 0);
    assert_eq!(view.total, 255);
    // Retyping the same region again fails with a kernel rejection: the
    // region was consumed.
    let status = k.untyped_retype(source_cptr, RetypeTarget::TargetCNode { radix: 8 }, 1);
    assert_eq!(status, KERNEL_INVALID_CAPABILITY);
}

#[test]
fn retype_cnode_too_large_for_region() {
    let mut k = Kernel::new(KernelMode::Normal);
    let mut slots = CNodeSlots::new(0, 16);
    // radix 12 would need 2^16 bytes; the region has 2^12.
    let ut12 = wrap_untyped(&mut k, 12);
    match retype_cnode(ut12, 12, &mut slots, &mut k) {
        Ok(_) => panic!("an oversized capability table must be rejected"),
        Err((e, back)) => {
            assert_eq!(
                e,
                CapOpError::KernelRejection(SeL4Error::UntypedRetype(KERNEL_RANGE_ERROR))
            );
            assert_eq!(back.size_bits(), 12);
        }
    }
    assert_eq!(slots.used, 0);
}

#[test]
fn cnode_new_stamps_the_guard_word() {
    let mut k = Kernel::new(KernelMode::Normal);
    let mut slots = CNodeSlots::new(0, 16);
    let ut = wrap_untyped(&mut k, 16);
    let cnode = Cap::<CNode>::new(ut, 3, 12, &mut slots, &mut k).unwrap();
    // Guard value 3, guard size 64 - 12 = 52 bits, packed as
    // (guard << 6) | size.
    match k.objects[cnode.cptr] {
        KernelObject::CNodeObj { radix, guard, live } => {
            assert_eq!(radix, 12);
            assert_eq!(guard, (3 << 6) | 52);
            assert!(live);
        }
        ref other => panic!("expected a capability-table object, got {:?}", other),
    }
    // Creation took the scratch slot and the destination slot.
    assert_eq!(slots.used, 2);
}

#[test]
fn cnode_new_without_slots_fails_before_the_kernel() {
    let mut k = Kernel::new(KernelMode::Normal);
    let mut slots = CNodeSlots::new(0, 1);
    let ut = wrap_untyped(&mut k, 16);
    let cptr = ut.cptr;
    match Cap::<CNode>::new(ut, 0, 12, &mut slots, &mut k) {
        Ok(_) => panic!("one free slot is not enough"),
        Err((e, back)) => {
            assert_eq!(e, CapOpError::SlotsExhausted);
            assert_eq!(back.cptr, cptr);
        }
    }
    assert!(k.untyped_is_live(cptr));
}

#[test]
fn slot_views_hand_out_offsets_in_order() {
    let mut slots = CNodeSlots::new(7, 2);
    let first = slots.next_slot().unwrap();
    assert_eq!(first.cnode_cptr, 7);
    assert_eq!(first.offset, 0);
    let second = slots.next_slot().unwrap();
    assert_eq!(second.offset, 1);
    match slots.next_slot() {
        Err(CapOpError::SlotsExhausted) => {}
        other => panic!("expected exhaustion, got {:?}", other),
    }
}
