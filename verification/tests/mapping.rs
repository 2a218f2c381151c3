use ferros::arch;
use ferros::cap::wrap_untyped;
use ferros::cap::Cap;
use ferros::cnode::CNodeSlots;
use ferros::granule::retype_granule;
use ferros::granule::Mapped;
use ferros::kernel::Kernel;
use ferros::kernel::KernelMode;
use ferros::vspace::CapRights;
use ferros::vspace::MappingError;
use ferros::vspace::PagingChain;
use ferros::vspace::PagingLevel;
use ferros::vspace::VSpace;

/// A three-level translation chain over 4 KiB pages: a root, a level-1
/// directory and a level-2 table, every structure one page.
fn three_level_chain() -> PagingChain {
    PagingChain {
        levels: vec![
            PagingLevel { index_bits: 9, structure_size_bits: 12 },
            PagingLevel { index_bits: 9, structure_size_bits: 12 },
            PagingLevel { index_bits: 9, structure_size_bits: 12 },
        ],
        page_bits: 12,
    }
}

fn fresh_space(k: &mut Kernel) -> VSpace {
    let slots = CNodeSlots::new(0, 64);
    let root_ut = wrap_untyped(k, 12);
    let mut vs = VSpace::new(root_ut, three_level_chain(), 0x4000_0000, slots, k).unwrap();
    let l1 = wrap_untyped(k, 12);
    vs.provide_table_untyped(1, l1).unwrap();
    let l2 = wrap_untyped(k, 12);
    vs.provide_table_untyped(2, l2).unwrap();
    vs
}

#[test]
fn two_missing_levels_take_exactly_two_fixups() {
    let mut k = Kernel::new(KernelMode::Normal);
    let mut vs = fresh_space(&mut k);
    let mut slots = CNodeSlots::new(0, 8);
    let page_ut = wrap_untyped(&mut k, 12);
    let page = retype_granule(page_ut, arch::aarch64::SMALL_PAGE_TYPE_ID, &mut slots, &mut k)
        .unwrap();
    let vaddr = 0x4000_2000;
    assert_eq!(vs.fixup_count, 0);
    let mapped = vs.map_granule_at(page, vaddr, CapRights::RW, 0, &mut k).unwrap();
    // Both intermediate tables were absent: exactly two fix-ups.
    assert_eq!(vs.fixup_count, 2);
    assert_eq!(mapped.cap_data.state, Mapped { vaddr: 0x4000_2000, asid: vs.asid });
}

#[test]
fn present_intermediates_need_no_fixups() {
    let mut k = Kernel::new(KernelMode::Normal);
    let mut vs = fresh_space(&mut k);
    let mut slots = CNodeSlots::new(0, 8);
    let first_ut = wrap_untyped(&mut k, 12);
    let first = retype_granule(first_ut, arch::aarch64::SMALL_PAGE_TYPE_ID, &mut slots, &mut k)
        .unwrap();
    vs.map_granule_at(first, 0x4000_0000, CapRights::RW, 0, &mut k).unwrap();
    let after_first = vs.fixup_count;
    // A second page under the same tables maps without any fix-up.
    let second_ut = wrap_untyped(&mut k, 12);
    let second = retype_granule(second_ut, arch::aarch64::SMALL_PAGE_TYPE_ID, &mut slots, &mut k)
        .unwrap();
    vs.map_granule_at(second, 0x4000_1000, CapRights::RW, 0, &mut k).unwrap();
    assert_eq!(vs.fixup_count, after_first);
}

#[test]
fn always_missing_kernel_terminates_with_error() {
    let mut k = Kernel::new(KernelMode::AlwaysMissing);
    // Build the space under a well-behaved kernel, then switch modes.
    let mut normal = Kernel::new(KernelMode::Normal);
    let mut vs = fresh_space(&mut normal);
    let mut slots = CNodeSlots::new(0, 8);
    let page_ut = wrap_untyped(&mut normal, 12);
    let page = retype_granule(page_ut, arch::aarch64::SMALL_PAGE_TYPE_ID, &mut slots, &mut normal)
        .unwrap();
    // Replay the object table into the fault-injecting collaborator so
    // the capabilities stay meaningful.
    k.objects = normal.objects.clone();
    k.space_count = normal.space_count;
    let before = vs.fixup_count;
    match vs.map_granule_at(page, 0x4000_2000, CapRights::RW, 0, &mut k) {
        Ok(_) => panic!("a collaborator that always reports missing structure cannot succeed"),
        Err((e, back)) => {
            assert_eq!(e, MappingError::Overflow);
            assert_eq!(back.cap_data.size_bits, 12);
        }
    }
    // Bounded retry: for a chain of depth d the walk performs at most
    // d - 1 fix-ups before giving up, rather than looping.
    assert!(vs.fixup_count - before <= 2);
}

#[test]
fn double_mapping_the_same_address_is_rejected() {
    let mut k = Kernel::new(KernelMode::Normal);
    let mut vs = fresh_space(&mut k);
    let mut slots = CNodeSlots::new(0, 8);
    let first_ut = wrap_untyped(&mut k, 12);
    let first = retype_granule(first_ut, arch::aarch64::SMALL_PAGE_TYPE_ID, &mut slots, &mut k)
        .unwrap();
    vs.map_granule_at(first, 0x4000_3000, CapRights::RW, 0, &mut k).unwrap();
    let second_ut = wrap_untyped(&mut k, 12);
    let second = retype_granule(second_ut, arch::aarch64::SMALL_PAGE_TYPE_ID, &mut slots, &mut k)
        .unwrap();
    match vs.map_granule_at(second, 0x4000_3000, CapRights::RW, 0, &mut k) {
        Ok(_) => panic!("the prefix is already occupied"),
        Err((e, _back)) => match e {
            MappingError::PageMapFailure(_) => {}
            other => panic!("expected a fatal leaf failure, got {:?}", other),
        },
    }
}

#[test]
fn empty_supply_yields_retyping_error() {
    let mut k = Kernel::new(KernelMode::Normal);
    let slots = CNodeSlots::new(0, 64);
    let root_ut = wrap_untyped(&mut k, 12);
    // No intermediate supply is stocked at all.
    let mut vs = VSpace::new(root_ut, three_level_chain(), 0, slots, &mut k).unwrap();
    let mut gslots = CNodeSlots::new(0, 8);
    let page_ut = wrap_untyped(&mut k, 12);
    let page = retype_granule(page_ut, arch::aarch64::SMALL_PAGE_TYPE_ID, &mut gslots, &mut k)
        .unwrap();
    match vs.map_granule_at(page, 0x1000, CapRights::RW, 0, &mut k) {
        Ok(_) => panic!("no supply, no intermediate table, no mapping"),
        Err((e, _back)) => assert_eq!(e, MappingError::RetypingError),
    }
}

#[test]
fn map_page_advances_the_cursor() {
    let mut k = Kernel::new(KernelMode::Normal);
    let mut vs = fresh_space(&mut k);
    let mut slots = CNodeSlots::new(0, 8);
    let page_ut = wrap_untyped(&mut k, 12);
    let page = retype_granule(page_ut, arch::aarch64::SMALL_PAGE_TYPE_ID, &mut slots, &mut k)
        .unwrap();
    let before = vs.next_page;
    let mapped = vs.map_page(page, CapRights::RW, 0, &mut k).unwrap();
    assert_eq!(vs.next_page, before + (1 << 12));
    assert_eq!(mapped.cap_data.state, Mapped { vaddr: before, asid: vs.asid });
}

#[test]
fn page_global_directory_masks_the_address() {
    let mut k = Kernel::new(KernelMode::Normal);
    let slots = CNodeSlots::new(0, 64);
    let root_ut = wrap_untyped(&mut k, 12);
    let vs = VSpace::new(root_ut, arch::aarch64::paging_chain(), 0, slots, &mut k).unwrap();
    // Conjure a level-1 structure the way the supply would.
    let upper_ut = wrap_untyped(&mut k, 12);
    let status = k.untyped_retype(
        upper_ut.cptr,
        ferros::kernel::RetypeTarget::TargetStructure { level: 1, size_bits: 12 },
        1,
    );
    assert_eq!(status, ferros::kernel::KERNEL_OK);
    let upper = Cap { cptr: k.objects.len() - 1, cap_data: arch::aarch64::PageUpperDirectory {} };
    let mut pgd = arch::aarch64::PageGlobalDirectory {};
    let addr = (5u64 << 39) | 0x1234;
    pgd.map_granule(&upper, addr, vs.asid, CapRights::RW, &mut k).unwrap();
    let last = k.tables[k.tables.len() - 1];
    assert_eq!(last.level, 1);
    assert_eq!(last.prefix, 5u64 << 39);
    assert_eq!(arch::aarch64::gd_mask(), 0x1ffu64 << 39);
}

#[test]
fn arm_chain_shape() {
    let chain = arch::arm::paging_chain();
    assert_eq!(chain.levels.len(), 2);
    assert_eq!(chain.page_bits, 12);
    assert_eq!(chain.levels[0].structure_size_bits, 14);
    assert_eq!(chain.levels[1].structure_size_bits, 10);
    // Page tables decode bits 12..20, the directory bits 20..32.
    assert_eq!(chain.low_bits(1), 12);
    assert_eq!(chain.low_bits(0), 20);
}

#[test]
fn aarch64_chain_low_bits() {
    let chain = arch::aarch64::paging_chain();
    assert_eq!(chain.low_bits(3), 12);
    assert_eq!(chain.low_bits(2), 21);
    assert_eq!(chain.low_bits(1), 30);
    assert_eq!(chain.low_bits(0), 39);
}

#[test]
fn vspace_new_rejects_an_undersized_region() {
    let mut k = Kernel::new(KernelMode::Normal);
    let slots = CNodeSlots::new(0, 64);
    // The arm root directory needs 2^14 bytes; the region has 2^12.
    let small_ut = wrap_untyped(&mut k, 12);
    let cptr = small_ut.cptr;
    match VSpace::new(small_ut, arch::arm::paging_chain(), 0, slots, &mut k) {
        Ok(_) => panic!("the root structure cannot fit"),
        Err((e, back, back_slots)) => {
            assert!(matches!(e, ferros::error::CapOpError::KernelRejection(_)));
            assert_eq!(back.cptr, cptr);
            assert_eq!(back_slots.used, 0);
        }
    }
    // Nothing was consumed.
    assert!(k.untyped_is_live(cptr));
    assert_eq!(k.space_count, 0);
}

#[test]
fn supply_rejects_wrong_sizes_and_aliases() {
    let mut k = Kernel::new(KernelMode::Normal);
    let slots = CNodeSlots::new(0, 64);
    let root_ut = wrap_untyped(&mut k, 12);
    let mut vs = VSpace::new(root_ut, three_level_chain(), 0, slots, &mut k).unwrap();
    // Wrong size for the level.
    let wrong = wrap_untyped(&mut k, 13);
    assert!(vs.provide_table_untyped(1, wrong).is_err());
    // Level 0 is the root; it is never provided from the supply.
    let for_root = wrap_untyped(&mut k, 12);
    assert!(vs.provide_table_untyped(0, for_root).is_err());
    // A region aliasing an already stocked one is refused.
    let good = wrap_untyped(&mut k, 12);
    let alias_cptr = good.cptr;
    assert!(vs.provide_table_untyped(1, good).is_ok());
    let alias = Cap { cptr: alias_cptr, cap_data: ferros::cap::Untyped { size_bits: 12 } };
    assert!(vs.provide_table_untyped(2, alias).is_err());
}

#[test]
fn installing_a_non_structure_is_an_intermediate_layer_failure() {
    let mut k = Kernel::new(KernelMode::Normal);
    let slots = CNodeSlots::new(0, 64);
    let root_ut = wrap_untyped(&mut k, 12);
    let vs = VSpace::new(root_ut, arch::aarch64::paging_chain(), 0, slots, &mut k).unwrap();
    // A capability that refers to a live untyped region, not an upper
    // directory.
    let impostor_ut = wrap_untyped(&mut k, 12);
    let impostor = Cap { cptr: impostor_ut.cptr, cap_data: arch::aarch64::PageUpperDirectory {} };
    let mut pgd = arch::aarch64::PageGlobalDirectory {};
    match pgd.map_granule(&impostor, 0, vs.asid, CapRights::RW, &mut k) {
        Ok(_) => panic!("the kernel cannot install a non-structure"),
        Err(MappingError::IntermediateLayerFailure(_)) => {}
        Err(other) => panic!("expected an intermediate-layer failure, got {:?}", other),
    }
}
