//! aarch64 configuration: a four-level translation chain (page global
//! directory, page upper directory, page directory, page table) over
//! 4 KiB pages within a 48-bit virtual address, and three granule tiers —
//! huge page (1 GiB), large page (2 MiB), small page (4 KiB).

use vstd::prelude::*;

verus! {

use crate::cap::Cap;
use crate::cap::CapType;
use crate::cap::DirectRetype;
use crate::cap::PhantomCap;
use crate::error::SeL4Error;
use crate::granule::valid_tiers;
use crate::kernel::Kernel;
use crate::kernel::InstalledTable;
use crate::kernel::KERNEL_OK;
use crate::vspace::CapRights;
use crate::vspace::MappingError;
use crate::vspace::PagingChain;
use crate::vspace::PagingLevel;
use crate::vspace::suffix_index_bits;

/// log2 bytes of a small page, the leaf granule.
pub const PAGE_BITS: u8 = 12;

/// Address bits decoded by the page global directory, the root level.
pub const PAGE_GLOBAL_DIR_INDEX_BITS: u8 = 9;

/// Address bits decoded by a page upper directory.
pub const PAGE_UPPER_DIR_INDEX_BITS: u8 = 9;

/// Address bits decoded by a page directory.
pub const PAGE_DIR_INDEX_BITS: u8 = 9;

/// Address bits decoded by a page table.
pub const PAGE_TABLE_INDEX_BITS: u8 = 9;

/// log2 bytes of each translation structure: they are all one page.
pub const STRUCTURE_SIZE_BITS: u8 = 12;

/// The kernel object-type identifier of a small page.
pub const SMALL_PAGE_TYPE_ID: usize = 2;

/// The kernel object-type identifier of a page global directory.
pub const PAGE_GLOBAL_DIRECTORY_TYPE_ID: usize = 7;

/// The four-level translation chain over 4 KiB pages.
pub fn paging_chain() -> (c: PagingChain)
    ensures
        c.wf(),
        c.levels@.len() == 4,
        c.page_bits == PAGE_BITS,
        forall|i: int|
            0 <= i < 4 ==> #[trigger] c.levels@[i] == (PagingLevel {
                index_bits: 9u8,
                structure_size_bits: STRUCTURE_SIZE_BITS,
            }),
{
    let level = PagingLevel { index_bits: 9, structure_size_bits: STRUCTURE_SIZE_BITS };
    let mut levels: Vec<PagingLevel> = Vec::new();
    levels.push(level);
    levels.push(level);
    levels.push(level);
    levels.push(level);
    let c = PagingChain { levels, page_bits: PAGE_BITS };
    proof {
        assert(suffix_index_bits(c.levels@, 4) == 0);
        assert(suffix_index_bits(c.levels@, 3) == 9);
        assert(suffix_index_bits(c.levels@, 2) == 18);
        assert(suffix_index_bits(c.levels@, 1) == 27);
        assert(suffix_index_bits(c.levels@, 0) == 36);
    }
    c
}

/// The granule tiers, largest first: 2^30, 2^21, 2^12 bytes.
pub fn granule_tiers() -> (t: Vec<u8>)
    ensures
        valid_tiers(t@),
        t@ == seq![30u8, 21u8, 12u8],
{
    let mut t: Vec<u8> = Vec::new();
    t.push(30);
    t.push(21);
    t.push(12);
    proof {
        assert(t@ =~= seq![30u8, 21u8, 12u8]);
    }
    t
}

/// The root translation structure of an aarch64 address space.
#[derive(Debug)]
pub struct PageGlobalDirectory {}

impl CapType for PageGlobalDirectory {

}

impl PhantomCap for PageGlobalDirectory {
    fn phantom_instance() -> Self {
        PageGlobalDirectory {  }
    }
}

impl DirectRetype for PageGlobalDirectory {
    open spec fn spec_sel4_type_id() -> usize {
        PAGE_GLOBAL_DIRECTORY_TYPE_ID
    }

    fn sel4_type_id() -> usize {
        PAGE_GLOBAL_DIRECTORY_TYPE_ID
    }
}

/// The second translation level, installed directly into the root.
#[derive(Debug)]
pub struct PageUpperDirectory {}

impl CapType for PageUpperDirectory {

}

impl PhantomCap for PageUpperDirectory {
    fn phantom_instance() -> Self {
        PageUpperDirectory {  }
    }
}

/// The root level's single-field address mask: the page-global-directory
/// index bits, shifted above everything the deeper levels decode.
pub fn gd_mask() -> (m: u64)
    ensures
        m == ((((1u64 << (PAGE_GLOBAL_DIR_INDEX_BITS as u64)) - 1) as u64) << ((PAGE_BITS
            + PAGE_TABLE_INDEX_BITS + PAGE_DIR_INDEX_BITS + PAGE_UPPER_DIR_INDEX_BITS) as u64)),
        m == 0x1ffu64 << 39u64,
{
    proof {
        assert((1u64 << 9u64) >= 1) by (bit_vector);
        assert(((((1u64 << 9u64) - 1) as u64) << 39u64) == (0x1ffu64 << 39u64)) by (bit_vector);
    }
    ((1u64 << (PAGE_GLOBAL_DIR_INDEX_BITS as u64)) - 1) << ((PAGE_BITS + PAGE_TABLE_INDEX_BITS
        + PAGE_DIR_INDEX_BITS + PAGE_UPPER_DIR_INDEX_BITS) as u64)
}

impl PageGlobalDirectory {
    /// Install an upper directory into the global directory it belongs
    /// to: one kernel call, at the address masked down to the root
    /// level's index field.  Any non-zero status is an intermediate-layer
    /// failure.
    pub fn map_granule(
        &mut self,
        upper_dir: &Cap<PageUpperDirectory>,
        addr: u64,
        asid: usize,
        _rights: CapRights,
        kernel: &mut Kernel,
    ) -> (r: Result<(), MappingError>)
        ensures
            final(kernel).mode == old(kernel).mode,
            final(kernel).objects@ == old(kernel).objects@,
            final(kernel).pages@ == old(kernel).pages@,
            final(kernel).space_count == old(kernel).space_count,
            r matches Ok(_) <==> old(kernel).page_table_map_status(
                asid,
                1,
                0,
                addr & (0x1ffu64 << 39),
                upper_dir.cptr as int,
            ) == KERNEL_OK,
            match r {
                Ok(_) => final(kernel).tables@ == old(kernel).tables@.push(
                    InstalledTable { asid, level: 1, prefix: addr & (0x1ffu64 << 39) },
                ),
                Err(e) => final(kernel).tables@ == old(kernel).tables@ && e
                    == MappingError::IntermediateLayerFailure(
                    SeL4Error::MapPageTable(
                        old(kernel).page_table_map_status(
                            asid,
                            1,
                            0,
                            addr & (0x1ffu64 << 39),
                            upper_dir.cptr as int,
                        ),
                    ),
                ),
            },
    {
        let mask = gd_mask();
        let status = kernel.page_table_map(asid, 1, 0, addr & mask, upper_dir.cptr);
        if status == KERNEL_OK {
            Ok(())
        } else {
            Err(MappingError::IntermediateLayerFailure(SeL4Error::MapPageTable(status)))
        }
    }
}

} // verus!
