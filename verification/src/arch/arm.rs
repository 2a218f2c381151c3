//! aarch32 configuration: a two-level translation chain (page directory,
//! page table) over 4 KiB pages, and four granule tiers — supersection
//! (16 MiB), section (1 MiB), large page (64 KiB), small page (4 KiB).

use vstd::prelude::*;

verus! {

use crate::granule::valid_tiers;
use crate::vspace::PagingChain;
use crate::vspace::PagingLevel;
use crate::vspace::suffix_index_bits;

/// log2 bytes of a small page, the leaf granule.
pub const PAGE_BITS: u8 = 12;

/// Address bits decoded by the page directory.
pub const PAGE_DIR_INDEX_BITS: u8 = 12;

/// log2 bytes of a page directory object.
pub const PAGE_DIR_SIZE_BITS: u8 = 14;

/// Address bits decoded by a page table.
pub const PAGE_TABLE_INDEX_BITS: u8 = 8;

/// log2 bytes of a page table object.
pub const PAGE_TABLE_SIZE_BITS: u8 = 10;

/// The kernel object-type identifier of a small page.
pub const SMALL_PAGE_TYPE_ID: usize = 1;

/// The two-level translation chain: page directory at the root, page
/// tables below it, 4 KiB pages at the leaves.
pub fn paging_chain() -> (c: PagingChain)
    ensures
        c.wf(),
        c.levels@.len() == 2,
        c.page_bits == PAGE_BITS,
        c.levels@[0] == (PagingLevel {
            index_bits: PAGE_DIR_INDEX_BITS,
            structure_size_bits: PAGE_DIR_SIZE_BITS,
        }),
        c.levels@[1] == (PagingLevel {
            index_bits: PAGE_TABLE_INDEX_BITS,
            structure_size_bits: PAGE_TABLE_SIZE_BITS,
        }),
{
    let mut levels: Vec<PagingLevel> = Vec::new();
    levels.push(
        PagingLevel { index_bits: PAGE_DIR_INDEX_BITS, structure_size_bits: PAGE_DIR_SIZE_BITS },
    );
    levels.push(
        PagingLevel {
            index_bits: PAGE_TABLE_INDEX_BITS,
            structure_size_bits: PAGE_TABLE_SIZE_BITS,
        },
    );
    let c = PagingChain { levels, page_bits: PAGE_BITS };
    proof {
        assert(suffix_index_bits(c.levels@, 2) == 0);
        assert(suffix_index_bits(c.levels@, 1) == PAGE_TABLE_INDEX_BITS as int);
        assert(suffix_index_bits(c.levels@, 0) == PAGE_DIR_INDEX_BITS as int
            + PAGE_TABLE_INDEX_BITS as int);
    }
    c
}

/// The granule tiers, largest first: 2^24, 2^20, 2^16, 2^12 bytes.
pub fn granule_tiers() -> (t: Vec<u8>)
    ensures
        valid_tiers(t@),
        t@ == seq![24u8, 20u8, 16u8, 12u8],
{
    let mut t: Vec<u8> = Vec::new();
    t.push(24);
    t.push(20);
    t.push(16);
    t.push(12);
    proof {
        assert(t@ =~= seq![24u8, 20u8, 16u8, 12u8]);
    }
    t
}

} // verus!
