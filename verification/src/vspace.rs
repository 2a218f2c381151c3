//! The recursive paging-layer abstraction.
//!
//! An address space owns a chain of translation levels, outermost (the
//! root structure, level 0) to innermost (the leaf granule).  Mapping a
//! granule walks the chain from the leaf inward: each layer attempts its
//! item's native map call and, on the kernel's missing-structure signal,
//! allocates the missing intermediate structure from the layer's work
//! supply, installs it into the next outer layer, and retries once.  The
//! retry is bounded by the chain's depth: never more than one fix-up per
//! intermediate level.

use vstd::prelude::*;

verus! {

use crate::cap::Cap;
use crate::cap::CapType;
use crate::cap::Untyped;
use crate::cnode::CNodeSlots;
use crate::error::CapOpError;
use crate::error::SeL4Error;
use crate::granule::Granule;
use crate::granule::Mapped;
use crate::granule::Unmapped;
use crate::kernel::Kernel;
use crate::kernel::KernelMode;
use crate::kernel::RetypeTarget;
use crate::kernel::KERNEL_FAILED_LOOKUP;
use crate::kernel::KERNEL_OK;

/// Access rights a mapping grants.
#[derive(Clone, Copy, Debug, PartialEq, Eq, Structural)]
pub enum CapRights {
    R,
    W,
    RW,
}

/// Why a map operation failed.
#[derive(Clone, Copy, Debug, PartialEq, Eq, Structural)]
pub enum MappingError {
    /// The missing-structure signal reached the outermost layer, which has
    /// no layer above it to fix things up.
    Overflow,
    /// Installing an intermediate structure failed fatally.
    IntermediateLayerFailure(SeL4Error),
    /// The leaf map call failed fatally.
    PageMapFailure(SeL4Error),
    /// The work supply could not produce a missing intermediate structure:
    /// no untyped region or no empty slot was at hand, or the kernel
    /// rejected the retype.
    RetypingError,
}

/// An intermediate paging structure of one translation level, ready to be
/// installed into the level above it.
#[derive(Clone, Copy, Debug, PartialEq, Eq, Structural)]
pub struct PagingStructure {
    pub level: usize,
}

impl CapType for PagingStructure {

}

/// What one translation level of an architecture looks like: how many
/// address bits its structures decode, and how large one structure is.
#[derive(Clone, Copy, Debug, PartialEq, Eq, Structural)]
pub struct PagingLevel {
    /// Address bits decoded by this level's index field.
    pub index_bits: u8,
    /// log2 byte size of one structure of this level, for retyping.
    pub structure_size_bits: u8,
}

/// The architecture's translation hierarchy: level 0 is the root
/// structure, the last level is the deepest intermediate table, and below
/// all of them sit the leaf granules with `page_bits` offset bits.
#[derive(Debug)]
pub struct PagingChain {
    pub levels: Vec<PagingLevel>,
    pub page_bits: u8,
}

/// Address bits decoded by levels `from` and deeper (not counting the
/// page offset).
pub open spec fn suffix_index_bits(levels: Seq<PagingLevel>, from: nat) -> int
    decreases levels.len() - from,
{
    if from >= levels.len() {
        0
    } else {
        levels[from as int].index_bits + suffix_index_bits(levels, from + 1)
    }
}

/// Powers of two are monotone.
pub proof fn lemma_pow2_le(a: nat, b: nat)
    requires
        a <= b,
    ensures
        vstd::arithmetic::power2::pow2(a) <= vstd::arithmetic::power2::pow2(b),
{
    if a < b {
        vstd::arithmetic::power2::lemma_pow2_strictly_increases(a, b);
    }
}

/// The suffix sums are non-negative.
pub proof fn lemma_suffix_nonneg(levels: Seq<PagingLevel>, from: nat)
    ensures
        suffix_index_bits(levels, from) >= 0,
    decreases levels.len() - from,
{
    if from < levels.len() {
        lemma_suffix_nonneg(levels, from + 1);
    }
}

/// Deeper suffixes decode no more bits than shallower ones.
pub proof fn lemma_suffix_mono(levels: Seq<PagingLevel>, a: nat, b: nat)
    requires
        a <= b,
    ensures
        suffix_index_bits(levels, b) <= suffix_index_bits(levels, a),
    decreases b - a,
{
    if a < b {
        lemma_suffix_mono(levels, a + 1, b);
    }
}

impl PagingChain {
    /// The chain is well-formed: at least the root level, every level
    /// decodes at least one bit, structures fit a 64-bit byte count, and
    /// all index fields plus the page offset fit a 64-bit address.
    pub open spec fn wf(self) -> bool {
        &&& self.levels@.len() >= 1
        &&& self.page_bits >= 1
        &&& (forall|i: int|
            0 <= i < self.levels@.len() ==> (#[trigger] self.levels@[i]).index_bits >= 1 && self.levels@[i].structure_size_bits
                < 64)
        &&& self.page_bits + suffix_index_bits(self.levels@, 0) <= 64
    }

    /// The number of translation levels above the leaf.
    pub open spec fn depth(self) -> int {
        self.levels@.len() as int
    }

    /// How many low address bits lie below level `level`'s index field.
    pub open spec fn low_bits_spec(self, level: int) -> int {
        self.page_bits + suffix_index_bits(self.levels@, (level + 1) as nat)
    }

    /// Compute the low-bit count of a level; under well-formedness it is
    /// always below the machine word width.
    pub fn low_bits(&self, level: usize) -> (r: u8)
        requires
            self.wf(),
            level < self.levels@.len(),
        ensures
            r as int == self.low_bits_spec(level as int),
            r < 64,
    {
        let n = self.levels.len();
        let mut acc: u8 = self.page_bits;
        let mut j: usize = level + 1;
        proof {
            lemma_suffix_mono(self.levels@, 0, (level + 1) as nat);
            lemma_suffix_nonneg(self.levels@, (level + 1) as nat);
        }
        while j < n
            invariant
                level + 1 <= j <= n,
                n == self.levels@.len(),
                self.wf(),
                acc as int + suffix_index_bits(self.levels@, j as nat) == self.low_bits_spec(
                    level as int,
                ),
                self.low_bits_spec(level as int) <= 64,
            decreases n - j,
        {
            proof {
                lemma_suffix_nonneg(self.levels@, (j + 1) as nat);
            }
            acc = acc + self.levels[j].index_bits;
            j += 1;
        }
        proof {
            assert(suffix_index_bits(self.levels@, n as nat) == 0);
            // The level's own index field is at least one bit, so the bits
            // below it stay short of the full word.
            lemma_suffix_mono(self.levels@, 0, level as nat);
            assert(suffix_index_bits(self.levels@, level as nat) == self.levels@[level as int].index_bits
                + suffix_index_bits(self.levels@, (level + 1) as nat));
        }
        acc
    }
}

/// A virtual address space: its paging chain, its kernel-side identifier,
/// and the work supply the paging walk draws on when it must materialize
/// a missing intermediate structure — one spare untyped region per
/// translation level, plus a slot allowance.
///
/// `fixup_count` instruments the walk: it counts the
/// structure-allocation fix-ups performed over the address space's
/// lifetime.
#[derive(Debug)]
pub struct VSpace {
    pub chain: PagingChain,
    pub asid: usize,
    pub root_cptr: usize,
    pub next_page: u64,
    pub fixup_count: u64,
    pub slots: CNodeSlots,
    pub table_uts: Vec<Option<Cap<Untyped>>>,
}

/// Two supply entries hold capabilities to the same kernel object.
pub open spec fn supply_conflicts(a: Option<Cap<Untyped>>, b: Option<Cap<Untyped>>) -> bool {
    a matches Some(u1) && b matches Some(u2) && u1.cptr == u2.cptr
}

impl VSpace {
    /// No two supply entries alias one kernel object.
    pub open spec fn supplies_distinct(self) -> bool {
        forall|i: int, j: int|
            0 <= i < j < self.table_uts@.len() ==> !supply_conflicts(
                #[trigger] self.table_uts@[i],
                #[trigger] self.table_uts@[j],
            )
    }

    /// The address space is well-formed: a well-formed chain, one supply
    /// entry per level, each sized for its level, no aliased entries, and
    /// a consistent slot view.
    pub open spec fn wf(self) -> bool {
        &&& self.chain.wf()
        &&& self.table_uts@.len() == self.chain.levels@.len()
        &&& self.slots.wf()
        &&& self.supplies_distinct()
        &&& (forall|l: int|
            0 <= l < self.table_uts@.len() ==> match #[trigger] self.table_uts@[l] {
                Some(ut) => ut.cap_data.size_bits == self.chain.levels@[l].structure_size_bits,
                None => true,
            })
    }

    /// The prefix of `vaddr` that identifies a structure of `level`
    /// (level 1 or deeper): the address bits above the structure's own
    /// index field, which begin at the level above's low-bit boundary.
    pub open spec fn level_prefix(self, vaddr: u64, level: int) -> u64 {
        prefix_of(vaddr, self.chain.low_bits_spec(level - 1) as u8)
    }

    /// The page-aligned prefix of `vaddr`.
    pub open spec fn page_prefix_of(self, vaddr: u64) -> u64 {
        prefix_of(vaddr, self.chain.page_bits)
    }

    /// The supply can produce a structure for `level` right now: an
    /// untyped region is stocked for that level and the kernel still
    /// holds it live at the recorded size.
    pub open spec fn can_provide(self, k: Kernel, level: int) -> bool {
        match self.table_uts@[level] {
            Some(ut) => k.is_live_untyped(ut.cptr as int) && ut.cap_data.size_bits
                <= k.untyped_size_bits(ut.cptr as int),
            None => false,
        }
    }

    /// Level `j` poses no obstacle to a walk towards `vaddr`: its
    /// structure is already installed on the path, or the supply can
    /// provide it.
    pub open spec fn level_ok(self, k: Kernel, vaddr: u64, j: int) -> bool {
        k.table_present(self.asid, j as usize, self.level_prefix(vaddr, j)) || self.can_provide(
            k,
            j,
        )
    }

    /// Every intermediate level strictly above `level` (levels 1 .. level)
    /// either already has its structure installed on `vaddr`'s path or can
    /// be provided from the supply.
    pub open spec fn parents_ready(self, k: Kernel, vaddr: u64, level: int) -> bool {
        forall|j: int| 1 <= j < level ==> #[trigger] self.level_ok(k, vaddr, j)
    }

    /// A leaf map at `vaddr` is owed success: the collaborator answers
    /// from its state, the address space exists, the page is not taken,
    /// every missing intermediate level can be provided, and the slot
    /// allowance covers the worst case of one fix-up per level.
    pub open spec fn map_ready(self, k: Kernel, vaddr: u64) -> bool {
        &&& k.mode == crate::kernel::KernelMode::Normal
        &&& k.valid_asid(self.asid as int)
        &&& !k.page_present(self.asid, self.page_prefix_of(vaddr))
        &&& self.parents_ready(k, vaddr, self.chain.depth())
        &&& self.slots.free_slots() >= self.chain.depth() - 1
    }
}

/// The address prefix left when the `low` least significant bits are
/// cleared.
pub open spec fn prefix_of(vaddr: u64, low: u8) -> u64
    recommends
        low < 64,
{
    (vaddr >> (low as u64)) << (low as u64)
}

/// Clear the `low` least significant bits of an address.
pub fn mask_low(vaddr: u64, low: u8) -> (r: u64)
    requires
        low < 64,
    ensures
        r == prefix_of(vaddr, low),
{
    (vaddr >> (low as u64)) << (low as u64)
}

impl VSpace {
    /// Build a fresh address space: one retype call turns the untyped
    /// region into the root structure, one call registers it as a new
    /// address space.  The slot view passed in becomes the space's work
    /// supply for lazy intermediate-structure allocation; its first slot
    /// is consumed by the root.  On failure nothing is consumed and both
    /// the region and the slot view come back.
    pub fn new(
        ut: Cap<Untyped>,
        chain: PagingChain,
        first_vaddr: u64,
        slots: CNodeSlots,
        kernel: &mut Kernel,
    ) -> (r: Result<VSpace, (CapOpError, Cap<Untyped>, CNodeSlots)>)
        requires
            old(kernel).wf(),
            slots.wf(),
            chain.wf(),
            old(kernel).space_count < usize::MAX,
        ensures
            final(kernel).wf(),
            final(kernel).mode == old(kernel).mode,
            final(kernel).tables@ == old(kernel).tables@,
            final(kernel).pages@ == old(kernel).pages@,
            r matches Ok(_) <==> slots.free_slots() >= 1 && old(kernel).retype_status(
                ut.cptr as int,
                RetypeTarget::TargetStructure {
                    level: 0,
                    size_bits: chain.levels@[0].structure_size_bits,
                },
                1,
            ) == KERNEL_OK,
            match r {
                Ok(vs) => {
                    &&& vs.wf()
                    &&& vs.chain == chain
                    &&& vs.asid == old(kernel).space_count
                    &&& vs.fixup_count == 0
                    &&& vs.next_page == first_vaddr
                    &&& vs.slots.used == slots.used + 1
                    &&& vs.slots.total == slots.total
                    &&& vs.slots.cnode_cptr == slots.cnode_cptr
                    &&& (forall|l: int|
                        0 <= l < vs.table_uts@.len() ==> (#[trigger] vs.table_uts@[l]) matches None)
                    &&& final(kernel).space_count == old(kernel).space_count + 1
                    &&& final(kernel).valid_asid(vs.asid as int)
                    &&& final(kernel).is_structure(vs.root_cptr as int, 0)
                    &&& !final(kernel).is_live_untyped(ut.cptr as int)
                    &&& final(kernel).objects@ == old(kernel).objects@.update(
                        ut.cptr as int,
                        crate::kernel::KernelObject::UntypedObj {
                            size_bits: old(kernel).untyped_size_bits(ut.cptr as int),
                            live: false,
                        },
                    ).push(crate::kernel::KernelObject::StructureObj { level: 0 })
                },
                Err((e, back, back_slots)) => {
                    &&& back == ut
                    &&& back_slots == slots
                    &&& final(kernel).objects@ == old(kernel).objects@
                    &&& final(kernel).space_count == old(kernel).space_count
                },
            },
    {
        let mut slots = slots;
        if slots.remaining() < 1 {
            return Err((CapOpError::SlotsExhausted, ut, slots));
        }
        let root_size = chain.levels[0].structure_size_bits;
        let status = kernel.untyped_retype(
            ut.cptr,
            RetypeTarget::TargetStructure { level: 0, size_bits: root_size },
            1,
        );
        if status != KERNEL_OK {
            return Err(
                (CapOpError::KernelRejection(SeL4Error::UntypedRetype(status)), ut, slots),
            );
        }
        slots.take(1);
        let root_cptr = kernel.objects.len() - 1;
        let (asid_status, asid) = kernel.create_address_space(root_cptr);
        proof {
            assert(asid_status == KERNEL_OK);
        }
        let depth = chain.levels.len();
        let mut table_uts: Vec<Option<Cap<Untyped>>> = Vec::new();
        let mut l: usize = 0;
        while l < depth
            invariant
                l <= depth,
                table_uts@.len() == l,
                forall|i: int| 0 <= i < l ==> (#[trigger] table_uts@[i]) matches None,
            decreases depth - l,
        {
            table_uts.push(None);
            l += 1;
        }
        Ok(
            VSpace {
                chain,
                asid,
                root_cptr,
                next_page: first_vaddr,
                fixup_count: 0,
                slots,
                table_uts,
            },
        )
    }

    /// Stock the work supply for one intermediate level.  The region must
    /// be sized for that level's structures; a region for a level already
    /// stocked, a level out of range, a wrong size, or a region aliasing
    /// a stocked one is handed back untouched.
    pub fn provide_table_untyped(&mut self, level: usize, ut: Cap<Untyped>) -> (r: Result<
        (),
        Cap<Untyped>,
    >)
        requires
            old(self).wf(),
        ensures
            final(self).wf(),
            final(self).chain == old(self).chain,
            final(self).asid == old(self).asid,
            final(self).root_cptr == old(self).root_cptr,
            final(self).next_page == old(self).next_page,
            final(self).fixup_count == old(self).fixup_count,
            final(self).slots == old(self).slots,
            r matches Ok(_) <==> (1 <= level < old(self).table_uts@.len() && (old(
                self,
            ).table_uts@[level as int] matches None) && ut.cap_data.size_bits == old(
                self,
            ).chain.levels@[level as int].structure_size_bits && (forall|j: int|
                0 <= j < old(self).table_uts@.len() ==> !supply_conflicts(
                    #[trigger] old(self).table_uts@[j],
                    Some(ut),
                ))),
            match r {
                Ok(_) => final(self).table_uts@ == old(self).table_uts@.update(
                    level as int,
                    Some(ut),
                ),
                Err(back) => back == ut && final(self).table_uts@ == old(self).table_uts@,
            },
    {
        if level < 1 || level >= self.table_uts.len() {
            return Err(ut);
        }
        match &self.table_uts[level] {
            Some(_) => { return Err(ut) },
            None => {},
        }
        if ut.size_bits() != self.chain.levels[level].structure_size_bits {
            return Err(ut);
        }
        let n = self.table_uts.len();
        let mut j: usize = 0;
        while j < n
            invariant
                *self == *old(self),
                old(self).wf(),
                j <= n,
                n == self.table_uts@.len(),
                1 <= level < n,
                ut.cap_data.size_bits == self.chain.levels@[level as int].structure_size_bits,
                self.table_uts@[level as int] matches None,
                forall|i: int|
                    0 <= i < j ==> !supply_conflicts(#[trigger] self.table_uts@[i], Some(ut)),
            decreases n - j,
        {
            match &self.table_uts[j] {
                Some(u) => {
                    if u.cptr == ut.cptr {
                        return Err(ut);
                    }
                },
                None => {},
            }
            j += 1;
        }
        self.table_uts[level] = Some(ut);
        Ok(())
    }

    /// Produce the missing intermediate structure for `level` from the
    /// work supply: take the stocked untyped region and retype it, in one
    /// kernel call, consuming one slot.  On failure the region goes back
    /// into the supply and nothing is consumed.
    fn allocate_structure(&mut self, level: usize, kernel: &mut Kernel) -> (r: Result<
        Cap<PagingStructure>,
        MappingError,
    >)
        requires
            old(self).wf(),
            old(kernel).wf(),
            1 <= level < old(self).chain.levels@.len(),
        ensures
            final(self).wf(),
            final(kernel).wf(),
            final(self).chain == old(self).chain,
            final(self).asid == old(self).asid,
            final(self).root_cptr == old(self).root_cptr,
            final(self).next_page == old(self).next_page,
            final(self).fixup_count == old(self).fixup_count,
            final(self).slots.cnode_cptr == old(self).slots.cnode_cptr,
            final(self).slots.total == old(self).slots.total,
            final(kernel).mode == old(kernel).mode,
            final(kernel).same_translation(*old(kernel)),
            r matches Ok(_) <==> old(self).can_provide(*old(kernel), level as int) && old(
                self,
            ).slots.free_slots() >= 1,
            match r {
                Ok(c) => {
                    &&& c.cap_data.level == level
                    &&& c.cptr == old(kernel).objects@.len()
                    &&& final(kernel).is_structure(c.cptr as int, level as int)
                    &&& final(self).slots.used == old(self).slots.used + 1
                    &&& final(self).table_uts@ == old(self).table_uts@.update(level as int, None)
                    &&& (old(self).table_uts@[level as int] matches Some(su)
                        ==> final(kernel).objects@ == old(kernel).objects@.update(
                        su.cptr as int,
                        crate::kernel::KernelObject::UntypedObj {
                            size_bits: old(kernel).untyped_size_bits(su.cptr as int),
                            live: false,
                        },
                    ).push(crate::kernel::KernelObject::StructureObj { level: level as usize }))
                },
                Err(e) => {
                    &&& e == MappingError::RetypingError
                    &&& final(self).slots.used == old(self).slots.used
                    &&& final(self).table_uts@ == old(self).table_uts@
                    &&& final(kernel).objects@ == old(kernel).objects@
                },
            },
    {
        let mut taken: Option<Cap<Untyped>> = None;
        core::mem::swap(&mut taken, &mut self.table_uts[level]);
        let ut = match taken {
            Some(ut) => ut,
            None => {
                proof {
                    assert(self.table_uts@ =~= old(self).table_uts@);
                }
                return Err(MappingError::RetypingError);
            },
        };
        if self.slots.remaining() < 1 {
            self.table_uts[level] = Some(ut);
            proof {
                assert(self.table_uts@ =~= old(self).table_uts@);
            }
            return Err(MappingError::RetypingError);
        }
        let size_bits = ut.size_bits();
        let status = kernel.untyped_retype(
            ut.cptr,
            RetypeTarget::TargetStructure { level, size_bits },
            1,
        );
        proof {
            // The kernel's size check is exactly "the region's recorded
            // size tag is at least the structure's".
            let src = old(kernel).untyped_size_bits(ut.cptr as int);
            if old(kernel).is_live_untyped(ut.cptr as int) {
                if size_bits <= src {
                    lemma_pow2_le(size_bits as nat, src as nat);
                } else {
                    vstd::arithmetic::power2::lemma_pow2_strictly_increases(
                        src as nat,
                        size_bits as nat,
                    );
                }
            }
        }
        if status != KERNEL_OK {
            self.table_uts[level] = Some(ut);
            proof {
                assert(self.table_uts@ =~= old(self).table_uts@);
            }
            return Err(MappingError::RetypingError);
        }
        self.slots.take(1);
        let cptr = kernel.objects.len() - 1;
        proof {
            assert(self.table_uts@ =~= old(self).table_uts@.update(level as int, None));
        }
        Ok(Cap { cptr, cap_data: PagingStructure { level } })
    }

    /// Map one intermediate structure into the layer above it.
    ///
    /// Attempt the native map call for `item` at `level`; on the kernel's
    /// missing-structure signal, allocate the missing parent structure
    /// from the work supply, install it one level further out by the same
    /// procedure, and retry once.  Any other kernel error is fatal and
    /// propagated; at the outermost layer the signal itself is fatal,
    /// reported as `Overflow`.  A call at `level` performs at most
    /// `level - 1` structure-allocation fix-ups.
    fn map_item(&mut self, level: usize, vaddr: u64, item: Cap<PagingStructure>, kernel: &mut Kernel) -> (r: Result<
        (),
        MappingError,
    >)
        requires
            old(self).wf(),
            old(kernel).wf(),
            1 <= level < old(self).chain.levels@.len(),
            old(self).fixup_count + level <= u64::MAX,
        ensures
            final(self).wf(),
            final(kernel).wf(),
            final(self).chain == old(self).chain,
            final(self).asid == old(self).asid,
            final(self).root_cptr == old(self).root_cptr,
            final(self).next_page == old(self).next_page,
            final(self).slots.cnode_cptr == old(self).slots.cnode_cptr,
            final(self).slots.total == old(self).slots.total,
            old(self).slots.used <= final(self).slots.used,
            final(self).slots.used <= old(self).slots.used + (level - 1),
            old(self).fixup_count <= final(self).fixup_count,
            final(self).fixup_count <= old(self).fixup_count + (level - 1),
            final(kernel).mode == old(kernel).mode,
            final(kernel).space_count == old(kernel).space_count,
            final(kernel).pages@ == old(kernel).pages@,
            final(kernel).tables@.len() >= old(kernel).tables@.len(),
            forall|i: int|
                0 <= i < old(kernel).tables@.len() ==> final(kernel).tables@[i] == old(
                    kernel,
                ).tables@[i],
            forall|i: int|
                old(kernel).tables@.len() <= i < final(kernel).tables@.len() ==> (
                #[trigger] final(kernel).tables@[i]).level <= level && final(kernel).tables@[i].asid
                    == old(self).asid,
            forall|c: int| #![auto] old(kernel).is_granule(c) ==> final(kernel).is_granule(c),
            forall|c: int, l: int| #![auto]
                old(kernel).is_structure(c, l) ==> final(kernel).is_structure(c, l),
            old(kernel).mode == KernelMode::AlwaysMissing ==> r matches Err(_),
            r matches Ok(_) ==> final(kernel).table_present(
                old(self).asid,
                level,
                old(self).level_prefix(vaddr, level as int),
            ),
            (old(kernel).mode == KernelMode::Normal && old(kernel).valid_asid(
                old(self).asid as int,
            ) && old(kernel).is_structure(item.cptr as int, level as int) && !old(
                kernel,
            ).table_present(old(self).asid, level, old(self).level_prefix(vaddr, level as int))
                && old(self).parents_ready(*old(kernel), vaddr, level as int) && old(
                self,
            ).slots.free_slots() >= level - 1) ==> r matches Ok(_),
        decreases level,
    {
        let ghost pre_self = *self;
        let ghost pre_kernel = *kernel;
        let own_low = self.chain.low_bits(level - 1);
        let prefix = mask_low(vaddr, own_low);
        let parent_prefix: u64 = if level >= 2 {
            let parent_low = self.chain.low_bits(level - 2);
            mask_low(vaddr, parent_low)
        } else {
            0
        };
        let status = kernel.page_table_map(self.asid, level, parent_prefix, prefix, item.cptr);
        if status == KERNEL_OK {
            proof {
                let entry = crate::kernel::InstalledTable {
                    asid: self.asid,
                    level,
                    prefix,
                };
                assert(kernel.tables@[kernel.tables@.len() - 1] == entry);
            }
            return Ok(());
        }
        if status != KERNEL_FAILED_LOOKUP {
            return Err(MappingError::IntermediateLayerFailure(SeL4Error::MapPageTable(status)));
        }
        if level == 1 {
            return Err(MappingError::Overflow);
        }
        proof {
            // Under the readiness hypothesis the supply can stand in for
            // the parent the lookup just reported missing.
            if pre_kernel.mode == KernelMode::Normal && pre_kernel.valid_asid(
                pre_self.asid as int,
            ) && pre_kernel.is_structure(item.cptr as int, level as int)
                && pre_self.parents_ready(pre_kernel, vaddr, level as int)
                && pre_self.slots.free_slots() >= level - 1 {
                assert(parent_prefix == pre_self.level_prefix(vaddr, (level - 1) as int));
                assert(!pre_kernel.table_present(
                    pre_self.asid,
                    (level - 1) as usize,
                    pre_self.level_prefix(vaddr, (level - 1) as int),
                ));
                assert(pre_self.level_ok(pre_kernel, vaddr, (level - 1) as int));
                assert(pre_self.can_provide(pre_kernel, (level - 1) as int));
            }
        }
        let parent_item = match self.allocate_structure(level - 1, kernel) {
            Ok(c) => c,
            Err(e) => { return Err(e) },
        };
        proof {
            // The allocation consumed one live untyped region and appended
            // one structure: every granule and structure capability is
            // untouched.
            match pre_self.table_uts@[(level - 1) as int] {
                Some(su) => {
                    assert(pre_kernel.is_live_untyped(su.cptr as int));
                    assert forall|c: int| #![auto] pre_kernel.is_granule(c) implies kernel.is_granule(
                        c,
                    ) by {
                        assert(c != su.cptr as int);
                    }
                    assert forall|c: int, l: int| #![auto]
                        pre_kernel.is_structure(c, l) implies kernel.is_structure(c, l) by {
                        assert(c != su.cptr as int);
                    }
                },
                None => {
                    assert(false);
                },
            }
        }
        self.fixup_count = self.fixup_count + 1;
        let ghost mid_self = *self;
        let ghost mid_kernel = *kernel;
        proof {
            // A ready parent chain survives the allocation: the supply
            // entries of the other levels are untouched and, being
            // distinct from the consumed region, still live.
            if pre_self.parents_ready(pre_kernel, vaddr, level as int) && pre_kernel.mode
                == KernelMode::Normal {
                assert forall|j: int| 1 <= j < level - 1 implies #[trigger] mid_self.level_ok(
                    mid_kernel,
                    vaddr,
                    j,
                ) by {
                    assert(pre_self.level_ok(pre_kernel, vaddr, j));
                    if pre_self.can_provide(pre_kernel, j) && !pre_kernel.table_present(
                        pre_self.asid,
                        j as usize,
                        pre_self.level_prefix(vaddr, j),
                    ) {
                        match pre_self.table_uts@[j] {
                            Some(utj) => {
                                match pre_self.table_uts@[(level - 1) as int] {
                                    Some(su) => {
                                        assert(!supply_conflicts(
                                            pre_self.table_uts@[j],
                                            pre_self.table_uts@[(level - 1) as int],
                                        ));
                                        assert(utj.cptr != su.cptr);
                                        assert(mid_self.table_uts@[j] == pre_self.table_uts@[j]);
                                        assert(mid_kernel.is_live_untyped(utj.cptr as int));
                                        assert(mid_self.can_provide(mid_kernel, j));
                                    },
                                    None => {},
                                }
                            },
                            None => {},
                        }
                    } else {
                        assert(pre_kernel.table_present(
                            pre_self.asid,
                            j as usize,
                            pre_self.level_prefix(vaddr, j),
                        ));
                        assert(mid_kernel.tables@ == pre_kernel.tables@);
                        assert(mid_kernel.table_present(
                            mid_self.asid,
                            j as usize,
                            mid_self.level_prefix(vaddr, j),
                        ));
                    }
                }
                assert(mid_self.parents_ready(mid_kernel, vaddr, (level - 1) as int));
            }
        }
        match self.map_item(level - 1, vaddr, parent_item, kernel) {
            Ok(()) => {},
            Err(e) => { return Err(e) },
        }
        proof {
            // Under the readiness hypothesis the retry is owed success:
            // the parent was just installed, and everything the walk
            // added sits at deeper levels than this one.
            if pre_kernel.mode == KernelMode::Normal && pre_kernel.valid_asid(
                pre_self.asid as int,
            ) && pre_kernel.is_structure(item.cptr as int, level as int) && !pre_kernel.table_present(
                pre_self.asid,
                level,
                pre_self.level_prefix(vaddr, level as int),
            ) && pre_self.parents_ready(pre_kernel, vaddr, level as int)
                && pre_self.slots.free_slots() >= level - 1 {
                let entry = crate::kernel::InstalledTable {
                    asid: pre_self.asid,
                    level,
                    prefix,
                };
                assert(prefix == pre_self.level_prefix(vaddr, level as int));
                assert forall|i: int| 0 <= i < kernel.tables@.len() implies kernel.tables@[i]
                    != entry by {
                    if i < pre_kernel.tables@.len() {
                        if kernel.tables@[i] == entry {
                            assert(pre_kernel.tables@[i] == entry);
                            assert(pre_kernel.tables@.contains(entry));
                        }
                    } else {
                        assert(kernel.tables@[i].level <= level - 1);
                    }
                }
                assert(!kernel.table_present(pre_self.asid, level, prefix));
            }
        }
        let status2 = kernel.page_table_map(self.asid, level, parent_prefix, prefix, item.cptr);
        proof {
            assert forall|c: int| #![auto] pre_kernel.is_granule(c) implies kernel.is_granule(
                c,
            ) by {
                assert(mid_kernel.is_granule(c));
            }
            assert forall|c: int, l: int| #![auto]
                pre_kernel.is_structure(c, l) implies kernel.is_structure(c, l) by {
                assert(mid_kernel.is_structure(c, l));
            }
        }
        if status2 == KERNEL_OK {
            proof {
                let entry = crate::kernel::InstalledTable {
                    asid: self.asid,
                    level,
                    prefix,
                };
                assert(kernel.tables@[kernel.tables@.len() - 1] == entry);
            }
            Ok(())
        } else if status2 == KERNEL_FAILED_LOOKUP {
            Err(MappingError::Overflow)
        } else {
            Err(MappingError::IntermediateLayerFailure(SeL4Error::MapPageTable(status2)))
        }
    }

    /// Map an unmapped granule at the given virtual address.
    ///
    /// One kernel call attempts the leaf map; on the missing-structure
    /// signal the deepest intermediate table is allocated from the work
    /// supply, installed by the recursive walk, and the leaf map is
    /// retried once.  On success the granule's state moves from
    /// `Unmapped` to `Mapped` — the one-way transition happens here and
    /// nowhere else.  On failure the granule comes back unmapped and
    /// unconsumed.  At most `depth - 1` structure-allocation fix-ups
    /// happen in one call, where `depth` counts the granule's own layer
    /// atop the intermediate levels.
    pub fn map_granule_at(
        &mut self,
        page: Cap<Granule<Unmapped>>,
        vaddr: u64,
        _rights: CapRights,
        _attrs: u32,
        kernel: &mut Kernel,
    ) -> (r: Result<Cap<Granule<Mapped>>, (MappingError, Cap<Granule<Unmapped>>)>)
        requires
            old(self).wf(),
            old(kernel).wf(),
            old(self).fixup_count + old(self).chain.levels@.len() <= u64::MAX,
        ensures
            final(self).wf(),
            final(kernel).wf(),
            final(self).chain == old(self).chain,
            final(self).asid == old(self).asid,
            final(self).root_cptr == old(self).root_cptr,
            final(self).next_page == old(self).next_page,
            final(self).slots.cnode_cptr == old(self).slots.cnode_cptr,
            final(self).slots.total == old(self).slots.total,
            old(self).slots.used <= final(self).slots.used,
            old(self).fixup_count <= final(self).fixup_count,
            final(self).fixup_count <= old(self).fixup_count + (old(self).chain.levels@.len()
                - 1),
            final(kernel).mode == old(kernel).mode,
            final(kernel).space_count == old(kernel).space_count,
            final(kernel).tables@.len() >= old(kernel).tables@.len(),
            forall|i: int|
                0 <= i < old(kernel).tables@.len() ==> final(kernel).tables@[i] == old(
                    kernel,
                ).tables@[i],
            old(kernel).mode == KernelMode::AlwaysMissing ==> r matches Err(_),
            match r {
                Ok(g) => {
                    &&& g.cptr == page.cptr
                    &&& g.cap_data.size_bits == page.cap_data.size_bits
                    &&& g.cap_data.type_id == page.cap_data.type_id
                    &&& g.cap_data.state == (Mapped {
                        vaddr: old(self).page_prefix_of(vaddr),
                        asid: old(self).asid,
                    })
                    &&& final(kernel).page_present(old(self).asid, old(self).page_prefix_of(vaddr))
                    &&& final(kernel).pages@ == old(kernel).pages@.push(
                        crate::kernel::MappedPage {
                            asid: old(self).asid,
                            prefix: old(self).page_prefix_of(vaddr),
                        },
                    )
                },
                Err((e, back)) => {
                    &&& back == page
                    &&& final(kernel).pages@ == old(kernel).pages@
                },
            },
            (old(self).map_ready(*old(kernel), vaddr) && old(kernel).is_granule(page.cptr as int))
                ==> r matches Ok(_),
    {
        let ghost pre_self = *self;
        let ghost pre_kernel = *kernel;
        let d = self.chain.levels.len();
        let parent_level = d - 1;
        let parent_prefix: u64 = if parent_level >= 1 {
            let parent_low = self.chain.low_bits(parent_level - 1);
            mask_low(vaddr, parent_low)
        } else {
            0
        };
        proof {
            // page_bits is below the word width: the root level decodes
            // at least one bit above it.
            lemma_suffix_nonneg(self.chain.levels@, 1);
            assert(suffix_index_bits(self.chain.levels@, 0) == self.chain.levels@[0].index_bits
                + suffix_index_bits(self.chain.levels@, 1));
        }
        let pb = self.chain.page_bits;
        let page_prefix = mask_low(vaddr, pb);
        let status = kernel.page_map(self.asid, parent_level, parent_prefix, page_prefix, page.cptr);
        if status == KERNEL_OK {
            proof {
                let entry = crate::kernel::MappedPage { asid: self.asid, prefix: page_prefix };
                assert(kernel.pages@[kernel.pages@.len() - 1] == entry);
            }
            return Ok(
                Cap {
                    cptr: page.cptr,
                    cap_data: Granule {
                        size_bits: page.cap_data.size_bits,
                        type_id: page.cap_data.type_id,
                        state: Mapped { vaddr: page_prefix, asid: self.asid },
                    },
                },
            );
        }
        if status != KERNEL_FAILED_LOOKUP {
            return Err((MappingError::PageMapFailure(SeL4Error::MapPage(status)), page));
        }
        if parent_level == 0 {
            return Err((MappingError::Overflow, page));
        }
        proof {
            // Under readiness the supply can stand in for the missing
            // deepest table.
            if pre_self.map_ready(pre_kernel, vaddr) && pre_kernel.is_granule(page.cptr as int) {
                assert(parent_prefix == pre_self.level_prefix(vaddr, parent_level as int));
                assert(!pre_kernel.table_present(
                    pre_self.asid,
                    parent_level,
                    pre_self.level_prefix(vaddr, parent_level as int),
                ));
                assert(pre_self.level_ok(pre_kernel, vaddr, parent_level as int));
                assert(pre_self.can_provide(pre_kernel, parent_level as int));
            }
        }
        let table = match self.allocate_structure(parent_level, kernel) {
            Ok(c) => c,
            Err(e) => { return Err((e, page)) },
        };
        proof {
            match pre_self.table_uts@[parent_level as int] {
                Some(su) => {
                    assert(pre_kernel.is_live_untyped(su.cptr as int));
                    assert forall|c: int| #![auto] pre_kernel.is_granule(c) implies kernel.is_granule(
                        c,
                    ) by {
                        assert(c != su.cptr as int);
                    }
                    assert forall|c: int, l: int| #![auto]
                        pre_kernel.is_structure(c, l) implies kernel.is_structure(c, l) by {
                        assert(c != su.cptr as int);
                    }
                },
                None => {
                    assert(false);
                },
            }
        }
        self.fixup_count = self.fixup_count + 1;
        let ghost mid_self = *self;
        let ghost mid_kernel = *kernel;
        proof {
            if pre_self.map_ready(pre_kernel, vaddr) && pre_kernel.is_granule(page.cptr as int) {
                assert forall|j: int| 1 <= j < parent_level implies #[trigger] mid_self.level_ok(
                    mid_kernel,
                    vaddr,
                    j,
                ) by {
                    assert(pre_self.level_ok(pre_kernel, vaddr, j));
                    if pre_self.can_provide(pre_kernel, j) && !pre_kernel.table_present(
                        pre_self.asid,
                        j as usize,
                        pre_self.level_prefix(vaddr, j),
                    ) {
                        match pre_self.table_uts@[j] {
                            Some(utj) => {
                                match pre_self.table_uts@[parent_level as int] {
                                    Some(su) => {
                                        assert(!supply_conflicts(
                                            pre_self.table_uts@[j],
                                            pre_self.table_uts@[parent_level as int],
                                        ));
                                        assert(utj.cptr != su.cptr);
                                        assert(mid_self.table_uts@[j] == pre_self.table_uts@[j]);
                                        assert(mid_kernel.is_live_untyped(utj.cptr as int));
                                        assert(mid_self.can_provide(mid_kernel, j));
                                    },
                                    None => {},
                                }
                            },
                            None => {},
                        }
                    } else {
                        assert(pre_kernel.table_present(
                            pre_self.asid,
                            j as usize,
                            pre_self.level_prefix(vaddr, j),
                        ));
                        assert(mid_kernel.tables@ == pre_kernel.tables@);
                        assert(mid_kernel.table_present(
                            mid_self.asid,
                            j as usize,
                            mid_self.level_prefix(vaddr, j),
                        ));
                    }
                }
                assert(mid_self.parents_ready(mid_kernel, vaddr, parent_level as int));
            }
        }
        match self.map_item(parent_level, vaddr, table, kernel) {
            Ok(()) => {},
            Err(e) => { return Err((e, page)) },
        }
        let status2 = kernel.page_map(self.asid, parent_level, parent_prefix, page_prefix, page.cptr);
        proof {
            assert forall|c: int| #![auto] pre_kernel.is_granule(c) implies kernel.is_granule(
                c,
            ) by {
                assert(mid_kernel.is_granule(c));
            }
        }
        if status2 == KERNEL_OK {
            proof {
                let entry = crate::kernel::MappedPage { asid: self.asid, prefix: page_prefix };
                assert(kernel.pages@[kernel.pages@.len() - 1] == entry);
            }
            Ok(
                Cap {
                    cptr: page.cptr,
                    cap_data: Granule {
                        size_bits: page.cap_data.size_bits,
                        type_id: page.cap_data.type_id,
                        state: Mapped { vaddr: page_prefix, asid: self.asid },
                    },
                },
            )
        } else if status2 == KERNEL_FAILED_LOOKUP {
            Err((MappingError::Overflow, page))
        } else {
            Err((MappingError::PageMapFailure(SeL4Error::MapPage(status2)), page))
        }
    }

    /// Map a granule at the space's running page cursor, advancing the
    /// cursor by one page first, exactly as the cursor-based mapping
    /// interface promises.
    pub fn map_page(
        &mut self,
        page: Cap<Granule<Unmapped>>,
        _rights: CapRights,
        _attrs: u32,
        kernel: &mut Kernel,
    ) -> (r: Result<Cap<Granule<Mapped>>, (MappingError, Cap<Granule<Unmapped>>)>)
        requires
            old(self).wf(),
            old(kernel).wf(),
            old(self).fixup_count + old(self).chain.levels@.len() <= u64::MAX,
            old(self).next_page + vstd::arithmetic::power2::pow2(
                old(self).chain.page_bits as nat,
            ) <= u64::MAX,
        ensures
            final(self).wf(),
            final(kernel).wf(),
            final(self).chain == old(self).chain,
            final(self).asid == old(self).asid,
            final(self).next_page == old(self).next_page + vstd::arithmetic::power2::pow2(
                old(self).chain.page_bits as nat,
            ),
            old(self).fixup_count <= final(self).fixup_count,
            final(self).fixup_count <= old(self).fixup_count + (old(self).chain.levels@.len()
                - 1),
            final(kernel).mode == old(kernel).mode,
            old(kernel).mode == KernelMode::AlwaysMissing ==> r matches Err(_),
            match r {
                Ok(g) => {
                    &&& g.cptr == page.cptr
                    &&& g.cap_data.size_bits == page.cap_data.size_bits
                    &&& g.cap_data.type_id == page.cap_data.type_id
                    &&& g.cap_data.state == (Mapped {
                        vaddr: old(self).page_prefix_of(old(self).next_page),
                        asid: old(self).asid,
                    })
                    &&& final(kernel).page_present(
                        old(self).asid,
                        old(self).page_prefix_of(old(self).next_page),
                    )
                },
                Err((e, back)) => {
                    &&& back == page
                    &&& final(kernel).pages@ == old(kernel).pages@
                },
            },
            (old(self).map_ready(*old(kernel), old(self).next_page) && old(kernel).is_granule(
                page.cptr as int,
            )) ==> r matches Ok(_),
    {
        let ghost pre_self = *self;
        let ghost pre_kernel = *kernel;
        proof {
            lemma_suffix_nonneg(self.chain.levels@, 1);
            assert(suffix_index_bits(self.chain.levels@, 0) == self.chain.levels@[0].index_bits
                + suffix_index_bits(self.chain.levels@, 1));
        }
        let vaddr = self.next_page;
        let step = crate::pow::pow2_u64(self.chain.page_bits);
        self.next_page = self.next_page + step;
        proof {
            // Advancing the cursor changes nothing the walk's readiness
            // depends on.
            if pre_self.map_ready(pre_kernel, vaddr) {
                assert forall|j: int| 1 <= j < self.chain.depth() implies #[trigger] self.level_ok(
                    *kernel,
                    vaddr,
                    j,
                ) by {
                    assert(pre_self.level_ok(pre_kernel, vaddr, j));
                }
                assert(self.parents_ready(*kernel, vaddr, self.chain.depth()));
                assert(self.map_ready(*kernel, vaddr));
            }
        }
        self.map_granule_at(page, vaddr, _rights, _attrs, kernel)
    }
}

} // verus!
