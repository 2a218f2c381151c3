//! The kernel-operation collaborator.
//!
//! Every mutating capability operation in this crate issues exactly one call
//! against a `Kernel` value, which stands for the microkernel at the system
//! boundary: it owns the object table and the address-space state, and each
//! call returns a 32-bit status code (zero on success).  The model keeps just
//! enough state to decide each call the way the kernel would: which untyped
//! regions are still live, which capability-table nodes exist, which
//! intermediate paging structures are installed, and which page-sized
//! prefixes are already mapped.
//!
//! `KernelMode::AlwaysMissing` is a fault-injection mode: every map call
//! reports the "missing intermediate structure" signal, which lets callers
//! exercise the bounded retry of the paging walk.

use vstd::prelude::*;

verus! {

use vstd::arithmetic::power2::pow2;
use crate::pow::pow2_u64;
use crate::pow::lemma_count_fits_pow2;

/// Success.
pub const KERNEL_OK: u32 = 0;
/// The capability given to the call does not refer to a live object of the
/// kind the call needs.
pub const KERNEL_INVALID_CAPABILITY: u32 = 2;
/// A size or count argument is out of range for the source object.
pub const KERNEL_RANGE_ERROR: u32 = 4;
/// The address-translation walk found no structure at an intermediate
/// level: the "missing intermediate structure" signal.
pub const KERNEL_FAILED_LOOKUP: u32 = 6;
/// The destination is already occupied (a prefix already mapped).
pub const KERNEL_DELETE_FIRST: u32 = 8;

/// log2 of the byte size of one capability-table slot.
pub const CNODE_SLOT_BITS: u8 = 4;

/// One object in the kernel's object table, indexed by capability pointer.
#[derive(Clone, Copy, Debug, PartialEq, Eq, Structural)]
pub enum KernelObject {
    /// Raw memory of 2^size_bits bytes; `live` turns false when it is
    /// consumed by a retype.
    UntypedObj { size_bits: u8, live: bool },
    /// A capability table with 2^radix slots; `live` turns false when the
    /// node is moved away by a mutate call.
    CNodeObj { radix: u8, guard: u64, live: bool },
    /// A paging structure; level 0 is the root of an address space.
    StructureObj { level: usize },
    /// A leaf mapping unit of 2^size_bits bytes.
    GranuleObj { size_bits: u8, type_id: usize },
}

/// What a retype call asks the kernel to produce.
#[derive(Clone, Copy, Debug, PartialEq, Eq, Structural)]
pub enum RetypeTarget {
    TargetUntyped { size_bits: u8 },
    TargetCNode { radix: u8 },
    TargetStructure { level: usize, size_bits: u8 },
    TargetGranule { size_bits: u8, type_id: usize },
}

/// An intermediate paging structure installed in an address space, recorded
/// by translation level and by the address prefix it covers.
#[derive(Clone, Copy, Debug, PartialEq, Eq, Structural)]
pub struct InstalledTable {
    pub asid: usize,
    pub level: usize,
    pub prefix: u64,
}

/// A page-sized mapping: in address space `asid`, the page-aligned prefix
/// `prefix` is occupied.
#[derive(Clone, Copy, Debug, PartialEq, Eq, Structural)]
pub struct MappedPage {
    pub asid: usize,
    pub prefix: u64,
}

/// How the collaborator answers map calls.
#[derive(Clone, Copy, Debug, PartialEq, Eq, Structural)]
pub enum KernelMode {
    /// Decide each call from the recorded state.
    Normal,
    /// Report the missing-structure signal on every map call.
    AlwaysMissing,
}

/// The kernel-operation collaborator itself.  Address spaces are numbered
/// 0 .. space_count; the root structure of each is always present, and the
/// installed intermediate tables and mapped pages are recorded flat,
/// tagged with the address space they belong to.
#[derive(Debug)]
pub struct Kernel {
    pub mode: KernelMode,
    pub objects: Vec<KernelObject>,
    pub space_count: usize,
    pub tables: Vec<InstalledTable>,
    pub pages: Vec<MappedPage>,
}

impl Kernel {
    /// Every untyped object's size tag fits a 64-bit byte count.
    pub open spec fn wf(self) -> bool {
        forall|i: int|
            0 <= i < self.objects@.len() ==> (#[trigger] self.objects@[i]
                matches KernelObject::UntypedObj { size_bits, .. } ==> size_bits < 64)
    }

    /// Capability `c` refers to a live (not yet consumed) untyped region.
    pub open spec fn is_live_untyped(self, c: int) -> bool {
        &&& 0 <= c < self.objects@.len()
        &&& self.objects@[c] matches KernelObject::UntypedObj { live: true, .. }
    }

    /// The size tag of the untyped region behind capability `c`.
    pub open spec fn untyped_size_bits(self, c: int) -> u8
        recommends
            self.is_live_untyped(c),
    {
        match self.objects@[c] {
            KernelObject::UntypedObj { size_bits, .. } => size_bits,
            _ => 0,
        }
    }

    /// Capability `c` refers to a live capability-table node.
    pub open spec fn is_live_cnode(self, c: int) -> bool {
        &&& 0 <= c < self.objects@.len()
        &&& self.objects@[c] matches KernelObject::CNodeObj { live: true, .. }
    }

    /// Capability `c` refers to a paging structure of translation level `l`.
    pub open spec fn is_structure(self, c: int, l: int) -> bool {
        &&& 0 <= c < self.objects@.len()
        &&& self.objects@[c] matches KernelObject::StructureObj { level } && level == l
    }

    /// Capability `c` refers to a leaf granule.
    pub open spec fn is_granule(self, c: int) -> bool {
        &&& 0 <= c < self.objects@.len()
        &&& self.objects@[c] matches KernelObject::GranuleObj { .. }
    }

    /// log2 byte size of what a retype target asks for.
    pub open spec fn target_size_bits(target: RetypeTarget) -> nat {
        match target {
            RetypeTarget::TargetUntyped { size_bits } => size_bits as nat,
            RetypeTarget::TargetCNode { radix } => radix as nat + CNODE_SLOT_BITS as nat,
            RetypeTarget::TargetStructure { size_bits, .. } => size_bits as nat,
            RetypeTarget::TargetGranule { size_bits, .. } => size_bits as nat,
        }
    }

    /// The object a successful retype produces.
    pub open spec fn new_object(target: RetypeTarget) -> KernelObject {
        match target {
            RetypeTarget::TargetUntyped { size_bits } => KernelObject::UntypedObj {
                size_bits,
                live: true,
            },
            RetypeTarget::TargetCNode { radix } => KernelObject::CNodeObj {
                radix,
                guard: 0,
                live: true,
            },
            RetypeTarget::TargetStructure { level, .. } => KernelObject::StructureObj { level },
            RetypeTarget::TargetGranule { size_bits, type_id } => KernelObject::GranuleObj {
                size_bits,
                type_id,
            },
        }
    }

    /// `num` objects of the target size fit in the source region.  A granule
    /// must take the region whole: its size was chosen to match exactly.
    pub open spec fn retype_fits(self, src: int, target: RetypeTarget, num: nat) -> bool {
        &&& 1 <= num
        &&& Self::target_size_bits(target) < 64
        &&& num * pow2(Self::target_size_bits(target)) <= pow2(
            self.untyped_size_bits(src) as nat,
        )
        &&& (target matches RetypeTarget::TargetGranule { size_bits, .. } ==> num == 1
            && size_bits == self.untyped_size_bits(src))
    }

    /// The status code a retype call returns, decided before any state
    /// changes: a consumed or foreign capability is rejected first, then a
    /// size that does not fit.
    pub open spec fn retype_status(self, src: int, target: RetypeTarget, num: nat) -> u32 {
        if !self.is_live_untyped(src) {
            KERNEL_INVALID_CAPABILITY
        } else if !self.retype_fits(src, target, num) {
            KERNEL_RANGE_ERROR
        } else {
            KERNEL_OK
        }
    }

    /// An empty system with no objects and no address spaces.
    pub fn new(mode: KernelMode) -> (k: Kernel)
        ensures
            k.mode == mode,
            k.objects@.len() == 0,
            k.space_count == 0,
            k.tables@.len() == 0,
            k.pages@.len() == 0,
            k.wf(),
    {
        Kernel { mode, objects: Vec::new(), space_count: 0, tables: Vec::new(), pages: Vec::new() }
    }

    /// The translation state other than the object table is unchanged.
    pub open spec fn same_translation(self, other: Kernel) -> bool {
        &&& self.space_count == other.space_count
        &&& self.tables@ == other.tables@
        &&& self.pages@ == other.pages@
    }

    /// The bootstrap collaborator hands the process its initial memory grant
    /// as untyped objects; this records one of them.
    pub fn register_initial_untyped(&mut self, size_bits: u8) -> (cptr: usize)
        requires
            size_bits < 64,
        ensures
            cptr == old(self).objects@.len(),
            final(self).objects@ == old(self).objects@.push(
                KernelObject::UntypedObj { size_bits, live: true },
            ),
            final(self).same_translation(*old(self)),
            final(self).mode == old(self).mode,
            old(self).wf() ==> final(self).wf(),
    {
        let cptr = self.objects.len();
        self.objects.push(KernelObject::UntypedObj { size_bits, live: true });
        cptr
    }

    /// The used-value probe: does this capability still refer to a live
    /// untyped region?  Reads only; never changes state.
    pub fn untyped_is_live(&self, c: usize) -> (r: bool)
        ensures
            r == self.is_live_untyped(c as int),
    {
        if c < self.objects.len() {
            match self.objects[c] {
                KernelObject::UntypedObj { live, .. } => live,
                _ => false,
            }
        } else {
            false
        }
    }

    /// One retype call: consume the source untyped region and produce `num`
    /// fresh objects of the target kind, at capability pointers starting at
    /// the old end of the object table.  On any non-zero status nothing
    /// changes: the source is not consumed.
    pub fn untyped_retype(&mut self, src: usize, target: RetypeTarget, num: usize) -> (status:
        u32)
        requires
            1 <= num <= 4,
            old(self).wf(),
        ensures
            final(self).wf(),
            status == old(self).retype_status(src as int, target, num as nat),
            final(self).mode == old(self).mode,
            final(self).same_translation(*old(self)),
            status == KERNEL_OK ==> final(self).objects@ == old(self).objects@.update(
                src as int,
                KernelObject::UntypedObj {
                    size_bits: old(self).untyped_size_bits(src as int),
                    live: false,
                },
            ) + Seq::new(num as nat, |i: int| Self::new_object(target)),
            status != KERNEL_OK ==> final(self).objects@ == old(self).objects@,
    {
        if src >= self.objects.len() {
            return KERNEL_INVALID_CAPABILITY;
        }
        let (src_bits, src_live): (u8, bool) = match self.objects[src] {
            KernelObject::UntypedObj { size_bits, live } => (size_bits, live),
            _ => { return KERNEL_INVALID_CAPABILITY },
        };
        if !src_live {
            return KERNEL_INVALID_CAPABILITY;
        }
        let tgt_bits: u64 = match target {
            RetypeTarget::TargetUntyped { size_bits } => size_bits as u64,
            RetypeTarget::TargetCNode { radix } => radix as u64 + CNODE_SLOT_BITS as u64,
            RetypeTarget::TargetStructure { size_bits, .. } => size_bits as u64,
            RetypeTarget::TargetGranule { size_bits, .. } => size_bits as u64,
        };
        if tgt_bits >= 64 || tgt_bits > src_bits as u64 {
            proof {
                if Self::target_size_bits(target) < 64 && Self::target_size_bits(target)
                    <= src_bits as nat {
                    assert(false);
                } else if Self::target_size_bits(target) < 64 {
                    vstd::arithmetic::power2::lemma_pow2_strictly_increases(
                        src_bits as nat,
                        Self::target_size_bits(target),
                    );
                    vstd::arithmetic::power2::lemma_pow2_pos(Self::target_size_bits(target));
                    assert(num * pow2(Self::target_size_bits(target)) >= 1 * pow2(
                        Self::target_size_bits(target),
                    )) by (nonlinear_arith)
                        requires
                            num >= 1,
                    ;
                }
            }
            return KERNEL_RANGE_ERROR;
        }
        let headroom: u64 = pow2_u64((src_bits as u64 - tgt_bits) as u8);
        proof {
            lemma_count_fits_pow2(num as nat, tgt_bits as nat, src_bits as nat);
        }
        if (num as u64) > headroom {
            return KERNEL_RANGE_ERROR;
        }
        match target {
            RetypeTarget::TargetGranule { size_bits, .. } => {
                if !(num == 1 && size_bits == src_bits) {
                    return KERNEL_RANGE_ERROR;
                }
            },
            _ => {},
        }
        self.objects[src] = KernelObject::UntypedObj { size_bits: src_bits, live: false };
        let ghost mid = self.objects@;
        let obj = match target {
            RetypeTarget::TargetUntyped { size_bits } => KernelObject::UntypedObj {
                size_bits,
                live: true,
            },
            RetypeTarget::TargetCNode { radix } => KernelObject::CNodeObj {
                radix,
                guard: 0,
                live: true,
            },
            RetypeTarget::TargetStructure { level, .. } => KernelObject::StructureObj { level },
            RetypeTarget::TargetGranule { size_bits, type_id } => KernelObject::GranuleObj {
                size_bits,
                type_id,
            },
        };
        let mut i: usize = 0;
        while i < num
            invariant
                i <= num,
                obj == Self::new_object(target),
                self.objects@ == mid + Seq::new(i as nat, |j: int| Self::new_object(target)),
                self.same_translation(*old(self)),
                self.mode == old(self).mode,
            decreases num - i,
        {
            self.objects.push(obj);
            proof {
                assert(self.objects@ =~= mid + Seq::new(
                    (i + 1) as nat,
                    |j: int| Self::new_object(target),
                ));
            }
            i += 1;
        }
        proof {
            assert(self.wf()) by {
                assert forall|k: int| 0 <= k < self.objects@.len() implies (
                #[trigger] self.objects@[k] matches KernelObject::UntypedObj { size_bits, .. }
                    ==> size_bits < 64) by {
                    if k < mid.len() {
                    } else {
                        assert(self.objects@[k] == Self::new_object(target));
                    }
                }
            };
        }
        KERNEL_OK
    }

    /// Address space `asid` exists.
    pub open spec fn valid_asid(self, asid: int) -> bool {
        0 <= asid < self.space_count
    }

    /// A structure at `level` covering `prefix` is installed in `asid`.
    /// The root structure (level 0) is always present.
    pub open spec fn table_present(self, asid: usize, level: usize, prefix: u64) -> bool {
        level == 0 || self.tables@.contains(InstalledTable { asid, level, prefix })
    }

    /// The page-aligned prefix is already mapped in `asid`.
    pub open spec fn page_present(self, asid: usize, prefix: u64) -> bool {
        self.pages@.contains(MappedPage { asid, prefix })
    }

    fn tables_contains(&self, asid: usize, level: usize, prefix: u64) -> (r: bool)
        ensures
            r == self.tables@.contains(InstalledTable { asid, level, prefix }),
    {
        let n = self.tables.len();
        let mut i: usize = 0;
        while i < n
            invariant
                i <= n,
                n == self.tables@.len(),
                forall|k: int|
                    0 <= k < i ==> self.tables@[k] != (InstalledTable { asid, level, prefix }),
            decreases n - i,
        {
            if self.tables[i] == (InstalledTable { asid, level, prefix }) {
                return true;
            }
            i += 1;
        }
        false
    }

    fn pages_contains(&self, asid: usize, prefix: u64) -> (r: bool)
        ensures
            r == self.pages@.contains(MappedPage { asid, prefix }),
    {
        let n = self.pages.len();
        let mut i: usize = 0;
        while i < n
            invariant
                i <= n,
                n == self.pages@.len(),
                forall|k: int| 0 <= k < i ==> self.pages@[k] != (MappedPage { asid, prefix }),
            decreases n - i,
        {
            if self.pages[i] == (MappedPage { asid, prefix }) {
                return true;
            }
            i += 1;
        }
        false
    }

    /// The status code of an address-space creation call.
    pub open spec fn create_space_status(self, root: int) -> u32 {
        if self.space_count == usize::MAX {
            KERNEL_RANGE_ERROR
        } else if !self.is_structure(root, 0) {
            KERNEL_INVALID_CAPABILITY
        } else {
            KERNEL_OK
        }
    }

    /// One call that turns a root paging structure into a fresh address
    /// space and hands back its identifier.
    pub fn create_address_space(&mut self, root_cptr: usize) -> (r: (u32, usize))
        ensures
            r.0 == old(self).create_space_status(root_cptr as int),
            final(self).mode == old(self).mode,
            final(self).objects@ == old(self).objects@,
            final(self).tables@ == old(self).tables@,
            final(self).pages@ == old(self).pages@,
            r.0 == KERNEL_OK ==> final(self).space_count == old(self).space_count + 1 && r.1
                == old(self).space_count,
            r.0 != KERNEL_OK ==> final(self).space_count == old(self).space_count,
    {
        if self.space_count == usize::MAX {
            return (KERNEL_RANGE_ERROR, 0);
        }
        if root_cptr >= self.objects.len() {
            return (KERNEL_INVALID_CAPABILITY, 0);
        }
        match self.objects[root_cptr] {
            KernelObject::StructureObj { level } => {
                if level != 0 {
                    return (KERNEL_INVALID_CAPABILITY, 0);
                }
            },
            _ => { return (KERNEL_INVALID_CAPABILITY, 0) },
        }
        let asid = self.space_count;
        self.space_count = self.space_count + 1;
        (KERNEL_OK, asid)
    }

    /// The status code of a capability-table mutate call.
    pub open spec fn mutate_status(self, src: int) -> u32 {
        if !self.is_live_cnode(src) {
            KERNEL_INVALID_CAPABILITY
        } else {
            KERNEL_OK
        }
    }

    /// The slot count tag of the capability-table node behind `c`.
    pub open spec fn cnode_radix(self, c: int) -> u8 {
        match self.objects@[c] {
            KernelObject::CNodeObj { radix, .. } => radix,
            _ => 0,
        }
    }

    /// One mutate call: move a capability-table node to a fresh capability
    /// pointer, stamping the given guard on it.  The source capability no
    /// longer refers to a live node afterwards.
    pub fn cnode_mutate(&mut self, src: usize, guard: u64) -> (r: (u32, usize))
        requires
            old(self).wf(),
        ensures
            final(self).wf(),
            r.0 == old(self).mutate_status(src as int),
            final(self).mode == old(self).mode,
            final(self).same_translation(*old(self)),
            r.0 == KERNEL_OK ==> final(self).objects@ == old(self).objects@.update(
                src as int,
                KernelObject::CNodeObj {
                    radix: old(self).cnode_radix(src as int),
                    guard: 0,
                    live: false,
                },
            ).push(
                KernelObject::CNodeObj {
                    radix: old(self).cnode_radix(src as int),
                    guard,
                    live: true,
                },
            ) && r.1 == old(self).objects@.len(),
            r.0 != KERNEL_OK ==> final(self).objects@ == old(self).objects@,
    {
        if src >= self.objects.len() {
            return (KERNEL_INVALID_CAPABILITY, 0);
        }
        let radix: u8 = match self.objects[src] {
            KernelObject::CNodeObj { radix, live, .. } => {
                if !live {
                    return (KERNEL_INVALID_CAPABILITY, 0);
                }
                radix
            },
            _ => { return (KERNEL_INVALID_CAPABILITY, 0) },
        };
        self.objects[src] = KernelObject::CNodeObj { radix, guard: 0, live: false };
        let dest = self.objects.len();
        self.objects.push(KernelObject::CNodeObj { radix, guard, live: true });
        (KERNEL_OK, dest)
    }

    /// The status code of a call that maps an intermediate structure of
    /// translation level `level` (1 or deeper) into its parent level.
    pub open spec fn page_table_map_status(
        self,
        asid: usize,
        level: usize,
        parent_prefix: u64,
        prefix: u64,
        tbl: int,
    ) -> u32
        recommends
            1 <= level,
    {
        if self.mode == KernelMode::AlwaysMissing {
            KERNEL_FAILED_LOOKUP
        } else if !self.valid_asid(asid as int) || !self.is_structure(tbl, level as int) {
            KERNEL_INVALID_CAPABILITY
        } else if !self.table_present(asid, (level - 1) as usize, parent_prefix) {
            KERNEL_FAILED_LOOKUP
        } else if self.table_present(asid, level, prefix) {
            KERNEL_DELETE_FIRST
        } else {
            KERNEL_OK
        }
    }

    /// One call that installs an intermediate paging structure into the
    /// level above it.  `KERNEL_FAILED_LOOKUP` is the missing-structure
    /// signal: the parent level has no structure covering `parent_prefix`.
    pub fn page_table_map(
        &mut self,
        asid: usize,
        level: usize,
        parent_prefix: u64,
        prefix: u64,
        table_cptr: usize,
    ) -> (status: u32)
        requires
            1 <= level,
        ensures
            status == old(self).page_table_map_status(
                asid,
                level,
                parent_prefix,
                prefix,
                table_cptr as int,
            ),
            final(self).mode == old(self).mode,
            final(self).objects@ == old(self).objects@,
            final(self).space_count == old(self).space_count,
            final(self).pages@ == old(self).pages@,
            status == KERNEL_OK ==> final(self).tables@ == old(self).tables@.push(
                InstalledTable { asid, level, prefix },
            ),
            status != KERNEL_OK ==> final(self).tables@ == old(self).tables@,
    {
        match self.mode {
            KernelMode::AlwaysMissing => { return KERNEL_FAILED_LOOKUP },
            KernelMode::Normal => {},
        }
        if asid >= self.space_count || table_cptr >= self.objects.len() {
            return KERNEL_INVALID_CAPABILITY;
        }
        match self.objects[table_cptr] {
            KernelObject::StructureObj { level: l } => {
                if l != level {
                    return KERNEL_INVALID_CAPABILITY;
                }
            },
            _ => { return KERNEL_INVALID_CAPABILITY },
        }
        if level - 1 != 0 && !self.tables_contains(asid, level - 1, parent_prefix) {
            return KERNEL_FAILED_LOOKUP;
        }
        if self.tables_contains(asid, level, prefix) {
            return KERNEL_DELETE_FIRST;
        }
        self.tables.push(InstalledTable { asid, level, prefix });
        KERNEL_OK
    }

    /// The status code of a call that maps a leaf granule whose parent
    /// structure sits at translation level `parent_level`.
    pub open spec fn page_map_status(
        self,
        asid: usize,
        parent_level: usize,
        parent_prefix: u64,
        page_prefix: u64,
        page: int,
    ) -> u32 {
        if self.mode == KernelMode::AlwaysMissing {
            KERNEL_FAILED_LOOKUP
        } else if !self.valid_asid(asid as int) || !self.is_granule(page) {
            KERNEL_INVALID_CAPABILITY
        } else if !self.table_present(asid, parent_level, parent_prefix) {
            KERNEL_FAILED_LOOKUP
        } else if self.page_present(asid, page_prefix) {
            KERNEL_DELETE_FIRST
        } else {
            KERNEL_OK
        }
    }

    /// One call that maps a leaf granule at a page-aligned prefix.
    pub fn page_map(
        &mut self,
        asid: usize,
        parent_level: usize,
        parent_prefix: u64,
        page_prefix: u64,
        page_cptr: usize,
    ) -> (status: u32)
        ensures
            status == old(self).page_map_status(
                asid,
                parent_level,
                parent_prefix,
                page_prefix,
                page_cptr as int,
            ),
            final(self).mode == old(self).mode,
            final(self).objects@ == old(self).objects@,
            final(self).space_count == old(self).space_count,
            final(self).tables@ == old(self).tables@,
            status == KERNEL_OK ==> final(self).pages@ == old(self).pages@.push(
                MappedPage { asid, prefix: page_prefix },
            ),
            status != KERNEL_OK ==> final(self).pages@ == old(self).pages@,
    {
        match self.mode {
            KernelMode::AlwaysMissing => { return KERNEL_FAILED_LOOKUP },
            KernelMode::Normal => {},
        }
        if asid >= self.space_count || page_cptr >= self.objects.len() {
            return KERNEL_INVALID_CAPABILITY;
        }
        match self.objects[page_cptr] {
            KernelObject::GranuleObj { .. } => {},
            _ => { return KERNEL_INVALID_CAPABILITY },
        }
        if parent_level != 0 && !self.tables_contains(asid, parent_level, parent_prefix) {
            return KERNEL_FAILED_LOOKUP;
        }
        if self.pages_contains(asid, page_prefix) {
            return KERNEL_DELETE_FIRST;
        }
        self.pages.push(MappedPage { asid, prefix: page_prefix });
        KERNEL_OK
    }
}

} // verus!
