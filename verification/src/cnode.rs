//! Capability-table nodes and the slot-allocator view over them.
//!
//! A process's capability table is carved in bulk from an untyped region;
//! the resulting node hands out its empty slots through a `CNodeSlots`
//! view.  A slot is consumed at most once: consuming operations advance
//! `used`, and an individual `Slot` value is moved into the operation that
//! fills it.

use vstd::prelude::*;

verus! {

use crate::cap::Cap;
use crate::cap::CapType;
use crate::cap::Untyped;
use crate::error::CapOpError;
use crate::error::SeL4Error;
use crate::kernel::Kernel;
use crate::kernel::KernelObject;
use crate::kernel::RetypeTarget;
use crate::kernel::CNODE_SLOT_BITS;
use crate::kernel::KERNEL_OK;
use crate::pow::pow2_u64;

/// The machine word width the capability-data encoding assumes.
pub const WORD_BITS: u8 = 64;

/// A capability-table node with 2^radix slots.
#[derive(Clone, Copy, Debug, PartialEq, Eq, Structural)]
pub struct CNode {
    pub radix: u8,
}

impl CapType for CNode {

}

/// One empty cell of a capability table.  The value is handed out at most
/// once and is consumed by the operation that fills the cell.
#[derive(Debug)]
pub struct Slot {
    pub cnode_cptr: usize,
    pub offset: u64,
}

/// The slot-allocator view over a capability-table node: slots
/// 0 .. used are occupied, slots used .. total are still empty.  The view
/// is deliberately not copyable: slots handed out through one view are
/// consumed for good.
#[derive(Debug)]
pub struct CNodeSlots {
    pub cnode_cptr: usize,
    pub total: u64,
    pub used: u64,
}

impl CNodeSlots {
    /// No more cells are marked occupied than the table has.
    pub open spec fn wf(self) -> bool {
        self.used <= self.total
    }

    /// How many empty slots are left.
    pub open spec fn free_slots(self) -> int {
        self.total - self.used
    }

    /// A fresh view over a table of `total` slots, none occupied.
    pub fn new(cnode_cptr: usize, total: u64) -> (s: CNodeSlots)
        ensures
            s.cnode_cptr == cnode_cptr,
            s.total == total,
            s.used == 0,
            s.wf(),
    {
        CNodeSlots { cnode_cptr, total, used: 0 }
    }

    /// How many empty slots are left.
    pub fn remaining(&self) -> (r: u64)
        requires
            self.wf(),
        ensures
            r == self.free_slots(),
    {
        self.total - self.used
    }

    /// Hand out the next empty slot, or report exhaustion before any
    /// kernel call is made.
    pub fn next_slot(&mut self) -> (r: Result<Slot, CapOpError>)
        requires
            old(self).wf(),
        ensures
            final(self).wf(),
            final(self).cnode_cptr == old(self).cnode_cptr,
            final(self).total == old(self).total,
            r matches Ok(_) <==> old(self).free_slots() >= 1,
            match r {
                Ok(slot) => {
                    &&& slot.cnode_cptr == old(self).cnode_cptr
                    &&& slot.offset == old(self).used
                    &&& final(self).used == old(self).used + 1
                },
                Err(e) => {
                    &&& e == CapOpError::SlotsExhausted
                    &&& final(self).used == old(self).used
                },
            },
    {
        if self.used == self.total {
            return Err(CapOpError::SlotsExhausted);
        }
        let offset = self.used;
        self.used = self.used + 1;
        Ok(Slot { cnode_cptr: self.cnode_cptr, offset })
    }

    /// Mark `n` slots consumed; the caller has already checked they are
    /// free.
    pub(crate) fn take(&mut self, n: u64)
        requires
            old(self).wf(),
            old(self).free_slots() >= n,
        ensures
            final(self).wf(),
            final(self).cnode_cptr == old(self).cnode_cptr,
            final(self).total == old(self).total,
            final(self).used == old(self).used + n,
    {
        self.used = self.used + n;
    }
}

impl Cap<CNode> {
    /// Create a capability-table node from an untyped region.
    ///
    /// Two kernel calls, as the capability-data scheme demands: one retype
    /// fills a scratch slot with a fresh node, then one mutate moves the
    /// node to its final slot while stamping the guard word on it (the
    /// guard value together with its size in bits, `WORD_BITS - radix`).
    /// On failure neither the region nor any slot is consumed.
    pub fn new(ut: Cap<Untyped>, guard: u64, radix: u8, slots: &mut CNodeSlots, kernel: &mut Kernel) -> (r: Result<
        Cap<CNode>,
        (CapOpError, Cap<Untyped>),
    >)
        requires
            old(kernel).wf(),
            old(slots).wf(),
            1 <= radix <= WORD_BITS,
            guard < 0x400000000000000,
        ensures
            final(kernel).wf(),
            final(slots).wf(),
            final(kernel).mode == old(kernel).mode,
            final(kernel).same_translation(*old(kernel)),
            final(slots).cnode_cptr == old(slots).cnode_cptr,
            final(slots).total == old(slots).total,
            r matches Ok(_) <==> old(slots).free_slots() >= 2 && old(kernel).retype_status(
                ut.cptr as int,
                RetypeTarget::TargetCNode { radix },
                1,
            ) == KERNEL_OK,
            match r {
                Ok(c) => {
                    &&& c.cap_data.radix == radix
                    &&& c.cptr == old(kernel).objects@.len() + 1
                    &&& final(kernel).is_live_cnode(c.cptr as int)
                    &&& !final(kernel).is_live_untyped(ut.cptr as int)
                    &&& final(slots).used == old(slots).used + 2
                    &&& final(kernel).objects@ == old(kernel).objects@.update(
                        ut.cptr as int,
                        KernelObject::UntypedObj {
                            size_bits: old(kernel).untyped_size_bits(ut.cptr as int),
                            live: false,
                        },
                    ).push(KernelObject::CNodeObj { radix, guard: 0, live: false }).push(
                        KernelObject::CNodeObj {
                            radix,
                            guard: (guard << 6) | ((WORD_BITS - radix) as u64),
                            live: true,
                        },
                    )
                },
                Err((e, back)) => {
                    &&& back == ut
                    &&& final(kernel).objects@ == old(kernel).objects@
                    &&& final(slots).used == old(slots).used
                    &&& (old(slots).free_slots() < 2 ==> e == CapOpError::SlotsExhausted)
                    &&& (old(slots).free_slots() >= 2 ==> e == CapOpError::KernelRejection(
                        SeL4Error::UntypedRetype(
                            old(kernel).retype_status(
                                ut.cptr as int,
                                RetypeTarget::TargetCNode { radix },
                                1,
                            ),
                        ),
                    ))
                },
            },
    {
        if slots.remaining() < 2 {
            return Err((CapOpError::SlotsExhausted, ut));
        }
        let scratch = kernel.objects.len();
        let status = kernel.untyped_retype(ut.cptr, RetypeTarget::TargetCNode { radix }, 1);
        if status != KERNEL_OK {
            return Err((CapOpError::KernelRejection(SeL4Error::UntypedRetype(status)), ut));
        }
        let guard_size: u64 = (WORD_BITS - radix) as u64;
        let guard_word: u64 = (guard << 6) | guard_size;
        let (mutate_status, dest) = kernel.cnode_mutate(scratch, guard_word);
        if mutate_status != KERNEL_OK {
            return Err(
                (CapOpError::KernelRejection(SeL4Error::CNodeMutate(mutate_status)), ut),
            );
        }
        slots.take(2);
        Ok(Cap { cptr: dest, cap_data: CNode { radix } })
    }
}

/// Retype an untyped region into a capability-table node of 2^radix
/// slots and return, with the node, a fresh slot-allocator view over it
/// with zero slots occupied (the table's slot 0 backs the node's own
/// guard bookkeeping, so the view hands out the remaining 2^radix - 1).
pub fn retype_cnode(
    ut: Cap<Untyped>,
    radix: u8,
    slots: &mut CNodeSlots,
    kernel: &mut Kernel,
) -> (r: Result<(Cap<CNode>, CNodeSlots), (CapOpError, Cap<Untyped>)>)
    requires
        old(kernel).wf(),
        old(slots).wf(),
        1 <= radix,
        radix + CNODE_SLOT_BITS < 64,
    ensures
        final(kernel).wf(),
        final(slots).wf(),
        final(kernel).mode == old(kernel).mode,
        final(kernel).same_translation(*old(kernel)),
        final(slots).cnode_cptr == old(slots).cnode_cptr,
        final(slots).total == old(slots).total,
        r matches Ok(_) <==> old(slots).free_slots() >= 2 && old(kernel).retype_status(
            ut.cptr as int,
            RetypeTarget::TargetCNode { radix },
            1,
        ) == KERNEL_OK,
        match r {
            Ok((c, view)) => {
                &&& c.cap_data.radix == radix
                &&& final(kernel).is_live_cnode(c.cptr as int)
                &&& !final(kernel).is_live_untyped(ut.cptr as int)
                &&& view.cnode_cptr == c.cptr
                &&& view.used == 0
                &&& view.total == vstd::arithmetic::power2::pow2(radix as nat) - 1
                &&& view.wf()
            },
            Err((e, back)) => {
                &&& back == ut
                &&& final(kernel).objects@ == old(kernel).objects@
                &&& final(slots).used == old(slots).used
            },
        },
{
    let c = match Cap::<CNode>::new(ut, 0, radix, slots, kernel) {
        Ok(c) => c,
        Err(e) => { return Err(e) },
    };
    let slot_count = pow2_u64(radix);
    let view = CNodeSlots::new(c.cptr, slot_count - 1);
    Ok((c, view))
}

} // verus!
