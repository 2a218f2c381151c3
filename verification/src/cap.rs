//! Capability handles and the untyped-memory buddy operations.
//!
//! A `Cap<CT>` pairs a capability pointer with a payload describing the
//! kind of kernel object it refers to.  Operations that convert a
//! capability (split, quarter, retype) take it by value: once consumed, the
//! value cannot be used again.  On failure the operation hands the
//! unconsumed capability back to the caller.

use vstd::prelude::*;

verus! {

use vstd::arithmetic::power2::pow2;
use vstd::arithmetic::power2::lemma_pow2_adds;
use vstd::arithmetic::power2::lemma_pow2_strictly_increases;
use vstd::arithmetic::power2::lemma2_to64;
use crate::cnode::CNodeSlots;
use crate::error::CapOpError;
use crate::error::SeL4Error;
use crate::kernel::Kernel;
use crate::kernel::KernelObject;
use crate::kernel::RetypeTarget;
use crate::kernel::KERNEL_OK;
use crate::kernel::KERNEL_INVALID_CAPABILITY;

/// Marker for the payload types a capability can carry.
pub trait CapType {

}

/// A capability handle: a pointer into the kernel's object table, tagged
/// with what the process knows about the object behind it.
#[derive(Debug)]
pub struct Cap<CT: CapType> {
    pub cptr: usize,
    pub cap_data: CT,
}

/// A capability held in the process's own capability table.
pub type LocalCap<CT> = Cap<CT>;

impl<CT: CapType> Cap<CT> {
    /// The raw capability pointer.
    pub fn cptr(&self) -> (r: usize)
        ensures
            r == self.cptr,
    {
        self.cptr
    }
}

/// Capability kinds that retype directly from an untyped region under a
/// fixed kernel object-type identifier.
pub trait DirectRetype {
    spec fn spec_sel4_type_id() -> usize;

    fn sel4_type_id() -> (r: usize)
        ensures
            r == Self::spec_sel4_type_id(),
    ;
}

/// Capability kinds whose payload carries no run-time data.
pub trait PhantomCap: Sized {
    fn phantom_instance() -> Self;
}

/// Raw memory of 2^size_bits bytes, not yet specialized into any kernel
/// object kind.
#[derive(Clone, Copy, Debug, PartialEq, Eq, Structural)]
pub struct Untyped {
    pub size_bits: u8,
}

impl CapType for Untyped {

}

impl Cap<Untyped> {
    /// The handle agrees with the kernel: it points at a live untyped
    /// region whose recorded size matches the handle's tag.
    pub open spec fn valid(self, k: Kernel) -> bool {
        &&& k.is_live_untyped(self.cptr as int)
        &&& k.untyped_size_bits(self.cptr as int) == self.cap_data.size_bits
        &&& self.cap_data.size_bits < 64
    }

    /// The size tag: log2 of the region's byte count.
    pub fn size_bits(&self) -> (r: u8)
        ensures
            r == self.cap_data.size_bits,
    {
        self.cap_data.size_bits
    }

    /// Split a region of 2^n bytes into two regions of 2^(n-1) bytes.
    ///
    /// One kernel call retypes the source into both children; the source is
    /// consumed and two fresh slots are occupied.  On failure — no two
    /// empty slots, or the kernel rejects the retype (for instance because
    /// the region was already consumed) — nothing is consumed and the
    /// region is handed back.
    pub fn split(self, slots: &mut CNodeSlots, kernel: &mut Kernel) -> (r: Result<
        (Cap<Untyped>, Cap<Untyped>),
        (CapOpError, Cap<Untyped>),
    >)
        requires
            old(kernel).wf(),
            old(slots).wf(),
            self.cap_data.size_bits >= 1,
        ensures
            final(kernel).wf(),
            final(slots).wf(),
            final(kernel).mode == old(kernel).mode,
            final(kernel).same_translation(*old(kernel)),
            final(slots).cnode_cptr == old(slots).cnode_cptr,
            final(slots).total == old(slots).total,
            r matches Ok(_) <==> old(slots).free_slots() >= 2 && old(kernel).retype_status(
                self.cptr as int,
                RetypeTarget::TargetUntyped { size_bits: (self.cap_data.size_bits - 1) as u8 },
                2,
            ) == KERNEL_OK,
            match r {
                Ok((a, b)) => {
                    &&& a.cap_data.size_bits == self.cap_data.size_bits - 1
                    &&& b.cap_data.size_bits == self.cap_data.size_bits - 1
                    &&& a.cptr == old(kernel).objects@.len()
                    &&& b.cptr == old(kernel).objects@.len() + 1
                    &&& a.valid(*final(kernel))
                    &&& b.valid(*final(kernel))
                    &&& !final(kernel).is_live_untyped(self.cptr as int)
                    &&& final(slots).used == old(slots).used + 2
                    &&& final(kernel).objects@ == old(kernel).objects@.update(
                        self.cptr as int,
                        KernelObject::UntypedObj {
                            size_bits: old(kernel).untyped_size_bits(self.cptr as int),
                            live: false,
                        },
                    ) + Seq::new(
                        2,
                        |i: int|
                            KernelObject::UntypedObj {
                                size_bits: (self.cap_data.size_bits - 1) as u8,
                                live: true,
                            },
                    )
                },
                Err((e, back)) => {
                    &&& back == self
                    &&& final(kernel).objects@ == old(kernel).objects@
                    &&& final(slots).used == old(slots).used
                    &&& (old(slots).free_slots() < 2 ==> e == CapOpError::SlotsExhausted)
                    &&& (old(slots).free_slots() >= 2 ==> e == CapOpError::KernelRejection(
                        SeL4Error::UntypedRetype(
                            old(kernel).retype_status(
                                self.cptr as int,
                                RetypeTarget::TargetUntyped {
                                    size_bits: (self.cap_data.size_bits - 1) as u8,
                                },
                                2,
                            ),
                        ),
                    ))
                },
            },
    {
        if slots.remaining() < 2 {
            return Err((CapOpError::SlotsExhausted, self));
        }
        let child_bits = self.cap_data.size_bits - 1;
        let first = kernel.objects.len();
        let status = kernel.untyped_retype(
            self.cptr,
            RetypeTarget::TargetUntyped { size_bits: child_bits },
            2,
        );
        if status != KERNEL_OK {
            return Err((CapOpError::KernelRejection(SeL4Error::UntypedRetype(status)), self));
        }
        slots.take(2);
        let end = kernel.objects.len();
        let a = Cap { cptr: end - 2, cap_data: Untyped { size_bits: child_bits } };
        let b = Cap { cptr: end - 1, cap_data: Untyped { size_bits: child_bits } };
        Ok((a, b))
    }

    /// Split a region of 2^n bytes into four regions of 2^(n-2) bytes:
    /// two levels of split in one kernel call.  Consumes the source and
    /// four fresh slots; on failure nothing is consumed.
    pub fn quarter(self, slots: &mut CNodeSlots, kernel: &mut Kernel) -> (r: Result<
        (Cap<Untyped>, Cap<Untyped>, Cap<Untyped>, Cap<Untyped>),
        (CapOpError, Cap<Untyped>),
    >)
        requires
            old(kernel).wf(),
            old(slots).wf(),
            self.cap_data.size_bits >= 2,
        ensures
            final(kernel).wf(),
            final(slots).wf(),
            final(kernel).mode == old(kernel).mode,
            final(kernel).same_translation(*old(kernel)),
            final(slots).cnode_cptr == old(slots).cnode_cptr,
            final(slots).total == old(slots).total,
            r matches Ok(_) <==> old(slots).free_slots() >= 4 && old(kernel).retype_status(
                self.cptr as int,
                RetypeTarget::TargetUntyped { size_bits: (self.cap_data.size_bits - 2) as u8 },
                4,
            ) == KERNEL_OK,
            match r {
                Ok((c1, c2, c3, c4)) => {
                    &&& c1.cap_data.size_bits == self.cap_data.size_bits - 2
                    &&& c2.cap_data.size_bits == self.cap_data.size_bits - 2
                    &&& c3.cap_data.size_bits == self.cap_data.size_bits - 2
                    &&& c4.cap_data.size_bits == self.cap_data.size_bits - 2
                    &&& c1.cptr == old(kernel).objects@.len()
                    &&& c2.cptr == old(kernel).objects@.len() + 1
                    &&& c3.cptr == old(kernel).objects@.len() + 2
                    &&& c4.cptr == old(kernel).objects@.len() + 3
                    &&& c1.valid(*final(kernel))
                    &&& c2.valid(*final(kernel))
                    &&& c3.valid(*final(kernel))
                    &&& c4.valid(*final(kernel))
                    &&& !final(kernel).is_live_untyped(self.cptr as int)
                    &&& final(slots).used == old(slots).used + 4
                    &&& final(kernel).objects@ == old(kernel).objects@.update(
                        self.cptr as int,
                        KernelObject::UntypedObj {
                            size_bits: old(kernel).untyped_size_bits(self.cptr as int),
                            live: false,
                        },
                    ) + Seq::new(
                        4,
                        |i: int|
                            KernelObject::UntypedObj {
                                size_bits: (self.cap_data.size_bits - 2) as u8,
                                live: true,
                            },
                    )
                },
                Err((e, back)) => {
                    &&& back == self
                    &&& final(kernel).objects@ == old(kernel).objects@
                    &&& final(slots).used == old(slots).used
                    &&& (old(slots).free_slots() < 4 ==> e == CapOpError::SlotsExhausted)
                    &&& (old(slots).free_slots() >= 4 ==> e == CapOpError::KernelRejection(
                        SeL4Error::UntypedRetype(
                            old(kernel).retype_status(
                                self.cptr as int,
                                RetypeTarget::TargetUntyped {
                                    size_bits: (self.cap_data.size_bits - 2) as u8,
                                },
                                4,
                            ),
                        ),
                    ))
                },
            },
    {
        if slots.remaining() < 4 {
            return Err((CapOpError::SlotsExhausted, self));
        }
        let child_bits = self.cap_data.size_bits - 2;
        let first = kernel.objects.len();
        let status = kernel.untyped_retype(
            self.cptr,
            RetypeTarget::TargetUntyped { size_bits: child_bits },
            4,
        );
        if status != KERNEL_OK {
            return Err((CapOpError::KernelRejection(SeL4Error::UntypedRetype(status)), self));
        }
        slots.take(4);
        let end = kernel.objects.len();
        let c1 = Cap { cptr: end - 4, cap_data: Untyped { size_bits: child_bits } };
        let c2 = Cap { cptr: end - 3, cap_data: Untyped { size_bits: child_bits } };
        let c3 = Cap { cptr: end - 2, cap_data: Untyped { size_bits: child_bits } };
        let c4 = Cap { cptr: end - 1, cap_data: Untyped { size_bits: child_bits } };
        Ok((c1, c2, c3, c4))
    }
}

/// Record one region of the bootstrap memory grant with the kernel and
/// wrap it as a live untyped capability.
pub fn wrap_untyped(kernel: &mut Kernel, size_bits: u8) -> (ut: Cap<Untyped>)
    requires
        old(kernel).wf(),
        size_bits < 64,
    ensures
        final(kernel).wf(),
        final(kernel).mode == old(kernel).mode,
        final(kernel).same_translation(*old(kernel)),
        final(kernel).objects@ == old(kernel).objects@.push(
            KernelObject::UntypedObj { size_bits, live: true },
        ),
        ut.cap_data.size_bits == size_bits,
        ut.cptr == old(kernel).objects@.len(),
        ut.valid(*final(kernel)),
{
    let cptr = kernel.register_initial_untyped(size_bits);
    Cap { cptr, cap_data: Untyped { size_bits } }
}

/// Conservation under split: the two children of a 2^n region hold
/// 2^(n-1) bytes each, which together is exactly the parent's 2^n bytes,
/// and each child is strictly smaller than the parent.
pub proof fn lemma_split_conserves_size(parent_bits: u8)
    requires
        1 <= parent_bits,
    ensures
        pow2((parent_bits - 1) as nat) + pow2((parent_bits - 1) as nat) == pow2(
            parent_bits as nat,
        ),
        pow2((parent_bits - 1) as nat) < pow2(parent_bits as nat),
{
    lemma_pow2_adds((parent_bits - 1) as nat, 1);
    lemma2_to64();
    lemma_pow2_strictly_increases((parent_bits - 1) as nat, parent_bits as nat);
}

/// Conservation under quarter: the four children of a 2^n region hold
/// 2^(n-2) bytes each, together exactly the parent's 2^n bytes, and each
/// child is strictly smaller than the parent.
pub proof fn lemma_quarter_conserves_size(parent_bits: u8)
    requires
        2 <= parent_bits,
    ensures
        4 * pow2((parent_bits - 2) as nat) == pow2(parent_bits as nat),
        pow2((parent_bits - 2) as nat) < pow2(parent_bits as nat),
{
    lemma_pow2_adds((parent_bits - 2) as nat, 2);
    lemma2_to64();
    lemma_pow2_strictly_increases((parent_bits - 2) as nat, parent_bits as nat);
}

/// Single use: once an untyped region has been consumed, every further
/// retype of the same capability — any target kind, any count — is
/// rejected by the kernel with an invalid-capability status, and never
/// succeeds.
pub proof fn lemma_consumed_region_rejected(k: Kernel, c: int, target: RetypeTarget, num: nat)
    requires
        !k.is_live_untyped(c),
    ensures
        k.retype_status(c, target, num) == KERNEL_INVALID_CAPABILITY,
        k.retype_status(c, target, num) != KERNEL_OK,
{
}

} // verus!
