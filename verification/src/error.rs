//! Error taxonomy for capability operations.
//!
//! A kernel rejection carries the originating operation and the raw 32-bit
//! status code the kernel returned.  Resource exhaustion is detected locally,
//! before any kernel call is made.  The structure-overflow signal used by the
//! paging walk is not an error of this module; see `vspace::MappingError`.

use vstd::prelude::*;

verus! {

/// A non-zero status code returned by the kernel, tagged with the operation
/// that was being performed when the kernel rejected it.
#[derive(Clone, Copy, Debug, PartialEq, Eq, Structural)]
pub enum SeL4Error {
    UntypedRetype(u32),
    TCBConfigure(u32),
    MapPageTable(u32),
    UnmapPageTable(u32),
    ASIDPoolAssign(u32),
    MapPage(u32),
    UnmapPage(u32),
    CNodeCopy(u32),
    CNodeMint(u32),
    TCBWriteRegisters(u32),
    TCBSetPriority(u32),
    TCBResume(u32),
    CNodeMutate(u32),
    CNodeMove(u32),
    CNodeDelete(u32),
}

/// Why a capability operation failed.
///
/// `KernelRejection` means the single underlying kernel call returned a
/// non-zero status; the inputs were not consumed and the caller may retry or
/// release them.  `SlotsExhausted` means no empty capability-table slot was
/// available locally; it is raised before any kernel call is made.
#[derive(Clone, Copy, Debug, PartialEq, Eq, Structural)]
pub enum CapOpError {
    KernelRejection(SeL4Error),
    SlotsExhausted,
}

} // verus!
