//! Capability-typed resource and virtual-memory model for userland code on a
//! capability-based microkernel.
//!
//! The kernel exposes memory and address-space structures as opaque,
//! revocable capability handles.  This crate models that discipline: a
//! capability's kind and mapping state are part of its value, consuming
//! operations (split, quarter, retype, map) take ownership, and every
//! mutating operation issues exactly one call against an explicit
//! kernel-operation collaborator whose behaviour is itself specified here.

pub mod arch;
pub mod cap;
pub mod cnode;
pub mod error;
pub mod granule;
pub mod kernel;
pub mod micro_alloc;
pub mod pow;
pub mod vspace;
