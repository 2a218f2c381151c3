//! Architecture configuration.
//!
//! Each architecture supplies the data the core is parameterized over:
//! the ordered granule sizes for best-fit sizing, the translation chain
//! with its per-level index bits and structure sizes, and the kernel
//! object-type identifier for each kind.  The core itself holds no
//! architecture-specific constants.

pub mod aarch64;
pub mod arm;
