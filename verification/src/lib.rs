//! Verified core of the pgrx runtime for the pgrust target: transaction-id
//! arithmetic, alignment, memory-context bookkeeping, `StringInfo` buffers,
//! varlena headers, error reports, custom GUC bookkeeping, the extension
//! registry and control files, and the SPI tuple-table cursor logic.

pub mod control;
pub mod encoding;
pub mod error;
pub mod finfo;
pub mod fmgr;
pub mod guc;
pub mod htup;
pub mod magic;
pub mod mem;
pub mod port;
pub mod registry;
pub mod spi;
pub mod srf;
pub mod stringinfo;
pub mod tuples;
pub mod varlena;
