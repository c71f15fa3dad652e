//! Decoding of Intel HEX object files: one record per line, each protected by
//! a two's-complement checksum.

pub mod hexdigits;
pub mod record;
pub mod file;
pub mod theorems;

pub use file::FileParsingError;
pub use record::{Record, RecordParsingError};
