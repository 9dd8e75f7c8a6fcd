//! Decoding of ELF object-file headers and section records, for 32- and
//! 64-bit images in either byte order.

pub mod elfio;
pub mod header;
pub mod section;
pub mod types;
pub mod utils;
