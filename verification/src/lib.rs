//! Verified core of the OMWEI execution boundary and semantic engine.

pub mod hashing;
pub mod text;
pub mod string_map;
pub mod boundary;
pub mod semantic;
pub mod registers;
pub mod interrupts;
pub mod crypto;
pub mod uart;
pub mod sync;
pub mod kernel;
