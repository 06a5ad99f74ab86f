//! What the library takes from the `bytes`, `http` and `itoa` crates, and what
//! it assumes of each item.

pub mod buf;
pub mod decimal;
pub mod header;
