//! The order message: a fixed block of three 64-bit numbers and the kind of order, a group
//! of items, and a note of variable length at the end.
//!
//! On the wire, all numbers little-endian, behind the header:
//!
//! | bytes | what |
//! |---|---|
//! | 0..8 | the order's number, `u64` |
//! | 8..16 | the client's number, `u64` |
//! | 16..24 | the time of the order, `u64` |
//! | 24 | the kind of order, one byte |
//! | (to the end of the block that the header declares) | what a later version has added |
//! | 2 + 1 | the preamble of the group: the size of an item's block, `u16`, and the number of items, `u8` |
//! | per item: 0..4 | the product's number, `u32` |
//! | per item: 4..6 | the quantity, `u16` |
//! | per item: 6..14 | the mantissa of the price of one, `i64`; the exponent is -2 |
//! | 2 + n | the note: its length, `u16`, and its bytes |

pub mod decoder;
pub mod encoder;
pub mod wire;

pub use crate::SBE_SCHEMA_ID;
pub use crate::SBE_SCHEMA_VERSION;
pub use decoder::OrderMessageDecoder;
pub use encoder::OrderMessageEncoder;

use vstd::prelude::*;

verus! {

/// The size of the fixed block of an order message in bytes.
pub const SBE_BLOCK_LENGTH: u16 = 25;

/// What a header says where an order message follows.
pub const SBE_TEMPLATE_ID: u16 = 1;

/// The size of the fixed block of each item in bytes.
pub const ITEM_BLOCK_LENGTH: u16 = 14;

} // verus!
