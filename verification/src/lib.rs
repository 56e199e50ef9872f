//! A zero-copy binary codec for order messages: a header, a fixed block, one repeating group
//! of items and a trailing variable-length note, written to and read from a region of bytes
//! that the caller owns, in a single forward pass.
//!
//! The modules, from the bottom up:
//! - `endian`: little-endian integers as byte strings, the model that everything else is
//!   stated over, with the proof that what is written at a place is read there;
//! - `buffer`: the views of a region, `ReadBuf` and `WriteBuf`;
//! - `cursor`: the traits that cursors over a region follow, the states of a pass over a
//!   group, and the errors;
//! - `message_header_codec` and `decimal_codec`: the header of a message and the scaled
//!   decimal, as cursors that hold the cursor they were made from;
//! - `order_type` and `order_status`: the closed sets of codes, each with its sentinel;
//! - `order_message_codec`: the cursors that write and read an order message, and in
//!   `order_message_codec::wire` the layout of the message with the proof that an order that
//!   was written is read back as it was.
//!
//! No function here checks at run time that an offset lies in the region, except
//! `OrderMessageDecoder::validate`, which checks a whole message before any of it is read.
//! Every other function that reaches into the region asks of its caller that the place lies
//! inside.

pub mod buffer;
pub mod cursor;
pub mod decimal_codec;
pub mod endian;
pub mod message_header_codec;
pub mod order_message_codec;
pub mod order_status;
pub mod order_type;
pub mod text;

pub use buffer::{ReadBuf, WriteBuf};
pub use cursor::{ActingVersion, Decoder, Encoder, Reader, SbeErr, SbeResult, Writer};

use vstd::prelude::*;

verus! {

/// The schema that the messages of this library belong to.
pub const SBE_SCHEMA_ID: u16 = 1;

/// The version of that schema that this library writes.
pub const SBE_SCHEMA_VERSION: u16 = 0;

} // verus!
