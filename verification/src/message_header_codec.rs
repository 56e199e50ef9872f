//! The header that stands before every message: four little-endian `u16`, eight bytes in
//! all. It names the size of the message's fixed block, the kind of message, the schema and
//! the version of the schema that the message was written with.

use crate::buffer::ReadBuf;
use crate::cursor::{ActingVersion, CompositeFrame, Reader, SbeErr, SbeResult, Writer};
use crate::endian::{
    le_bytes, lemma_le_bytes_len, lemma_radix_values, lemma_unsigned_read_back,
    lemma_unsigned_untouched, overwrite, unsigned_at,
};
use crate::SBE_SCHEMA_VERSION;
use vstd::prelude::*;

verus! {

/// The size of the header in bytes.
pub const ENCODED_LENGTH: usize = 8;

/// The four numbers of a header.
pub struct Header {
    /// The size of the fixed block of the message that follows.
    pub block_length: u16,
    /// Which kind of message follows.
    pub template_id: u16,
    /// The schema that the message belongs to.
    pub schema_id: u16,
    /// The version of the schema that the message was written with.
    pub version: u16,
}

/// `bytes` with `header` written from index `at` on.
pub open spec fn with_header(bytes: Seq<u8>, at: int, header: Header) -> Seq<u8> {
    let first = overwrite(bytes, at, le_bytes(header.block_length as nat, 2));
    let second = overwrite(first, at + 2, le_bytes(header.template_id as nat, 2));
    let third = overwrite(second, at + 4, le_bytes(header.schema_id as nat, 2));
    overwrite(third, at + 6, le_bytes(header.version as nat, 2))
}

/// The header that stands in `bytes` from index `at` on.
pub open spec fn header_at(bytes: Seq<u8>, at: int) -> Header {
    Header {
        block_length: unsigned_at(bytes, at, 2) as u16,
        template_id: unsigned_at(bytes, at + 2, 2) as u16,
        schema_id: unsigned_at(bytes, at + 4, 2) as u16,
        version: unsigned_at(bytes, at + 6, 2) as u16,
    }
}

/// A header is read as it was written, and writing it changes no byte outside the eight
/// from `at` on.
pub proof fn lemma_header_round_trip(bytes: Seq<u8>, at: int, header: Header)
    requires
        0 <= at,
        at + ENCODED_LENGTH <= bytes.len(),
    ensures
        header_at(with_header(bytes, at, header), at) == header,
        with_header(bytes, at, header).len() == bytes.len(),
        forall|i: int|
            0 <= i < bytes.len() && !(at <= i < at + ENCODED_LENGTH) ==> with_header(
                bytes,
                at,
                header,
            )[i] == bytes[i],
{
    lemma_radix_values();
    let block_length = le_bytes(header.block_length as nat, 2);
    let template_id = le_bytes(header.template_id as nat, 2);
    let schema_id = le_bytes(header.schema_id as nat, 2);
    let version = le_bytes(header.version as nat, 2);
    let first = overwrite(bytes, at, block_length);
    let second = overwrite(first, at + 2, template_id);
    let third = overwrite(second, at + 4, schema_id);
    lemma_le_bytes_len(header.block_length as nat, 2);
    lemma_le_bytes_len(header.template_id as nat, 2);
    lemma_le_bytes_len(header.schema_id as nat, 2);
    lemma_le_bytes_len(header.version as nat, 2);
    lemma_unsigned_read_back(bytes, at, header.block_length as nat, 2);
    lemma_unsigned_read_back(first, at + 2, header.template_id as nat, 2);
    lemma_unsigned_read_back(second, at + 4, header.schema_id as nat, 2);
    lemma_unsigned_read_back(third, at + 6, header.version as nat, 2);
    lemma_unsigned_untouched(first, at + 2, template_id, at, 2);
    lemma_unsigned_untouched(second, at + 4, schema_id, at, 2);
    lemma_unsigned_untouched(third, at + 6, version, at, 2);
    lemma_unsigned_untouched(second, at + 4, schema_id, at + 2, 2);
    lemma_unsigned_untouched(third, at + 6, version, at + 2, 2);
    lemma_unsigned_untouched(third, at + 6, version, at + 4, 2);
}

/// A cursor that writes a header. It holds the cursor of the message that the header is for.
#[derive(Debug)]
pub struct MessageHeaderEncoder<P> {
    parent: Option<P>,
    offset: usize,
}

impl<P> MessageHeaderEncoder<P> {
    /// The cursor that this one holds, if it holds one.
    pub closed spec fn held(&self) -> Option<P> {
        self.parent
    }

    /// Where the header starts in the region.
    pub closed spec fn at(&self) -> usize {
        self.offset
    }
}

impl<P> Default for MessageHeaderEncoder<P> {
    /// A cursor that holds nothing yet.
    fn default() -> (header: Self)
        ensures
            header.held() is None,
            header.at() == 0,
    {
        MessageHeaderEncoder { parent: None, offset: 0 }
    }
}

impl<'a, P> Writer<'a> for MessageHeaderEncoder<P> where P: Writer<'a> {
    type Frame = CompositeFrame<P::Frame>;

    open spec fn frame(&self) -> Self::Frame {
        CompositeFrame {
            parent: match self.held() {
                Some(parent) => Some(parent.frame()),
                None => None,
            },
            offset: self.at(),
        }
    }

    open spec fn attached(&self) -> bool {
        self.held() matches Some(parent) && parent.attached()
    }

    open spec fn bytes(&self) -> Seq<u8> {
        self.held()->0.bytes()
    }

    open spec fn limit(&self) -> usize {
        self.held()->0.limit()
    }

    fn get_buf_mut(&mut self) -> (buf: &mut crate::buffer::WriteBuf<'a>) {
        self.parent.as_mut().expect("parent missing").get_buf_mut()
    }
}

impl<'a, P> MessageHeaderEncoder<P> where P: Writer<'a> + Default {
    /// Takes `parent` and stands at `offset`.
    pub fn wrap(self, parent: P, offset: usize) -> (header: Self)
        ensures
            header.held() == Some(parent),
            header.at() == offset,
    {
        let mut header = self;
        header.parent = Some(parent);
        header.offset = offset;
        header
    }

    /// Hands back the cursor that this one holds. A second call finds nothing to hand back.
    pub fn parent(&mut self) -> (res: SbeResult<P>)
        ensures
            res == match old(self).held() {
                Some(parent) => Ok::<P, SbeErr>(parent),
                None => Err::<P, SbeErr>(SbeErr::ParentNotSet),
            },
            final(self).held() is None,
            final(self).at() == old(self).at(),
    {
        self.parent.take().ok_or(SbeErr::ParentNotSet)
    }

    /// Writes the size of the fixed block.
    pub fn block_length(&mut self, value: u16)
        requires
            old(self).attached(),
            old(self).at() + 2 <= old(self).bytes().len(),
        ensures
            final(self).bytes() == overwrite(
                old(self).bytes(),
                old(self).at() as int,
                le_bytes(value as nat, 2),
            ),
            final(self).attached(),
            final(self).limit() == old(self).limit(),
            final(self).frame() == old(self).frame(),
    {
        let offset = self.offset;
        self.get_buf_mut().put_u16_at(offset, value);
    }

    /// Writes the kind of message.
    pub fn template_id(&mut self, value: u16)
        requires
            old(self).attached(),
            old(self).at() + 4 <= old(self).bytes().len(),
        ensures
            final(self).bytes() == overwrite(
                old(self).bytes(),
                old(self).at() + 2,
                le_bytes(value as nat, 2),
            ),
            final(self).attached(),
            final(self).limit() == old(self).limit(),
            final(self).frame() == old(self).frame(),
    {
        let offset = self.offset;
        let buf = self.get_buf_mut();
        proof {
            buf.lemma_capacity_fits();
        }
        buf.put_u16_at(offset + 2, value);
    }

    /// Writes the schema.
    pub fn schema_id(&mut self, value: u16)
        requires
            old(self).attached(),
            old(self).at() + 6 <= old(self).bytes().len(),
        ensures
            final(self).bytes() == overwrite(
                old(self).bytes(),
                old(self).at() + 4,
                le_bytes(value as nat, 2),
            ),
            final(self).attached(),
            final(self).limit() == old(self).limit(),
            final(self).frame() == old(self).frame(),
    {
        let offset = self.offset;
        let buf = self.get_buf_mut();
        proof {
            buf.lemma_capacity_fits();
        }
        buf.put_u16_at(offset + 4, value);
    }

    /// Writes the version of the schema.
    pub fn version(&mut self, value: u16)
        requires
            old(self).attached(),
            old(self).at() + 8 <= old(self).bytes().len(),
        ensures
            final(self).bytes() == overwrite(
                old(self).bytes(),
                old(self).at() + 6,
                le_bytes(value as nat, 2),
            ),
            final(self).attached(),
            final(self).limit() == old(self).limit(),
            final(self).frame() == old(self).frame(),
    {
        let offset = self.offset;
        let buf = self.get_buf_mut();
        proof {
            buf.lemma_capacity_fits();
        }
        buf.put_u16_at(offset + 6, value);
    }
}

/// A cursor that reads a header. It holds the cursor, or the view, that it reads through.
#[derive(Debug)]
pub struct MessageHeaderDecoder<P> {
    parent: Option<P>,
    offset: usize,
}

impl<P> MessageHeaderDecoder<P> {
    /// The cursor that this one holds, if it holds one.
    pub closed spec fn held(&self) -> Option<P> {
        self.parent
    }

    /// Where the header starts in the region.
    pub closed spec fn at(&self) -> usize {
        self.offset
    }
}

impl<P> Default for MessageHeaderDecoder<P> {
    /// A cursor that holds nothing yet.
    fn default() -> (header: Self)
        ensures
            header.held() is None,
            header.at() == 0,
    {
        MessageHeaderDecoder { parent: None, offset: 0 }
    }
}

impl<P> ActingVersion for MessageHeaderDecoder<P> {
    /// A header is laid out the same in every version: it is read as the schema has it.
    open spec fn acting(&self) -> u16 {
        SBE_SCHEMA_VERSION
    }

    fn acting_version(&self) -> (version: u16) {
        SBE_SCHEMA_VERSION
    }
}

impl<'a, P> Reader<'a> for MessageHeaderDecoder<P> where P: Reader<'a> {
    open spec fn attached(&self) -> bool {
        self.held() matches Some(parent) && parent.attached()
    }

    open spec fn bytes(&self) -> Seq<u8> {
        self.held()->0.bytes()
    }

    fn get_buf(&self) -> (buf: &ReadBuf<'a>) {
        self.parent.as_ref().expect("parent missing").get_buf()
    }
}

impl<'a, P> MessageHeaderDecoder<P> where P: Reader<'a> + Default {
    /// Takes `parent` and stands at `offset`.
    pub fn wrap(self, parent: P, offset: usize) -> (header: Self)
        ensures
            header.held() == Some(parent),
            header.at() == offset,
    {
        let mut header = self;
        header.parent = Some(parent);
        header.offset = offset;
        header
    }

    /// Hands back the cursor that this one holds. A second call finds nothing to hand back.
    pub fn parent(&mut self) -> (res: SbeResult<P>)
        ensures
            res == match old(self).held() {
                Some(parent) => Ok::<P, SbeErr>(parent),
                None => Err::<P, SbeErr>(SbeErr::ParentNotSet),
            },
            final(self).held() is None,
            final(self).at() == old(self).at(),
    {
        self.parent.take().ok_or(SbeErr::ParentNotSet)
    }

    /// The size of the fixed block of the message that follows.
    pub fn block_length(&self) -> (value: u16)
        requires
            self.attached(),
            self.at() + 2 <= self.bytes().len(),
        ensures
            value == header_at(self.bytes(), self.at() as int).block_length,
    {
        self.get_buf().get_u16_at(self.offset)
    }

    /// Which kind of message follows.
    pub fn template_id(&self) -> (value: u16)
        requires
            self.attached(),
            self.at() + 4 <= self.bytes().len(),
        ensures
            value == header_at(self.bytes(), self.at() as int).template_id,
    {
        let buf = self.get_buf();
        proof {
            buf.lemma_capacity_fits();
        }
        buf.get_u16_at(self.offset + 2)
    }

    /// The schema that the message belongs to.
    pub fn schema_id(&self) -> (value: u16)
        requires
            self.attached(),
            self.at() + 6 <= self.bytes().len(),
        ensures
            value == header_at(self.bytes(), self.at() as int).schema_id,
    {
        let buf = self.get_buf();
        proof {
            buf.lemma_capacity_fits();
        }
        buf.get_u16_at(self.offset + 4)
    }

    /// The version of the schema that the message was written with.
    pub fn version(&self) -> (value: u16)
        requires
            self.attached(),
            self.at() + 8 <= self.bytes().len(),
        ensures
            value == header_at(self.bytes(), self.at() as int).version,
    {
        let buf = self.get_buf();
        proof {
            buf.lemma_capacity_fits();
        }
        buf.get_u16_at(self.offset + 6)
    }
}

} // verus!
