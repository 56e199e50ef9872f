//! A scaled decimal inside a block: a signed 64-bit mantissa on the wire and an exponent
//! that the schema fixes. The number meant is the mantissa times ten to the exponent.

use crate::buffer::{ReadBuf, WriteBuf};
use crate::cursor::{ActingVersion, CompositeFrame, Reader, SbeErr, SbeResult, Writer};
use crate::endian::{le_bytes, overwrite, signed_at, to_twos};
use vstd::prelude::*;

verus! {

/// The size of a decimal on the wire in bytes.
pub const ENCODED_LENGTH: usize = 8;

/// The exponent of every decimal: the mantissa counts hundredths.
pub const EXPONENT: i8 = -2;

/// A cursor that writes a decimal. It holds the cursor of the block that the decimal is in.
#[derive(Debug)]
pub struct DecimalEncoder<P> {
    parent: Option<P>,
    offset: usize,
}

impl<P> DecimalEncoder<P> {
    /// The cursor that this one holds, if it holds one.
    pub closed spec fn held(&self) -> Option<P> {
        self.parent
    }

    /// Where the decimal starts in the region.
    pub closed spec fn at(&self) -> usize {
        self.offset
    }
}

impl<P> Default for DecimalEncoder<P> {
    /// A cursor that holds nothing yet.
    fn default() -> (decimal: Self)
        ensures
            decimal.held() is None,
            decimal.at() == 0,
    {
        DecimalEncoder { parent: None, offset: 0 }
    }
}

impl<'a, P> Writer<'a> for DecimalEncoder<P> where P: Writer<'a> {
    type Frame = CompositeFrame<P::Frame>;

    open spec fn frame(&self) -> Self::Frame {
        CompositeFrame {
            parent: match self.held() {
                Some(parent) => Some(parent.frame()),
                None => None,
            },
            offset: self.at(),
        }
    }

    open spec fn attached(&self) -> bool {
        self.held() matches Some(parent) && parent.attached()
    }

    open spec fn bytes(&self) -> Seq<u8> {
        self.held()->0.bytes()
    }

    open spec fn limit(&self) -> usize {
        self.held()->0.limit()
    }

    fn get_buf_mut(&mut self) -> (buf: &mut WriteBuf<'a>) {
        self.parent.as_mut().expect("parent missing").get_buf_mut()
    }
}

impl<'a, P> DecimalEncoder<P> where P: Writer<'a> + Default {
    /// Takes `parent` and stands at `offset`.
    pub fn wrap(self, parent: P, offset: usize) -> (decimal: Self)
        ensures
            decimal.held() == Some(parent),
            decimal.at() == offset,
    {
        let mut decimal = self;
        decimal.parent = Some(parent);
        decimal.offset = offset;
        decimal
    }

    /// Hands back the cursor that this one holds. A second call finds nothing to hand back.
    pub fn parent(&mut self) -> (res: SbeResult<P>)
        ensures
            res == match old(self).held() {
                Some(parent) => Ok::<P, SbeErr>(parent),
                None => Err::<P, SbeErr>(SbeErr::ParentNotSet),
            },
            final(self).held() is None,
            final(self).at() == old(self).at(),
    {
        self.parent.take().ok_or(SbeErr::ParentNotSet)
    }

    /// Writes the mantissa.
    pub fn mantissa(&mut self, value: i64)
        requires
            old(self).attached(),
            old(self).at() + 8 <= old(self).bytes().len(),
        ensures
            final(self).bytes() == overwrite(
                old(self).bytes(),
                old(self).at() as int,
                le_bytes(to_twos(value as int, 8), 8),
            ),
            final(self).attached(),
            final(self).limit() == old(self).limit(),
            final(self).frame() == old(self).frame(),
    {
        let offset = self.offset;
        self.get_buf_mut().put_i64_at(offset, value);
    }
}

/// A cursor that reads a decimal. It holds the cursor of the block that the decimal is in.
#[derive(Debug)]
pub struct DecimalDecoder<P> {
    parent: Option<P>,
    offset: usize,
    acting_version: u16,
}

impl<P> DecimalDecoder<P> {
    /// The cursor that this one holds, if it holds one.
    pub closed spec fn held(&self) -> Option<P> {
        self.parent
    }

    /// Where the decimal starts in the region.
    pub closed spec fn at(&self) -> usize {
        self.offset
    }
}

impl<P> Default for DecimalDecoder<P> {
    /// A cursor that holds nothing yet.
    fn default() -> (decimal: Self)
        ensures
            decimal.held() is None,
            decimal.at() == 0,
            decimal.acting() == 0,
    {
        DecimalDecoder { parent: None, offset: 0, acting_version: 0 }
    }
}

impl<P> ActingVersion for DecimalDecoder<P> {
    /// The version that the enclosing cursor had when this one took it.
    closed spec fn acting(&self) -> u16 {
        self.acting_version
    }

    fn acting_version(&self) -> (version: u16) {
        self.acting_version
    }
}

impl<'a, P> Reader<'a> for DecimalDecoder<P> where P: Reader<'a> {
    open spec fn attached(&self) -> bool {
        self.held() matches Some(parent) && parent.attached()
    }

    open spec fn bytes(&self) -> Seq<u8> {
        self.held()->0.bytes()
    }

    fn get_buf(&self) -> (buf: &ReadBuf<'a>) {
        self.parent.as_ref().expect("parent missing").get_buf()
    }
}

impl<'a, P> DecimalDecoder<P> where P: Reader<'a> + ActingVersion + Default {
    /// Takes `parent` and stands at `offset`, with the version that `parent` acts under.
    pub fn wrap(self, parent: P, offset: usize) -> (decimal: Self)
        ensures
            decimal.held() == Some(parent),
            decimal.at() == offset,
            decimal.acting() == parent.acting(),
    {
        let mut decimal = self;
        decimal.acting_version = parent.acting_version();
        decimal.parent = Some(parent);
        decimal.offset = offset;
        decimal
    }

    /// Hands back the cursor that this one holds. A second call finds nothing to hand back.
    pub fn parent(&mut self) -> (res: SbeResult<P>)
        ensures
            res == match old(self).held() {
                Some(parent) => Ok::<P, SbeErr>(parent),
                None => Err::<P, SbeErr>(SbeErr::ParentNotSet),
            },
            final(self).held() is None,
            final(self).at() == old(self).at(),
            final(self).acting() == old(self).acting(),
    {
        self.parent.take().ok_or(SbeErr::ParentNotSet)
    }

    /// The mantissa.
    pub fn mantissa(&self) -> (value: i64)
        requires
            self.attached(),
            self.at() + 8 <= self.bytes().len(),
        ensures
            value == signed_at(self.bytes(), self.at() as int, 8),
    {
        self.get_buf().get_i64_at(self.offset)
    }

    /// The exponent, which is not on the wire.
    pub fn exponent(&self) -> (value: i8)
        ensures
            value == EXPONENT,
    {
        EXPONENT
    }
}

} // verus!
