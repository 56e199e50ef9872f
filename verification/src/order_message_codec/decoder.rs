//! Reading an order message.

use crate::buffer::ReadBuf;
use crate::cursor::{
    has_next, step, step_outcome, ActingVersion, Decoder, GroupFrame, GroupState, Reader, SbeErr,
    SbeResult,
};
use crate::decimal_codec::DecimalDecoder;
use crate::endian::unsigned_at;
use crate::message_header_codec::{header_at, MessageHeaderDecoder, ENCODED_LENGTH};
use crate::order_message_codec::wire::{
    declared_block_length, declared_count, declared_data_length, holds_order, order_end,
};
use crate::order_message_codec::{ITEM_BLOCK_LENGTH, SBE_BLOCK_LENGTH};
use crate::order_type::{order_type_of, OrderType};
use vstd::prelude::*;

verus! {

/// What of the root cursor of a message that is read stays as it is while the limit moves.
pub struct BlockFrame {
    /// Where the fixed block of the message starts in the region.
    pub offset: usize,
    /// The size of the fixed block, as the header of the message declares it.
    pub block_length: u16,
    /// The version of the schema that the message was written with.
    pub version: u16,
}

/// The root cursor that reads an order message. It owns the view of the region and the
/// limit.
#[derive(Clone, Copy, Debug)]
pub struct OrderMessageDecoder<'a> {
    buf: ReadBuf<'a>,
    offset: usize,
    limit: usize,
    /// The size of the fixed block, as the header of the message declares it.
    pub acting_block_length: u16,
    /// The version of the schema that the message was written with.
    pub acting_version: u16,
}

impl<'a> OrderMessageDecoder<'a> {
    /// Where the fixed block of the message starts in the region.
    pub closed spec fn start(&self) -> usize {
        self.offset
    }

    /// The size of the fixed block, as the header of the message declares it.
    pub closed spec fn block_length(&self) -> u16 {
        self.acting_block_length
    }
}

impl<'a> Default for OrderMessageDecoder<'a> {
    /// A cursor over an empty region.
    fn default() -> (order: Self)
        ensures
            order.bytes().len() == 0,
            order.limit() == 0,
            order.frame() == (BlockFrame { offset: 0, block_length: 0, version: 0 }),
    {
        OrderMessageDecoder {
            buf: ReadBuf::default(),
            offset: 0,
            limit: 0,
            acting_block_length: 0,
            acting_version: 0,
        }
    }
}

impl<'a> ActingVersion for OrderMessageDecoder<'a> {
    closed spec fn acting(&self) -> u16 {
        self.acting_version
    }

    fn acting_version(&self) -> (version: u16) {
        self.acting_version
    }
}

impl<'a> Reader<'a> for OrderMessageDecoder<'a> {
    /// The root owns the view: it always reaches the region.
    open spec fn attached(&self) -> bool {
        true
    }

    closed spec fn bytes(&self) -> Seq<u8> {
        self.buf@
    }

    fn get_buf(&self) -> (buf: &ReadBuf<'a>) {
        &self.buf
    }
}

impl<'a> Decoder<'a> for OrderMessageDecoder<'a> {
    type Frame = BlockFrame;

    open spec fn frame(&self) -> BlockFrame {
        BlockFrame {
            offset: self.start(),
            block_length: self.block_length(),
            version: self.acting(),
        }
    }

    closed spec fn limit(&self) -> usize {
        self.limit
    }

    fn get_limit(&self) -> (limit: usize) {
        self.limit
    }

    fn set_limit(&mut self, limit: usize) {
        self.limit = limit;
    }
}

impl<'a> OrderMessageDecoder<'a> {
    /// Takes the view `buf` and stands at `offset`: the fixed block starts there and is
    /// `acting_block_length` bytes long, which may be more than this library knows of; the
    /// limit stands behind it.
    pub fn wrap(
        self,
        buf: ReadBuf<'a>,
        offset: usize,
        acting_block_length: u16,
        acting_version: u16,
    ) -> (order: Self)
        requires
            offset + acting_block_length <= usize::MAX,
        ensures
            order.bytes() == buf@,
            order.limit() == offset + acting_block_length,
            order.frame() == (BlockFrame {
                offset,
                block_length: acting_block_length,
                version: acting_version,
            }),
    {
        let mut order = self;
        let limit = offset + acting_block_length as usize;
        order.buf = buf;
        order.offset = offset;
        order.limit = limit;
        order.acting_block_length = acting_block_length;
        order.acting_version = acting_version;
        order
    }

    /// Checks that the region holds the whole message that this cursor stands on, before
    /// any of it is trusted: every size and number that the message declares is held against
    /// what is left of the region. Gives the length of the message's body, or `Truncated`
    /// where the message was cut off or is corrupt. For a message from a source that is not
    /// trusted this comes first: after it, no step of a pass reads outside the region.
    pub fn validate(&self) -> (res: SbeResult<usize>)
        ensures
            res == if holds_order(self.bytes(), self.start() as int, self.block_length() as int) {
                Ok::<usize, SbeErr>(
                    (order_end(self.bytes(), self.start() as int, self.block_length() as int)
                        - self.start()) as usize,
                )
            } else {
                Err::<usize, SbeErr>(SbeErr::Truncated)
            },
    {
        let capacity = self.buf.capacity();
        let block_length = self.acting_block_length as usize;
        if self.acting_block_length < SBE_BLOCK_LENGTH || capacity < self.offset || capacity
            - self.offset < block_length + 3 {
            return Err(SbeErr::Truncated);
        }
        let group = self.offset + block_length;
        let entry_length = self.buf.get_u16_at(group);
        let count = self.buf.get_u8_at(group + 2);
        if count > 0 && entry_length < ITEM_BLOCK_LENGTH {
            return Err(SbeErr::Truncated);
        }
        assert(count * entry_length <= 255 * 65535) by (nonlinear_arith)
            requires
                0 <= count <= 255,
                0 <= entry_length <= 65535,
        ;
        let entries = count as usize * entry_length as usize;
        let left = capacity - (group + 3);
        if left < entries + 2 {
            return Err(SbeErr::Truncated);
        }
        let note = group + 3 + entries;
        let data_length = self.buf.get_u16_at(note) as usize;
        if capacity - (note + 2) < data_length {
            return Err(SbeErr::Truncated);
        }
        Ok(note + 2 + data_length - self.offset)
    }

    /// The number of bytes of the message that have been read so far, from the start of its
    /// fixed block to the limit.
    pub fn encoded_length(&self) -> (length: usize)
        requires
            self.start() <= self.limit(),
        ensures
            length == self.limit() - self.start(),
    {
        self.limit - self.offset
    }

    /// Takes the view that `header` holds and stands behind a header at `offset`, with the
    /// size of the block and the version that `header` reads. Which kind of message the
    /// header names is for the caller to look at.
    pub fn header(self, header: MessageHeaderDecoder<ReadBuf<'a>>, offset: usize) -> (order: Self)
        requires
            header.held() is Some,
            header.at() + 8 <= header.bytes().len(),
            offset + ENCODED_LENGTH + header_at(header.bytes(), header.at() as int).block_length
                <= usize::MAX,
        ensures
            order.bytes() == header.bytes(),
            order.limit() == offset + ENCODED_LENGTH + header_at(
                header.bytes(),
                header.at() as int,
            ).block_length,
            order.frame() == (BlockFrame {
                offset: (offset + ENCODED_LENGTH) as usize,
                block_length: header_at(header.bytes(), header.at() as int).block_length,
                version: header_at(header.bytes(), header.at() as int).version,
            }),
    {
        let mut header = header;
        let acting_block_length = header.block_length();
        let acting_version = header.version();
        self.wrap(
            header.parent().unwrap(),
            offset + ENCODED_LENGTH,
            acting_block_length,
            acting_version,
        )
    }

    /// The order's number: eight bytes at the start of the block.
    pub fn order_id(&self) -> (value: u64)
        requires
            self.start() + 8 <= self.bytes().len(),
        ensures
            value == unsigned_at(self.bytes(), self.start() as int, 8),
    {
        self.get_buf().get_u64_at(self.offset)
    }

    /// The client's number: eight bytes from the eighth of the block.
    pub fn client_id(&self) -> (value: u64)
        requires
            self.start() + 16 <= self.bytes().len(),
        ensures
            value == unsigned_at(self.bytes(), self.start() + 8, 8),
    {
        proof {
            self.buf.lemma_capacity_fits();
        }
        self.get_buf().get_u64_at(self.offset + 8)
    }

    /// The time of the order: eight bytes from the sixteenth of the block.
    pub fn timestamp(&self) -> (value: u64)
        requires
            self.start() + 24 <= self.bytes().len(),
        ensures
            value == unsigned_at(self.bytes(), self.start() + 16, 8),
    {
        proof {
            self.buf.lemma_capacity_fits();
        }
        self.get_buf().get_u64_at(self.offset + 16)
    }

    /// The kind of order: the last byte of the block. A byte that names no known kind gives
    /// `NullVal`.
    pub fn order_type(&self) -> (value: OrderType)
        requires
            self.start() + 25 <= self.bytes().len(),
        ensures
            value == order_type_of(unsigned_at(self.bytes(), self.start() + 24, 1) as u8),
    {
        proof {
            self.buf.lemma_capacity_fits();
        }
        OrderType::from(self.get_buf().get_u8_at(self.offset + 24))
    }

    /// Opens the group of items: gives this cursor to one that reads the preamble of the
    /// group at the limit.
    pub fn items_decoder(self) -> (items: ItemsDecoder<Self>)
        requires
            self.limit() + 3 <= self.bytes().len(),
        ensures
            items.entry_block_length() == declared_block_length(self.bytes(), self.limit() as int),
            items.declared() == declared_count(self.bytes(), self.limit() as int),
            items.state() == GroupState::Unstarted,
            items.acting() == self.acting(),
            items.held() matches Some(order) && order.frame() == self.frame() && order.limit()
                == self.limit() + 3 && order.bytes() == self.bytes(),
    {
        ItemsDecoder::default().wrap(self)
    }

    /// Reads the length of the note at the limit and moves the limit behind the note. Gives
    /// where the bytes of the note start in the region and how many they are. To be called
    /// when the group of items is done.
    pub fn customer_note_decoder(&mut self) -> (coordinates: (usize, usize))
        requires
            old(self).limit() + 2 <= old(self).bytes().len(),
            old(self).limit() + 2 + declared_data_length(
                old(self).bytes(),
                old(self).limit() as int,
            ) <= usize::MAX,
        ensures
            coordinates.0 == old(self).limit() + 2,
            coordinates.1 == declared_data_length(old(self).bytes(), old(self).limit() as int),
            final(self).limit() == old(self).limit() + 2 + coordinates.1,
            final(self).bytes() == old(self).bytes(),
            final(self).frame() == old(self).frame(),
    {
        let offset = self.get_limit();
        let data_length = self.get_buf().get_u16_at(offset) as usize;
        self.set_limit(offset + 2 + data_length);
        (offset + 2, data_length)
    }

    /// The bytes of the note at the `coordinates` that `customer_note_decoder` gave, not
    /// copied.
    pub fn customer_note_slice(&'a self, coordinates: (usize, usize)) -> (note: &'a [u8])
        requires
            coordinates.0 + coordinates.1 <= self.limit(),
            coordinates.0 + coordinates.1 <= self.bytes().len(),
        ensures
            note@ == self.bytes().subrange(
                coordinates.0 as int,
                coordinates.0 + coordinates.1,
            ),
    {
        self.get_buf().get_slice_at(coordinates.0, coordinates.1)
    }
}

/// The cursor that reads the items of an order, entry by entry. It holds the cursor of the
/// message.
#[derive(Debug)]
pub struct ItemsDecoder<P> {
    parent: Option<P>,
    block_length: u16,
    count: u8,
    index: usize,
    offset: usize,
    acting_version: u16,
}

impl<P> ItemsDecoder<P> {
    /// The cursor that this one holds, if it holds one.
    pub closed spec fn held(&self) -> Option<P> {
        self.parent
    }

    /// The size of the fixed block of each entry, as the preamble of the group declares it.
    pub closed spec fn entry_block_length(&self) -> u16 {
        self.block_length
    }

    /// The number of entries that the preamble of the group declares.
    pub closed spec fn declared(&self) -> u8 {
        self.count
    }

    /// Where the pass over the entries stands.
    pub closed spec fn state(&self) -> GroupState {
        if self.index == usize::MAX {
            GroupState::Unstarted
        } else if self.index < self.count {
            GroupState::Active(self.index)
        } else {
            GroupState::Exhausted
        }
    }

    /// Where the entry that the cursor stands on starts in the region.
    pub closed spec fn entry(&self) -> usize {
        self.offset
    }
}

impl<P> Default for ItemsDecoder<P> {
    /// A cursor that holds nothing yet, at the end of a group without entries.
    fn default() -> (items: Self)
        ensures
            items.held() is None,
            items.entry_block_length() == 0,
            items.declared() == 0,
            items.state() == GroupState::Exhausted,
            items.entry() == 0,
            items.acting() == 0,
    {
        ItemsDecoder {
            parent: None,
            block_length: 0,
            count: 0,
            index: 0,
            offset: 0,
            acting_version: 0,
        }
    }
}

impl<P> ActingVersion for ItemsDecoder<P> {
    /// The version that the enclosing cursor had when this one took it.
    closed spec fn acting(&self) -> u16 {
        self.acting_version
    }

    fn acting_version(&self) -> (version: u16) {
        self.acting_version
    }
}

impl<'a, P> Reader<'a> for ItemsDecoder<P> where P: Reader<'a> {
    open spec fn attached(&self) -> bool {
        self.held() matches Some(parent) && parent.attached()
    }

    open spec fn bytes(&self) -> Seq<u8> {
        self.held()->0.bytes()
    }

    fn get_buf(&self) -> (buf: &ReadBuf<'a>) {
        self.parent.as_ref().expect("parent missing").get_buf()
    }
}

impl<'a, P> Decoder<'a> for ItemsDecoder<P> where P: Decoder<'a> {
    type Frame = GroupFrame<P::Frame>;

    open spec fn frame(&self) -> Self::Frame {
        GroupFrame {
            parent: match self.held() {
                Some(parent) => Some(parent.frame()),
                None => None,
            },
            block_length: self.entry_block_length(),
            count: self.declared(),
            state: self.state(),
            entry_offset: self.entry(),
        }
    }

    open spec fn limit(&self) -> usize {
        self.held()->0.limit()
    }

    fn get_limit(&self) -> (limit: usize) {
        self.parent.as_ref().expect("parent missing").get_limit()
    }

    fn set_limit(&mut self, limit: usize) {
        self.parent.as_mut().expect("parent missing").set_limit(limit);
    }
}

impl<'a, P> ItemsDecoder<P> where P: Decoder<'a> + ActingVersion + Default {
    /// Takes `parent` and opens the group: reads the preamble of the group at the limit and
    /// moves the limit behind it. The cursor stands before the first entry, and acts under
    /// the version that `parent` acts under.
    pub fn wrap(self, parent: P) -> (items: Self)
        requires
            parent.attached(),
            parent.limit() + 3 <= parent.bytes().len(),
        ensures
            items.entry_block_length() == declared_block_length(
                parent.bytes(),
                parent.limit() as int,
            ),
            items.declared() == declared_count(parent.bytes(), parent.limit() as int),
            items.state() == GroupState::Unstarted,
            items.entry() == 0,
            items.acting() == parent.acting(),
            items.attached(),
            items.limit() == parent.limit() + 3,
            items.bytes() == parent.bytes(),
            items.held()->0.frame() == parent.frame(),
    {
        let mut items = self;
        let mut parent = parent;
        let initial_offset = parent.get_limit();
        let buf = parent.get_buf();
        proof {
            buf.lemma_capacity_fits();
        }
        let block_length = buf.get_u16_at(initial_offset);
        let count = buf.get_u8_at(initial_offset + 2);
        let acting_version = parent.acting_version();
        parent.set_limit(initial_offset + 3);
        items.parent = Some(parent);
        items.block_length = block_length;
        items.count = count;
        items.index = usize::MAX;
        items.offset = 0;
        items.acting_version = acting_version;
        items
    }

    /// Hands back the cursor that this one holds. A second call finds nothing to hand back.
    pub fn parent(&mut self) -> (res: SbeResult<P>)
        ensures
            res == match old(self).held() {
                Some(parent) => Ok::<P, SbeErr>(parent),
                None => Err::<P, SbeErr>(SbeErr::ParentNotSet),
            },
            final(self).held() is None,
            final(self).entry_block_length() == old(self).entry_block_length(),
            final(self).declared() == old(self).declared(),
            final(self).state() == old(self).state(),
            final(self).entry() == old(self).entry(),
            final(self).acting() == old(self).acting(),
    {
        self.parent.take().ok_or(SbeErr::ParentNotSet)
    }

    /// The version of the schema that the message was written with.
    pub fn acting_version(&mut self) -> (version: u16)
        ensures
            version == old(self).acting(),
            *final(self) == *old(self),
    {
        self.acting_version
    }

    /// The number of entries that the preamble of the group declares. It is known from the
    /// moment the group is opened.
    pub fn count(&self) -> (count: u8)
        ensures
            count == self.declared(),
    {
        self.count
    }

    /// Goes on to the next entry, if the group has one more: the entry starts at the limit,
    /// and the limit moves behind its block. Gives the index of the entry, or `None` where
    /// the group has no more; from then on every call gives `None`. Where there is a next
    /// entry but no cursor is held, nothing changes and the call fails.
    pub fn advance(&mut self) -> (res: SbeResult<Option<usize>>)
        requires
            has_next(old(self).state(), old(self).declared()) ==> match old(self).held() {
                Some(parent) => parent.attached() && parent.limit() + old(
                    self,
                ).entry_block_length() <= usize::MAX,
                None => true,
            },
        ensures
            final(self).declared() == old(self).declared(),
            final(self).entry_block_length() == old(self).entry_block_length(),
            final(self).acting() == old(self).acting(),
            has_next(old(self).state(), old(self).declared()) && old(self).held() is None ==> {
                &&& res == Err::<Option<usize>, SbeErr>(SbeErr::ParentNotSet)
                &&& final(self).held() is None
                &&& final(self).state() == old(self).state()
                &&& final(self).entry() == old(self).entry()
            },
            has_next(old(self).state(), old(self).declared()) && old(self).held() is Some ==> {
                &&& res == Ok::<Option<usize>, SbeErr>(
                    step_outcome(old(self).state(), old(self).declared()),
                )
                &&& final(self).state() == step(old(self).state(), old(self).declared())
                &&& final(self).entry() == old(self).limit()
                &&& final(self).attached()
                &&& final(self).limit() == old(self).limit() + old(self).entry_block_length()
                &&& final(self).bytes() == old(self).bytes()
                &&& final(self).held()->0.frame() == old(self).held()->0.frame()
            },
            !has_next(old(self).state(), old(self).declared()) ==> {
                &&& res == Ok::<Option<usize>, SbeErr>(None)
                &&& final(self).state() == GroupState::Exhausted
                &&& final(self).entry() == old(self).entry()
                &&& final(self).held() == old(self).held()
            },
    {
        let index = self.index.wrapping_add(1);
        if index >= self.count as usize {
            self.index = self.count as usize;
            return Ok(None);
        }
        if let Some(parent) = self.parent.as_mut() {
            self.offset = parent.get_limit();
            parent.set_limit(self.offset + self.block_length as usize);
            self.index = index;
            Ok(Some(index))
        } else {
            Err(SbeErr::ParentNotSet)
        }
    }

    /// The product's number: four bytes at the start of the entry.
    pub fn product_id(&self) -> (value: u32)
        requires
            self.attached(),
            self.state() is Active,
            self.entry() + 4 <= self.bytes().len(),
        ensures
            value == unsigned_at(self.bytes(), self.entry() as int, 4),
    {
        self.get_buf().get_u32_at(self.offset)
    }

    /// The quantity: two bytes from the fourth of the entry.
    pub fn quantity(&self) -> (value: u16)
        requires
            self.attached(),
            self.state() is Active,
            self.entry() + 6 <= self.bytes().len(),
        ensures
            value == unsigned_at(self.bytes(), self.entry() + 4, 2),
    {
        let buf = self.get_buf();
        proof {
            buf.lemma_capacity_fits();
        }
        buf.get_u16_at(self.offset + 4)
    }

    /// Gives this cursor to one that reads the price of the entry: a decimal from the sixth
    /// byte of the entry.
    pub fn unit_price_decoder(self) -> (price: DecimalDecoder<Self>)
        requires
            self.state() is Active,
            self.entry() + 6 <= usize::MAX,
        ensures
            price.held() == Some(self),
            price.at() == self.entry() + 6,
            price.acting() == self.acting(),
    {
        let offset = self.offset + 6;
        DecimalDecoder::default().wrap(self, offset)
    }
}

} // verus!
