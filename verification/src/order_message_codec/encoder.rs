//! Writing an order message.

use crate::buffer::WriteBuf;
use crate::cursor::{
    has_next, step, step_outcome, Encoder, GroupFrame, GroupState, SbeErr, SbeResult, Writer,
};
use crate::decimal_codec::DecimalEncoder;
use crate::endian::{le_bytes, overwrite};
use crate::message_header_codec::{with_header, Header, MessageHeaderEncoder};
use crate::order_message_codec::wire::{with_group_preamble, with_var_data};
use crate::order_message_codec::{ITEM_BLOCK_LENGTH, SBE_BLOCK_LENGTH, SBE_TEMPLATE_ID};
use crate::order_type::{order_type_code, OrderType};
use crate::{SBE_SCHEMA_ID, SBE_SCHEMA_VERSION};
use vstd::prelude::*;
use vstd::string::StringSliceAdditionalSpecFns;

verus! {

/// The root cursor that writes an order message. It owns the view of the region and the
/// limit.
#[derive(Debug)]
pub struct OrderMessageEncoder<'a> {
    buf: WriteBuf<'a>,
    offset: usize,
    limit: usize,
}

impl<'a> OrderMessageEncoder<'a> {
    /// Where the fixed block of the message starts in the region.
    pub closed spec fn start(&self) -> usize {
        self.offset
    }
}

impl<'a> Default for OrderMessageEncoder<'a> {
    /// A cursor over an empty region.
    fn default() -> (order: Self)
        ensures
            order.bytes().len() == 0,
            order.start() == 0,
            order.limit() == 0,
    {
        OrderMessageEncoder { buf: WriteBuf::default(), offset: 0, limit: 0 }
    }
}

impl<'a> Writer<'a> for OrderMessageEncoder<'a> {
    /// Where the fixed block starts.
    type Frame = usize;

    open spec fn frame(&self) -> usize {
        self.start()
    }

    /// The root owns the view: it always reaches the region.
    open spec fn attached(&self) -> bool {
        true
    }

    closed spec fn bytes(&self) -> Seq<u8> {
        self.buf@
    }

    closed spec fn limit(&self) -> usize {
        self.limit
    }

    fn get_buf_mut(&mut self) -> (buf: &mut WriteBuf<'a>) {
        &mut self.buf
    }
}

impl<'a> Encoder<'a> for OrderMessageEncoder<'a> {
    fn get_limit(&self) -> (limit: usize) {
        self.limit
    }

    fn set_limit(&mut self, limit: usize) {
        self.limit = limit;
    }
}

impl<'a> OrderMessageEncoder<'a> {
    /// Takes the view `buf` and stands at `offset`: the fixed block starts there, and the
    /// limit stands behind it.
    pub fn wrap(self, buf: WriteBuf<'a>, offset: usize) -> (order: Self)
        requires
            offset + SBE_BLOCK_LENGTH <= usize::MAX,
        ensures
            order.bytes() == buf@,
            order.start() == offset,
            order.limit() == offset + SBE_BLOCK_LENGTH,
    {
        let mut order = self;
        let limit = offset + SBE_BLOCK_LENGTH as usize;
        order.buf = buf;
        order.offset = offset;
        order.limit = limit;
        order
    }

    /// The number of bytes that the message takes up so far, from the start of its fixed
    /// block to the limit.
    pub fn encoded_length(&self) -> (length: usize)
        requires
            self.start() <= self.limit(),
        ensures
            length == self.limit() - self.start(),
    {
        self.limit - self.offset
    }

    /// Writes the header of an order message at `offset` and gives the cursor that wrote
    /// it, which holds this one.
    pub fn header(self, offset: usize) -> (header: MessageHeaderEncoder<Self>)
        requires
            offset + 8 <= self.bytes().len(),
        ensures
            header.at() == offset,
            header.held() matches Some(order) && order.start() == self.start() && order.limit()
                == self.limit() && order.bytes() == with_header(
                self.bytes(),
                offset as int,
                Header {
                    block_length: SBE_BLOCK_LENGTH,
                    template_id: SBE_TEMPLATE_ID,
                    schema_id: SBE_SCHEMA_ID,
                    version: SBE_SCHEMA_VERSION,
                },
            ),
    {
        let mut header = MessageHeaderEncoder::default().wrap(self, offset);
        header.block_length(SBE_BLOCK_LENGTH);
        header.template_id(SBE_TEMPLATE_ID);
        header.schema_id(SBE_SCHEMA_ID);
        header.version(SBE_SCHEMA_VERSION);
        header
    }

    /// Writes the order's number: eight bytes at the start of the block.
    pub fn order_id(&mut self, value: u64)
        requires
            old(self).start() + 8 <= old(self).bytes().len(),
        ensures
            final(self).bytes() == overwrite(
                old(self).bytes(),
                old(self).start() as int,
                le_bytes(value as nat, 8),
            ),
            final(self).start() == old(self).start(),
            final(self).limit() == old(self).limit(),
    {
        let offset = self.offset;
        self.get_buf_mut().put_u64_at(offset, value);
    }

    /// Writes the client's number: eight bytes from the eighth of the block.
    pub fn client_id(&mut self, value: u64)
        requires
            old(self).start() + 16 <= old(self).bytes().len(),
        ensures
            final(self).bytes() == overwrite(
                old(self).bytes(),
                old(self).start() + 8,
                le_bytes(value as nat, 8),
            ),
            final(self).start() == old(self).start(),
            final(self).limit() == old(self).limit(),
    {
        proof {
            self.buf.lemma_capacity_fits();
        }
        let offset = self.offset + 8;
        self.get_buf_mut().put_u64_at(offset, value);
    }

    /// Writes the time of the order: eight bytes from the sixteenth of the block.
    pub fn timestamp(&mut self, value: u64)
        requires
            old(self).start() + 24 <= old(self).bytes().len(),
        ensures
            final(self).bytes() == overwrite(
                old(self).bytes(),
                old(self).start() + 16,
                le_bytes(value as nat, 8),
            ),
            final(self).start() == old(self).start(),
            final(self).limit() == old(self).limit(),
    {
        proof {
            self.buf.lemma_capacity_fits();
        }
        let offset = self.offset + 16;
        self.get_buf_mut().put_u64_at(offset, value);
    }

    /// Writes the kind of order: the last byte of the block.
    pub fn order_type(&mut self, value: OrderType)
        requires
            old(self).start() + 25 <= old(self).bytes().len(),
        ensures
            final(self).bytes() == overwrite(
                old(self).bytes(),
                old(self).start() + 24,
                le_bytes(order_type_code(value) as nat, 1),
            ),
            final(self).start() == old(self).start(),
            final(self).limit() == old(self).limit(),
    {
        proof {
            self.buf.lemma_capacity_fits();
        }
        let offset = self.offset + 24;
        self.get_buf_mut().put_u8_at(offset, u8::from(value))
    }

    /// Opens the group of items for `count` entries: gives this cursor to `items_encoder`,
    /// which writes the preamble of the group at the limit.
    pub fn items_encoder(self, count: u8, items_encoder: ItemsEncoder<Self>) -> (items:
        ItemsEncoder<Self>)
        requires
            self.limit() + 3 <= self.bytes().len(),
        ensures
            items.declared() == count,
            items.state() == GroupState::Unstarted,
            items.held() matches Some(order) && order.start() == self.start() && order.limit()
                == self.limit() + 3 && order.bytes() == with_group_preamble(
                self.bytes(),
                self.limit() as int,
                ITEM_BLOCK_LENGTH,
                count,
            ),
    {
        items_encoder.wrap(self, count)
    }

    /// Writes the note at the limit, as a variable-length field, and moves the limit behind
    /// it. To be called when the group of items is done.
    pub fn customer_note(&mut self, value: &str)
        requires
            value.spec_bytes().len() <= u16::MAX,
            old(self).limit() + 2 + value.spec_bytes().len() <= old(self).bytes().len(),
        ensures
            final(self).bytes() == with_var_data(
                old(self).bytes(),
                old(self).limit() as int,
                value.spec_bytes(),
            ),
            final(self).limit() == old(self).limit() + 2 + value.spec_bytes().len(),
            final(self).start() == old(self).start(),
    {
        proof {
            self.buf.lemma_capacity_fits();
        }
        let limit = self.get_limit();
        let data_length = value.len();
        self.set_limit(limit + 2 + data_length);
        self.get_buf_mut().put_u16_at(limit, data_length as u16);
        self.get_buf_mut().put_slice_at(limit + 2, value.as_bytes());
    }
}

/// The cursor that writes the items of an order, entry by entry. It holds the cursor of
/// the message.
#[derive(Debug)]
pub struct ItemsEncoder<P> {
    parent: Option<P>,
    count: u8,
    index: usize,
    offset: usize,
}

impl<P> ItemsEncoder<P> {
    /// The cursor that this one holds, if it holds one.
    pub closed spec fn held(&self) -> Option<P> {
        self.parent
    }

    /// The number of entries that the group was opened for.
    pub closed spec fn declared(&self) -> u8 {
        self.count
    }

    /// Where the pass over the entries stands.
    pub closed spec fn state(&self) -> GroupState {
        if self.index == usize::MAX {
            GroupState::Unstarted
        } else if self.index < self.count {
            GroupState::Active(self.index)
        } else {
            GroupState::Exhausted
        }
    }

    /// Where the entry that the cursor stands on starts in the region.
    pub closed spec fn entry(&self) -> usize {
        self.offset
    }
}

impl<P> Default for ItemsEncoder<P> {
    /// A cursor that holds nothing yet, at the end of a group without entries.
    fn default() -> (items: Self)
        ensures
            items.held() is None,
            items.declared() == 0,
            items.state() == GroupState::Exhausted,
            items.entry() == 0,
    {
        ItemsEncoder { parent: None, count: 0, index: 0, offset: 0 }
    }
}

impl<'a, P> Writer<'a> for ItemsEncoder<P> where P: Writer<'a> {
    type Frame = GroupFrame<P::Frame>;

    open spec fn frame(&self) -> Self::Frame {
        GroupFrame {
            parent: match self.held() {
                Some(parent) => Some(parent.frame()),
                None => None,
            },
            block_length: ITEM_BLOCK_LENGTH,
            count: self.declared(),
            state: self.state(),
            entry_offset: self.entry(),
        }
    }

    open spec fn attached(&self) -> bool {
        self.held() matches Some(parent) && parent.attached()
    }

    open spec fn bytes(&self) -> Seq<u8> {
        self.held()->0.bytes()
    }

    open spec fn limit(&self) -> usize {
        self.held()->0.limit()
    }

    fn get_buf_mut(&mut self) -> (buf: &mut WriteBuf<'a>) {
        self.parent.as_mut().expect("parent missing").get_buf_mut()
    }
}

impl<'a, P> Encoder<'a> for ItemsEncoder<P> where P: Encoder<'a> {
    fn get_limit(&self) -> (limit: usize) {
        self.parent.as_ref().expect("parent missing").get_limit()
    }

    fn set_limit(&mut self, limit: usize) {
        self.parent.as_mut().expect("parent missing").set_limit(limit);
    }
}

impl<'a, P> ItemsEncoder<P> where P: Encoder<'a> + Default {
    /// Takes `parent` and opens the group for `count` entries: writes the preamble of the
    /// group at the limit and moves the limit behind it. The cursor stands before the first
    /// entry.
    pub fn wrap(self, parent: P, count: u8) -> (items: Self)
        requires
            parent.attached(),
            parent.limit() + 3 <= parent.bytes().len(),
        ensures
            items.declared() == count,
            items.state() == GroupState::Unstarted,
            items.entry() == usize::MAX,
            items.attached(),
            items.limit() == parent.limit() + 3,
            items.bytes() == with_group_preamble(
                parent.bytes(),
                parent.limit() as int,
                ITEM_BLOCK_LENGTH,
                count,
            ),
            items.held()->0.frame() == parent.frame(),
    {
        let mut items = self;
        let mut parent = parent;
        let initial_limit = parent.get_limit();
        let buf = parent.get_buf_mut();
        proof {
            buf.lemma_capacity_fits();
        }
        buf.put_u16_at(initial_limit, Self::block_length());
        buf.put_u8_at(initial_limit + 2, count);
        parent.set_limit(initial_limit + 3);
        items.parent = Some(parent);
        items.count = count;
        items.index = usize::MAX;
        items.offset = usize::MAX;
        items
    }

    /// The size of the fixed block of each entry.
    pub fn block_length() -> (length: u16)
        ensures
            length == ITEM_BLOCK_LENGTH,
    {
        ITEM_BLOCK_LENGTH
    }

    /// Hands back the cursor that this one holds. A second call finds nothing to hand back.
    pub fn parent(&mut self) -> (res: SbeResult<P>)
        ensures
            res == match old(self).held() {
                Some(parent) => Ok::<P, SbeErr>(parent),
                None => Err::<P, SbeErr>(SbeErr::ParentNotSet),
            },
            final(self).held() is None,
            final(self).declared() == old(self).declared(),
            final(self).state() == old(self).state(),
            final(self).entry() == old(self).entry(),
    {
        self.parent.take().ok_or(SbeErr::ParentNotSet)
    }

    /// Goes on to the next entry, if the group has one more: the entry starts at the limit,
    /// and the limit moves behind its block. Gives the index of the entry, or `None` where
    /// the group has no more; from then on every call gives `None`. Where there is a next
    /// entry but no cursor is held, nothing changes and the call fails.
    pub fn advance(&mut self) -> (res: SbeResult<Option<usize>>)
        requires
            has_next(old(self).state(), old(self).declared()) ==> match old(self).held() {
                Some(parent) => parent.attached() && parent.limit() + ITEM_BLOCK_LENGTH
                    <= usize::MAX,
                None => true,
            },
        ensures
            final(self).declared() == old(self).declared(),
            has_next(old(self).state(), old(self).declared()) && old(self).held() is None ==> {
                &&& res == Err::<Option<usize>, SbeErr>(SbeErr::ParentNotSet)
                &&& final(self).held() is None
                &&& final(self).state() == old(self).state()
                &&& final(self).entry() == old(self).entry()
            },
            has_next(old(self).state(), old(self).declared()) && old(self).held() is Some ==> {
                &&& res == Ok::<Option<usize>, SbeErr>(
                    step_outcome(old(self).state(), old(self).declared()),
                )
                &&& final(self).state() == step(old(self).state(), old(self).declared())
                &&& final(self).entry() == old(self).limit()
                &&& final(self).attached()
                &&& final(self).limit() == old(self).limit() + ITEM_BLOCK_LENGTH
                &&& final(self).bytes() == old(self).bytes()
                &&& final(self).held()->0.frame() == old(self).held()->0.frame()
            },
            !has_next(old(self).state(), old(self).declared()) ==> {
                &&& res == Ok::<Option<usize>, SbeErr>(None)
                &&& final(self).state() == GroupState::Exhausted
                &&& final(self).entry() == old(self).entry()
                &&& final(self).held() == old(self).held()
            },
    {
        let index = self.index.wrapping_add(1);
        if index >= self.count as usize {
            self.index = self.count as usize;
            return Ok(None);
        }
        if let Some(parent) = self.parent.as_mut() {
            self.offset = parent.get_limit();
            parent.set_limit(self.offset + Self::block_length() as usize);
            self.index = index;
            Ok(Some(index))
        } else {
            Err(SbeErr::ParentNotSet)
        }
    }

    /// Writes the product's number: four bytes at the start of the entry.
    pub fn product_id(&mut self, value: u32)
        requires
            old(self).attached(),
            old(self).state() is Active,
            old(self).entry() + 4 <= old(self).bytes().len(),
        ensures
            final(self).bytes() == overwrite(
                old(self).bytes(),
                old(self).entry() as int,
                le_bytes(value as nat, 4),
            ),
            final(self).attached(),
            final(self).limit() == old(self).limit(),
            final(self).frame() == old(self).frame(),
    {
        let offset = self.offset;
        self.get_buf_mut().put_u32_at(offset, value);
    }

    /// Writes the quantity: two bytes from the fourth of the entry.
    pub fn quantity(&mut self, value: u16)
        requires
            old(self).attached(),
            old(self).state() is Active,
            old(self).entry() + 6 <= old(self).bytes().len(),
        ensures
            final(self).bytes() == overwrite(
                old(self).bytes(),
                old(self).entry() + 4,
                le_bytes(value as nat, 2),
            ),
            final(self).attached(),
            final(self).limit() == old(self).limit(),
            final(self).frame() == old(self).frame(),
    {
        let offset = self.offset;
        let buf = self.get_buf_mut();
        proof {
            buf.lemma_capacity_fits();
        }
        buf.put_u16_at(offset + 4, value);
    }

    /// Gives this cursor to one that writes the price of the entry: a decimal from the sixth
    /// byte of the entry.
    pub fn unit_price_encoder(self) -> (price: DecimalEncoder<Self>)
        requires
            self.state() is Active,
            self.entry() + 6 <= usize::MAX,
        ensures
            price.held() == Some(self),
            price.at() == self.entry() + 6,
    {
        let offset = self.offset + 6;
        DecimalEncoder::default().wrap(self, offset)
    }
}

} // verus!
