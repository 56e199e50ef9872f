//! The layout of an order message on the wire, as functions on byte strings: what writing
//! each part does to the bytes, what reading each part finds in them, and the proof that
//! what was written is what is read.

use crate::endian::{
    le_bytes, lemma_le_bytes_len, lemma_radix_values, lemma_signed_read_back,
    lemma_unsigned_read_back, overwrite, signed_at, to_twos, unsigned_at,
};
use crate::order_type::{order_type_code, order_type_of, OrderType};
use vstd::prelude::*;

verus! {

/// One item of an order.
pub struct Item {
    /// The product's number.
    pub product_id: u32,
    /// How many of the product.
    pub quantity: u16,
    /// The mantissa of the price of one.
    pub price: i64,
}

/// An order, as the message carries it.
pub struct Order {
    /// The order's number.
    pub order_id: u64,
    /// The client's number.
    pub client_id: u64,
    /// The time of the order.
    pub timestamp: u64,
    /// The kind of order.
    pub order_type: OrderType,
    /// The items, in the order in which they were written.
    pub items: Seq<Item>,
    /// The bytes of the note.
    pub note: Seq<u8>,
}

/// `bytes` with the fixed block of `order` written from index `at` on.
pub open spec fn with_block(bytes: Seq<u8>, at: int, order: Order) -> Seq<u8> {
    let first = overwrite(bytes, at, le_bytes(order.order_id as nat, 8));
    let second = overwrite(first, at + 8, le_bytes(order.client_id as nat, 8));
    let third = overwrite(second, at + 16, le_bytes(order.timestamp as nat, 8));
    overwrite(third, at + 24, le_bytes(order_type_code(order.order_type) as nat, 1))
}

/// `bytes` with the preamble of a group written from index `at` on.
pub open spec fn with_group_preamble(bytes: Seq<u8>, at: int, block_length: u16, count: u8) -> Seq<
    u8,
> {
    overwrite(
        overwrite(bytes, at, le_bytes(block_length as nat, 2)),
        at + 2,
        le_bytes(count as nat, 1),
    )
}

/// `bytes` with the block of `item` written from index `at` on.
pub open spec fn with_item(bytes: Seq<u8>, at: int, item: Item) -> Seq<u8> {
    let first = overwrite(bytes, at, le_bytes(item.product_id as nat, 4));
    let second = overwrite(first, at + 4, le_bytes(item.quantity as nat, 2));
    overwrite(second, at + 6, le_bytes(to_twos(item.price as int, 8), 8))
}

/// `bytes` with the blocks of `items` written one behind the other from index `at` on.
pub open spec fn with_items(bytes: Seq<u8>, at: int, items: Seq<Item>) -> Seq<u8>
    decreases items.len(),
{
    if items.len() == 0 {
        bytes
    } else {
        with_item(
            with_items(bytes, at, items.drop_last()),
            at + 14 * (items.len() - 1),
            items.last(),
        )
    }
}

/// `bytes` with a variable-length field that holds `data` written from index `at` on: the
/// length of `data` in two bytes, then `data` itself.
pub open spec fn with_var_data(bytes: Seq<u8>, at: int, data: Seq<u8>) -> Seq<u8> {
    overwrite(overwrite(bytes, at, le_bytes(data.len(), 2)), at + 2, data)
}

/// The number of bytes that the body of `order` takes up: the fixed block, the preamble of
/// the group, the items, and the note with its length.
pub open spec fn order_length(order: Order) -> nat {
    25 + 3 + 14 * order.items.len() + 2 + order.note.len()
}

/// `bytes` with the body of `order` written from index `at` on, as one pass of the encoder
/// writes it: the fixed block, the group of items, the note.
pub open spec fn with_order(bytes: Seq<u8>, at: int, order: Order) -> Seq<u8> {
    let block = with_block(bytes, at, order);
    let preamble = with_group_preamble(block, at + 25, 14, order.items.len() as u8);
    let items = with_items(preamble, at + 28, order.items);
    with_var_data(items, at + 28 + 14 * order.items.len(), order.note)
}

/// The size of an entry's block that the preamble of a group at index `at` declares.
pub open spec fn declared_block_length(bytes: Seq<u8>, at: int) -> u16 {
    unsigned_at(bytes, at, 2) as u16
}

/// The number of entries that the preamble of a group at index `at` declares.
pub open spec fn declared_count(bytes: Seq<u8>, at: int) -> u8 {
    unsigned_at(bytes, at + 2, 1) as u8
}

/// The length that a variable-length field at index `at` declares for its data.
pub open spec fn declared_data_length(bytes: Seq<u8>, at: int) -> nat {
    unsigned_at(bytes, at, 2)
}

/// The item whose block starts at index `at`.
pub open spec fn item_at(bytes: Seq<u8>, at: int) -> Item {
    Item {
        product_id: unsigned_at(bytes, at, 4) as u32,
        quantity: unsigned_at(bytes, at + 4, 2) as u16,
        price: signed_at(bytes, at + 6, 8) as i64,
    }
}

/// The `count` items whose blocks, each of `block_length` bytes, start at index `at`.
pub open spec fn items_at(bytes: Seq<u8>, at: int, block_length: int, count: nat) -> Seq<Item> {
    Seq::new(count, |i: int| item_at(bytes, at + i * block_length))
}

/// The data of the variable-length field at index `at`.
pub open spec fn var_data_at(bytes: Seq<u8>, at: int) -> Seq<u8> {
    bytes.subrange(at + 2, at + 2 + declared_data_length(bytes, at))
}

/// The order whose body starts at index `at` with a fixed block of `block_length` bytes, as
/// one pass of the decoder reads it.
pub open spec fn order_at(bytes: Seq<u8>, at: int, block_length: int) -> Order {
    let group = at + block_length;
    let entry_length = declared_block_length(bytes, group) as int;
    let count = declared_count(bytes, group) as nat;
    Order {
        order_id: unsigned_at(bytes, at, 8) as u64,
        client_id: unsigned_at(bytes, at + 8, 8) as u64,
        timestamp: unsigned_at(bytes, at + 16, 8) as u64,
        order_type: order_type_of(unsigned_at(bytes, at + 24, 1) as u8),
        items: items_at(bytes, group + 3, entry_length, count),
        note: var_data_at(bytes, group + 3 + count * entry_length),
    }
}

/// Where the note of the message stands whose body starts at index `at` with a fixed block
/// of `block_length` bytes: behind the entries that the preamble of the group declares.
pub open spec fn note_start(bytes: Seq<u8>, at: int, block_length: int) -> int {
    let group = at + block_length;
    group + 3 + declared_count(bytes, group) * declared_block_length(bytes, group)
}

/// Where the message ends whose body starts at index `at` with a fixed block of
/// `block_length` bytes: behind the data that the note declares.
pub open spec fn order_end(bytes: Seq<u8>, at: int, block_length: int) -> int {
    let note = note_start(bytes, at, block_length);
    note + 2 + declared_data_length(bytes, note)
}

/// Whether `bytes` holds a whole order message whose body starts at index `at` with a fixed
/// block of `block_length` bytes: the block is long enough for the fields of an order and
/// lies in `bytes` with the preamble of the group behind it; the entries that the preamble
/// declares are long enough for the fields of an item and lie in `bytes`; and so does the
/// note with the length that it declares.
pub open spec fn holds_order(bytes: Seq<u8>, at: int, block_length: int) -> bool {
    let group = at + block_length;
    let note = note_start(bytes, at, block_length);
    &&& 0 <= at
    &&& 25 <= block_length
    &&& group + 3 <= bytes.len()
    &&& declared_count(bytes, group) > 0 ==> 14 <= declared_block_length(bytes, group)
    &&& note + 2 <= bytes.len()
    &&& order_end(bytes, at, block_length) <= bytes.len()
}

/// The number of bytes that each step of one pass of the encoder over `order` writes, in
/// the order of the steps: the fixed block, the preamble of the group, each item, and the
/// note with its length.
pub open spec fn step_sizes(order: Order) -> Seq<nat> {
    Seq::new(
        order.items.len() + 3,
        |step: int|
            if step == 0 {
                25nat
            } else if step == 1 {
                3nat
            } else if step < order.items.len() + 2 {
                14nat
            } else {
                2 + order.note.len()
            },
    )
}

/// The number of bytes that the first `steps` steps of sizes `sizes` have written: a pass
/// that started at `start` has its limit at `start` plus this.
pub open spec fn written(sizes: Seq<nat>, steps: nat) -> nat
    decreases steps,
{
    if steps == 0 {
        0
    } else {
        written(sizes, (steps - 1) as nat) + sizes[steps - 1]
    }
}

/// Whether `left` and `right` are of one length and differ at most at the indices from
/// `from` up to `to`.
pub open spec fn same_outside(left: Seq<u8>, right: Seq<u8>, from: int, to: int) -> bool {
    &&& left.len() == right.len()
    &&& forall|i: int| 0 <= i < left.len() && !(from <= i < to) ==> left[i] == right[i]
}

/// Two byte strings that differ only inside a range hold the same numbers in every place
/// that lies outside the range.
pub proof fn lemma_same_numbers(
    left: Seq<u8>,
    right: Seq<u8>,
    from: int,
    to: int,
    at: int,
    width: nat,
)
    requires
        same_outside(left, right, from, to),
        0 <= at,
        at + width <= left.len(),
        at + width <= from || to <= at,
    ensures
        left.subrange(at, at + width) == right.subrange(at, at + width),
        unsigned_at(left, at, width) == unsigned_at(right, at, width),
        signed_at(left, at, width) == signed_at(right, at, width),
{
}

/// The fixed block is read as it was written, and writing it changes nothing else.
pub proof fn lemma_block_round_trip(bytes: Seq<u8>, at: int, order: Order)
    requires
        0 <= at,
        at + 25 <= bytes.len(),
    ensures
        same_outside(with_block(bytes, at, order), bytes, at, at + 25),
        unsigned_at(with_block(bytes, at, order), at, 8) == order.order_id,
        unsigned_at(with_block(bytes, at, order), at + 8, 8) == order.client_id,
        unsigned_at(with_block(bytes, at, order), at + 16, 8) == order.timestamp,
        order_type_of(unsigned_at(with_block(bytes, at, order), at + 24, 1) as u8)
            == order.order_type,
{
    lemma_radix_values();
    let first = overwrite(bytes, at, le_bytes(order.order_id as nat, 8));
    let second = overwrite(first, at + 8, le_bytes(order.client_id as nat, 8));
    let third = overwrite(second, at + 16, le_bytes(order.timestamp as nat, 8));
    let code = order_type_code(order.order_type);
    let fourth = overwrite(third, at + 24, le_bytes(code as nat, 1));
    lemma_le_bytes_len(order.order_id as nat, 8);
    lemma_le_bytes_len(order.client_id as nat, 8);
    lemma_le_bytes_len(order.timestamp as nat, 8);
    lemma_le_bytes_len(code as nat, 1);
    lemma_unsigned_read_back(bytes, at, order.order_id as nat, 8);
    lemma_unsigned_read_back(first, at + 8, order.client_id as nat, 8);
    lemma_unsigned_read_back(second, at + 16, order.timestamp as nat, 8);
    lemma_unsigned_read_back(third, at + 24, code as nat, 1);
    lemma_same_numbers(fourth, first, at + 8, at + 25, at, 8);
    lemma_same_numbers(fourth, second, at + 16, at + 25, at + 8, 8);
    lemma_same_numbers(fourth, third, at + 24, at + 25, at + 16, 8);
}

/// The preamble of a group is read as it was written, and writing it changes nothing else.
pub proof fn lemma_group_preamble_round_trip(
    bytes: Seq<u8>,
    at: int,
    block_length: u16,
    count: u8,
)
    requires
        0 <= at,
        at + 3 <= bytes.len(),
    ensures
        same_outside(with_group_preamble(bytes, at, block_length, count), bytes, at, at + 3),
        declared_block_length(with_group_preamble(bytes, at, block_length, count), at)
            == block_length,
        declared_count(with_group_preamble(bytes, at, block_length, count), at) == count,
{
    lemma_radix_values();
    let first = overwrite(bytes, at, le_bytes(block_length as nat, 2));
    let second = overwrite(first, at + 2, le_bytes(count as nat, 1));
    lemma_le_bytes_len(block_length as nat, 2);
    lemma_le_bytes_len(count as nat, 1);
    lemma_unsigned_read_back(bytes, at, block_length as nat, 2);
    lemma_unsigned_read_back(first, at + 2, count as nat, 1);
    lemma_same_numbers(second, first, at + 2, at + 3, at, 2);
}

/// An item is read as it was written, and writing it changes nothing else.
pub proof fn lemma_item_round_trip(bytes: Seq<u8>, at: int, item: Item)
    requires
        0 <= at,
        at + 14 <= bytes.len(),
    ensures
        same_outside(with_item(bytes, at, item), bytes, at, at + 14),
        item_at(with_item(bytes, at, item), at) == item,
{
    lemma_radix_values();
    let first = overwrite(bytes, at, le_bytes(item.product_id as nat, 4));
    let second = overwrite(first, at + 4, le_bytes(item.quantity as nat, 2));
    let code = to_twos(item.price as int, 8);
    let third = overwrite(second, at + 6, le_bytes(code, 8));
    lemma_le_bytes_len(item.product_id as nat, 4);
    lemma_le_bytes_len(item.quantity as nat, 2);
    lemma_le_bytes_len(code, 8);
    lemma_unsigned_read_back(bytes, at, item.product_id as nat, 4);
    lemma_unsigned_read_back(first, at + 4, item.quantity as nat, 2);
    lemma_signed_read_back(second, at + 6, item.price as int, 8);
    lemma_same_numbers(third, first, at + 4, at + 14, at, 4);
    lemma_same_numbers(third, second, at + 6, at + 14, at + 4, 2);
}

/// Two byte strings that differ only inside a range hold the same item in every place that
/// lies outside the range.
pub proof fn lemma_same_item(left: Seq<u8>, right: Seq<u8>, from: int, to: int, at: int)
    requires
        same_outside(left, right, from, to),
        0 <= at,
        at + 14 <= left.len(),
        at + 14 <= from || to <= at,
    ensures
        item_at(left, at) == item_at(right, at),
{
    lemma_same_numbers(left, right, from, to, at, 4);
    lemma_same_numbers(left, right, from, to, at + 4, 2);
    lemma_same_numbers(left, right, from, to, at + 6, 8);
}

/// The items of a group are read as they were written, each in its place and in the order
/// of writing, and writing them changes nothing else.
pub proof fn lemma_items_round_trip(bytes: Seq<u8>, at: int, items: Seq<Item>)
    requires
        0 <= at,
        at + 14 * items.len() <= bytes.len(),
    ensures
        same_outside(with_items(bytes, at, items), bytes, at, at + 14 * items.len()),
        items_at(with_items(bytes, at, items), at, 14, items.len()) == items,
    decreases items.len(),
{
    let written = with_items(bytes, at, items);
    if items.len() > 0 {
        let before = items.drop_last();
        let earlier = with_items(bytes, at, before);
        let last_at = at + 14 * (items.len() - 1);
        lemma_items_round_trip(bytes, at, before);
        lemma_item_round_trip(earlier, last_at, items.last());
        assert forall|k: int| 0 <= k < items.len() implies item_at(written, at + k * 14)
            == items[k] by {
            if k < items.len() - 1 {
                lemma_same_item(written, earlier, last_at, last_at + 14, at + k * 14);
                assert(items_at(earlier, at, 14, before.len())[k] == before[k]);
            }
        }
    }
}

/// A variable-length field is read as it was written: its data is found two bytes behind
/// the place where the field starts and is as long as it was. The field takes up two bytes
/// more than its data, and writing it changes nothing else.
pub proof fn lemma_var_data_round_trip(bytes: Seq<u8>, at: int, data: Seq<u8>)
    requires
        0 <= at,
        data.len() <= u16::MAX,
        at + 2 + data.len() <= bytes.len(),
    ensures
        same_outside(with_var_data(bytes, at, data), bytes, at, at + 2 + data.len()),
        declared_data_length(with_var_data(bytes, at, data), at) == data.len(),
        var_data_at(with_var_data(bytes, at, data), at) == data,
{
    lemma_radix_values();
    let first = overwrite(bytes, at, le_bytes(data.len(), 2));
    let second = overwrite(first, at + 2, data);
    lemma_le_bytes_len(data.len(), 2);
    lemma_unsigned_read_back(bytes, at, data.len(), 2);
    lemma_same_numbers(second, first, at + 2, at + 2 + data.len(), at, 2);
}

/// An order is read as it was written: every number of the fixed block, the kind of order,
/// every item in the order of writing, and the bytes of the note. Writing it changes no
/// byte outside the `order_length` bytes from `at` on.
pub proof fn lemma_order_round_trip(bytes: Seq<u8>, at: int, order: Order)
    requires
        0 <= at,
        order.items.len() <= u8::MAX,
        order.note.len() <= u16::MAX,
        at + order_length(order) <= bytes.len(),
    ensures
        order_at(with_order(bytes, at, order), at, 25) == order,
        same_outside(with_order(bytes, at, order), bytes, at, at + order_length(order)),
{
    let count = order.items.len();
    let block = with_block(bytes, at, order);
    let preamble = with_group_preamble(block, at + 25, 14, count as u8);
    let items = with_items(preamble, at + 28, order.items);
    let note_at = at + 28 + 14 * count;
    let all = with_var_data(items, note_at, order.note);
    let end = at + order_length(order);
    lemma_block_round_trip(bytes, at, order);
    lemma_group_preamble_round_trip(block, at + 25, 14, count as u8);
    lemma_items_round_trip(preamble, at + 28, order.items);
    lemma_var_data_round_trip(items, note_at, order.note);
    lemma_same_numbers(all, block, at + 25, end, at, 8);
    lemma_same_numbers(all, block, at + 25, end, at + 8, 8);
    lemma_same_numbers(all, block, at + 25, end, at + 16, 8);
    lemma_same_numbers(all, block, at + 25, end, at + 24, 1);
    lemma_same_numbers(all, preamble, at + 28, end, at + 25, 2);
    lemma_same_numbers(all, preamble, at + 28, end, at + 27, 1);
    let read = order_at(all, at, 25);
    assert forall|k: int| 0 <= k < count implies item_at(all, at + 28 + k * 14)
        == order.items[k] by {
        lemma_same_item(all, items, note_at, end, at + 28 + k * 14);
    }
    assert(read.items =~= order.items);
    assert(count * 14 == 14 * count);
}

/// What one pass of the encoder has written is a whole message, and it ends where the
/// encoder's limit stands: `order_length` bytes behind the start.
pub proof fn lemma_written_order_holds(bytes: Seq<u8>, at: int, order: Order)
    requires
        0 <= at,
        order.items.len() <= u8::MAX,
        order.note.len() <= u16::MAX,
        at + order_length(order) <= bytes.len(),
    ensures
        holds_order(with_order(bytes, at, order), at, 25),
        order_end(with_order(bytes, at, order), at, 25) == at + order_length(order),
{
    let count = order.items.len();
    let block = with_block(bytes, at, order);
    let preamble = with_group_preamble(block, at + 25, 14, count as u8);
    let items = with_items(preamble, at + 28, order.items);
    let note_at = at + 28 + 14 * count;
    let all = with_var_data(items, note_at, order.note);
    let end = at + order_length(order);
    lemma_group_preamble_round_trip(block, at + 25, 14, count as u8);
    lemma_items_round_trip(preamble, at + 28, order.items);
    lemma_var_data_round_trip(items, note_at, order.note);
    lemma_same_numbers(all, preamble, at + 28, end, at + 25, 2);
    lemma_same_numbers(all, preamble, at + 28, end, at + 27, 1);
    assert(count * 14 == 14 * count);
}

/// What a pass has written never shrinks from one step to a later one.
pub proof fn lemma_written_grows(sizes: Seq<nat>, earlier: nat, later: nat)
    requires
        earlier <= later,
    ensures
        written(sizes, earlier) <= written(sizes, later),
    decreases later,
{
    if earlier < later {
        lemma_written_grows(sizes, earlier, (later - 1) as nat);
    }
}

/// What the steps of a pass over `order` have written as far as the entry with index
/// `entries - 1`: the fixed block, the preamble, and that many items.
pub proof fn lemma_written_entries(order: Order, entries: nat)
    requires
        entries <= order.items.len(),
    ensures
        written(step_sizes(order), 0) == 0,
        written(step_sizes(order), 1) == 25,
        written(step_sizes(order), entries + 2) == 28 + 14 * entries,
    decreases entries,
{
    reveal_with_fuel(written, 3);
    if entries > 0 {
        lemma_written_entries(order, (entries - 1) as nat);
    }
}

/// The limit of a pass of the encoder never recedes, and it stands at every step exactly
/// behind what the pass has written so far: at the end, `order_length` bytes behind the
/// start.
pub proof fn lemma_limit_never_recedes(order: Order, earlier: nat, later: nat)
    requires
        earlier <= later <= step_sizes(order).len(),
    ensures
        written(step_sizes(order), earlier) <= written(step_sizes(order), later),
        written(step_sizes(order), later) <= order_length(order),
        written(step_sizes(order), step_sizes(order).len()) == order_length(order),
{
    let sizes = step_sizes(order);
    lemma_written_entries(order, order.items.len());
    lemma_written_grows(sizes, earlier, later);
    lemma_written_grows(sizes, later, sizes.len());
}

/// In a message that `bytes` holds whole, every entry of the group lies in `bytes` before
/// the note, and the note lies in `bytes` with all its data: after `validate` has accepted
/// a message, no step of a pass over it reads outside `bytes`.
pub proof fn lemma_entries_lie_inside(bytes: Seq<u8>, at: int, block_length: int, index: int)
    requires
        holds_order(bytes, at, block_length),
        0 <= index < declared_count(bytes, at + block_length),
    ensures
        at + block_length + 3 + (index + 1) * declared_block_length(bytes, at + block_length)
            <= note_start(bytes, at, block_length),
        note_start(bytes, at, block_length) + 2 <= order_end(bytes, at, block_length)
            <= bytes.len(),
{
    let count = declared_count(bytes, at + block_length) as int;
    let length = declared_block_length(bytes, at + block_length) as int;
    assert((index + 1) * length <= count * length) by (nonlinear_arith)
        requires
            0 <= index + 1 <= count,
            0 <= length,
    ;
}

} // verus!
