//! What an order message asks for, as one byte on the wire.

use crate::text::same_text;
use vstd::prelude::*;

verus! {

/// What an order message asks for. A byte that names none of the known kinds is read as
/// `NullVal`, which is also what stands for "no value".
#[derive(Clone, Copy, Debug, PartialEq, Eq, Structural, PartialOrd, Ord, Hash)]
pub enum OrderType {
    New,
    Update,
    Cancel,
    NullVal,
}

/// The kind that the byte `code` stands for.
pub open spec fn order_type_of(code: u8) -> OrderType {
    if code == 0 {
        OrderType::New
    } else if code == 1 {
        OrderType::Update
    } else if code == 2 {
        OrderType::Cancel
    } else {
        OrderType::NullVal
    }
}

/// The byte that stands for `kind`.
pub open spec fn order_type_code(kind: OrderType) -> u8 {
    match kind {
        OrderType::New => 0,
        OrderType::Update => 1,
        OrderType::Cancel => 2,
        OrderType::NullVal => 0xff,
    }
}

/// The kind named `name`: `NullVal` where no kind has that name.
pub open spec fn order_type_named(name: Seq<char>) -> OrderType {
    if name == "New"@ {
        OrderType::New
    } else if name == "Update"@ {
        OrderType::Update
    } else if name == "Cancel"@ {
        OrderType::Cancel
    } else {
        OrderType::NullVal
    }
}

/// Every kind is read back from its byte, `NullVal` too, whose byte is read and written as
/// the same `0xff`; and every byte that is not the byte of a known kind is read as
/// `NullVal`.
pub proof fn lemma_order_type_codes(kind: OrderType, code: u8)
    ensures
        order_type_of(order_type_code(kind)) == kind,
        order_type_code(OrderType::NullVal) == 0xff,
        order_type_code(order_type_of(0xff)) == 0xff,
        code > 2 ==> order_type_of(code) == OrderType::NullVal,
{
}

impl Default for OrderType {
    /// `NullVal`.
    fn default() -> (kind: Self)
        ensures
            kind == OrderType::NullVal,
    {
        OrderType::NullVal
    }
}

impl From<u8> for OrderType {
    /// The kind that the byte `v` stands for. Never fails.
    fn from(v: u8) -> (kind: Self) {
        match v {
            0u8 => OrderType::New,
            1u8 => OrderType::Update,
            2u8 => OrderType::Cancel,
            _ => OrderType::NullVal,
        }
    }
}

impl vstd::std_specs::convert::FromSpecImpl<u8> for OrderType {
    open spec fn obeys_from_spec() -> bool {
        true
    }

    open spec fn from_spec(v: u8) -> Self {
        order_type_of(v)
    }
}

impl From<OrderType> for u8 {
    /// The byte that stands for `v`.
    fn from(v: OrderType) -> (code: Self) {
        match v {
            OrderType::New => 0u8,
            OrderType::Update => 1u8,
            OrderType::Cancel => 2u8,
            OrderType::NullVal => 0xffu8,
        }
    }
}

impl vstd::std_specs::convert::FromSpecImpl<OrderType> for u8 {
    open spec fn obeys_from_spec() -> bool {
        true
    }

    open spec fn from_spec(v: OrderType) -> Self {
        order_type_code(v)
    }
}

impl core::str::FromStr for OrderType {
    type Err = ();

    /// The kind named `v`. A name that no kind has gives `NullVal`, not an error.
    fn from_str(v: &str) -> (res: Result<Self, ()>)
        ensures
            res == Ok::<OrderType, ()>(order_type_named(v@)),
    {
        Ok(OrderType::from_name(v))
    }
}

impl OrderType {
    /// The kind named `name`: `NullVal` where no kind has that name.
    pub fn from_name(name: &str) -> (kind: Self)
        ensures
            kind == order_type_named(name@),
    {
        if same_text(name, "New") {
            OrderType::New
        } else if same_text(name, "Update") {
            OrderType::Update
        } else if same_text(name, "Cancel") {
            OrderType::Cancel
        } else {
            OrderType::NullVal
        }
    }

    /// The name of the kind.
    pub fn name(&self) -> (name: &'static str)
        ensures
            name@ == match *self {
                OrderType::New => "New"@,
                OrderType::Update => "Update"@,
                OrderType::Cancel => "Cancel"@,
                OrderType::NullVal => "NullVal"@,
            },
    {
        match self {
            OrderType::New => "New",
            OrderType::Update => "Update",
            OrderType::Cancel => "Cancel",
            OrderType::NullVal => "NullVal",
        }
    }
}

} // verus!
