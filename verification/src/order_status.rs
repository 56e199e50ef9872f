//! What has become of an order, as one byte on the wire.

use crate::text::same_text;
use vstd::prelude::*;

verus! {

/// What has become of an order. A byte that names none of the known states is read as
/// `NullVal`, which is also what stands for "no value".
#[derive(Clone, Copy, Debug, PartialEq, Eq, Structural, PartialOrd, Ord, Hash)]
pub enum OrderStatus {
    Accepted,
    Rejected,
    Filled,
    PartiallyFilled,
    NullVal,
}

/// The state that the byte `code` stands for.
pub open spec fn order_status_of(code: u8) -> OrderStatus {
    if code == 0 {
        OrderStatus::Accepted
    } else if code == 1 {
        OrderStatus::Rejected
    } else if code == 2 {
        OrderStatus::Filled
    } else if code == 3 {
        OrderStatus::PartiallyFilled
    } else {
        OrderStatus::NullVal
    }
}

/// The byte that stands for `state`.
pub open spec fn order_status_code(state: OrderStatus) -> u8 {
    match state {
        OrderStatus::Accepted => 0,
        OrderStatus::Rejected => 1,
        OrderStatus::Filled => 2,
        OrderStatus::PartiallyFilled => 3,
        OrderStatus::NullVal => 0xff,
    }
}

/// The state named `name`: `NullVal` where no state has that name.
pub open spec fn order_status_named(name: Seq<char>) -> OrderStatus {
    if name == "Accepted"@ {
        OrderStatus::Accepted
    } else if name == "Rejected"@ {
        OrderStatus::Rejected
    } else if name == "Filled"@ {
        OrderStatus::Filled
    } else if name == "PartiallyFilled"@ {
        OrderStatus::PartiallyFilled
    } else {
        OrderStatus::NullVal
    }
}

/// Every state is read back from its byte, `NullVal` too, whose byte is read and written as
/// the same `0xff`; and every byte that is not the byte of a known state is read as
/// `NullVal`.
pub proof fn lemma_order_status_codes(state: OrderStatus, code: u8)
    ensures
        order_status_of(order_status_code(state)) == state,
        order_status_code(OrderStatus::NullVal) == 0xff,
        order_status_code(order_status_of(0xff)) == 0xff,
        code > 3 ==> order_status_of(code) == OrderStatus::NullVal,
{
}

impl Default for OrderStatus {
    /// `NullVal`.
    fn default() -> (state: Self)
        ensures
            state == OrderStatus::NullVal,
    {
        OrderStatus::NullVal
    }
}

impl From<u8> for OrderStatus {
    /// The state that the byte `v` stands for. Never fails.
    fn from(v: u8) -> (state: Self) {
        match v {
            0u8 => OrderStatus::Accepted,
            1u8 => OrderStatus::Rejected,
            2u8 => OrderStatus::Filled,
            3u8 => OrderStatus::PartiallyFilled,
            _ => OrderStatus::NullVal,
        }
    }
}

impl vstd::std_specs::convert::FromSpecImpl<u8> for OrderStatus {
    open spec fn obeys_from_spec() -> bool {
        true
    }

    open spec fn from_spec(v: u8) -> Self {
        order_status_of(v)
    }
}

impl From<OrderStatus> for u8 {
    /// The byte that stands for `v`.
    fn from(v: OrderStatus) -> (code: Self) {
        match v {
            OrderStatus::Accepted => 0u8,
            OrderStatus::Rejected => 1u8,
            OrderStatus::Filled => 2u8,
            OrderStatus::PartiallyFilled => 3u8,
            OrderStatus::NullVal => 0xffu8,
        }
    }
}

impl vstd::std_specs::convert::FromSpecImpl<OrderStatus> for u8 {
    open spec fn obeys_from_spec() -> bool {
        true
    }

    open spec fn from_spec(v: OrderStatus) -> Self {
        order_status_code(v)
    }
}

impl core::str::FromStr for OrderStatus {
    type Err = ();

    /// The state named `v`. A name that no state has gives `NullVal`, not an error.
    fn from_str(v: &str) -> (res: Result<Self, ()>)
        ensures
            res == Ok::<OrderStatus, ()>(order_status_named(v@)),
    {
        Ok(OrderStatus::from_name(v))
    }
}

impl OrderStatus {
    /// The state named `name`: `NullVal` where no state has that name.
    pub fn from_name(name: &str) -> (state: Self)
        ensures
            state == order_status_named(name@),
    {
        if same_text(name, "Accepted") {
            OrderStatus::Accepted
        } else if same_text(name, "Rejected") {
            OrderStatus::Rejected
        } else if same_text(name, "Filled") {
            OrderStatus::Filled
        } else if same_text(name, "PartiallyFilled") {
            OrderStatus::PartiallyFilled
        } else {
            OrderStatus::NullVal
        }
    }

    /// The name of the state.
    pub fn name(&self) -> (name: &'static str)
        ensures
            name@ == match *self {
                OrderStatus::Accepted => "Accepted"@,
                OrderStatus::Rejected => "Rejected"@,
                OrderStatus::Filled => "Filled"@,
                OrderStatus::PartiallyFilled => "PartiallyFilled"@,
                OrderStatus::NullVal => "NullVal"@,
            },
    {
        match self {
            OrderStatus::Accepted => "Accepted",
            OrderStatus::Rejected => "Rejected",
            OrderStatus::Filled => "Filled",
            OrderStatus::PartiallyFilled => "PartiallyFilled",
            OrderStatus::NullVal => "NullVal",
        }
    }
}

} // verus!
