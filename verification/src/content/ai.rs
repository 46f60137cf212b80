//! Orders and the triggers of reactions.
use vstd::prelude::*;
use crate::decode::Decode;
use crate::error::{DecodeError, DecodeErrorView, Selector};
use crate::reader::{Cursor, follows, Reader};

verus! {

broadcast use crate::reader::group_failed;

/// What a character is told to do.
#[derive(Clone, Copy, PartialEq, Eq, Structural, Debug)]
pub enum Order {
    Nothing,
    Idle,
    Attack,
    Defend,
    Flee,
    Wander,
    Panic,
}

impl DeepView for Order {
    type V = Order;

    open spec fn deep_view(&self) -> Order {
        *self
    }
}

impl Order {
    /// The variant that a number stands for, if any.
    pub open spec fn of(value: u8) -> Option<Order> {
        if value == 0 {
            Some(Order::Nothing)
        } else if value == 1 {
            Some(Order::Idle)
        } else if value == 2 {
            Some(Order::Attack)
        } else if value == 3 {
            Some(Order::Defend)
        } else if value == 4 {
            Some(Order::Flee)
        } else if value == 5 {
            Some(Order::Wander)
        } else if value == 6 {
            Some(Order::Panic)
        } else {
            None
        }
    }

    /// The variant that `value` stands for, if any.
    pub fn from_repr(value: u8) -> (kind: Option<Self>)
        ensures
            kind == Self::of(value),
    {
        if value == 0 {
            Some(Order::Nothing)
        } else if value == 1 {
            Some(Order::Idle)
        } else if value == 2 {
            Some(Order::Attack)
        } else if value == 3 {
            Some(Order::Defend)
        } else if value == 4 {
            Some(Order::Flee)
        } else if value == 5 {
            Some(Order::Wander)
        } else if value == 6 {
            Some(Order::Panic)
        } else {
            None
        }
    }

    /// One byte on the wire.
    pub open spec fn layout(c: Cursor) -> (Order, Cursor) {
        let (raw, c1) = c.u8();
        if c1.err is Some {
            (arbitrary(), c1)
        } else {
            match Self::of(raw) {
                Some(kind) => (kind, c1),
                None => (
                    arbitrary(),
                    c1.fail(DecodeErrorView::UnknownKind { selector: Selector::Order, value: raw as i32 }),
                ),
            }
        }
    }

    /// Reads one `Order`.
    pub fn read(reader: &mut Reader) -> (res: Result<Self, DecodeError>)
        ensures
            follows(res, final(reader)@, Self::layout(old(reader)@)),
    {
        let raw = reader.read_u8()?;
        match Self::from_repr(raw) {
            Some(kind) => Ok(kind),
            None => Err(DecodeError::UnknownKind { selector: Selector::Order, value: raw as i32 }),
        }
    }
}

impl Decode for Order {
    open spec fn wire(c: Cursor) -> (Order, Cursor) {
        Order::layout(c)
    }

    proof fn lemma_wire_failed(c: Cursor) {
    }

    fn decode(r: &mut Reader) -> (res: Result<Self, DecodeError>) {
        Order::read(r)
    }
}

/// What a character reacts to, in the low two bits.
#[derive(Clone, Copy, PartialEq, Eq, Structural, Debug)]
pub struct ReactionTriggers {
    pub bits: u8,
}

impl DeepView for ReactionTriggers {
    type V = ReactionTriggers;

    open spec fn deep_view(&self) -> ReactionTriggers {
        *self
    }
}

impl ReactionTriggers {
    pub const NONE: u8 = 0;

    pub const ATTACK: u8 = 1;

    pub const PROXIMITY: u8 = 2;

    /// Every bit that some flag has.
    pub const KNOWN: u8 = 3;

    /// The flags that `bits` spell, if all of its bits are known.
    pub open spec fn of(bits: u8) -> Option<ReactionTriggers> {
        if bits <= 3 {
            Some(ReactionTriggers { bits })
        } else {
            None
        }
    }

    /// The flags that `bits` spell, if all of its bits are known.
    pub fn from_bits(bits: u8) -> (flags: Option<Self>)
        ensures
            flags == Self::of(bits),
    {
        if bits <= 3 {
            Some(ReactionTriggers { bits })
        } else {
            None
        }
    }

    /// The bits of the flags.
    pub fn bits(&self) -> (bits: u8)
        ensures
            bits == self.bits,
    {
        self.bits
    }

    /// One byte on the wire.
    pub open spec fn layout(c: Cursor) -> (ReactionTriggers, Cursor) {
        let (raw, c1) = c.u8();
        if c1.err is Some {
            (arbitrary(), c1)
        } else {
            match Self::of(raw) {
                Some(flags) => (flags, c1),
                None => (
                    arbitrary(),
                    c1.fail(DecodeErrorView::UnknownKind { selector: Selector::ReactionTriggers, value: raw as i32 }),
                ),
            }
        }
    }

    /// Reads one `ReactionTriggers`.
    pub fn read(reader: &mut Reader) -> (res: Result<Self, DecodeError>)
        ensures
            follows(res, final(reader)@, Self::layout(old(reader)@)),
    {
        let raw = reader.read_u8()?;
        match Self::from_bits(raw) {
            Some(flags) => Ok(flags),
            None => Err(DecodeError::UnknownKind { selector: Selector::ReactionTriggers, value: raw as i32 }),
        }
    }
}

impl Decode for ReactionTriggers {
    open spec fn wire(c: Cursor) -> (ReactionTriggers, Cursor) {
        ReactionTriggers::layout(c)
    }

    proof fn lemma_wire_failed(c: Cursor) {
    }

    fn decode(r: &mut Reader) -> (res: Result<Self, DecodeError>) {
        ReactionTriggers::read(r)
    }
}

} // verus!
