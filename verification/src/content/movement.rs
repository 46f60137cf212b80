//! The ways a character moves, with their animations.
use vstd::prelude::*;
use crate::decode::{Decode, counted, read_counted};
use crate::error::{DecodeError, DecodeErrorView, Selector};
use crate::reader::{Cursor, follows, Reader};

verus! {

broadcast use {crate::reader::group_failed, crate::decode::group_failed_items};

/// A set of movement properties. Every bit of the eight is known.
#[derive(Clone, Copy, PartialEq, Eq, Structural, Debug)]
pub struct MovementProperties {
    pub bits: u8,
}

impl DeepView for MovementProperties {
    type V = MovementProperties;

    open spec fn deep_view(&self) -> MovementProperties {
        *self
    }
}

impl MovementProperties {
    pub const DEFAULT: u8 = 0;

    pub const WATER: u8 = 1;

    pub const JUMP: u8 = 2;

    pub const FLY: u8 = 4;

    pub const DYNAMIC: u8 = 128;

    pub const ALL: u8 = 255;

    /// Every bit that some flag has.
    pub const KNOWN: u8 = 255;

    /// The flags that `bits` spell, if all of its bits are known.
    pub open spec fn of(bits: u8) -> Option<MovementProperties> {
        if bits <= 255 {
            Some(MovementProperties { bits })
        } else {
            None
        }
    }

    /// The flags that `bits` spell, if all of its bits are known.
    pub fn from_bits(bits: u8) -> (flags: Option<Self>)
        ensures
            flags == Self::of(bits),
    {
        if bits <= 255 {
            Some(MovementProperties { bits })
        } else {
            None
        }
    }

    /// The bits of the flags.
    pub fn bits(&self) -> (bits: u8)
        ensures
            bits == self.bits,
    {
        self.bits
    }

    /// One byte on the wire.
    pub open spec fn layout(c: Cursor) -> (MovementProperties, Cursor) {
        let (raw, c1) = c.u8();
        if c1.err is Some {
            (arbitrary(), c1)
        } else {
            match Self::of(raw) {
                Some(flags) => (flags, c1),
                None => (
                    arbitrary(),
                    c1.fail(DecodeErrorView::UnknownKind { selector: Selector::MovementProperties, value: raw as i32 }),
                ),
            }
        }
    }

    /// Reads one `MovementProperties`.
    pub fn read(reader: &mut Reader) -> (res: Result<Self, DecodeError>)
        ensures
            follows(res, final(reader)@, Self::layout(old(reader)@)),
    {
        let raw = reader.read_u8()?;
        match Self::from_bits(raw) {
            Some(flags) => Ok(flags),
            None => Err(DecodeError::UnknownKind { selector: Selector::MovementProperties, value: raw as i32 }),
        }
    }
}

impl Decode for MovementProperties {
    open spec fn wire(c: Cursor) -> (MovementProperties, Cursor) {
        MovementProperties::layout(c)
    }

    proof fn lemma_wire_failed(c: Cursor) {
    }

    fn decode(r: &mut Reader) -> (res: Result<Self, DecodeError>) {
        MovementProperties::read(r)
    }
}

/// A way of moving and the animations for it.
#[derive(Clone, PartialEq, Eq, Debug)]
pub struct Movement {
    pub properties: MovementProperties,
    pub animations: Vec<String>,
}

/// `Movement` as the format states it.
pub struct MovementView {
    pub properties: MovementProperties,
    pub animations: Seq<Seq<char>>,
}

impl DeepView for Movement {
    type V = MovementView;

    open spec fn deep_view(&self) -> MovementView {
        MovementView {
            properties: self.properties,
            animations: self.animations.deep_view(),
        }
    }
}

impl Movement {
    /// The fields on the wire, one behind the other.
    #[verifier::opaque]
    pub open spec fn fields(c: Cursor) -> (MovementView, Cursor) {
        let (properties, c1) = MovementProperties::layout(c);
        let (animations, c2) = counted::<String>(c1);
        (MovementView { properties, animations }, c2)
    }

    /// The value at `c`: nothing from a failed cursor.
    pub open spec fn layout(c: Cursor) -> (MovementView, Cursor) {
        if c.err is Some {
            (arbitrary(), c)
        } else {
            Self::fields(c)
        }
    }

    /// Reads one `Movement`.
    pub fn read(reader: &mut Reader) -> (res: Result<Self, DecodeError>)
        ensures
            follows(res, final(reader)@, Self::layout(old(reader)@)),
    {
        proof {
            reveal(Movement::fields);
        }
        let properties = MovementProperties::read(reader)?;
        let animations = read_counted::<String>(reader)?;
        Ok(Movement { properties, animations })
    }
}

impl Decode for Movement {
    open spec fn wire(c: Cursor) -> (MovementView, Cursor) {
        Movement::layout(c)
    }

    proof fn lemma_wire_failed(c: Cursor) {
    }

    fn decode(r: &mut Reader) -> (res: Result<Self, DecodeError>) {
        Movement::read(r)
    }
}

} // verus!
