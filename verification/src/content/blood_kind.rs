//! The kinds of blood that a character sheds.
use vstd::prelude::*;
use crate::decode::Decode;
use crate::error::{DecodeError, DecodeErrorView, Selector};
use crate::reader::{Cursor, follows, low_byte, low_byte_of, Reader};

verus! {

broadcast use crate::reader::group_failed;

/// What a character bleeds.
#[derive(Clone, Copy, PartialEq, Eq, Structural, Debug)]
pub enum BloodKind {
    Regular,
    Green,
    Black,
    Wood,
    Insect,
    Nothing,
}

impl DeepView for BloodKind {
    type V = BloodKind;

    open spec fn deep_view(&self) -> BloodKind {
        *self
    }
}

impl BloodKind {
    /// The variant that a number stands for, if any.
    pub open spec fn of(value: u8) -> Option<BloodKind> {
        if value == 0 {
            Some(BloodKind::Regular)
        } else if value == 1 {
            Some(BloodKind::Green)
        } else if value == 2 {
            Some(BloodKind::Black)
        } else if value == 3 {
            Some(BloodKind::Wood)
        } else if value == 4 {
            Some(BloodKind::Insect)
        } else if value == 5 {
            Some(BloodKind::Nothing)
        } else {
            None
        }
    }

    /// The variant that `value` stands for, if any.
    pub fn from_repr(value: u8) -> (kind: Option<Self>)
        ensures
            kind == Self::of(value),
    {
        if value == 0 {
            Some(BloodKind::Regular)
        } else if value == 1 {
            Some(BloodKind::Green)
        } else if value == 2 {
            Some(BloodKind::Black)
        } else if value == 3 {
            Some(BloodKind::Wood)
        } else if value == 4 {
            Some(BloodKind::Insect)
        } else if value == 5 {
            Some(BloodKind::Nothing)
        } else {
            None
        }
    }

    /// A 32-bit number, of which the low byte counts, on the wire.
    pub open spec fn layout(c: Cursor) -> (BloodKind, Cursor) {
        let (raw, c1) = c.i32();
        if c1.err is Some {
            (arbitrary(), c1)
        } else {
            match Self::of(low_byte(raw)) {
                Some(kind) => (kind, c1),
                None => (
                    arbitrary(),
                    c1.fail(DecodeErrorView::UnknownKind { selector: Selector::BloodKind, value: raw }),
                ),
            }
        }
    }

    /// Reads one `BloodKind`.
    pub fn read(reader: &mut Reader) -> (res: Result<Self, DecodeError>)
        ensures
            follows(res, final(reader)@, Self::layout(old(reader)@)),
    {
        let raw = reader.read_i32()?;
        match Self::from_repr(low_byte_of(raw)) {
            Some(kind) => Ok(kind),
            None => Err(DecodeError::UnknownKind { selector: Selector::BloodKind, value: raw }),
        }
    }
}

impl Decode for BloodKind {
    open spec fn wire(c: Cursor) -> (BloodKind, Cursor) {
        BloodKind::layout(c)
    }

    proof fn lemma_wire_failed(c: Cursor) {
    }

    fn decode(r: &mut Reader) -> (res: Result<Self, DecodeError>) {
        BloodKind::read(r)
    }
}

} // verus!
