//! A colour without alpha.
use vstd::prelude::*;
use crate::decode::Decode;
use crate::error::{DecodeError};
use crate::reader::{Cursor, follows, Reader};
use crate::single::Single;

verus! {

broadcast use crate::reader::group_failed;

/// Red, green and blue, each a number.
#[derive(Clone, Copy, PartialEq, Eq, Structural, Debug)]
pub struct Color {
    pub r: Single,
    pub g: Single,
    pub b: Single,
}

impl DeepView for Color {
    type V = Color;

    open spec fn deep_view(&self) -> Color {
        *self
    }
}

impl Color {
    /// The fields on the wire, one behind the other.
    #[verifier::opaque]
    pub open spec fn fields(c: Cursor) -> (Color, Cursor) {
        let (r, c1) = Single::layout(c);
        let (g, c2) = Single::layout(c1);
        let (b, c3) = Single::layout(c2);
        (Color { r, g, b }, c3)
    }

    /// The value at `c`: nothing from a failed cursor.
    pub open spec fn layout(c: Cursor) -> (Color, Cursor) {
        if c.err is Some {
            (arbitrary(), c)
        } else {
            Self::fields(c)
        }
    }

    /// Reads one `Color`.
    pub fn read(reader: &mut Reader) -> (res: Result<Self, DecodeError>)
        ensures
            follows(res, final(reader)@, Self::layout(old(reader)@)),
    {
        proof {
            reveal(Color::fields);
        }
        let r = Single::read(reader)?;
        let g = Single::read(reader)?;
        let b = Single::read(reader)?;
        Ok(Color { r, g, b })
    }
}

impl Decode for Color {
    open spec fn wire(c: Cursor) -> (Color, Cursor) {
        Color::layout(c)
    }

    proof fn lemma_wire_failed(c: Cursor) {
    }

    fn decode(r: &mut Reader) -> (res: Result<Self, DecodeError>) {
        Color::read(r)
    }
}

} // verus!
