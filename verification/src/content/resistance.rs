//! The resistance of a character or an item to an element.
use vstd::prelude::*;
use crate::decode::Decode;
use crate::error::{DecodeError};
use crate::reader::{Cursor, follows, Reader};
use crate::single::{Single, ONE_BITS, ZERO_BITS};
use crate::content::element::Element;

verus! {

broadcast use crate::reader::group_failed;

/// How far an element is resisted.
#[derive(Clone, Copy, PartialEq, Eq, Structural, Debug)]
pub struct Resistance {
    pub element: Element,
    pub multiplier: Single,
    pub modifier: Single,
    pub status_immunity: bool,
}

impl DeepView for Resistance {
    type V = Resistance;

    open spec fn deep_view(&self) -> Resistance {
        *self
    }
}

impl Resistance {
    /// The resistance that changes nothing: multiplier 1.0, modifier 0.0,
    /// no immunity.
    pub fn new(element: Element) -> (res: Self)
        ensures
            res == (Resistance {
                element,
                multiplier: Single { bits: ONE_BITS },
                modifier: Single { bits: ZERO_BITS },
                status_immunity: false,
            }),
    {
        Resistance { element, multiplier: Single::one(), modifier: Single::zero(), status_immunity: false }
    }

    /// The fields on the wire, one behind the other.
    #[verifier::opaque]
    pub open spec fn fields(c: Cursor) -> (Resistance, Cursor) {
        let (element, c1) = Element::layout(c);
        let (multiplier, c2) = Single::layout(c1);
        let (modifier, c3) = Single::layout(c2);
        let (status_immunity, c4) = c3.bool();
        (Resistance { element, multiplier, modifier, status_immunity }, c4)
    }

    /// The value at `c`: nothing from a failed cursor.
    pub open spec fn layout(c: Cursor) -> (Resistance, Cursor) {
        if c.err is Some {
            (arbitrary(), c)
        } else {
            Self::fields(c)
        }
    }

    /// Reads one `Resistance`.
    pub fn read(reader: &mut Reader) -> (res: Result<Self, DecodeError>)
        ensures
            follows(res, final(reader)@, Self::layout(old(reader)@)),
    {
        proof {
            reveal(Resistance::fields);
        }
        let element = Element::read(reader)?;
        let multiplier = Single::read(reader)?;
        let modifier = Single::read(reader)?;
        let status_immunity = reader.read_bool()?;
        Ok(Resistance { element, multiplier, modifier, status_immunity })
    }
}

impl Decode for Resistance {
    open spec fn wire(c: Cursor) -> (Resistance, Cursor) {
        Resistance::layout(c)
    }

    proof fn lemma_wire_failed(c: Cursor) {
    }

    fn decode(r: &mut Reader) -> (res: Result<Self, DecodeError>) {
        Resistance::read(r)
    }
}

} // verus!
