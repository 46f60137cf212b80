//! One portion of damage.
use vstd::prelude::*;
use crate::decode::Decode;
use crate::error::{DecodeError};
use crate::reader::{Cursor, follows, Reader};
use crate::single::Single;
use crate::content::attack_property::AttackProperties;
use crate::content::element::Element;

verus! {

broadcast use crate::reader::group_failed;

/// Damage of some elements, with its amount and magnitude.
#[derive(Clone, Copy, PartialEq, Eq, Structural, Debug)]
pub struct Damage {
    pub attack_properties: AttackProperties,
    pub elements: Element,
    pub amount: Single,
    pub magnitude: Single,
}

impl DeepView for Damage {
    type V = Damage;

    open spec fn deep_view(&self) -> Damage {
        *self
    }
}

impl Damage {
    /// The fields on the wire, one behind the other.
    #[verifier::opaque]
    pub open spec fn fields(c: Cursor) -> (Damage, Cursor) {
        let (attack_properties, c1) = AttackProperties::layout(c);
        let (elements, c2) = Element::layout(c1);
        let (amount, c3) = Single::layout(c2);
        let (magnitude, c4) = Single::layout(c3);
        (Damage { attack_properties, elements, amount, magnitude }, c4)
    }

    /// The value at `c`: nothing from a failed cursor.
    pub open spec fn layout(c: Cursor) -> (Damage, Cursor) {
        if c.err is Some {
            (arbitrary(), c)
        } else {
            Self::fields(c)
        }
    }

    /// Reads one `Damage`.
    pub fn read(reader: &mut Reader) -> (res: Result<Self, DecodeError>)
        ensures
            follows(res, final(reader)@, Self::layout(old(reader)@)),
    {
        proof {
            reveal(Damage::fields);
        }
        let attack_properties = AttackProperties::read(reader)?;
        let elements = Element::read(reader)?;
        let amount = Single::read(reader)?;
        let magnitude = Single::read(reader)?;
        Ok(Damage { attack_properties, elements, amount, magnitude })
    }
}

impl Decode for Damage {
    open spec fn wire(c: Cursor) -> (Damage, Cursor) {
        Damage::layout(c)
    }

    proof fn lemma_wire_failed(c: Cursor) {
    }

    fn decode(r: &mut Reader) -> (res: Result<Self, DecodeError>) {
        Damage::read(r)
    }
}

} // verus!
