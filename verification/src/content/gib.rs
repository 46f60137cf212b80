//! A piece that a character bursts into.
use vstd::prelude::*;
use crate::decode::Decode;
use crate::error::{DecodeError};
use crate::reader::{Cursor, follows, Reader};
use crate::single::Single;

verus! {

broadcast use crate::reader::group_failed;

/// A piece of a burst character.
#[derive(Clone, PartialEq, Eq, Debug)]
pub struct Gib {
    pub model: String,
    pub mass: Single,
    pub scale: Single,
}

/// `Gib` as the format states it.
pub struct GibView {
    pub model: Seq<char>,
    pub mass: Single,
    pub scale: Single,
}

impl DeepView for Gib {
    type V = GibView;

    open spec fn deep_view(&self) -> GibView {
        GibView {
            model: self.model.deep_view(),
            mass: self.mass,
            scale: self.scale,
        }
    }
}

impl Gib {
    /// The fields on the wire, one behind the other.
    #[verifier::opaque]
    pub open spec fn fields(c: Cursor) -> (GibView, Cursor) {
        let (model, c1) = c.string();
        let (mass, c2) = Single::layout(c1);
        let (scale, c3) = Single::layout(c2);
        (GibView { model, mass, scale }, c3)
    }

    /// The value at `c`: nothing from a failed cursor.
    pub open spec fn layout(c: Cursor) -> (GibView, Cursor) {
        if c.err is Some {
            (arbitrary(), c)
        } else {
            Self::fields(c)
        }
    }

    /// Reads one `Gib`.
    pub fn read(reader: &mut Reader) -> (res: Result<Self, DecodeError>)
        ensures
            follows(res, final(reader)@, Self::layout(old(reader)@)),
    {
        proof {
            reveal(Gib::fields);
        }
        let model = reader.read_7bit_length_string()?;
        let mass = Single::read(reader)?;
        let scale = Single::read(reader)?;
        Ok(Gib { model, mass, scale })
    }
}

impl Decode for Gib {
    open spec fn wire(c: Cursor) -> (GibView, Cursor) {
        Gib::layout(c)
    }

    proof fn lemma_wire_failed(c: Cursor) {
    }

    fn decode(r: &mut Reader) -> (res: Result<Self, DecodeError>) {
        Gib::read(r)
    }
}

} // verus!
