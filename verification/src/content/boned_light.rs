//! A light bound to a bone.
use vstd::prelude::*;
use crate::decode::Decode;
use crate::error::{DecodeError};
use crate::reader::{Cursor, follows, Reader};
use crate::content::light::Light;

verus! {

broadcast use crate::reader::group_failed;

/// A light and the bone it follows.
#[derive(Clone, PartialEq, Eq, Debug)]
pub struct BonedLight {
    pub bone: String,
    pub light: Light,
}

/// `BonedLight` as the format states it.
pub struct BonedLightView {
    pub bone: Seq<char>,
    pub light: Light,
}

impl DeepView for BonedLight {
    type V = BonedLightView;

    open spec fn deep_view(&self) -> BonedLightView {
        BonedLightView {
            bone: self.bone.deep_view(),
            light: self.light,
        }
    }
}

impl BonedLight {
    /// The fields on the wire, one behind the other.
    #[verifier::opaque]
    pub open spec fn fields(c: Cursor) -> (BonedLightView, Cursor) {
        let (bone, c1) = c.string();
        let (light, c2) = Light::layout(c1);
        (BonedLightView { bone, light }, c2)
    }

    /// The value at `c`: nothing from a failed cursor.
    pub open spec fn layout(c: Cursor) -> (BonedLightView, Cursor) {
        if c.err is Some {
            (arbitrary(), c)
        } else {
            Self::fields(c)
        }
    }

    /// Reads one `BonedLight`.
    pub fn read(reader: &mut Reader) -> (res: Result<Self, DecodeError>)
        ensures
            follows(res, final(reader)@, Self::layout(old(reader)@)),
    {
        proof {
            reveal(BonedLight::fields);
        }
        let bone = reader.read_7bit_length_string()?;
        let light = Light::read(reader)?;
        Ok(BonedLight { bone, light })
    }
}

impl Decode for BonedLight {
    open spec fn wire(c: Cursor) -> (BonedLightView, Cursor) {
        BonedLight::layout(c)
    }

    proof fn lemma_wire_failed(c: Cursor) {
    }

    fn decode(r: &mut Reader) -> (res: Result<Self, DecodeError>) {
        BonedLight::read(r)
    }
}

} // verus!
