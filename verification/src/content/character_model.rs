//! One of the models that a character is drawn with.
use vstd::prelude::*;
use crate::decode::Decode;
use crate::error::{DecodeError};
use crate::reader::{Cursor, follows, Reader};
use crate::single::Single;
use crate::content::color::Color;

verus! {

broadcast use crate::reader::group_failed;

/// A model with its scale and tint.
#[derive(Clone, PartialEq, Eq, Debug)]
pub struct CharacterModel {
    pub model: String,
    pub scale: Single,
    pub tint: Color,
}

/// `CharacterModel` as the format states it.
pub struct CharacterModelView {
    pub model: Seq<char>,
    pub scale: Single,
    pub tint: Color,
}

impl DeepView for CharacterModel {
    type V = CharacterModelView;

    open spec fn deep_view(&self) -> CharacterModelView {
        CharacterModelView {
            model: self.model.deep_view(),
            scale: self.scale,
            tint: self.tint,
        }
    }
}

impl CharacterModel {
    /// The fields on the wire, one behind the other.
    #[verifier::opaque]
    pub open spec fn fields(c: Cursor) -> (CharacterModelView, Cursor) {
        let (model, c1) = c.string();
        let (scale, c2) = Single::layout(c1);
        let (tint, c3) = Color::layout(c2);
        (CharacterModelView { model, scale, tint }, c3)
    }

    /// The value at `c`: nothing from a failed cursor.
    pub open spec fn layout(c: Cursor) -> (CharacterModelView, Cursor) {
        if c.err is Some {
            (arbitrary(), c)
        } else {
            Self::fields(c)
        }
    }

    /// Reads one `CharacterModel`.
    pub fn read(reader: &mut Reader) -> (res: Result<Self, DecodeError>)
        ensures
            follows(res, final(reader)@, Self::layout(old(reader)@)),
    {
        proof {
            reveal(CharacterModel::fields);
        }
        let model = reader.read_7bit_length_string()?;
        let scale = Single::read(reader)?;
        let tint = Color::read(reader)?;
        Ok(CharacterModel { model, scale, tint })
    }
}

impl Decode for CharacterModel {
    open spec fn wire(c: Cursor) -> (CharacterModelView, Cursor) {
        CharacterModel::layout(c)
    }

    proof fn lemma_wire_failed(c: Cursor) {
    }

    fn decode(r: &mut Reader) -> (res: Result<Self, DecodeError>) {
        CharacterModel::read(r)
    }
}

} // verus!
