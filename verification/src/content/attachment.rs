//! An item attached to a bone.
use vstd::prelude::*;
use crate::decode::Decode;
use crate::error::{DecodeError};
use crate::reader::{Cursor, follows, Reader};
use crate::content::vector3::Vector3;

verus! {

broadcast use crate::reader::group_failed;

/// An item in a slot, attached to a bone.
#[derive(Clone, PartialEq, Eq, Debug)]
pub struct Attachment {
    pub slot: i32,
    pub bone: String,
    pub rotation: Vector3,
    pub item: String,
}

/// `Attachment` as the format states it.
pub struct AttachmentView {
    pub slot: i32,
    pub bone: Seq<char>,
    pub rotation: Vector3,
    pub item: Seq<char>,
}

impl DeepView for Attachment {
    type V = AttachmentView;

    open spec fn deep_view(&self) -> AttachmentView {
        AttachmentView {
            slot: self.slot,
            bone: self.bone.deep_view(),
            rotation: self.rotation,
            item: self.item.deep_view(),
        }
    }
}

impl Attachment {
    /// The fields on the wire, one behind the other.
    #[verifier::opaque]
    pub open spec fn fields(c: Cursor) -> (AttachmentView, Cursor) {
        let (slot, c1) = c.i32();
        let (bone, c2) = c1.string();
        let (rotation, c3) = Vector3::layout(c2);
        let (item, c4) = c3.string();
        (AttachmentView { slot, bone, rotation, item }, c4)
    }

    /// The value at `c`: nothing from a failed cursor.
    pub open spec fn layout(c: Cursor) -> (AttachmentView, Cursor) {
        if c.err is Some {
            (arbitrary(), c)
        } else {
            Self::fields(c)
        }
    }

    /// Reads one `Attachment`.
    pub fn read(reader: &mut Reader) -> (res: Result<Self, DecodeError>)
        ensures
            follows(res, final(reader)@, Self::layout(old(reader)@)),
    {
        proof {
            reveal(Attachment::fields);
        }
        let slot = reader.read_i32()?;
        let bone = reader.read_7bit_length_string()?;
        let rotation = Vector3::read(reader)?;
        let item = reader.read_7bit_length_string()?;
        Ok(Attachment { slot, bone, rotation, item })
    }
}

impl Decode for Attachment {
    open spec fn wire(c: Cursor) -> (AttachmentView, Cursor) {
        Attachment::layout(c)
    }

    proof fn lemma_wire_failed(c: Cursor) {
    }

    fn decode(r: &mut Reader) -> (res: Result<Self, DecodeError>) {
        Attachment::read(r)
    }
}

} // verus!
