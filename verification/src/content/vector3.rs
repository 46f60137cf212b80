//! A vector of three numbers.
use vstd::prelude::*;
use crate::decode::Decode;
use crate::error::{DecodeError};
use crate::reader::{Cursor, follows, Reader};
use crate::single::Single;

verus! {

broadcast use crate::reader::group_failed;

/// Three numbers: `x`, `y`, `z`.
#[derive(Clone, Copy, PartialEq, Eq, Structural, Debug)]
pub struct Vector3 {
    pub x: Single,
    pub y: Single,
    pub z: Single,
}

impl DeepView for Vector3 {
    type V = Vector3;

    open spec fn deep_view(&self) -> Vector3 {
        *self
    }
}

impl Vector3 {
    /// The fields on the wire, one behind the other.
    #[verifier::opaque]
    pub open spec fn fields(c: Cursor) -> (Vector3, Cursor) {
        let (x, c1) = Single::layout(c);
        let (y, c2) = Single::layout(c1);
        let (z, c3) = Single::layout(c2);
        (Vector3 { x, y, z }, c3)
    }

    /// The value at `c`: nothing from a failed cursor.
    pub open spec fn layout(c: Cursor) -> (Vector3, Cursor) {
        if c.err is Some {
            (arbitrary(), c)
        } else {
            Self::fields(c)
        }
    }

    /// Reads one `Vector3`.
    pub fn read(reader: &mut Reader) -> (res: Result<Self, DecodeError>)
        ensures
            follows(res, final(reader)@, Self::layout(old(reader)@)),
    {
        proof {
            reveal(Vector3::fields);
        }
        let x = Single::read(reader)?;
        let y = Single::read(reader)?;
        let z = Single::read(reader)?;
        Ok(Vector3 { x, y, z })
    }
}

impl Decode for Vector3 {
    open spec fn wire(c: Cursor) -> (Vector3, Cursor) {
        Vector3::layout(c)
    }

    proof fn lemma_wire_failed(c: Cursor) {
    }

    fn decode(r: &mut Reader) -> (res: Result<Self, DecodeError>) {
        Vector3::read(r)
    }
}

} // verus!
