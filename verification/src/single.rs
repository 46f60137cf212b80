//! Single-precision numbers as bit patterns, and the vectors made of them.
use vstd::prelude::*;
use crate::decode::{lemma_repeat_len, read_vec, repeat, Decode};
use crate::error::DecodeError;
use crate::reader::{follows, group_failed, Cursor, Reader};

verus! {

broadcast use {group_failed, crate::decode::group_failed_items};

/// An IEEE 754 single-precision number, held as its 32 bits.
#[derive(Clone, Copy, PartialEq, Eq, Structural, Debug)]
pub struct Single {
    pub bits: u32,
}

/// The bits of 0.0.
pub const ZERO_BITS: u32 = 0;

/// The bits of 1.0.
pub const ONE_BITS: u32 = 0x3F80_0000;

impl DeepView for Single {
    type V = Single;

    open spec fn deep_view(&self) -> Single {
        *self
    }
}

impl Single {
    pub open spec fn layout(c: Cursor) -> (Single, Cursor) {
        let (bits, c1) = c.u32();
        (Single { bits }, c1)
    }

    /// Reads the four bytes of a number, least significant first.
    pub fn read(r: &mut Reader) -> (res: Result<Self, DecodeError>)
        ensures
            follows(res, final(r)@, Self::layout(old(r)@)),
    {
        let bits = r.read_u32()?;
        Ok(Single { bits })
    }

    /// 0.0
    pub fn zero() -> (s: Self)
        ensures
            s.bits == ZERO_BITS,
    {
        Single { bits: ZERO_BITS }
    }

    /// 1.0
    pub fn one() -> (s: Self)
        ensures
            s.bits == ONE_BITS,
    {
        Single { bits: ONE_BITS }
    }
}

impl Decode for Single {
    open spec fn wire(c: Cursor) -> (Single, Cursor) {
        Single::layout(c)
    }

    proof fn lemma_wire_failed(c: Cursor) {
    }

    fn decode(r: &mut Reader) -> (res: Result<Self, DecodeError>) {
        Single::read(r)
    }
}

/// The sixteen numbers of a matrix with rows and columns exchanged.
pub open spec fn transpose(m: Seq<Single>) -> Seq<Single> {
    Seq::new(16, |i: int| m[(i % 4) * 4 + i / 4])
}

/// A rotation as a quaternion: `x`, `y`, `z`, `w`.
#[derive(Clone, Copy, PartialEq, Eq, Structural, Debug)]
pub struct Quaternion {
    pub x: Single,
    pub y: Single,
    pub z: Single,
    pub w: Single,
}

impl DeepView for Quaternion {
    type V = Quaternion;

    open spec fn deep_view(&self) -> Quaternion {
        *self
    }
}

impl Quaternion {
    /// The fields on the wire, one behind the other.
    #[verifier::opaque]
    pub open spec fn fields(c: Cursor) -> (Quaternion, Cursor) {
        let (x, c1) = Single::layout(c);
        let (y, c2) = Single::layout(c1);
        let (z, c3) = Single::layout(c2);
        let (w, c4) = Single::layout(c3);
        (Quaternion { x, y, z, w }, c4)
    }

    /// The value at `c`: nothing from a failed cursor.
    pub open spec fn layout(c: Cursor) -> (Quaternion, Cursor) {
        if c.err is Some {
            (arbitrary(), c)
        } else {
            Self::fields(c)
        }
    }

    /// Reads the four numbers of a quaternion.
    pub fn read(reader: &mut Reader) -> (res: Result<Self, DecodeError>)
        ensures
            follows(res, final(reader)@, Self::layout(old(reader)@)),
    {
        proof {
            reveal(Quaternion::fields);
        }
        let x = Single::read(reader)?;
        let y = Single::read(reader)?;
        let z = Single::read(reader)?;
        let w = Single::read(reader)?;
        Ok(Quaternion { x, y, z, w })
    }
}

impl Decode for Quaternion {
    open spec fn wire(c: Cursor) -> (Quaternion, Cursor) {
        Quaternion::layout(c)
    }

    proof fn lemma_wire_failed(c: Cursor) {
    }

    fn decode(r: &mut Reader) -> (res: Result<Self, DecodeError>) {
        Quaternion::read(r)
    }
}

/// A matrix of four by four numbers, column after column.
#[derive(Clone, Copy, PartialEq, Eq, Debug)]
pub struct Matrix4 {
    pub cols: [Single; 16],
}

impl DeepView for Matrix4 {
    type V = Seq<Single>;

    open spec fn deep_view(&self) -> Seq<Single> {
        self.cols@
    }
}

impl Matrix4 {
    /// A matrix on the wire: sixteen numbers, row after row. They are kept
    /// column after column.
    pub open spec fn layout(c: Cursor) -> (Seq<Single>, Cursor) {
        let (rows, c1) = repeat::<Single>(c, 16);
        (transpose(rows), c1)
    }

    /// Reads the sixteen numbers of a matrix.
    pub fn read(reader: &mut Reader) -> (res: Result<Self, DecodeError>)
        ensures
            follows(res, final(reader)@, Self::layout(old(reader)@)),
    {
        let m = read_vec::<Single>(reader, 16)?;
        proof {
            lemma_repeat_len::<Single>(old(reader)@, 16);
            assert(m.deep_view() =~= m@);
        }
        let t = Matrix4 {
            cols: [
                m[0], m[4], m[8], m[12],
                m[1], m[5], m[9], m[13],
                m[2], m[6], m[10], m[14],
                m[3], m[7], m[11], m[15],
            ],
        };
        assert(t.cols@ =~= transpose(m@));
        Ok(t)
    }

    /// The matrix with rows and columns exchanged.
    pub fn transposed(&self) -> (t: Matrix4)
        ensures
            t.cols@ == transpose(self.cols@),
    {
        let m = &self.cols;
        let t = Matrix4 {
            cols: [
                m[0], m[4], m[8], m[12],
                m[1], m[5], m[9], m[13],
                m[2], m[6], m[10], m[14],
                m[3], m[7], m[11], m[15],
            ],
        };
        assert(t.cols@ =~= transpose(self.cols@));
        t
    }
}

impl Decode for Matrix4 {
    open spec fn wire(c: Cursor) -> (Seq<Single>, Cursor) {
        Matrix4::layout(c)
    }

    proof fn lemma_wire_failed(c: Cursor) {
    }

    fn decode(r: &mut Reader) -> (res: Result<Self, DecodeError>) {
        Matrix4::read(r)
    }
}

} // verus!
