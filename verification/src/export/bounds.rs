//! The bounds of the positions of a run of vertices, computed on the bit
//! patterns of the numbers.
use vstd::prelude::*;
use vstd::slice::slice_subrange;
use crate::content::vector3::Vector3;
use crate::export::ExportError;
use crate::single::Single;
use crate::wire::{le_nat, le_u32};
use crate::xnb::lemma_le_at;

verus! {

/// The bits of the largest finite number.
pub const MAX_BITS: u32 = 0x7F7F_FFFF;

/// The bits of the least finite number.
pub const MIN_BITS: u32 = 0xFF7F_FFFF;

/// Whether a pattern is no number: all bits of the exponent set, and some
/// bit of the fraction.
pub open spec fn is_nan(s: Single) -> bool {
    s.bits % 0x8000_0000 > 0x7F80_0000
}

/// The place of a number in the order of all numbers: a pattern without the
/// sign bit counts up from zero, one with it counts down from -1. Negative
/// zero so comes right before zero.
pub open spec fn rank(s: Single) -> int {
    if s.bits < 0x8000_0000 {
        s.bits as int
    } else {
        0x7FFF_FFFF - s.bits
    }
}

/// The lesser of `a` and `b`. What is no number is never chosen over a
/// number, and `a` stays where `b` is not less.
pub open spec fn lesser(a: Single, b: Single) -> Single {
    if is_nan(b) {
        a
    } else if is_nan(a) {
        b
    } else if rank(b) < rank(a) {
        b
    } else {
        a
    }
}

/// The greater of `a` and `b`. What is no number is never chosen over a
/// number, and `a` stays where `b` is not greater.
pub open spec fn greater(a: Single, b: Single) -> Single {
    if is_nan(b) {
        a
    } else if is_nan(a) {
        b
    } else if rank(b) > rank(a) {
        b
    } else {
        a
    }
}

impl Single {
    /// Whether this pattern is no number.
    pub fn is_nan(&self) -> (nan: bool)
        ensures
            nan == is_nan(*self),
    {
        self.bits % 0x8000_0000 > 0x7F80_0000
    }

    /// The place of this number in the order of all numbers.
    pub fn rank(&self) -> (r: i64)
        ensures
            r == rank(*self),
    {
        if self.bits < 0x8000_0000 {
            self.bits as i64
        } else {
            0x7FFF_FFFF - self.bits as i64
        }
    }

    /// The lesser of two numbers.
    pub fn min(self, other: Single) -> (m: Single)
        ensures
            m == lesser(self, other),
    {
        if other.is_nan() {
            self
        } else if self.is_nan() {
            other
        } else if other.rank() < self.rank() {
            other
        } else {
            self
        }
    }

    /// The greater of two numbers.
    pub fn max(self, other: Single) -> (m: Single)
        ensures
            m == greater(self, other),
    {
        if other.is_nan() {
            self
        } else if self.is_nan() {
            other
        } else if other.rank() > self.rank() {
            other
        } else {
            self
        }
    }
}

/// The least and the greatest of some positions, axis by axis.
#[derive(Debug, Clone, Copy, PartialEq, Eq, Structural)]
pub struct Bounds {
    pub min: Vector3,
    pub max: Vector3,
}

/// The bounds of no position at all: the largest number as the least, the
/// least as the greatest.
pub open spec fn empty_bounds() -> Bounds {
    Bounds {
        min: Vector3 {
            x: Single { bits: MAX_BITS },
            y: Single { bits: MAX_BITS },
            z: Single { bits: MAX_BITS },
        },
        max: Vector3 {
            x: Single { bits: MIN_BITS },
            y: Single { bits: MIN_BITS },
            z: Single { bits: MIN_BITS },
        },
    }
}

/// `b` widened to hold `p`.
pub open spec fn widened(b: Bounds, p: Vector3) -> Bounds {
    Bounds {
        min: Vector3 { x: lesser(b.min.x, p.x), y: lesser(b.min.y, p.y), z: lesser(b.min.z, p.z) },
        max: Vector3 { x: greater(b.max.x, p.x), y: greater(b.max.y, p.y), z: greater(b.max.z, p.z) },
    }
}

/// The three numbers that stand at `at`, least significant byte first.
pub open spec fn position_at(data: Seq<u8>, at: int) -> Vector3 {
    Vector3 {
        x: Single { bits: le_nat(data, at, 4) as u32 },
        y: Single { bits: le_nat(data, at + 4, 4) as u32 },
        z: Single { bits: le_nat(data, at + 8, 4) as u32 },
    }
}

/// The number of vertices of `len` bytes at `stride` bytes a vertex: a
/// last vertex counts though it be cut short.
pub open spec fn vertex_count(len: int, stride: int) -> int {
    (len + stride - 1) / stride
}

/// The bounds of the positions of the first `k` vertices, the position of a
/// vertex standing `offset` bytes into it.
pub open spec fn bounds_of(data: Seq<u8>, stride: int, offset: int, k: nat) -> Bounds
    decreases k,
{
    if k == 0 {
        empty_bounds()
    } else {
        widened(bounds_of(data, stride, offset, (k - 1) as nat), position_at(data, (k - 1) * stride + offset))
    }
}

/// Whether the position of every vertex lies within the data.
pub open spec fn positions_fit(len: int, stride: int, offset: int) -> bool {
    stride > 0 && (len > 0 ==> (vertex_count(len, stride) - 1) * stride + offset + 12 <= len)
}

/// Scans the positions of the vertices in `vertices` and returns their
/// bounds. Vertices are `stride` bytes apart, and the position of a vertex,
/// three numbers of four bytes, stands `offset` bytes into it.
pub fn scan_bounds(vertices: &[u8], stride: usize, offset: usize) -> (res: Result<Bounds, ExportError>)
    ensures
        match res {
            Ok(b) => positions_fit(vertices@.len() as int, stride as int, offset as int) && b == bounds_of(
                vertices@,
                stride as int,
                offset as int,
                vertex_count(vertices@.len() as int, stride as int) as nat,
            ),
            Err(e) => !positions_fit(vertices@.len() as int, stride as int, offset as int) && e == (
            if stride == 0 {
                ExportError::EmptyDeclaration
            } else {
                ExportError::PartOutOfRange
            }),
        },
{
    let len = vertices.len();
    if stride == 0 {
        return Err(ExportError::EmptyDeclaration);
    }
    let mut bounds = Bounds {
        min: Vector3 {
            x: Single { bits: MAX_BITS },
            y: Single { bits: MAX_BITS },
            z: Single { bits: MAX_BITS },
        },
        max: Vector3 {
            x: Single { bits: MIN_BITS },
            y: Single { bits: MIN_BITS },
            z: Single { bits: MIN_BITS },
        },
    };
    let mut at: usize = 0;
    let ghost mut k: nat = 0;
    proof {
        lemma_count_none(stride as int);
    }
    while at < len
        invariant
            stride > 0,
            len == vertices@.len(),
            at < len ==> at == k * stride,
            k <= vertex_count(len as int, stride as int),
            at >= len ==> k == vertex_count(len as int, stride as int),
            bounds == bounds_of(vertices@, stride as int, offset as int, k),
            k > 0 ==> (k - 1) * stride + offset + 12 <= len,
        decreases len - at,
    {
        proof {
            lemma_count(len as int, stride as int, k as int);
        }
        if len - at < 12 || offset > len - at - 12 {
            proof {
                lemma_last_fits(len as int, stride as int, offset as int, k as int);
            }
            return Err(ExportError::PartOutOfRange);
        }
        let p = at + offset;
        proof {
            lemma_le_at(vertices@, p as int);
            lemma_le_at(vertices@, p + 4);
            lemma_le_at(vertices@, p + 8);
        }
        let x = Single { bits: le_u32(slice_subrange(vertices, p, p + 4)) };
        let y = Single { bits: le_u32(slice_subrange(vertices, p + 4, p + 8)) };
        let z = Single { bits: le_u32(slice_subrange(vertices, p + 8, p + 12)) };
        bounds =
        Bounds {
            min: Vector3 { x: bounds.min.x.min(x), y: bounds.min.y.min(y), z: bounds.min.z.min(z) },
            max: Vector3 { x: bounds.max.x.max(x), y: bounds.max.y.max(y), z: bounds.max.z.max(z) },
        };
        proof {
            assert((k + 1) * stride == at + stride) by (nonlinear_arith)
                requires
                    at == k * stride,
            ;
            k = k + 1;
        }
        if len - at <= stride {
            proof {
                lemma_count_end(len as int, stride as int, k as int);
            }
            at = len;
        } else {
            at = at + stride;
        }
    }
    proof {
        if len == 0 {
        } else {
            lemma_count(len as int, stride as int, 0);
        }
    }
    Ok(bounds)
}

/// No bytes are no vertices.
proof fn lemma_count_none(stride: int)
    requires
        stride > 0,
    ensures
        vertex_count(0, stride) == 0,
{
    assert((0 + stride - 1) / stride == 0) by (nonlinear_arith)
        requires
            stride > 0,
    ;
}

/// While vertices remain, their number has not been reached.
proof fn lemma_count(len: int, stride: int, k: int)
    requires
        stride > 0,
        0 <= k,
        k * stride < len,
    ensures
        k < vertex_count(len, stride),
{
    assert(k < (len + stride - 1) / stride) by (nonlinear_arith)
        requires
            stride > 0,
            0 <= k,
            k * stride < len,
    ;
}

/// Behind the last vertex, their number has been reached.
proof fn lemma_count_end(len: int, stride: int, k: int)
    requires
        stride > 0,
        1 <= k,
        (k - 1) * stride < len,
        k * stride >= len,
    ensures
        k == vertex_count(len, stride),
{
    assert(k == (len + stride - 1) / stride) by (nonlinear_arith)
        requires
            stride > 0,
            1 <= k,
            (k - 1) * stride < len,
            k * stride >= len,
    ;
}

/// Where the position of one vertex lies past the data, that of the last
/// one does.
proof fn lemma_last_fits(len: int, stride: int, offset: int, k: int)
    requires
        stride > 0,
        0 <= offset,
        0 <= k,
        k * stride < len,
        k * stride + offset + 12 > len,
    ensures
        !positions_fit(len, stride, offset),
{
    let n = vertex_count(len, stride);
    lemma_count(len, stride, k);
    assert((n - 1) * stride >= k * stride) by (nonlinear_arith)
        requires
            stride > 0,
            k <= n - 1,
    ;
}

/// The position of vertex `v`.
pub open spec fn vertex_position(data: Seq<u8>, stride: int, offset: int, v: int) -> Vector3 {
    position_at(data, v * stride + offset)
}

/// Whether `n` lies between `least` and `greatest` in the order of all
/// numbers. What is no number lies nowhere, and is let be.
pub open spec fn between(least: Single, n: Single, greatest: Single) -> bool {
    !is_nan(n) ==> rank(least) <= rank(n) <= rank(greatest)
}

/// Whether a position lies within bounds, axis by axis.
pub open spec fn within(b: Bounds, p: Vector3) -> bool {
    &&& between(b.min.x, p.x, b.max.x)
    &&& between(b.min.y, p.y, b.max.y)
    &&& between(b.min.z, p.z, b.max.z)
}

/// Whether the six numbers of bounds are numbers.
pub open spec fn numbers(b: Bounds) -> bool {
    &&& !is_nan(b.min.x) && !is_nan(b.min.y) && !is_nan(b.min.z)
    &&& !is_nan(b.max.x) && !is_nan(b.max.y) && !is_nan(b.max.z)
}

/// Whether `n` is the number of the bits `start`, which empty bounds
/// hold, or one of `picked`.
pub open spec fn attained(n: Single, start: u32, picked: Seq<Single>) -> bool {
    n.bits == start || picked.contains(n)
}

/// The numbers of one axis of the first `k` positions: 0 for x, 1 for y,
/// anything else for z.
pub open spec fn axis_of(data: Seq<u8>, stride: int, offset: int, k: nat, axis: int) -> Seq<Single> {
    Seq::new(
        k,
        |v: int|
            if axis == 0 {
                vertex_position(data, stride, offset, v).x
            } else if axis == 1 {
                vertex_position(data, stride, offset, v).y
            } else {
                vertex_position(data, stride, offset, v).z
            },
    )
}

/// The bounds of positions are their least and their greatest, axis by
/// axis: every position lies within them, and each of their six
/// numbers is the number of one of the positions, or that of the empty
/// bounds where no position has one. This is what a scan over the
/// positions that compares each with the least and the greatest so far
/// finds.
pub proof fn lemma_bounds_are_least_and_greatest(data: Seq<u8>, stride: int, offset: int, k: nat)
    ensures
        numbers(bounds_of(data, stride, offset, k)),
        forall|v: int|
            0 <= v < k ==> within(
                bounds_of(data, stride, offset, k),
                #[trigger] vertex_position(data, stride, offset, v),
            ),
        attained(bounds_of(data, stride, offset, k).min.x, MAX_BITS, axis_of(data, stride, offset, k, 0)),
        attained(bounds_of(data, stride, offset, k).min.y, MAX_BITS, axis_of(data, stride, offset, k, 1)),
        attained(bounds_of(data, stride, offset, k).min.z, MAX_BITS, axis_of(data, stride, offset, k, 2)),
        attained(bounds_of(data, stride, offset, k).max.x, MIN_BITS, axis_of(data, stride, offset, k, 0)),
        attained(bounds_of(data, stride, offset, k).max.y, MIN_BITS, axis_of(data, stride, offset, k, 1)),
        attained(bounds_of(data, stride, offset, k).max.z, MIN_BITS, axis_of(data, stride, offset, k, 2)),
    decreases k,
{
    if k > 0 {
        let before = bounds_of(data, stride, offset, (k - 1) as nat);
        let now = bounds_of(data, stride, offset, k);
        let p = vertex_position(data, stride, offset, k - 1);
        lemma_bounds_are_least_and_greatest(data, stride, offset, (k - 1) as nat);
        assert(now == widened(before, p));
        assert forall|v: int| 0 <= v < k implies within(
            now,
            #[trigger] vertex_position(data, stride, offset, v),
        ) by {
            if v < k - 1 {
                assert(within(before, vertex_position(data, stride, offset, v)));
            }
        }
        assert forall|axis: int, n: Single|
            0 <= axis <= 2 && axis_of(data, stride, offset, (k - 1) as nat, axis).contains(n)
                implies #[trigger] axis_of(
            data,
            stride,
            offset,
            k,
            axis,
        ).contains(n) by {
            let was = axis_of(data, stride, offset, (k - 1) as nat, axis);
            let i = choose|i: int| 0 <= i < was.len() && was[i] == n;
            assert(axis_of(data, stride, offset, k, axis)[i] == n);
        }
        assert(axis_of(data, stride, offset, k, 0)[k - 1] == p.x);
        assert(axis_of(data, stride, offset, k, 1)[k - 1] == p.y);
        assert(axis_of(data, stride, offset, k, 2)[k - 1] == p.z);
    }
}

} // verus!
