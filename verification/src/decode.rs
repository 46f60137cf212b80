//! What every decodable type provides, and the sequences built from it.
use vstd::prelude::*;
use crate::error::DecodeError;
use crate::reader::{follows, group_failed, Cursor, Reader};

verus! {

broadcast use group_failed;

/// A type with a place in the wire format.
pub trait Decode: Sized + DeepView {
    /// The value that the stream holds at `c`, and the cursor behind it.
    spec fn wire(c: Cursor) -> (Self::V, Cursor);

    /// A failed cursor stays as it is.
    proof fn lemma_wire_failed(c: Cursor)
        requires
            c.err is Some,
        ensures
            Self::wire(c).1 == c,
    ;

    /// Reads one value.
    fn decode(r: &mut Reader) -> (res: Result<Self, DecodeError>)
        ensures
            follows(res, final(r)@, Self::wire(old(r)@)),
    ;
}

/// `n` values of `T`, one behind the other.
#[verifier::opaque]
pub open spec fn repeat<T: Decode>(c: Cursor, n: nat) -> (Seq<T::V>, Cursor)
    decreases n,
{
    if c.err is Some {
        (Seq::empty(), c)
    } else if n == 0 {
        (Seq::empty(), c)
    } else {
        let (items, c1) = repeat::<T>(c, (n - 1) as nat);
        let (item, c2) = T::wire(c1);
        (items.push(item), c2)
    }
}

/// A sequence behind its 32-bit count.
#[verifier::opaque]
pub open spec fn counted<T: Decode>(c: Cursor) -> (Seq<T::V>, Cursor) {
    let (n, c1) = c.count();
    repeat::<T>(c1, n)
}

/// A sequence behind its count, a 32-bit unsigned number.
#[verifier::opaque]
pub open spec fn ucounted<T: Decode>(c: Cursor) -> (Seq<T::V>, Cursor) {
    let (n, c1) = c.u32();
    repeat::<T>(c1, n as nat)
}

/// A value behind a byte that says whether it is there.
#[verifier::opaque]
pub open spec fn optional<T: Decode>(c: Cursor) -> (Option<T::V>, Cursor) {
    let (present, c1) = c.bool();
    if c1.err is Some {
        (None, c1)
    } else if present {
        let (v, c2) = T::wire(c1);
        (Some(v), c2)
    } else {
        (None, c1)
    }
}

/// From a failed cursor a sequence reads nothing.
pub broadcast proof fn lemma_repeat_from_failed<T: Decode>(c: Cursor, n: nat)
    requires
        c.err is Some,
    ensures
        #[trigger] repeat::<T>(c, n) == (Seq::<T::V>::empty(), c),
{
    reveal(repeat);
}

/// From a failed cursor a counted sequence and an optional value read
/// nothing.
pub broadcast proof fn lemma_counted_from_failed<T: Decode>(c: Cursor)
    requires
        c.err is Some,
    ensures
        (#[trigger] counted::<T>(c)).1 == c,
{
    reveal(repeat);
    reveal(counted);
}

pub broadcast proof fn lemma_ucounted_from_failed<T: Decode>(c: Cursor)
    requires
        c.err is Some,
    ensures
        (#[trigger] ucounted::<T>(c)).1 == c,
{
    reveal(repeat);
    reveal(ucounted);
}

pub broadcast proof fn lemma_optional_from_failed<T: Decode>(c: Cursor)
    requires
        c.err is Some,
    ensures
        (#[trigger] optional::<T>(c)).1 == c,
{
    reveal(optional);
}

/// What holds of sequences and optional values at a failed cursor.
pub broadcast group group_failed_items {
    lemma_repeat_from_failed,
    lemma_counted_from_failed,
    lemma_ucounted_from_failed,
    lemma_optional_from_failed,
}

/// A sequence of no items reads nothing.
pub broadcast proof fn lemma_repeat_none<T: Decode>(c: Cursor)
    ensures
        #[trigger] repeat::<T>(c, 0) == (Seq::<T::V>::empty(), c),
{
    reveal(repeat);
}

/// A sequence is its first items and then its last one.
pub proof fn lemma_repeat_last<T: Decode>(c: Cursor, n: nat)
    requires
        c.err is None,
        n > 0,
    ensures
        repeat::<T>(c, n) == ({
            let (items, c1) = repeat::<T>(c, (n - 1) as nat);
            let (item, c2) = T::wire(c1);
            (items.push(item), c2)
        }),
{
    reveal(repeat);
}

/// A sequence that was read whole has as many items as were asked for.
pub proof fn lemma_repeat_len<T: Decode>(c: Cursor, n: nat)
    requires
        repeat::<T>(c, n).1.err is None,
    ensures
        repeat::<T>(c, n).0.len() == n,
        c.err is None,
    decreases n,
{
    reveal(repeat);
    if c.err is None && n > 0 {
        let c1 = repeat::<T>(c, (n - 1) as nat).1;
        if c1.err is Some {
            T::lemma_wire_failed(c1);
        }
        lemma_repeat_len::<T>(c, (n - 1) as nat);
    }
}

/// Once an item has failed, the sequence has failed with it.
pub proof fn lemma_repeat_failed<T: Decode>(c: Cursor, i: nat, n: nat)
    requires
        i <= n,
        repeat::<T>(c, i).1.err is Some,
    ensures
        repeat::<T>(c, n).1 == repeat::<T>(c, i).1,
    decreases n - i,
{
    reveal(repeat);
    if i < n {
        lemma_repeat_failed::<T>(c, i, (n - 1) as nat);
        T::lemma_wire_failed(repeat::<T>(c, (n - 1) as nat).1);
    }
}

/// Reads `n` values of `T`.
pub fn read_vec<T: Decode>(r: &mut Reader, n: usize) -> (res: Result<Vec<T>, DecodeError>)
    ensures
        follows(res, final(r)@, repeat::<T>(old(r)@, n as nat)),
{
    let mut out: Vec<T> = Vec::new();
    let mut i: usize = 0;
    let ghost start = r@;
    proof {
        lemma_repeat_none::<T>(start);
    }
    while i < n
        invariant
            i <= n,
            start == old(r)@,
            start.err is None,
            repeat::<T>(start, i as nat) == (out.deep_view(), r@),
        decreases n - i,
    {
        let ghost before = r@;
        let ghost items = out.deep_view();
        proof {
            lemma_repeat_last::<T>(start, (i + 1) as nat);
        }
        match T::decode(r) {
            Ok(item) => {
                out.push(item);
                assert(out.deep_view() =~= items.push(item.deep_view()));
            },
            Err(e) => {
                proof {
                    assert(repeat::<T>(start, (i + 1) as nat).1 == T::wire(before).1);
                    lemma_repeat_failed::<T>(start, (i + 1) as nat, n as nat);
                }
                return Err(e);
            },
        }
        i = i + 1;
    }
    Ok(out)
}

/// Reads a 32-bit count and then as many values of `T`.
pub fn read_counted<T: Decode>(r: &mut Reader) -> (res: Result<Vec<T>, DecodeError>)
    ensures
        follows(res, final(r)@, counted::<T>(old(r)@)),
{
    proof {
        reveal(counted);
    }
    let ghost (count, c1) = r@.count();
    match r.read_count() {
        Ok(n) => read_vec::<T>(r, n),
        Err(e) => {
            proof {
                lemma_repeat_from_failed::<T>(c1, count);
            }
            Err(e)
        },
    }
}

/// Reads a 32-bit unsigned count and then as many values of `T`.
pub fn read_ucounted<T: Decode>(r: &mut Reader) -> (res: Result<Vec<T>, DecodeError>)
    ensures
        follows(res, final(r)@, ucounted::<T>(old(r)@)),
{
    proof {
        reveal(ucounted);
    }
    let ghost (count, c1) = r@.u32();
    match r.read_u32() {
        Ok(n) => read_vec::<T>(r, n as usize),
        Err(e) => {
            proof {
                lemma_repeat_from_failed::<T>(c1, count as nat);
            }
            Err(e)
        },
    }
}

/// Reads a presence byte and, where it is not zero, a value of `T`.
pub fn read_optional<T: Decode>(r: &mut Reader) -> (res: Result<Option<T>, DecodeError>)
    ensures
        follows(res, final(r)@, optional::<T>(old(r)@)),
{
    proof {
        reveal(optional);
    }
    let present = r.read_bool()?;
    if present {
        let v = T::decode(r)?;
        Ok(Some(v))
    } else {
        Ok(None)
    }
}

impl Decode for u8 {
    open spec fn wire(c: Cursor) -> (u8, Cursor) {
        c.u8()
    }

    proof fn lemma_wire_failed(c: Cursor) {
    }

    fn decode(r: &mut Reader) -> (res: Result<Self, DecodeError>) {
        r.read_u8()
    }
}

impl Decode for i32 {
    open spec fn wire(c: Cursor) -> (i32, Cursor) {
        c.i32()
    }

    proof fn lemma_wire_failed(c: Cursor) {
    }

    fn decode(r: &mut Reader) -> (res: Result<Self, DecodeError>) {
        r.read_i32()
    }
}

/// On the wire a `usize` is a reference: a compact integer that must not
/// be negative.
impl Decode for usize {
    open spec fn wire(c: Cursor) -> (usize, Cursor) {
        c.index()
    }

    proof fn lemma_wire_failed(c: Cursor) {
    }

    fn decode(r: &mut Reader) -> (res: Result<Self, DecodeError>) {
        r.read_index()
    }
}

/// On the wire a vector of bytes stands behind its 32-bit length.
impl Decode for Vec<u8> {
    open spec fn wire(c: Cursor) -> (Seq<u8>, Cursor) {
        c.blob()
    }

    proof fn lemma_wire_failed(c: Cursor) {
    }

    fn decode(r: &mut Reader) -> (res: Result<Self, DecodeError>) {
        r.read_blob()
    }
}

impl Decode for String {
    open spec fn wire(c: Cursor) -> (Seq<char>, Cursor) {
        c.string()
    }

    proof fn lemma_wire_failed(c: Cursor) {
    }

    fn decode(r: &mut Reader) -> (res: Result<Self, DecodeError>) {
        r.read_7bit_length_string()
    }
}

} // verus!
