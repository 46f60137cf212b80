//! A cursor over the bytes of a stream, and the primitives of the wire
//! format: fixed-width integers, compact integers, strings.
//!
//! The format is stated once, as functions on `Cursor`. The executable
//! `Reader` is proved to follow them.
use vstd::prelude::*;
use vstd::string::StrSliceExecFns;
use vstd::slice::{slice_subrange, slice_to_vec};
use crate::error::{DecodeError, DecodeErrorView};
use crate::wire::{as_signed, le_i32, le_nat, le_u16, le_u32};

verus! {

/// A position in a stream, or the first error that reading it ran into.
///
/// Every reading function is total: from a failed cursor it returns the
/// cursor as it is, beside a value without meaning.
pub struct Cursor {
    pub data: Seq<u8>,
    pub pos: int,
    pub err: Option<DecodeErrorView>,
}

/// The largest number of bytes that a compact integer takes.
pub const VARINT_MAX_BYTES: usize = 5;

/// 128 to the power `k`, for the digits of a compact integer.
pub open spec fn weight(k: nat) -> nat
    decreases k,
{
    if k == 0 {
        1
    } else {
        128 * weight((k - 1) as nat)
    }
}

/// The signed 32-bit number that the low 32 bits of `n` are the pattern of.
pub open spec fn low_word(n: nat) -> int {
    as_signed(n % 0x1_0000_0000)
}

/// The character of each byte, one for one.
pub open spec fn latin(bytes: Seq<u8>) -> Seq<char> {
    Seq::new(bytes.len(), |i: int| bytes[i] as char)
}

impl Cursor {
    /// The cursor at the start of `data`.
    pub open spec fn start(data: Seq<u8>) -> Cursor {
        Cursor { data, pos: 0, err: None }
    }

    pub open spec fn ok(self) -> bool {
        self.err is None
    }

    /// This cursor, failed with `e` unless it had failed before.
    pub open spec fn fail(self, e: DecodeErrorView) -> Cursor {
        if self.err is Some {
            self
        } else {
            Cursor { err: Some(e), ..self }
        }
    }

    /// The number of bytes from the position to the end.
    pub open spec fn remaining(self) -> int {
        self.data.len() - self.pos
    }

    /// The next `n` bytes.
    #[verifier::opaque]
    pub open spec fn take(self, n: int) -> (Seq<u8>, Cursor) {
        if self.err is Some {
            (Seq::empty(), self)
        } else if 0 <= n && 0 <= self.pos && self.pos + n <= self.data.len() {
            (self.data.subrange(self.pos, self.pos + n), Cursor { pos: self.pos + n, ..self })
        } else {
            (Seq::empty(), self.fail(DecodeErrorView::UnexpectedEof))
        }
    }

    #[verifier::opaque]
    pub open spec fn u8(self) -> (u8, Cursor) {
        let (bytes, c) = self.take(1);
        if c.err is Some {
            (0u8, c)
        } else {
            (bytes[0], c)
        }
    }

    /// One byte, true unless it is zero.
    #[verifier::opaque]
    pub open spec fn bool(self) -> (bool, Cursor) {
        let (b, c) = self.u8();
        (b != 0, c)
    }

    #[verifier::opaque]
    pub open spec fn u16(self) -> (u16, Cursor) {
        let (bytes, c) = self.take(2);
        if c.err is Some {
            (0u16, c)
        } else {
            (le_nat(bytes, 0, 2) as u16, c)
        }
    }

    #[verifier::opaque]
    pub open spec fn u32(self) -> (u32, Cursor) {
        let (bytes, c) = self.take(4);
        if c.err is Some {
            (0u32, c)
        } else {
            (le_nat(bytes, 0, 4) as u32, c)
        }
    }

    #[verifier::opaque]
    pub open spec fn i32(self) -> (i32, Cursor) {
        let (bytes, c) = self.take(4);
        if c.err is Some {
            (0i32, c)
        } else {
            (as_signed(le_nat(bytes, 0, 4)) as i32, c)
        }
    }

    /// The digits of a compact integer from the `k`-th on: seven bits a
    /// byte, least significant first, the top bit of a byte saying that
    /// another follows. `acc` is what the digits before have added up to.
    #[verifier::opaque]
    pub open spec fn digits(self, k: nat, acc: nat) -> (nat, Cursor)
        decreases VARINT_MAX_BYTES - k,
    {
        if self.err is Some {
            (0, self)
        } else if k >= VARINT_MAX_BYTES {
            (0, self.fail(DecodeErrorView::VarintTooLong))
        } else {
            let (b, c) = self.u8();
            if c.err is Some {
                (0, c)
            } else {
                let sum = acc + (b % 128) as nat * weight(k);
                if b < 128 {
                    (sum, c)
                } else {
                    c.digits(k + 1, sum)
                }
            }
        }
    }

    /// A compact integer: its digits, cut to 32 bits and taken as signed.
    #[verifier::opaque]
    pub open spec fn varint(self) -> (i32, Cursor) {
        let (n, c) = self.digits(0, 0);
        if c.err is Some {
            (0i32, c)
        } else {
            (low_word(n) as i32, c)
        }
    }

    /// A count: a 32-bit number that must not be negative.
    #[verifier::opaque]
    pub open spec fn count(self) -> (nat, Cursor) {
        let (n, c) = self.i32();
        if c.err is Some {
            (0, c)
        } else if n < 0 {
            (0, c.fail(DecodeErrorView::Negative { value: n }))
        } else {
            (n as nat, c)
        }
    }

    /// A reference: a compact integer that must not be negative.
    #[verifier::opaque]
    pub open spec fn index(self) -> (usize, Cursor) {
        let (n, c) = self.varint();
        if c.err is Some {
            (0usize, c)
        } else if n < 0 {
            (0usize, c.fail(DecodeErrorView::Negative { value: n }))
        } else {
            (n as usize, c)
        }
    }

    /// A length-prefixed run of bytes, the prefix a 32-bit unsigned number.
    #[verifier::opaque]
    pub open spec fn blob(self) -> (Seq<u8>, Cursor) {
        let (n, c) = self.u32();
        c.take(n as int)
    }

    /// A string: a compact integer for its length, then as many bytes, each
    /// of them one character.
    #[verifier::opaque]
    pub open spec fn string(self) -> (Seq<char>, Cursor) {
        let (n, c) = self.varint();
        if c.err is Some {
            (Seq::empty(), c)
        } else if n < 0 {
            (Seq::empty(), c.fail(DecodeErrorView::Negative { value: n }))
        } else {
            let (bytes, c2) = c.take(n as int);
            if c2.err is Some {
                (Seq::empty(), c2)
            } else {
                (latin(bytes), c2)
            }
        }
    }
}

/// A failed cursor stays as it is, whatever is read from it.
pub broadcast proof fn lemma_failed_take(c: Cursor, n: int)
    requires
        c.err is Some,
    ensures
        (#[trigger] c.take(n)).1 == c,
{
    reveal(Cursor::take);
}

pub broadcast proof fn lemma_failed_u8(c: Cursor)
    requires
        c.err is Some,
    ensures
        (#[trigger] c.u8()).1 == c,
{
    reveal(Cursor::take);
    reveal(Cursor::u8);
}

pub broadcast proof fn lemma_failed_bool(c: Cursor)
    requires
        c.err is Some,
    ensures
        (#[trigger] c.bool()).1 == c,
{
    reveal(Cursor::take);
    reveal(Cursor::u8);
    reveal(Cursor::bool);
}

pub broadcast proof fn lemma_failed_u16(c: Cursor)
    requires
        c.err is Some,
    ensures
        (#[trigger] c.u16()).1 == c,
{
    reveal(Cursor::take);
    reveal(Cursor::u16);
}

pub broadcast proof fn lemma_failed_u32(c: Cursor)
    requires
        c.err is Some,
    ensures
        (#[trigger] c.u32()).1 == c,
{
    reveal(Cursor::take);
    reveal(Cursor::u32);
}

pub broadcast proof fn lemma_failed_i32(c: Cursor)
    requires
        c.err is Some,
    ensures
        (#[trigger] c.i32()).1 == c,
{
    reveal(Cursor::take);
    reveal(Cursor::i32);
}

pub broadcast proof fn lemma_failed_varint(c: Cursor)
    requires
        c.err is Some,
    ensures
        (#[trigger] c.varint()).1 == c,
{
    reveal(Cursor::varint);
    reveal_with_fuel(Cursor::digits, 1);
}

pub broadcast proof fn lemma_failed_index(c: Cursor)
    requires
        c.err is Some,
    ensures
        (#[trigger] c.index()).1 == c,
{
    reveal(Cursor::varint);
    reveal_with_fuel(Cursor::digits, 1);
    reveal(Cursor::index);
}

pub broadcast proof fn lemma_failed_count(c: Cursor)
    requires
        c.err is Some,
    ensures
        (#[trigger] c.count()).1 == c,
{
    reveal(Cursor::take);
    reveal(Cursor::i32);
    reveal(Cursor::count);
}

pub broadcast proof fn lemma_failed_blob(c: Cursor)
    requires
        c.err is Some,
    ensures
        (#[trigger] c.blob()).1 == c,
{
    reveal(Cursor::take);
    reveal(Cursor::u32);
    reveal(Cursor::blob);
}

pub broadcast proof fn lemma_failed_string(c: Cursor)
    requires
        c.err is Some,
    ensures
        (#[trigger] c.string()).1 == c,
{
    reveal(Cursor::varint);
    reveal_with_fuel(Cursor::digits, 1);
    reveal(Cursor::take);
    reveal(Cursor::string);
}

/// What holds of a failed cursor: every reading leaves it as it is.
pub broadcast group group_failed {
    lemma_failed_take,
    lemma_failed_u8,
    lemma_failed_bool,
    lemma_failed_u16,
    lemma_failed_u32,
    lemma_failed_i32,
    lemma_failed_varint,
    lemma_failed_index,
    lemma_failed_count,
    lemma_failed_blob,
    lemma_failed_string,
}

/// Whether `res`, with the reader left at `after`, is what the format
/// function gave as `model`: the same value and position, or the same
/// error at the same position.
pub open spec fn follows<T: DeepView>(
    res: Result<T, DecodeError>,
    after: Cursor,
    model: (T::V, Cursor),
) -> bool {
    match res {
        Ok(v) => model == (v.deep_view(), after),
        Err(e) => model.1.err == Some(e.deep_view()) && after.pos == model.1.pos,
    }
}

/// `String::push` of std: it appends one character.
pub assume_specification[ std::string::String::push ](s: &mut std::string::String, ch: char)
    ensures
        final(s)@ == old(s)@.push(ch),
;

/// A reader over a slice of bytes.
pub struct Reader<'a> {
    pub data: &'a [u8],
    pub pos: usize,
}

impl<'a> View for Reader<'a> {
    type V = Cursor;

    open spec fn view(&self) -> Cursor {
        Cursor { data: self.data@, pos: self.pos as int, err: None }
    }
}

impl<'a> Reader<'a> {
    /// A reader at the start of `data`.
    pub fn new(data: &'a [u8]) -> (r: Self)
        ensures
            r@ == Cursor::start(data@),
    {
        Reader { data, pos: 0 }
    }

    /// The number of bytes not read yet.
    pub fn remaining(&self) -> (n: usize)
        ensures
            n as int == if self@.remaining() < 0 {
                0
            } else {
                self@.remaining()
            },
    {
        if self.pos <= self.data.len() {
            self.data.len() - self.pos
        } else {
            0
        }
    }

    /// The next `n` bytes, borrowed from the stream.
    pub fn take(&mut self, n: usize) -> (res: Result<&'a [u8], DecodeError>)
        ensures
            match res {
                Ok(bytes) => old(self)@.take(n as int) == (bytes@, final(self)@),
                Err(e) => old(self)@.take(n as int).1.err == Some(e.deep_view()) && final(self)@.pos == old(
                    self,
                )@.take(n as int).1.pos,
            },
            final(self).data == old(self).data,
    {
        proof {
            reveal(Cursor::take);
        }
        let len = self.data.len();
        if n <= len && self.pos <= len - n {
            let bytes = slice_subrange(self.data, self.pos, self.pos + n);
            self.pos = self.pos + n;
            Ok(bytes)
        } else {
            Err(DecodeError::UnexpectedEof)
        }
    }

    pub fn read_u8(&mut self) -> (res: Result<u8, DecodeError>)
        ensures
            follows(res, final(self)@, old(self)@.u8()),
            final(self).data == old(self).data,
    {
        proof {
            reveal(Cursor::take);
            reveal(Cursor::u8);
        }
        let bytes = self.take(1)?;
        Ok(bytes[0])
    }

    pub fn read_bool(&mut self) -> (res: Result<bool, DecodeError>)
        ensures
            follows(res, final(self)@, old(self)@.bool()),
            final(self).data == old(self).data,
    {
        proof {
            reveal(Cursor::bool);
        }
        let b = self.read_u8()?;
        Ok(b != 0)
    }

    pub fn read_u16(&mut self) -> (res: Result<u16, DecodeError>)
        ensures
            follows(res, final(self)@, old(self)@.u16()),
            final(self).data == old(self).data,
    {
        proof {
            reveal(Cursor::take);
            reveal(Cursor::u16);
        }
        let bytes = self.take(2)?;
        Ok(le_u16(bytes))
    }

    pub fn read_u32(&mut self) -> (res: Result<u32, DecodeError>)
        ensures
            follows(res, final(self)@, old(self)@.u32()),
            final(self).data == old(self).data,
    {
        proof {
            reveal(Cursor::take);
            reveal(Cursor::u32);
        }
        let bytes = self.take(4)?;
        Ok(le_u32(bytes))
    }

    pub fn read_i32(&mut self) -> (res: Result<i32, DecodeError>)
        ensures
            follows(res, final(self)@, old(self)@.i32()),
            final(self).data == old(self).data,
    {
        proof {
            reveal(Cursor::take);
            reveal(Cursor::i32);
        }
        let bytes = self.take(4)?;
        Ok(le_i32(bytes))
    }

    /// Reads a compact integer of up to five bytes.
    pub fn read_7bit_encoded_i32(&mut self) -> (res: Result<i32, DecodeError>)
        ensures
            follows(res, final(self)@, old(self)@.varint()),
            final(self).data == old(self).data,
    {
        proof {
            reveal(Cursor::varint);
        }
        let ghost start = self@;
        let mut acc: u64 = 0;
        let mut scale: u64 = 1;
        let mut k: usize = 0;
        while k < VARINT_MAX_BYTES
            invariant
                k <= VARINT_MAX_BYTES,
                self.data == old(self).data,
                start == old(self)@,
                scale == weight(k as nat),
                acc < scale,
                start.digits(0, 0) == self@.digits(k as nat, acc as nat),
            decreases VARINT_MAX_BYTES - k,
        {
            proof {
                lemma_weight(k as nat);
                lemma_weight((k + 1) as nat);
                reveal(Cursor::varint);
                reveal_with_fuel(Cursor::digits, 2);
            }
            let b = self.read_u8()?;
            let digit: u64 = (b % 128) as u64;
            assert(digit * scale <= 127 * scale) by (nonlinear_arith)
                requires
                    digit <= 127,
            ;
            acc = acc + digit * scale;
            if b < 128 {
                let low: u64 = acc % 0x1_0000_0000;
                let value: i32 = if low >= 0x8000_0000 {
                    (low as i64 - 0x1_0000_0000) as i32
                } else {
                    low as i32
                };
                return Ok(value);
            }
            scale = scale * 128;
            k = k + 1;
        }
        proof {
            reveal_with_fuel(Cursor::digits, 1);
        }
        Err(DecodeError::VarintTooLong)
    }

    /// Reads a reference: a compact integer, refused where it is negative.
    pub fn read_index(&mut self) -> (res: Result<usize, DecodeError>)
        ensures
            follows(res, final(self)@, old(self)@.index()),
            final(self).data == old(self).data,
    {
        proof {
            reveal(Cursor::index);
        }
        let n = self.read_7bit_encoded_i32()?;
        if n < 0 {
            Err(DecodeError::Negative { value: n })
        } else {
            Ok(n as usize)
        }
    }

    /// Reads a 32-bit count and refuses a negative one.
    pub fn read_count(&mut self) -> (res: Result<usize, DecodeError>)
        ensures
            match res {
                Ok(n) => old(self)@.count() == (n as nat, final(self)@),
                Err(e) => old(self)@.count().1.err == Some(e.deep_view()) && final(self)@.pos == old(
                    self,
                )@.count().1.pos,
            },
            final(self).data == old(self).data,
    {
        proof {
            reveal(Cursor::count);
        }
        let n = self.read_i32()?;
        if n < 0 {
            Err(DecodeError::Negative { value: n })
        } else {
            Ok(n as usize)
        }
    }

    /// Reads a run of bytes behind its 32-bit length.
    pub fn read_blob(&mut self) -> (res: Result<Vec<u8>, DecodeError>)
        ensures
            follows(res, final(self)@, old(self)@.blob()),
            res matches Ok(bytes) ==> bytes@ == old(self)@.blob().0,
            final(self).data == old(self).data,
    {
        proof {
            reveal(Cursor::blob);
            reveal(Cursor::take);
        }
        let n = self.read_u32()?;
        let bytes = self.take(n as usize)?;
        let out = slice_to_vec(bytes);
        assert(out.deep_view() =~= out@);
        Ok(out)
    }

    /// Reads a string: its length as a compact integer, then its bytes,
    /// each of which becomes one character.
    pub fn read_7bit_length_string(&mut self) -> (res: Result<String, DecodeError>)
        ensures
            follows(res, final(self)@, old(self)@.string()),
            final(self).data == old(self).data,
    {
        proof {
            reveal(Cursor::take);
            reveal(Cursor::string);
        }
        let n = self.read_7bit_encoded_i32()?;
        if n < 0 {
            return Err(DecodeError::Negative { value: n });
        }
        let bytes = self.take(n as usize)?;
        let mut s = String::new();
        let mut i: usize = 0;
        while i < bytes.len()
            invariant
                i <= bytes@.len(),
                s@ == latin(bytes@.subrange(0, i as int)),
            decreases bytes@.len() - i,
        {
            let ghost before = s@;
            s.push(bytes[i] as char);
            assert(s@ =~= latin(bytes@.subrange(0, i + 1)));
            i = i + 1;
        }
        assert(bytes@.subrange(0, i as int) =~= bytes@);
        Ok(s)
    }
}

/// The low eight bits of the pattern of `v`.
pub open spec fn low_byte(v: i32) -> u8 {
    ((v + 0x1_0000_0000) % 256) as u8
}

/// The low sixteen bits of the pattern of `v`.
pub open spec fn low_half(v: i32) -> u16 {
    ((v + 0x1_0000_0000) % 65536) as u16
}

pub fn low_byte_of(v: i32) -> (b: u8)
    ensures
        b == low_byte(v),
{
    ((v as i64 + 0x1_0000_0000) % 256) as u8
}

pub fn low_half_of(v: i32) -> (h: u16)
    ensures
        h == low_half(v),
{
    ((v as i64 + 0x1_0000_0000) % 65536) as u16
}

/// Whether two string slices hold the same characters.
pub(crate) fn same(a: &str, b: &str) -> (eq: bool)
    ensures
        eq == (a@ == b@),
{
    let n = a.unicode_len();
    if b.unicode_len() != n {
        return false;
    }
    let mut i: usize = 0;
    while i < n
        invariant
            i <= n,
            n == a@.len(),
            n == b@.len(),
            forall|k: int| 0 <= k < i ==> a@[k] == b@[k],
        decreases n - i,
    {
        if a.get_char(i) != b.get_char(i) {
            return false;
        }
        i = i + 1;
    }
    assert(a@ =~= b@);
    true
}

pub proof fn lemma_weight(k: nat)
    ensures
        k == 0 ==> weight(k) == 1,
        k == 1 ==> weight(k) == 128,
        k == 2 ==> weight(k) == 16384,
        k == 3 ==> weight(k) == 2097152,
        k == 4 ==> weight(k) == 268435456,
        k == 5 ==> weight(k) == 34359738368,
{
    reveal_with_fuel(weight, 6);
}

} // verus!
