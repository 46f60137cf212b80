//! Writing compact integers, and the law that reading undoes it.
use vstd::prelude::*;
use crate::reader::{low_word, weight, Cursor, VARINT_MAX_BYTES};
use crate::wire::as_pattern;

verus! {

/// The bytes of the number `n` as a compact integer: seven bits a byte,
/// least significant first, the top bit set on every byte but the last.
pub open spec fn varint_bytes(n: nat) -> Seq<u8>
    decreases n,
{
    if n < 128 {
        seq![n as u8]
    } else {
        seq![(n % 128 + 128) as u8] + varint_bytes(n / 128)
    }
}

/// The bytes of the signed `v` as a compact integer: those of its 32-bit
/// pattern.
pub open spec fn encoded(v: i32) -> Seq<u8> {
    varint_bytes(as_pattern(v as int))
}

/// Appends `value` to `out` as a compact integer.
pub fn write_7bit_encoded_i32(out: &mut Vec<u8>, value: i32)
    ensures
        final(out)@ == old(out)@ + encoded(value),
{
    let mut rest: u64 = if value < 0 {
        (value as i64 + 0x1_0000_0000) as u64
    } else {
        value as u64
    };
    let ghost start = out@;
    let ghost pattern = rest as nat;
    while rest >= 128
        invariant
            start == old(out)@,
            start + varint_bytes(pattern) == out@ + varint_bytes(rest as nat),
        decreases rest,
    {
        let ghost before = out@;
        out.push((rest % 128 + 128) as u8);
        assert(before + varint_bytes(rest as nat) =~= out@ + varint_bytes((rest / 128) as nat));
        rest = rest / 128;
    }
    let ghost before = out@;
    out.push(rest as u8);
    assert(before + varint_bytes(rest as nat) =~= out@);
}

/// A number below 128 to the power `j` takes at most `j` bytes, and at
/// least one.
pub proof fn lemma_varint_len(n: nat, j: nat)
    requires
        j >= 1,
        n < weight(j),
    ensures
        1 <= varint_bytes(n).len() <= j,
    decreases j,
{
    reveal_with_fuel(weight, 2);
    if n >= 128 {
        assert(j >= 2) by {
            if j == 1 {
                assert(weight(1) == 128);
            }
        }
        assert(n / 128 < weight((j - 1) as nat)) by (nonlinear_arith)
            requires
                n < 128 * weight((j - 1) as nat),
        ;
        lemma_varint_len(n / 128, (j - 1) as nat);
    }
}

/// Reading the digits of `n` where its bytes stand gives `n`, weighted by
/// the place of its first digit, and ends right behind them.
pub proof fn lemma_digits(data: Seq<u8>, pos: int, k: nat, acc: nat, n: nat)
    requires
        0 <= pos,
        pos + varint_bytes(n).len() <= data.len(),
        data.subrange(pos, pos + varint_bytes(n).len()) == varint_bytes(n),
        k + varint_bytes(n).len() <= VARINT_MAX_BYTES,
    ensures
        (Cursor { data, pos, err: None }).digits(k, acc) == (
            acc + n * weight(k),
            Cursor { data, pos: pos + varint_bytes(n).len(), err: None },
        ),
    decreases n,
{
    let c = Cursor { data, pos, err: None };
    let bytes = varint_bytes(n);
    reveal(Cursor::take);
    reveal(Cursor::u8);
    reveal_with_fuel(Cursor::digits, 2);
    reveal_with_fuel(weight, 2);
    assert(bytes.len() >= 1);
    assert(data[pos] == data.subrange(pos, pos + bytes.len())[0]);
    assert(c.take(1).0 =~= seq![data[pos]]);
    if n < 128 {
        assert(bytes[0] == n as u8);
        assert(bytes.len() == 1);
    } else {
        let rest = n / 128;
        let tail = varint_bytes(rest);
        assert(bytes == seq![(n % 128 + 128) as u8] + tail);
        assert(bytes[0] == (n % 128 + 128) as u8);
        assert(bytes.len() == 1 + tail.len());
        assert(data.subrange(pos + 1, pos + 1 + tail.len()) =~= tail) by {
            assert forall|i: int| 0 <= i < tail.len() implies data[pos + 1 + i] == tail[i] by {
                assert(data.subrange(pos, pos + bytes.len())[i + 1] == bytes[i + 1]);
            }
        }
        let sum = acc + (n % 128) * weight(k);
        lemma_digits(data, pos + 1, k + 1, sum, rest);
        assert(sum + rest * weight(k + 1) == acc + n * weight(k)) by (nonlinear_arith)
            requires
                sum == acc + (n % 128) * weight(k),
                weight(k + 1) == 128 * weight(k),
                rest == n / 128,
        ;
    }
}

/// Encoding a number and decoding it again gives the number back, and the
/// decoder ends right behind the bytes that the encoder wrote: for every
/// 32-bit `v`, whatever stands before and behind its bytes.
pub proof fn lemma_varint_round_trip(v: i32, before: Seq<u8>, after: Seq<u8>)
    ensures
        (Cursor { data: before + encoded(v) + after, pos: before.len() as int, err: None }).varint()
            == (
            v,
            Cursor {
                data: before + encoded(v) + after,
                pos: (before.len() + encoded(v).len()) as int,
                err: None,
            },
        ),
{
    let n = as_pattern(v as int);
    let bytes = encoded(v);
    let data = before + bytes + after;
    let pos = before.len() as int;
    reveal_with_fuel(weight, 6);
    assert(weight(5) == 34359738368);
    lemma_varint_len(n, 5);
    assert(data.subrange(pos, pos + bytes.len()) =~= bytes);
    lemma_digits(data, pos, 0, 0, n);
    reveal(Cursor::varint);
    assert(n * weight(0) == n) by (nonlinear_arith)
        requires
            weight(0) == 1,
    ;
    assert(low_word(n) == v);
}

} // verus!
