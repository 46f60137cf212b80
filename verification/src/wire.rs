//! Fixed-width integers on the wire, read and written through `byteorder`.
use vstd::prelude::*;

verus! {

/// The unsigned number that `width` bytes of `s` from `at` on spell, least
/// significant byte first.
pub open spec fn le_nat(s: Seq<u8>, at: int, width: nat) -> nat
    decreases width,
{
    if width == 0 {
        0
    } else {
        s[at] as nat + 256 * le_nat(s, at + 1, (width - 1) as nat)
    }
}

/// The unsigned number that `width` bytes of `s` from `at` on spell, most
/// significant byte first.
pub open spec fn be_nat(s: Seq<u8>, at: int, width: nat) -> nat
    decreases width,
{
    if width == 0 {
        0
    } else {
        256 * be_nat(s, at, (width - 1) as nat) + s[at + width - 1] as nat
    }
}

/// The signed 32-bit number whose two's complement pattern is `n`.
pub open spec fn as_signed(n: nat) -> int {
    if n >= 0x8000_0000 {
        n - 0x1_0000_0000
    } else {
        n as int
    }
}

/// The bit pattern, as an unsigned number, of the signed 32-bit `v`.
pub open spec fn as_pattern(v: int) -> nat {
    if v < 0 {
        (v + 0x1_0000_0000) as nat
    } else {
        v as nat
    }
}

/// The four bytes of `n`, least significant first.
pub open spec fn le_bytes4(n: nat) -> Seq<u8> {
    seq![
        (n % 256) as u8,
        (n / 256 % 256) as u8,
        (n / 65536 % 256) as u8,
        (n / 16777216 % 256) as u8,
    ]
}

/// `byteorder::ByteOrder::read_u16` of `byteorder::LittleEndian`: the first
/// two bytes of `buf` as a number, least significant byte first. It panics
/// on a shorter slice.
#[verifier::external_body]
pub(crate) fn le_u16(buf: &[u8]) -> (n: u16)
    requires
        buf@.len() >= 2,
    ensures
        n as nat == le_nat(buf@, 0, 2),
{
    <byteorder::LittleEndian as byteorder::ByteOrder>::read_u16(buf)
}

/// `byteorder::ByteOrder::read_u32` of `byteorder::LittleEndian`: the first
/// four bytes of `buf` as a number, least significant byte first. It panics
/// on a shorter slice.
#[verifier::external_body]
pub(crate) fn le_u32(buf: &[u8]) -> (n: u32)
    requires
        buf@.len() >= 4,
    ensures
        n as nat == le_nat(buf@, 0, 4),
{
    <byteorder::LittleEndian as byteorder::ByteOrder>::read_u32(buf)
}

/// `byteorder::ByteOrder::read_i32` of `byteorder::LittleEndian`: the first
/// four bytes of `buf`, least significant byte first, taken as a two's
/// complement pattern. It panics on a shorter slice.
#[verifier::external_body]
pub(crate) fn le_i32(buf: &[u8]) -> (n: i32)
    requires
        buf@.len() >= 4,
    ensures
        n as int == as_signed(le_nat(buf@, 0, 4)),
{
    <byteorder::LittleEndian as byteorder::ByteOrder>::read_i32(buf)
}

/// `byteorder::ByteOrder::read_u16` of `byteorder::BigEndian`: the first two
/// bytes of `buf` as a number, most significant byte first. It panics on a
/// shorter slice.
#[verifier::external_body]
pub(crate) fn be_u16(buf: &[u8]) -> (n: u16)
    requires
        buf@.len() >= 2,
    ensures
        n as nat == be_nat(buf@, 0, 2),
{
    <byteorder::BigEndian as byteorder::ByteOrder>::read_u16(buf)
}

/// `byteorder::ByteOrder::write_u32` of `byteorder::LittleEndian`, on a
/// buffer of four bytes: the bytes of `n`, least significant first.
#[verifier::external_body]
pub(crate) fn le_word(n: u32) -> (word: [u8; 4])
    ensures
        word@ == le_bytes4(n as nat),
{
    let mut word = [0u8; 4];
    <byteorder::LittleEndian as byteorder::ByteOrder>::write_u32(&mut word, n);
    word
}

/// Appends the four bytes of `n` to `out`, least significant first.
pub fn push_le_u32(out: &mut Vec<u8>, n: u32)
    ensures
        final(out)@ == old(out)@ + le_bytes4(n as nat),
{
    let word = le_word(n);
    let ghost before = out@;
    out.push(word[0]);
    out.push(word[1]);
    out.push(word[2]);
    out.push(word[3]);
    assert(out@ =~= before + le_bytes4(n as nat));
}

} // verus!
