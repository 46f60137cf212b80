//! The properties of an attack, as a set of flags.
use vstd::prelude::*;
use crate::decode::Decode;
use crate::error::{DecodeError, DecodeErrorView, Selector};
use crate::reader::{Cursor, follows, low_half, low_half_of, Reader};

verus! {

broadcast use crate::reader::group_failed;

/// A set of attack properties, in the low nine bits.
#[derive(Clone, Copy, PartialEq, Eq, Structural, Debug)]
pub struct AttackProperties {
    pub bits: u16,
}

impl DeepView for AttackProperties {
    type V = AttackProperties;

    open spec fn deep_view(&self) -> AttackProperties {
        *self
    }
}

impl AttackProperties {
    pub const DAMAGE: u16 = 1;

    pub const KNOCKDOWN: u16 = 2;

    pub const PUSHED: u16 = 4;

    pub const KNOCKBACK: u16 = 6;

    pub const PIERCING: u16 = 8;

    pub const ARMOR_PIERCING: u16 = 16;

    pub const STATUS: u16 = 32;

    pub const ENTANGLEMENT: u16 = 64;

    pub const STUN: u16 = 128;

    pub const BLEED: u16 = 256;

    /// Every bit that some flag has.
    pub const KNOWN: u16 = 511;

    /// The flags that `bits` spell, if all of its bits are known.
    pub open spec fn of(bits: u16) -> Option<AttackProperties> {
        if bits <= 511 {
            Some(AttackProperties { bits })
        } else {
            None
        }
    }

    /// The flags that `bits` spell, if all of its bits are known.
    pub fn from_bits(bits: u16) -> (flags: Option<Self>)
        ensures
            flags == Self::of(bits),
    {
        if bits <= 511 {
            Some(AttackProperties { bits })
        } else {
            None
        }
    }

    /// The bits of the flags.
    pub fn bits(&self) -> (bits: u16)
        ensures
            bits == self.bits,
    {
        self.bits
    }

    /// A 32-bit number, of which the low half counts, on the wire.
    pub open spec fn layout(c: Cursor) -> (AttackProperties, Cursor) {
        let (raw, c1) = c.i32();
        if c1.err is Some {
            (arbitrary(), c1)
        } else {
            match Self::of(low_half(raw)) {
                Some(flags) => (flags, c1),
                None => (
                    arbitrary(),
                    c1.fail(DecodeErrorView::UnknownKind { selector: Selector::AttackProperties, value: raw }),
                ),
            }
        }
    }

    /// Reads one `AttackProperties`.
    pub fn read(reader: &mut Reader) -> (res: Result<Self, DecodeError>)
        ensures
            follows(res, final(reader)@, Self::layout(old(reader)@)),
    {
        let raw = reader.read_i32()?;
        match Self::from_bits(low_half_of(raw)) {
            Some(flags) => Ok(flags),
            None => Err(DecodeError::UnknownKind { selector: Selector::AttackProperties, value: raw }),
        }
    }
}

impl Decode for AttackProperties {
    open spec fn wire(c: Cursor) -> (AttackProperties, Cursor) {
        AttackProperties::layout(c)
    }

    proof fn lemma_wire_failed(c: Cursor) {
    }

    fn decode(r: &mut Reader) -> (res: Result<Self, DecodeError>) {
        AttackProperties::read(r)
    }
}

} // verus!
