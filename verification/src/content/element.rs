//! The elements of spells, as a set of flags.
use vstd::prelude::*;
use crate::decode::Decode;
use crate::error::{DecodeError, DecodeErrorView, Selector};
use crate::reader::{Cursor, follows, low_half, low_half_of, Reader};

verus! {

broadcast use crate::reader::group_failed;

/// A set of elements. Every bit of the sixteen is known.
#[derive(Clone, Copy, PartialEq, Eq, Structural, Debug)]
pub struct Element {
    pub bits: u16,
}

impl DeepView for Element {
    type V = Element;

    open spec fn deep_view(&self) -> Element {
        *self
    }
}

impl Element {
    pub const NONE: u16 = 0;

    pub const EARTH: u16 = 1;

    pub const WATER: u16 = 2;

    pub const COLD: u16 = 4;

    pub const FIRE: u16 = 8;

    pub const LIGHTNING: u16 = 16;

    pub const ARCANE: u16 = 32;

    pub const LIFE: u16 = 64;

    pub const SHIELD: u16 = 128;

    pub const ICE: u16 = 256;

    pub const STEAM: u16 = 512;

    pub const POISON: u16 = 1024;

    pub const OFFENSIVE: u16 = 1855;

    pub const DEFENSIVE: u16 = 176;

    pub const ALL: u16 = 65535;

    pub const MAGICK: u16 = 65535;

    pub const BASIC: u16 = 255;

    pub const INSTANT: u16 = 881;

    pub const INSTANT_PHYSICAL: u16 = 369;

    pub const INSTANT_NON_PHYSICAL: u16 = 624;

    pub const STATUS_EFFECT: u16 = 1614;

    pub const SHIELD_ELEMENT: u16 = 224;

    pub const BEAM: u16 = 96;

    /// Every bit that some flag has.
    pub const KNOWN: u16 = 65535;

    /// The flags that `bits` spell, if all of its bits are known.
    pub open spec fn of(bits: u16) -> Option<Element> {
        if bits <= 65535 {
            Some(Element { bits })
        } else {
            None
        }
    }

    /// The flags that `bits` spell, if all of its bits are known.
    pub fn from_bits(bits: u16) -> (flags: Option<Self>)
        ensures
            flags == Self::of(bits),
    {
        if bits <= 65535 {
            Some(Element { bits })
        } else {
            None
        }
    }

    /// The bits of the flags.
    pub fn bits(&self) -> (bits: u16)
        ensures
            bits == self.bits,
    {
        self.bits
    }

    /// A 32-bit number, of which the low half counts, on the wire.
    pub open spec fn layout(c: Cursor) -> (Element, Cursor) {
        let (raw, c1) = c.i32();
        if c1.err is Some {
            (arbitrary(), c1)
        } else {
            match Self::of(low_half(raw)) {
                Some(flags) => (flags, c1),
                None => (
                    arbitrary(),
                    c1.fail(DecodeErrorView::UnknownKind { selector: Selector::Element, value: raw }),
                ),
            }
        }
    }

    /// Reads one `Element`.
    pub fn read(reader: &mut Reader) -> (res: Result<Self, DecodeError>)
        ensures
            follows(res, final(reader)@, Self::layout(old(reader)@)),
    {
        let raw = reader.read_i32()?;
        match Self::from_bits(low_half_of(raw)) {
            Some(flags) => Ok(flags),
            None => Err(DecodeError::UnknownKind { selector: Selector::Element, value: raw }),
        }
    }
}

impl Decode for Element {
    open spec fn wire(c: Cursor) -> (Element, Cursor) {
        Element::layout(c)
    }

    proof fn lemma_wire_failed(c: Cursor) {
    }

    fn decode(r: &mut Reader) -> (res: Result<Self, DecodeError>) {
        Element::read(r)
    }
}

} // verus!
