//! The factions of the game, as a set of flags.
use vstd::prelude::*;
use crate::decode::Decode;
use crate::error::{DecodeError, DecodeErrorView, Selector};
use crate::reader::{Cursor, follows, low_half, low_half_of, Reader};

verus! {

broadcast use crate::reader::group_failed;

/// A set of factions, in the low fourteen bits.
#[derive(Clone, Copy, PartialEq, Eq, Structural, Debug)]
pub struct Factions {
    pub bits: u16,
}

impl DeepView for Factions {
    type V = Factions;

    open spec fn deep_view(&self) -> Factions {
        *self
    }
}

impl Factions {
    pub const NONE: u16 = 0;

    pub const EVIL: u16 = 1;

    pub const WILD: u16 = 2;

    pub const FRIENDLY: u16 = 4;

    pub const DEMON: u16 = 8;

    pub const UNDEAD: u16 = 16;

    pub const HUMAN: u16 = 32;

    pub const WIZARD: u16 = 64;

    pub const NEUTRAL: u16 = 255;

    pub const PLAYER0: u16 = 256;

    pub const PLAYER1: u16 = 512;

    pub const PLAYER2: u16 = 1024;

    pub const PLAYER3: u16 = 2048;

    pub const TEAM_RED: u16 = 4096;

    pub const TEAM_BLUE: u16 = 8192;

    pub const PLAYER: u16 = 16128;

    /// Every bit that some flag has.
    pub const KNOWN: u16 = 16383;

    /// The flags that `bits` spell, if all of its bits are known.
    pub open spec fn of(bits: u16) -> Option<Factions> {
        if bits <= 16383 {
            Some(Factions { bits })
        } else {
            None
        }
    }

    /// The flags that `bits` spell, if all of its bits are known.
    pub fn from_bits(bits: u16) -> (flags: Option<Self>)
        ensures
            flags == Self::of(bits),
    {
        if bits <= 16383 {
            Some(Factions { bits })
        } else {
            None
        }
    }

    /// The bits of the flags.
    pub fn bits(&self) -> (bits: u16)
        ensures
            bits == self.bits,
    {
        self.bits
    }

    /// A 32-bit number, of which the low half counts, on the wire.
    pub open spec fn layout(c: Cursor) -> (Factions, Cursor) {
        let (raw, c1) = c.i32();
        if c1.err is Some {
            (arbitrary(), c1)
        } else {
            match Self::of(low_half(raw)) {
                Some(flags) => (flags, c1),
                None => (
                    arbitrary(),
                    c1.fail(DecodeErrorView::UnknownKind { selector: Selector::Factions, value: raw }),
                ),
            }
        }
    }

    /// Reads one `Factions`.
    pub fn read(reader: &mut Reader) -> (res: Result<Self, DecodeError>)
        ensures
            follows(res, final(reader)@, Self::layout(old(reader)@)),
    {
        let raw = reader.read_i32()?;
        match Self::from_bits(low_half_of(raw)) {
            Some(flags) => Ok(flags),
            None => Err(DecodeError::UnknownKind { selector: Selector::Factions, value: raw }),
        }
    }
}

impl Decode for Factions {
    open spec fn wire(c: Cursor) -> (Factions, Cursor) {
        Factions::layout(c)
    }

    proof fn lemma_wire_failed(c: Cursor) {
    }

    fn decode(r: &mut Reader) -> (res: Result<Self, DecodeError>) {
        Factions::read(r)
    }
}

} // verus!
