//! Sound cues and the banks they come from.
use vstd::prelude::*;
use crate::decode::Decode;
use crate::error::{DecodeError, DecodeErrorView, Selector};
use crate::reader::{Cursor, follows, low_half, low_half_of, Reader};

verus! {

broadcast use crate::reader::group_failed;

/// A set of sound banks, in the low eleven bits.
#[derive(Clone, Copy, PartialEq, Eq, Structural, Debug)]
pub struct Bank {
    pub bits: u16,
}

impl DeepView for Bank {
    type V = Bank;

    open spec fn deep_view(&self) -> Bank {
        *self
    }
}

impl Bank {
    pub const WAVE_BANK: u16 = 1;

    pub const MUSIC: u16 = 2;

    pub const AMBIENCE: u16 = 4;

    pub const UI: u16 = 8;

    pub const SPELLS: u16 = 16;

    pub const CHARACTERS: u16 = 32;

    pub const FOOTSTEPS: u16 = 64;

    pub const WEAPONS: u16 = 128;

    pub const MISC: u16 = 256;

    pub const ADDITIONAL: u16 = 512;

    pub const ADDITIONAL_MUSIC: u16 = 1024;

    /// Every bit that some flag has.
    pub const KNOWN: u16 = 2047;

    /// The flags that `bits` spell, if all of its bits are known.
    pub open spec fn of(bits: u16) -> Option<Bank> {
        if bits <= 2047 {
            Some(Bank { bits })
        } else {
            None
        }
    }

    /// The flags that `bits` spell, if all of its bits are known.
    pub fn from_bits(bits: u16) -> (flags: Option<Self>)
        ensures
            flags == Self::of(bits),
    {
        if bits <= 2047 {
            Some(Bank { bits })
        } else {
            None
        }
    }

    /// The bits of the flags.
    pub fn bits(&self) -> (bits: u16)
        ensures
            bits == self.bits,
    {
        self.bits
    }

    /// A 32-bit number, of which the low half counts, on the wire.
    pub open spec fn layout(c: Cursor) -> (Bank, Cursor) {
        let (raw, c1) = c.i32();
        if c1.err is Some {
            (arbitrary(), c1)
        } else {
            match Self::of(low_half(raw)) {
                Some(flags) => (flags, c1),
                None => (
                    arbitrary(),
                    c1.fail(DecodeErrorView::UnknownKind { selector: Selector::Bank, value: raw }),
                ),
            }
        }
    }

    /// Reads one `Bank`.
    pub fn read(reader: &mut Reader) -> (res: Result<Self, DecodeError>)
        ensures
            follows(res, final(reader)@, Self::layout(old(reader)@)),
    {
        let raw = reader.read_i32()?;
        match Self::from_bits(low_half_of(raw)) {
            Some(flags) => Ok(flags),
            None => Err(DecodeError::UnknownKind { selector: Selector::Bank, value: raw }),
        }
    }
}

impl Decode for Bank {
    open spec fn wire(c: Cursor) -> (Bank, Cursor) {
        Bank::layout(c)
    }

    proof fn lemma_wire_failed(c: Cursor) {
    }

    fn decode(r: &mut Reader) -> (res: Result<Self, DecodeError>) {
        Bank::read(r)
    }
}

/// A cue and the bank it is played from. On the wire the cue comes first.
#[derive(Clone, PartialEq, Eq, Debug)]
pub struct Sound {
    pub cue: String,
    pub bank: Bank,
}

/// `Sound` as the format states it.
pub struct SoundView {
    pub cue: Seq<char>,
    pub bank: Bank,
}

impl DeepView for Sound {
    type V = SoundView;

    open spec fn deep_view(&self) -> SoundView {
        SoundView {
            cue: self.cue.deep_view(),
            bank: self.bank,
        }
    }
}

impl Sound {
    /// The fields on the wire, one behind the other.
    #[verifier::opaque]
    pub open spec fn fields(c: Cursor) -> (SoundView, Cursor) {
        let (cue, c1) = c.string();
        let (bank, c2) = Bank::layout(c1);
        (SoundView { cue, bank }, c2)
    }

    /// The value at `c`: nothing from a failed cursor.
    pub open spec fn layout(c: Cursor) -> (SoundView, Cursor) {
        if c.err is Some {
            (arbitrary(), c)
        } else {
            Self::fields(c)
        }
    }

    /// Reads one `Sound`.
    pub fn read(reader: &mut Reader) -> (res: Result<Self, DecodeError>)
        ensures
            follows(res, final(reader)@, Self::layout(old(reader)@)),
    {
        proof {
            reveal(Sound::fields);
        }
        let cue = reader.read_7bit_length_string()?;
        let bank = Bank::read(reader)?;
        Ok(Sound { cue, bank })
    }
}

impl Decode for Sound {
    open spec fn wire(c: Cursor) -> (SoundView, Cursor) {
        Sound::layout(c)
    }

    proof fn lemma_wire_failed(c: Cursor) {
    }

    fn decode(r: &mut Reader) -> (res: Result<Self, DecodeError>) {
        Sound::read(r)
    }
}

} // verus!
