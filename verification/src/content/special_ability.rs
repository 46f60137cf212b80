//! Special abilities of items and animations.
use vstd::prelude::*;
use crate::decode::{Decode, counted, read_counted};
use crate::error::{DecodeError};
use crate::reader::{Cursor, follows, Reader};
use crate::single::Single;
use crate::content::element::Element;

verus! {

broadcast use {crate::reader::group_failed, crate::decode::group_failed_items};

/// A special ability by name, with the elements it takes.
#[derive(Clone, PartialEq, Eq, Debug)]
pub struct SpecialAbility {
    pub kind: String,
    pub animation: String,
    pub hash: String,
    pub elements: Vec<Element>,
}

/// `SpecialAbility` as the format states it.
pub struct SpecialAbilityView {
    pub kind: Seq<char>,
    pub animation: Seq<char>,
    pub hash: Seq<char>,
    pub elements: Seq<Element>,
}

impl DeepView for SpecialAbility {
    type V = SpecialAbilityView;

    open spec fn deep_view(&self) -> SpecialAbilityView {
        SpecialAbilityView {
            kind: self.kind.deep_view(),
            animation: self.animation.deep_view(),
            hash: self.hash.deep_view(),
            elements: self.elements.deep_view(),
        }
    }
}

impl SpecialAbility {
    /// The fields on the wire, one behind the other.
    #[verifier::opaque]
    pub open spec fn fields(c: Cursor) -> (SpecialAbilityView, Cursor) {
        let (kind, c1) = c.string();
        let (animation, c2) = c1.string();
        let (hash, c3) = c2.string();
        let (elements, c4) = counted::<Element>(c3);
        (SpecialAbilityView { kind, animation, hash, elements }, c4)
    }

    /// The value at `c`: nothing from a failed cursor.
    pub open spec fn layout(c: Cursor) -> (SpecialAbilityView, Cursor) {
        if c.err is Some {
            (arbitrary(), c)
        } else {
            Self::fields(c)
        }
    }

    /// Reads one `SpecialAbility`.
    pub fn read(reader: &mut Reader) -> (res: Result<Self, DecodeError>)
        ensures
            follows(res, final(reader)@, Self::layout(old(reader)@)),
    {
        proof {
            reveal(SpecialAbility::fields);
        }
        let kind = reader.read_7bit_length_string()?;
        let animation = reader.read_7bit_length_string()?;
        let hash = reader.read_7bit_length_string()?;
        let elements = read_counted::<Element>(reader)?;
        Ok(SpecialAbility { kind, animation, hash, elements })
    }
}

impl Decode for SpecialAbility {
    open spec fn wire(c: Cursor) -> (SpecialAbilityView, Cursor) {
        SpecialAbility::layout(c)
    }

    proof fn lemma_wire_failed(c: Cursor) {
    }

    fn decode(r: &mut Reader) -> (res: Result<Self, DecodeError>) {
        SpecialAbility::read(r)
    }
}

/// A special ability behind its cooldown.
#[derive(Clone, PartialEq, Eq, Debug)]
pub struct SpecialAbilityWithCooldown {
    pub ability: SpecialAbility,
    pub cooldown: Single,
}

/// `SpecialAbilityWithCooldown` as the format states it.
pub struct SpecialAbilityWithCooldownView {
    pub ability: SpecialAbilityView,
    pub cooldown: Single,
}

impl DeepView for SpecialAbilityWithCooldown {
    type V = SpecialAbilityWithCooldownView;

    open spec fn deep_view(&self) -> SpecialAbilityWithCooldownView {
        SpecialAbilityWithCooldownView {
            ability: self.ability.deep_view(),
            cooldown: self.cooldown,
        }
    }
}

impl SpecialAbilityWithCooldown {
    /// The fields on the wire, one behind the other.
    #[verifier::opaque]
    pub open spec fn fields(c: Cursor) -> (SpecialAbilityWithCooldownView, Cursor) {
        let (cooldown, c1) = Single::layout(c);
        let (ability, c2) = SpecialAbility::layout(c1);
        (SpecialAbilityWithCooldownView { ability, cooldown }, c2)
    }

    /// The value at `c`: nothing from a failed cursor.
    pub open spec fn layout(c: Cursor) -> (SpecialAbilityWithCooldownView, Cursor) {
        if c.err is Some {
            (arbitrary(), c)
        } else {
            Self::fields(c)
        }
    }

    /// Reads one `SpecialAbilityWithCooldown`.
    pub fn read(reader: &mut Reader) -> (res: Result<Self, DecodeError>)
        ensures
            follows(res, final(reader)@, Self::layout(old(reader)@)),
    {
        proof {
            reveal(SpecialAbilityWithCooldown::fields);
        }
        let cooldown = Single::read(reader)?;
        let ability = SpecialAbility::read(reader)?;
        Ok(SpecialAbilityWithCooldown { ability, cooldown })
    }
}

impl Decode for SpecialAbilityWithCooldown {
    open spec fn wire(c: Cursor) -> (SpecialAbilityWithCooldownView, Cursor) {
        SpecialAbilityWithCooldown::layout(c)
    }

    proof fn lemma_wire_failed(c: Cursor) {
    }

    fn decode(r: &mut Reader) -> (res: Result<Self, DecodeError>) {
        SpecialAbilityWithCooldown::read(r)
    }
}

} // verus!
