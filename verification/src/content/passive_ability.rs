//! What an item grants while it is held.
use vstd::prelude::*;
use crate::decode::Decode;
use crate::error::{DecodeError, DecodeErrorView, Selector};
use crate::reader::{Cursor, follows, Reader};
use crate::single::Single;

verus! {

broadcast use crate::reader::group_failed;

/// The passive abilities.
#[derive(Clone, Copy, PartialEq, Eq, Structural, Debug)]
pub enum PassiveAbilityKind {
    Nothing,
    ShieldBoost,
    AreaLifeDrain,
    ZombieDeterrent,
    ReduceAggro,
    EnhanceAllyMelee,
    AreaRegeneration,
    InverseArcaneLife,
    Zap,
    BirchSteam,
    WetLightning,
    MoveSpeed,
    Glow,
    Mjolnir,
    Gungnir,
    MasterSword,
    DragonSlayer,
}

impl DeepView for PassiveAbilityKind {
    type V = PassiveAbilityKind;

    open spec fn deep_view(&self) -> PassiveAbilityKind {
        *self
    }
}

impl PassiveAbilityKind {
    /// The variant that a number stands for, if any.
    pub open spec fn of(value: u8) -> Option<PassiveAbilityKind> {
        if value == 0 {
            Some(PassiveAbilityKind::Nothing)
        } else if value == 1 {
            Some(PassiveAbilityKind::ShieldBoost)
        } else if value == 2 {
            Some(PassiveAbilityKind::AreaLifeDrain)
        } else if value == 3 {
            Some(PassiveAbilityKind::ZombieDeterrent)
        } else if value == 4 {
            Some(PassiveAbilityKind::ReduceAggro)
        } else if value == 5 {
            Some(PassiveAbilityKind::EnhanceAllyMelee)
        } else if value == 6 {
            Some(PassiveAbilityKind::AreaRegeneration)
        } else if value == 7 {
            Some(PassiveAbilityKind::InverseArcaneLife)
        } else if value == 8 {
            Some(PassiveAbilityKind::Zap)
        } else if value == 9 {
            Some(PassiveAbilityKind::BirchSteam)
        } else if value == 10 {
            Some(PassiveAbilityKind::WetLightning)
        } else if value == 11 {
            Some(PassiveAbilityKind::MoveSpeed)
        } else if value == 12 {
            Some(PassiveAbilityKind::Glow)
        } else if value == 13 {
            Some(PassiveAbilityKind::Mjolnir)
        } else if value == 14 {
            Some(PassiveAbilityKind::Gungnir)
        } else if value == 15 {
            Some(PassiveAbilityKind::MasterSword)
        } else if value == 16 {
            Some(PassiveAbilityKind::DragonSlayer)
        } else {
            None
        }
    }

    /// The variant that `value` stands for, if any.
    pub fn from_repr(value: u8) -> (kind: Option<Self>)
        ensures
            kind == Self::of(value),
    {
        if value == 0 {
            Some(PassiveAbilityKind::Nothing)
        } else if value == 1 {
            Some(PassiveAbilityKind::ShieldBoost)
        } else if value == 2 {
            Some(PassiveAbilityKind::AreaLifeDrain)
        } else if value == 3 {
            Some(PassiveAbilityKind::ZombieDeterrent)
        } else if value == 4 {
            Some(PassiveAbilityKind::ReduceAggro)
        } else if value == 5 {
            Some(PassiveAbilityKind::EnhanceAllyMelee)
        } else if value == 6 {
            Some(PassiveAbilityKind::AreaRegeneration)
        } else if value == 7 {
            Some(PassiveAbilityKind::InverseArcaneLife)
        } else if value == 8 {
            Some(PassiveAbilityKind::Zap)
        } else if value == 9 {
            Some(PassiveAbilityKind::BirchSteam)
        } else if value == 10 {
            Some(PassiveAbilityKind::WetLightning)
        } else if value == 11 {
            Some(PassiveAbilityKind::MoveSpeed)
        } else if value == 12 {
            Some(PassiveAbilityKind::Glow)
        } else if value == 13 {
            Some(PassiveAbilityKind::Mjolnir)
        } else if value == 14 {
            Some(PassiveAbilityKind::Gungnir)
        } else if value == 15 {
            Some(PassiveAbilityKind::MasterSword)
        } else if value == 16 {
            Some(PassiveAbilityKind::DragonSlayer)
        } else {
            None
        }
    }

    /// One byte on the wire.
    pub open spec fn layout(c: Cursor) -> (PassiveAbilityKind, Cursor) {
        let (raw, c1) = c.u8();
        if c1.err is Some {
            (arbitrary(), c1)
        } else {
            match Self::of(raw) {
                Some(kind) => (kind, c1),
                None => (
                    arbitrary(),
                    c1.fail(DecodeErrorView::UnknownKind { selector: Selector::PassiveAbilityKind, value: raw as i32 }),
                ),
            }
        }
    }

    /// Reads one `PassiveAbilityKind`.
    pub fn read(reader: &mut Reader) -> (res: Result<Self, DecodeError>)
        ensures
            follows(res, final(reader)@, Self::layout(old(reader)@)),
    {
        let raw = reader.read_u8()?;
        match Self::from_repr(raw) {
            Some(kind) => Ok(kind),
            None => Err(DecodeError::UnknownKind { selector: Selector::PassiveAbilityKind, value: raw as i32 }),
        }
    }
}

impl Decode for PassiveAbilityKind {
    open spec fn wire(c: Cursor) -> (PassiveAbilityKind, Cursor) {
        PassiveAbilityKind::layout(c)
    }

    proof fn lemma_wire_failed(c: Cursor) {
    }

    fn decode(r: &mut Reader) -> (res: Result<Self, DecodeError>) {
        PassiveAbilityKind::read(r)
    }
}

/// A passive ability and its strength.
#[derive(Clone, Copy, PartialEq, Eq, Structural, Debug)]
pub struct PassiveAbility {
    pub kind: PassiveAbilityKind,
    pub value: Single,
}

impl DeepView for PassiveAbility {
    type V = PassiveAbility;

    open spec fn deep_view(&self) -> PassiveAbility {
        *self
    }
}

impl PassiveAbility {
    /// The fields on the wire, one behind the other.
    #[verifier::opaque]
    pub open spec fn fields(c: Cursor) -> (PassiveAbility, Cursor) {
        let (kind, c1) = PassiveAbilityKind::layout(c);
        let (value, c2) = Single::layout(c1);
        (PassiveAbility { kind, value }, c2)
    }

    /// The value at `c`: nothing from a failed cursor.
    pub open spec fn layout(c: Cursor) -> (PassiveAbility, Cursor) {
        if c.err is Some {
            (arbitrary(), c)
        } else {
            Self::fields(c)
        }
    }

    /// Reads one `PassiveAbility`.
    pub fn read(reader: &mut Reader) -> (res: Result<Self, DecodeError>)
        ensures
            follows(res, final(reader)@, Self::layout(old(reader)@)),
    {
        proof {
            reveal(PassiveAbility::fields);
        }
        let kind = PassiveAbilityKind::read(reader)?;
        let value = Single::read(reader)?;
        Ok(PassiveAbility { kind, value })
    }
}

impl Decode for PassiveAbility {
    open spec fn wire(c: Cursor) -> (PassiveAbility, Cursor) {
        PassiveAbility::layout(c)
    }

    proof fn lemma_wire_failed(c: Cursor) {
    }

    fn decode(r: &mut Reader) -> (res: Result<Self, DecodeError>) {
        PassiveAbility::read(r)
    }
}

} // verus!
