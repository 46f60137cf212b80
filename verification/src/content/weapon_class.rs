//! The classes of weapons, by the animation set that wields them.
use vstd::prelude::*;
use crate::decode::Decode;
use crate::error::{DecodeError, DecodeErrorView, Selector};
use crate::reader::{Cursor, follows, Reader};

verus! {

broadcast use crate::reader::group_failed;

/// The class of a weapon.
#[derive(Clone, Copy, PartialEq, Eq, Structural, Debug)]
pub enum WeaponClass {
    Default,
    ThrustFast,
    ThrustMedium,
    ThrustSlow,
    CrushFast,
    CrushMedium,
    CrushSlow,
    SlashFast,
    SlashMedium,
    SlashSlow,
    ThrowFast,
    ThrowMedium,
    ThrowSlow,
    Unarmed,
    Handgun,
    Rifle,
    MachineGun,
    Heavy,
    Staff,
    NewAnimationSet0,
    NewAnimationSet1,
    NewAnimationSet2,
    NewAnimationSet3,
    NewAnimationSet4,
    NewAnimationSet5,
    NewAnimationSet6,
    NewAnimationSet7,
}

impl DeepView for WeaponClass {
    type V = WeaponClass;

    open spec fn deep_view(&self) -> WeaponClass {
        *self
    }
}

impl WeaponClass {
    /// The variant that a number stands for, if any.
    pub open spec fn of(value: u8) -> Option<WeaponClass> {
        if value == 0 {
            Some(WeaponClass::Default)
        } else if value == 1 {
            Some(WeaponClass::ThrustFast)
        } else if value == 2 {
            Some(WeaponClass::ThrustMedium)
        } else if value == 3 {
            Some(WeaponClass::ThrustSlow)
        } else if value == 4 {
            Some(WeaponClass::CrushFast)
        } else if value == 5 {
            Some(WeaponClass::CrushMedium)
        } else if value == 6 {
            Some(WeaponClass::CrushSlow)
        } else if value == 7 {
            Some(WeaponClass::SlashFast)
        } else if value == 8 {
            Some(WeaponClass::SlashMedium)
        } else if value == 9 {
            Some(WeaponClass::SlashSlow)
        } else if value == 10 {
            Some(WeaponClass::ThrowFast)
        } else if value == 11 {
            Some(WeaponClass::ThrowMedium)
        } else if value == 12 {
            Some(WeaponClass::ThrowSlow)
        } else if value == 13 {
            Some(WeaponClass::Unarmed)
        } else if value == 14 {
            Some(WeaponClass::Handgun)
        } else if value == 15 {
            Some(WeaponClass::Rifle)
        } else if value == 16 {
            Some(WeaponClass::MachineGun)
        } else if value == 17 {
            Some(WeaponClass::Heavy)
        } else if value == 18 {
            Some(WeaponClass::Staff)
        } else if value == 19 {
            Some(WeaponClass::NewAnimationSet0)
        } else if value == 20 {
            Some(WeaponClass::NewAnimationSet1)
        } else if value == 21 {
            Some(WeaponClass::NewAnimationSet2)
        } else if value == 22 {
            Some(WeaponClass::NewAnimationSet3)
        } else if value == 23 {
            Some(WeaponClass::NewAnimationSet4)
        } else if value == 24 {
            Some(WeaponClass::NewAnimationSet5)
        } else if value == 25 {
            Some(WeaponClass::NewAnimationSet6)
        } else if value == 26 {
            Some(WeaponClass::NewAnimationSet7)
        } else {
            None
        }
    }

    /// The variant that `value` stands for, if any.
    pub fn from_repr(value: u8) -> (kind: Option<Self>)
        ensures
            kind == Self::of(value),
    {
        if value == 0 {
            Some(WeaponClass::Default)
        } else if value == 1 {
            Some(WeaponClass::ThrustFast)
        } else if value == 2 {
            Some(WeaponClass::ThrustMedium)
        } else if value == 3 {
            Some(WeaponClass::ThrustSlow)
        } else if value == 4 {
            Some(WeaponClass::CrushFast)
        } else if value == 5 {
            Some(WeaponClass::CrushMedium)
        } else if value == 6 {
            Some(WeaponClass::CrushSlow)
        } else if value == 7 {
            Some(WeaponClass::SlashFast)
        } else if value == 8 {
            Some(WeaponClass::SlashMedium)
        } else if value == 9 {
            Some(WeaponClass::SlashSlow)
        } else if value == 10 {
            Some(WeaponClass::ThrowFast)
        } else if value == 11 {
            Some(WeaponClass::ThrowMedium)
        } else if value == 12 {
            Some(WeaponClass::ThrowSlow)
        } else if value == 13 {
            Some(WeaponClass::Unarmed)
        } else if value == 14 {
            Some(WeaponClass::Handgun)
        } else if value == 15 {
            Some(WeaponClass::Rifle)
        } else if value == 16 {
            Some(WeaponClass::MachineGun)
        } else if value == 17 {
            Some(WeaponClass::Heavy)
        } else if value == 18 {
            Some(WeaponClass::Staff)
        } else if value == 19 {
            Some(WeaponClass::NewAnimationSet0)
        } else if value == 20 {
            Some(WeaponClass::NewAnimationSet1)
        } else if value == 21 {
            Some(WeaponClass::NewAnimationSet2)
        } else if value == 22 {
            Some(WeaponClass::NewAnimationSet3)
        } else if value == 23 {
            Some(WeaponClass::NewAnimationSet4)
        } else if value == 24 {
            Some(WeaponClass::NewAnimationSet5)
        } else if value == 25 {
            Some(WeaponClass::NewAnimationSet6)
        } else if value == 26 {
            Some(WeaponClass::NewAnimationSet7)
        } else {
            None
        }
    }

    /// One byte on the wire.
    pub open spec fn layout(c: Cursor) -> (WeaponClass, Cursor) {
        let (raw, c1) = c.u8();
        if c1.err is Some {
            (arbitrary(), c1)
        } else {
            match Self::of(raw) {
                Some(kind) => (kind, c1),
                None => (
                    arbitrary(),
                    c1.fail(DecodeErrorView::UnknownKind { selector: Selector::WeaponClass, value: raw as i32 }),
                ),
            }
        }
    }

    /// Reads one `WeaponClass`.
    pub fn read(reader: &mut Reader) -> (res: Result<Self, DecodeError>)
        ensures
            follows(res, final(reader)@, Self::layout(old(reader)@)),
    {
        let raw = reader.read_u8()?;
        match Self::from_repr(raw) {
            Some(kind) => Ok(kind),
            None => Err(DecodeError::UnknownKind { selector: Selector::WeaponClass, value: raw as i32 }),
        }
    }
}

impl Decode for WeaponClass {
    open spec fn wire(c: Cursor) -> (WeaponClass, Cursor) {
        WeaponClass::layout(c)
    }

    proof fn lemma_wire_failed(c: Cursor) {
    }

    fn decode(r: &mut Reader) -> (res: Result<Self, DecodeError>) {
        WeaponClass::read(r)
    }
}

} // verus!
