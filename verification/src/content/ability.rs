//! The abilities of a character, one layout for each kind.
use vstd::prelude::*;
use crate::decode::{Decode, counted, optional, read_counted, read_optional};
use crate::error::{DecodeError, DecodeErrorView, Selector};
use crate::reader::{Cursor, follows, low_byte, low_byte_of, Reader, same};
use crate::single::Single;
use crate::content::damage::Damage;
use crate::content::element::Element;
use crate::content::vector3::Vector3;

verus! {

broadcast use {crate::reader::group_failed, crate::decode::group_failed_items};

/// Whom an ability is aimed at.
#[derive(Clone, Copy, PartialEq, Eq, Structural, Debug)]
pub enum AbilityTarget {
    User,
    Enemy,
    Friendly,
}

impl DeepView for AbilityTarget {
    type V = AbilityTarget;

    open spec fn deep_view(&self) -> AbilityTarget {
        *self
    }
}

impl AbilityTarget {
    /// The variant that a number stands for, if any.
    pub open spec fn of(value: u8) -> Option<AbilityTarget> {
        if value == 1 {
            Some(AbilityTarget::User)
        } else if value == 2 {
            Some(AbilityTarget::Enemy)
        } else if value == 3 {
            Some(AbilityTarget::Friendly)
        } else {
            None
        }
    }

    /// The variant that `value` stands for, if any.
    pub fn from_repr(value: u8) -> (kind: Option<Self>)
        ensures
            kind == Self::of(value),
    {
        if value == 1 {
            Some(AbilityTarget::User)
        } else if value == 2 {
            Some(AbilityTarget::Enemy)
        } else if value == 3 {
            Some(AbilityTarget::Friendly)
        } else {
            None
        }
    }

    /// One byte on the wire.
    pub open spec fn layout(c: Cursor) -> (AbilityTarget, Cursor) {
        let (raw, c1) = c.u8();
        if c1.err is Some {
            (arbitrary(), c1)
        } else {
            match Self::of(raw) {
                Some(kind) => (kind, c1),
                None => (
                    arbitrary(),
                    c1.fail(DecodeErrorView::UnknownKind { selector: Selector::AbilityTarget, value: raw as i32 }),
                ),
            }
        }
    }

    /// Reads one `AbilityTarget`.
    pub fn read(reader: &mut Reader) -> (res: Result<Self, DecodeError>)
        ensures
            follows(res, final(reader)@, Self::layout(old(reader)@)),
    {
        let raw = reader.read_u8()?;
        match Self::from_repr(raw) {
            Some(kind) => Ok(kind),
            None => Err(DecodeError::UnknownKind { selector: Selector::AbilityTarget, value: raw as i32 }),
        }
    }
}

impl Decode for AbilityTarget {
    open spec fn wire(c: Cursor) -> (AbilityTarget, Cursor) {
        AbilityTarget::layout(c)
    }

    proof fn lemma_wire_failed(c: Cursor) {
    }

    fn decode(r: &mut Reader) -> (res: Result<Self, DecodeError>) {
        AbilityTarget::read(r)
    }
}

/// How a spell is cast.
#[derive(Clone, Copy, PartialEq, Eq, Structural, Debug)]
pub enum CastKind {
    Nothing,
    Force,
    Area,
    User,
    Weapon,
    Magick,
}

impl DeepView for CastKind {
    type V = CastKind;

    open spec fn deep_view(&self) -> CastKind {
        *self
    }
}

impl CastKind {
    /// The variant that a number stands for, if any.
    pub open spec fn of(value: u8) -> Option<CastKind> {
        if value == 0 {
            Some(CastKind::Nothing)
        } else if value == 1 {
            Some(CastKind::Force)
        } else if value == 2 {
            Some(CastKind::Area)
        } else if value == 3 {
            Some(CastKind::User)
        } else if value == 4 {
            Some(CastKind::Weapon)
        } else if value == 5 {
            Some(CastKind::Magick)
        } else {
            None
        }
    }

    /// The variant that `value` stands for, if any.
    pub fn from_repr(value: u8) -> (kind: Option<Self>)
        ensures
            kind == Self::of(value),
    {
        if value == 0 {
            Some(CastKind::Nothing)
        } else if value == 1 {
            Some(CastKind::Force)
        } else if value == 2 {
            Some(CastKind::Area)
        } else if value == 3 {
            Some(CastKind::User)
        } else if value == 4 {
            Some(CastKind::Weapon)
        } else if value == 5 {
            Some(CastKind::Magick)
        } else {
            None
        }
    }

    /// A 32-bit number, of which the low byte counts, on the wire.
    pub open spec fn layout(c: Cursor) -> (CastKind, Cursor) {
        let (raw, c1) = c.i32();
        if c1.err is Some {
            (arbitrary(), c1)
        } else {
            match Self::of(low_byte(raw)) {
                Some(kind) => (kind, c1),
                None => (
                    arbitrary(),
                    c1.fail(DecodeErrorView::UnknownKind { selector: Selector::CastKind, value: raw }),
                ),
            }
        }
    }

    /// Reads one `CastKind`.
    pub fn read(reader: &mut Reader) -> (res: Result<Self, DecodeError>)
        ensures
            follows(res, final(reader)@, Self::layout(old(reader)@)),
    {
        let raw = reader.read_i32()?;
        match Self::from_repr(low_byte_of(raw)) {
            Some(kind) => Ok(kind),
            None => Err(DecodeError::UnknownKind { selector: Selector::CastKind, value: raw }),
        }
    }
}

impl Decode for CastKind {
    open spec fn wire(c: Cursor) -> (CastKind, Cursor) {
        CastKind::layout(c)
    }

    proof fn lemma_wire_failed(c: Cursor) {
    }

    fn decode(r: &mut Reader) -> (res: Result<Self, DecodeError>) {
        CastKind::read(r)
    }
}

/// A jump. On the wire the largest range comes first.
#[derive(Clone, Copy, PartialEq, Eq, Structural, Debug)]
pub struct JumpAbility {
    pub min_range: Single,
    pub max_range: Single,
    pub angle: Single,
    pub elevation: Single,
}

impl DeepView for JumpAbility {
    type V = JumpAbility;

    open spec fn deep_view(&self) -> JumpAbility {
        *self
    }
}

impl JumpAbility {
    /// The fields on the wire, one behind the other.
    #[verifier::opaque]
    pub open spec fn fields(c: Cursor) -> (JumpAbility, Cursor) {
        let (max_range, c1) = Single::layout(c);
        let (min_range, c2) = Single::layout(c1);
        let (angle, c3) = Single::layout(c2);
        let (elevation, c4) = Single::layout(c3);
        (JumpAbility { min_range, max_range, angle, elevation }, c4)
    }

    /// The value at `c`: nothing from a failed cursor.
    pub open spec fn layout(c: Cursor) -> (JumpAbility, Cursor) {
        if c.err is Some {
            (arbitrary(), c)
        } else {
            Self::fields(c)
        }
    }

    /// Reads one `JumpAbility`.
    pub fn read(reader: &mut Reader) -> (res: Result<Self, DecodeError>)
        ensures
            follows(res, final(reader)@, Self::layout(old(reader)@)),
    {
        proof {
            reveal(JumpAbility::fields);
        }
        let max_range = Single::read(reader)?;
        let min_range = Single::read(reader)?;
        let angle = Single::read(reader)?;
        let elevation = Single::read(reader)?;
        Ok(JumpAbility { min_range, max_range, angle, elevation })
    }
}

impl Decode for JumpAbility {
    open spec fn wire(c: Cursor) -> (JumpAbility, Cursor) {
        JumpAbility::layout(c)
    }

    proof fn lemma_wire_failed(c: Cursor) {
    }

    fn decode(r: &mut Reader) -> (res: Result<Self, DecodeError>) {
        JumpAbility::read(r)
    }
}

/// A dash.
#[derive(Clone, Copy, PartialEq, Eq, Structural, Debug)]
pub struct DashAbility {
    pub min_range: Single,
    pub max_range: Single,
    pub arc: Single,
    pub velocity: Vector3,
}

impl DeepView for DashAbility {
    type V = DashAbility;

    open spec fn deep_view(&self) -> DashAbility {
        *self
    }
}

impl DashAbility {
    /// The fields on the wire, one behind the other.
    #[verifier::opaque]
    pub open spec fn fields(c: Cursor) -> (DashAbility, Cursor) {
        let (min_range, c1) = Single::layout(c);
        let (max_range, c2) = Single::layout(c1);
        let (arc, c3) = Single::layout(c2);
        let (velocity, c4) = Vector3::layout(c3);
        (DashAbility { min_range, max_range, arc, velocity }, c4)
    }

    /// The value at `c`: nothing from a failed cursor.
    pub open spec fn layout(c: Cursor) -> (DashAbility, Cursor) {
        if c.err is Some {
            (arbitrary(), c)
        } else {
            Self::fields(c)
        }
    }

    /// Reads one `DashAbility`.
    pub fn read(reader: &mut Reader) -> (res: Result<Self, DecodeError>)
        ensures
            follows(res, final(reader)@, Self::layout(old(reader)@)),
    {
        proof {
            reveal(DashAbility::fields);
        }
        let min_range = Single::read(reader)?;
        let max_range = Single::read(reader)?;
        let arc = Single::read(reader)?;
        let velocity = Vector3::read(reader)?;
        Ok(DashAbility { min_range, max_range, arc, velocity })
    }
}

impl Decode for DashAbility {
    open spec fn wire(c: Cursor) -> (DashAbility, Cursor) {
        DashAbility::layout(c)
    }

    proof fn lemma_wire_failed(c: Cursor) {
    }

    fn decode(r: &mut Reader) -> (res: Result<Self, DecodeError>) {
        DashAbility::read(r)
    }
}

/// A block.
#[derive(Clone, Copy, PartialEq, Eq, Structural, Debug)]
pub struct BlockAbility {
    pub arc: Single,
    pub shield: i32,
}

impl DeepView for BlockAbility {
    type V = BlockAbility;

    open spec fn deep_view(&self) -> BlockAbility {
        *self
    }
}

impl BlockAbility {
    /// The fields on the wire, one behind the other.
    #[verifier::opaque]
    pub open spec fn fields(c: Cursor) -> (BlockAbility, Cursor) {
        let (arc, c1) = Single::layout(c);
        let (shield, c2) = c1.i32();
        (BlockAbility { arc, shield }, c2)
    }

    /// The value at `c`: nothing from a failed cursor.
    pub open spec fn layout(c: Cursor) -> (BlockAbility, Cursor) {
        if c.err is Some {
            (arbitrary(), c)
        } else {
            Self::fields(c)
        }
    }

    /// Reads one `BlockAbility`.
    pub fn read(reader: &mut Reader) -> (res: Result<Self, DecodeError>)
        ensures
            follows(res, final(reader)@, Self::layout(old(reader)@)),
    {
        proof {
            reveal(BlockAbility::fields);
        }
        let arc = Single::read(reader)?;
        let shield = reader.read_i32()?;
        Ok(BlockAbility { arc, shield })
    }
}

impl Decode for BlockAbility {
    open spec fn wire(c: Cursor) -> (BlockAbility, Cursor) {
        BlockAbility::layout(c)
    }

    proof fn lemma_wire_failed(c: Cursor) {
    }

    fn decode(r: &mut Reader) -> (res: Result<Self, DecodeError>) {
        BlockAbility::read(r)
    }
}

/// A melee attack.
#[derive(Clone, PartialEq, Eq, Debug)]
pub struct MeleeAbility {
    pub min_range: Single,
    pub max_range: Single,
    pub arc_angle: Single,
    pub weapon_slots: Vec<i32>,
    pub rotate: bool,
}

/// `MeleeAbility` as the format states it.
pub struct MeleeAbilityView {
    pub min_range: Single,
    pub max_range: Single,
    pub arc_angle: Single,
    pub weapon_slots: Seq<i32>,
    pub rotate: bool,
}

impl DeepView for MeleeAbility {
    type V = MeleeAbilityView;

    open spec fn deep_view(&self) -> MeleeAbilityView {
        MeleeAbilityView {
            min_range: self.min_range,
            max_range: self.max_range,
            arc_angle: self.arc_angle,
            weapon_slots: self.weapon_slots.deep_view(),
            rotate: self.rotate,
        }
    }
}

impl MeleeAbility {
    /// The fields on the wire, one behind the other.
    #[verifier::opaque]
    pub open spec fn fields(c: Cursor) -> (MeleeAbilityView, Cursor) {
        let (min_range, c1) = Single::layout(c);
        let (max_range, c2) = Single::layout(c1);
        let (arc_angle, c3) = Single::layout(c2);
        let (weapon_slots, c4) = counted::<i32>(c3);
        let (rotate, c5) = c4.bool();
        (MeleeAbilityView { min_range, max_range, arc_angle, weapon_slots, rotate }, c5)
    }

    /// The value at `c`: nothing from a failed cursor.
    pub open spec fn layout(c: Cursor) -> (MeleeAbilityView, Cursor) {
        if c.err is Some {
            (arbitrary(), c)
        } else {
            Self::fields(c)
        }
    }

    /// Reads one `MeleeAbility`.
    pub fn read(reader: &mut Reader) -> (res: Result<Self, DecodeError>)
        ensures
            follows(res, final(reader)@, Self::layout(old(reader)@)),
    {
        proof {
            reveal(MeleeAbility::fields);
        }
        let min_range = Single::read(reader)?;
        let max_range = Single::read(reader)?;
        let arc_angle = Single::read(reader)?;
        let weapon_slots = read_counted::<i32>(reader)?;
        let rotate = reader.read_bool()?;
        Ok(MeleeAbility { min_range, max_range, arc_angle, weapon_slots, rotate })
    }
}

impl Decode for MeleeAbility {
    open spec fn wire(c: Cursor) -> (MeleeAbilityView, Cursor) {
        MeleeAbility::layout(c)
    }

    proof fn lemma_wire_failed(c: Cursor) {
    }

    fn decode(r: &mut Reader) -> (res: Result<Self, DecodeError>) {
        MeleeAbility::read(r)
    }
}

/// A ranged attack.
#[derive(Clone, PartialEq, Eq, Debug)]
pub struct RangedAbility {
    pub min_range: Single,
    pub max_range: Single,
    pub elevation: Single,
    pub arc: Single,
    pub accuracy: Single,
    pub weapon_slots: Vec<i32>,
}

/// `RangedAbility` as the format states it.
pub struct RangedAbilityView {
    pub min_range: Single,
    pub max_range: Single,
    pub elevation: Single,
    pub arc: Single,
    pub accuracy: Single,
    pub weapon_slots: Seq<i32>,
}

impl DeepView for RangedAbility {
    type V = RangedAbilityView;

    open spec fn deep_view(&self) -> RangedAbilityView {
        RangedAbilityView {
            min_range: self.min_range,
            max_range: self.max_range,
            elevation: self.elevation,
            arc: self.arc,
            accuracy: self.accuracy,
            weapon_slots: self.weapon_slots.deep_view(),
        }
    }
}

impl RangedAbility {
    /// The fields on the wire, one behind the other.
    #[verifier::opaque]
    pub open spec fn fields(c: Cursor) -> (RangedAbilityView, Cursor) {
        let (min_range, c1) = Single::layout(c);
        let (max_range, c2) = Single::layout(c1);
        let (elevation, c3) = Single::layout(c2);
        let (arc, c4) = Single::layout(c3);
        let (accuracy, c5) = Single::layout(c4);
        let (weapon_slots, c6) = counted::<i32>(c5);
        (RangedAbilityView { min_range, max_range, elevation, arc, accuracy, weapon_slots }, c6)
    }

    /// The value at `c`: nothing from a failed cursor.
    pub open spec fn layout(c: Cursor) -> (RangedAbilityView, Cursor) {
        if c.err is Some {
            (arbitrary(), c)
        } else {
            Self::fields(c)
        }
    }

    /// Reads one `RangedAbility`.
    pub fn read(reader: &mut Reader) -> (res: Result<Self, DecodeError>)
        ensures
            follows(res, final(reader)@, Self::layout(old(reader)@)),
    {
        proof {
            reveal(RangedAbility::fields);
        }
        let min_range = Single::read(reader)?;
        let max_range = Single::read(reader)?;
        let elevation = Single::read(reader)?;
        let arc = Single::read(reader)?;
        let accuracy = Single::read(reader)?;
        let weapon_slots = read_counted::<i32>(reader)?;
        Ok(RangedAbility { min_range, max_range, elevation, arc, accuracy, weapon_slots })
    }
}

impl Decode for RangedAbility {
    open spec fn wire(c: Cursor) -> (RangedAbilityView, Cursor) {
        RangedAbility::layout(c)
    }

    proof fn lemma_wire_failed(c: Cursor) {
    }

    fn decode(r: &mut Reader) -> (res: Result<Self, DecodeError>) {
        RangedAbility::read(r)
    }
}

/// Confusing a gripped character: no fields.
#[derive(Clone, Copy, PartialEq, Eq, Structural, Debug)]
pub struct ConfuseGripAbility;

impl DeepView for ConfuseGripAbility {
    type V = ConfuseGripAbility;

    open spec fn deep_view(&self) -> ConfuseGripAbility {
        *self
    }
}

/// Damaging a gripped character: no fields.
#[derive(Clone, Copy, PartialEq, Eq, Structural, Debug)]
pub struct DamageGripAbility;

impl DeepView for DamageGripAbility {
    type V = DamageGripAbility;

    open spec fn deep_view(&self) -> DamageGripAbility {
        *self
    }
}

/// Throwing a gripped character. On the wire the largest range comes first.
#[derive(Clone, PartialEq, Eq, Debug)]
pub struct ThrowGripAbility {
    pub min_range: Single,
    pub max_range: Single,
    pub elevation: Single,
    pub damages: Vec<Damage>,
}

/// `ThrowGripAbility` as the format states it.
pub struct ThrowGripAbilityView {
    pub min_range: Single,
    pub max_range: Single,
    pub elevation: Single,
    pub damages: Seq<Damage>,
}

impl DeepView for ThrowGripAbility {
    type V = ThrowGripAbilityView;

    open spec fn deep_view(&self) -> ThrowGripAbilityView {
        ThrowGripAbilityView {
            min_range: self.min_range,
            max_range: self.max_range,
            elevation: self.elevation,
            damages: self.damages.deep_view(),
        }
    }
}

impl ThrowGripAbility {
    /// The fields on the wire, one behind the other.
    #[verifier::opaque]
    pub open spec fn fields(c: Cursor) -> (ThrowGripAbilityView, Cursor) {
        let (max_range, c1) = Single::layout(c);
        let (min_range, c2) = Single::layout(c1);
        let (elevation, c3) = Single::layout(c2);
        let (damages, c4) = counted::<Damage>(c3);
        (ThrowGripAbilityView { min_range, max_range, elevation, damages }, c4)
    }

    /// The value at `c`: nothing from a failed cursor.
    pub open spec fn layout(c: Cursor) -> (ThrowGripAbilityView, Cursor) {
        if c.err is Some {
            (arbitrary(), c)
        } else {
            Self::fields(c)
        }
    }

    /// Reads one `ThrowGripAbility`.
    pub fn read(reader: &mut Reader) -> (res: Result<Self, DecodeError>)
        ensures
            follows(res, final(reader)@, Self::layout(old(reader)@)),
    {
        proof {
            reveal(ThrowGripAbility::fields);
        }
        let max_range = Single::read(reader)?;
        let min_range = Single::read(reader)?;
        let elevation = Single::read(reader)?;
        let damages = read_counted::<Damage>(reader)?;
        Ok(ThrowGripAbility { min_range, max_range, elevation, damages })
    }
}

impl Decode for ThrowGripAbility {
    open spec fn wire(c: Cursor) -> (ThrowGripAbilityView, Cursor) {
        ThrowGripAbility::layout(c)
    }

    proof fn lemma_wire_failed(c: Cursor) {
    }

    fn decode(r: &mut Reader) -> (res: Result<Self, DecodeError>) {
        ThrowGripAbility::read(r)
    }
}

/// Gripping a character from behind. On the wire the largest range comes first.
#[derive(Clone, Copy, PartialEq, Eq, Structural, Debug)]
pub struct GripCharacterFromBehindAbility {
    pub min_range: Single,
    pub max_range: Single,
    pub angle: Single,
    pub max_weight: Single,
}

impl DeepView for GripCharacterFromBehindAbility {
    type V = GripCharacterFromBehindAbility;

    open spec fn deep_view(&self) -> GripCharacterFromBehindAbility {
        *self
    }
}

impl GripCharacterFromBehindAbility {
    /// The fields on the wire, one behind the other.
    #[verifier::opaque]
    pub open spec fn fields(c: Cursor) -> (GripCharacterFromBehindAbility, Cursor) {
        let (max_range, c1) = Single::layout(c);
        let (min_range, c2) = Single::layout(c1);
        let (angle, c3) = Single::layout(c2);
        let (max_weight, c4) = Single::layout(c3);
        (GripCharacterFromBehindAbility { min_range, max_range, angle, max_weight }, c4)
    }

    /// The value at `c`: nothing from a failed cursor.
    pub open spec fn layout(c: Cursor) -> (GripCharacterFromBehindAbility, Cursor) {
        if c.err is Some {
            (arbitrary(), c)
        } else {
            Self::fields(c)
        }
    }

    /// Reads one `GripCharacterFromBehindAbility`.
    pub fn read(reader: &mut Reader) -> (res: Result<Self, DecodeError>)
        ensures
            follows(res, final(reader)@, Self::layout(old(reader)@)),
    {
        proof {
            reveal(GripCharacterFromBehindAbility::fields);
        }
        let max_range = Single::read(reader)?;
        let min_range = Single::read(reader)?;
        let angle = Single::read(reader)?;
        let max_weight = Single::read(reader)?;
        Ok(GripCharacterFromBehindAbility { min_range, max_range, angle, max_weight })
    }
}

impl Decode for GripCharacterFromBehindAbility {
    open spec fn wire(c: Cursor) -> (GripCharacterFromBehindAbility, Cursor) {
        GripCharacterFromBehindAbility::layout(c)
    }

    proof fn lemma_wire_failed(c: Cursor) {
    }

    fn decode(r: &mut Reader) -> (res: Result<Self, DecodeError>) {
        GripCharacterFromBehindAbility::read(r)
    }
}

/// Picking a character up. On the wire the largest range comes first.
#[derive(Clone, PartialEq, Eq, Debug)]
pub struct PickUpCharacterAbility {
    pub min_range: Single,
    pub max_range: Single,
    pub angle: Single,
    pub max_weight: Single,
    pub drop_animation: String,
}

/// `PickUpCharacterAbility` as the format states it.
pub struct PickUpCharacterAbilityView {
    pub min_range: Single,
    pub max_range: Single,
    pub angle: Single,
    pub max_weight: Single,
    pub drop_animation: Seq<char>,
}

impl DeepView for PickUpCharacterAbility {
    type V = PickUpCharacterAbilityView;

    open spec fn deep_view(&self) -> PickUpCharacterAbilityView {
        PickUpCharacterAbilityView {
            min_range: self.min_range,
            max_range: self.max_range,
            angle: self.angle,
            max_weight: self.max_weight,
            drop_animation: self.drop_animation.deep_view(),
        }
    }
}

impl PickUpCharacterAbility {
    /// The fields on the wire, one behind the other.
    #[verifier::opaque]
    pub open spec fn fields(c: Cursor) -> (PickUpCharacterAbilityView, Cursor) {
        let (max_range, c1) = Single::layout(c);
        let (min_range, c2) = Single::layout(c1);
        let (angle, c3) = Single::layout(c2);
        let (max_weight, c4) = Single::layout(c3);
        let (drop_animation, c5) = c4.string();
        (PickUpCharacterAbilityView { min_range, max_range, angle, max_weight, drop_animation }, c5)
    }

    /// The value at `c`: nothing from a failed cursor.
    pub open spec fn layout(c: Cursor) -> (PickUpCharacterAbilityView, Cursor) {
        if c.err is Some {
            (arbitrary(), c)
        } else {
            Self::fields(c)
        }
    }

    /// Reads one `PickUpCharacterAbility`.
    pub fn read(reader: &mut Reader) -> (res: Result<Self, DecodeError>)
        ensures
            follows(res, final(reader)@, Self::layout(old(reader)@)),
    {
        proof {
            reveal(PickUpCharacterAbility::fields);
        }
        let max_range = Single::read(reader)?;
        let min_range = Single::read(reader)?;
        let angle = Single::read(reader)?;
        let max_weight = Single::read(reader)?;
        let drop_animation = reader.read_7bit_length_string()?;
        Ok(PickUpCharacterAbility { min_range, max_range, angle, max_weight, drop_animation })
    }
}

impl Decode for PickUpCharacterAbility {
    open spec fn wire(c: Cursor) -> (PickUpCharacterAbilityView, Cursor) {
        PickUpCharacterAbility::layout(c)
    }

    proof fn lemma_wire_failed(c: Cursor) {
    }

    fn decode(r: &mut Reader) -> (res: Result<Self, DecodeError>) {
        PickUpCharacterAbility::read(r)
    }
}

/// Removing a status: no fields.
#[derive(Clone, Copy, PartialEq, Eq, Structural, Debug)]
pub struct RemoveStatusAbility;

impl DeepView for RemoveStatusAbility {
    type V = RemoveStatusAbility;

    open spec fn deep_view(&self) -> RemoveStatusAbility {
        *self
    }
}

/// Casting a spell of some elements.
#[derive(Clone, PartialEq, Eq, Debug)]
pub struct CastSpellAbility {
    pub min_range: Single,
    pub max_range: Single,
    pub angle: Single,
    pub chant_time: Single,
    pub power: Single,
    pub cast_kind: CastKind,
    pub elements: Vec<Element>,
}

/// `CastSpellAbility` as the format states it.
pub struct CastSpellAbilityView {
    pub min_range: Single,
    pub max_range: Single,
    pub angle: Single,
    pub chant_time: Single,
    pub power: Single,
    pub cast_kind: CastKind,
    pub elements: Seq<Element>,
}

impl DeepView for CastSpellAbility {
    type V = CastSpellAbilityView;

    open spec fn deep_view(&self) -> CastSpellAbilityView {
        CastSpellAbilityView {
            min_range: self.min_range,
            max_range: self.max_range,
            angle: self.angle,
            chant_time: self.chant_time,
            power: self.power,
            cast_kind: self.cast_kind,
            elements: self.elements.deep_view(),
        }
    }
}

impl CastSpellAbility {
    /// The fields on the wire, one behind the other.
    #[verifier::opaque]
    pub open spec fn fields(c: Cursor) -> (CastSpellAbilityView, Cursor) {
        let (min_range, c1) = Single::layout(c);
        let (max_range, c2) = Single::layout(c1);
        let (angle, c3) = Single::layout(c2);
        let (chant_time, c4) = Single::layout(c3);
        let (power, c5) = Single::layout(c4);
        let (cast_kind, c6) = CastKind::layout(c5);
        let (elements, c7) = counted::<Element>(c6);
        (CastSpellAbilityView { min_range, max_range, angle, chant_time, power, cast_kind, elements }, c7)
    }

    /// The value at `c`: nothing from a failed cursor.
    pub open spec fn layout(c: Cursor) -> (CastSpellAbilityView, Cursor) {
        if c.err is Some {
            (arbitrary(), c)
        } else {
            Self::fields(c)
        }
    }

    /// Reads one `CastSpellAbility`.
    pub fn read(reader: &mut Reader) -> (res: Result<Self, DecodeError>)
        ensures
            follows(res, final(reader)@, Self::layout(old(reader)@)),
    {
        proof {
            reveal(CastSpellAbility::fields);
        }
        let min_range = Single::read(reader)?;
        let max_range = Single::read(reader)?;
        let angle = Single::read(reader)?;
        let chant_time = Single::read(reader)?;
        let power = Single::read(reader)?;
        let cast_kind = CastKind::read(reader)?;
        let elements = read_counted::<Element>(reader)?;
        Ok(CastSpellAbility { min_range, max_range, angle, chant_time, power, cast_kind, elements })
    }
}

impl Decode for CastSpellAbility {
    open spec fn wire(c: Cursor) -> (CastSpellAbilityView, Cursor) {
        CastSpellAbility::layout(c)
    }

    proof fn lemma_wire_failed(c: Cursor) {
    }

    fn decode(r: &mut Reader) -> (res: Result<Self, DecodeError>) {
        CastSpellAbility::read(r)
    }
}

/// Using the special ability of a weapon.
#[derive(Clone, Copy, PartialEq, Eq, Structural, Debug)]
pub struct SpecialAbilityAbility {
    pub min_range: Single,
    pub max_range: Single,
    pub angle: Single,
    pub weapon_slot: i32,
}

impl DeepView for SpecialAbilityAbility {
    type V = SpecialAbilityAbility;

    open spec fn deep_view(&self) -> SpecialAbilityAbility {
        *self
    }
}

impl SpecialAbilityAbility {
    /// The fields on the wire, one behind the other.
    #[verifier::opaque]
    pub open spec fn fields(c: Cursor) -> (SpecialAbilityAbility, Cursor) {
        let (min_range, c1) = Single::layout(c);
        let (max_range, c2) = Single::layout(c1);
        let (angle, c3) = Single::layout(c2);
        let (weapon_slot, c4) = c3.i32();
        (SpecialAbilityAbility { min_range, max_range, angle, weapon_slot }, c4)
    }

    /// The value at `c`: nothing from a failed cursor.
    pub open spec fn layout(c: Cursor) -> (SpecialAbilityAbility, Cursor) {
        if c.err is Some {
            (arbitrary(), c)
        } else {
            Self::fields(c)
        }
    }

    /// Reads one `SpecialAbilityAbility`.
    pub fn read(reader: &mut Reader) -> (res: Result<Self, DecodeError>)
        ensures
            follows(res, final(reader)@, Self::layout(old(reader)@)),
    {
        proof {
            reveal(SpecialAbilityAbility::fields);
        }
        let min_range = Single::read(reader)?;
        let max_range = Single::read(reader)?;
        let angle = Single::read(reader)?;
        let weapon_slot = reader.read_i32()?;
        Ok(SpecialAbilityAbility { min_range, max_range, angle, weapon_slot })
    }
}

impl Decode for SpecialAbilityAbility {
    open spec fn wire(c: Cursor) -> (SpecialAbilityAbility, Cursor) {
        SpecialAbilityAbility::layout(c)
    }

    proof fn lemma_wire_failed(c: Cursor) {
    }

    fn decode(r: &mut Reader) -> (res: Result<Self, DecodeError>) {
        SpecialAbilityAbility::read(r)
    }
}

/// What an ability is, with the fields of its kind.
#[derive(Clone, PartialEq, Eq, Debug)]
pub enum AbilityKind {
    Jump(JumpAbility),
    Dash(DashAbility),
    Block(BlockAbility),
    Melee(MeleeAbility),
    Ranged(RangedAbility),
    ConfuseGrip(ConfuseGripAbility),
    DamageGrip(DamageGripAbility),
    ThrowGrip(ThrowGripAbility),
    GripCharacterFromBehind(GripCharacterFromBehindAbility),
    PickUpCharacter(PickUpCharacterAbility),
    RemoveStatus(RemoveStatusAbility),
    CastSpell(CastSpellAbility),
    SpecialAbility(SpecialAbilityAbility),
}

/// `AbilityKind` as the format states it.
pub enum AbilityKindView {
    Jump(JumpAbility),
    Dash(DashAbility),
    Block(BlockAbility),
    Melee(MeleeAbilityView),
    Ranged(RangedAbilityView),
    ConfuseGrip(ConfuseGripAbility),
    DamageGrip(DamageGripAbility),
    ThrowGrip(ThrowGripAbilityView),
    GripCharacterFromBehind(GripCharacterFromBehindAbility),
    PickUpCharacter(PickUpCharacterAbilityView),
    RemoveStatus(RemoveStatusAbility),
    CastSpell(CastSpellAbilityView),
    SpecialAbility(SpecialAbilityAbility),
}

impl DeepView for AbilityKind {
    type V = AbilityKindView;

    open spec fn deep_view(&self) -> AbilityKindView {
        match self {
            AbilityKind::Jump(payload) => AbilityKindView::Jump(*payload),
            AbilityKind::Dash(payload) => AbilityKindView::Dash(*payload),
            AbilityKind::Block(payload) => AbilityKindView::Block(*payload),
            AbilityKind::Melee(payload) => AbilityKindView::Melee(payload.deep_view()),
            AbilityKind::Ranged(payload) => AbilityKindView::Ranged(payload.deep_view()),
            AbilityKind::ConfuseGrip(payload) => AbilityKindView::ConfuseGrip(*payload),
            AbilityKind::DamageGrip(payload) => AbilityKindView::DamageGrip(*payload),
            AbilityKind::ThrowGrip(payload) => AbilityKindView::ThrowGrip(payload.deep_view()),
            AbilityKind::GripCharacterFromBehind(payload) => AbilityKindView::GripCharacterFromBehind(*payload),
            AbilityKind::PickUpCharacter(payload) => AbilityKindView::PickUpCharacter(payload.deep_view()),
            AbilityKind::RemoveStatus(payload) => AbilityKindView::RemoveStatus(*payload),
            AbilityKind::CastSpell(payload) => AbilityKindView::CastSpell(payload.deep_view()),
            AbilityKind::SpecialAbility(payload) => AbilityKindView::SpecialAbility(*payload),
        }
    }
}

/// An ability. The name of its kind leads, the common fields follow, and
/// the fields of the kind close the record.
#[derive(Clone, PartialEq, Eq, Debug)]
pub struct Ability {
    pub kind: AbilityKind,
    pub cooldown: Single,
    pub target: AbilityTarget,
    pub fuzzy_expression: Option<String>,
    pub animations: Vec<String>,
}

/// `Ability` as the format states it.
pub struct AbilityView {
    pub kind: AbilityKindView,
    pub cooldown: Single,
    pub target: AbilityTarget,
    pub fuzzy_expression: Option<Seq<char>>,
    pub animations: Seq<Seq<char>>,
}

impl DeepView for Ability {
    type V = AbilityView;

    open spec fn deep_view(&self) -> AbilityView {
        AbilityView {
            kind: self.kind.deep_view(),
            cooldown: self.cooldown,
            target: self.target,
            fuzzy_expression: self.fuzzy_expression.deep_view(),
            animations: self.animations.deep_view(),
        }
    }
}

impl Ability {
    /// The fields on the wire, one behind the other.
    #[verifier::opaque]
    pub open spec fn fields(c: Cursor) -> (AbilityView, Cursor) {
        let (name, c1) = c.string();
        let (cooldown, c2) = Single::layout(c1);
        let (target, c3) = AbilityTarget::layout(c2);
        let (fuzzy_expression, c4) = optional::<String>(c3);
        let (animations, c5) = counted::<String>(c4);
        let (kind, c6) = if name == "Jump"@ {
            let (payload, after) = JumpAbility::layout(c5);
            (AbilityKindView::Jump(payload), after)
        } else if name == "Dash"@ {
            let (payload, after) = DashAbility::layout(c5);
            (AbilityKindView::Dash(payload), after)
        } else if name == "Block"@ {
            let (payload, after) = BlockAbility::layout(c5);
            (AbilityKindView::Block(payload), after)
        } else if name == "Melee"@ {
            let (payload, after) = MeleeAbility::layout(c5);
            (AbilityKindView::Melee(payload), after)
        } else if name == "Ranged"@ {
            let (payload, after) = RangedAbility::layout(c5);
            (AbilityKindView::Ranged(payload), after)
        } else if name == "ConfuseGrip"@ {
            (AbilityKindView::ConfuseGrip(ConfuseGripAbility), c5)
        } else if name == "DamageGrip"@ {
            (AbilityKindView::DamageGrip(DamageGripAbility), c5)
        } else if name == "ThrowGrip"@ {
            let (payload, after) = ThrowGripAbility::layout(c5);
            (AbilityKindView::ThrowGrip(payload), after)
        } else if name == "GripCharacterFromBehind"@ {
            let (payload, after) = GripCharacterFromBehindAbility::layout(c5);
            (AbilityKindView::GripCharacterFromBehind(payload), after)
        } else if name == "PickUpCharacter"@ {
            let (payload, after) = PickUpCharacterAbility::layout(c5);
            (AbilityKindView::PickUpCharacter(payload), after)
        } else if name == "RemoveStatus"@ {
            (AbilityKindView::RemoveStatus(RemoveStatusAbility), c5)
        } else if name == "CastSpell"@ {
            let (payload, after) = CastSpellAbility::layout(c5);
            (AbilityKindView::CastSpell(payload), after)
        } else if name == "SpecialAbilityAbility"@ {
            let (payload, after) = SpecialAbilityAbility::layout(c5);
            (AbilityKindView::SpecialAbility(payload), after)
        } else {
            (arbitrary(), c5.fail(DecodeErrorView::UnknownName { selector: Selector::AbilityKind, name }))
        };
        (AbilityView { kind, cooldown, target, fuzzy_expression, animations }, c6)
    }

    /// The value at `c`: nothing from a failed cursor.
    pub open spec fn layout(c: Cursor) -> (AbilityView, Cursor) {
        if c.err is Some {
            (arbitrary(), c)
        } else {
            Self::fields(c)
        }
    }

    /// Reads one `Ability`.
    pub fn read(reader: &mut Reader) -> (res: Result<Self, DecodeError>)
        ensures
            follows(res, final(reader)@, Self::layout(old(reader)@)),
    {
        proof {
            reveal(Ability::fields);
        }
        let name = reader.read_7bit_length_string()?;
        let cooldown = Single::read(reader)?;
        let target = AbilityTarget::read(reader)?;
        let fuzzy_expression = read_optional::<String>(reader)?;
        let animations = read_counted::<String>(reader)?;
        let kind = if same(name.as_str(), "Jump") {
            AbilityKind::Jump(JumpAbility::read(reader)?)
        } else if same(name.as_str(), "Dash") {
            AbilityKind::Dash(DashAbility::read(reader)?)
        } else if same(name.as_str(), "Block") {
            AbilityKind::Block(BlockAbility::read(reader)?)
        } else if same(name.as_str(), "Melee") {
            AbilityKind::Melee(MeleeAbility::read(reader)?)
        } else if same(name.as_str(), "Ranged") {
            AbilityKind::Ranged(RangedAbility::read(reader)?)
        } else if same(name.as_str(), "ConfuseGrip") {
            AbilityKind::ConfuseGrip(ConfuseGripAbility)
        } else if same(name.as_str(), "DamageGrip") {
            AbilityKind::DamageGrip(DamageGripAbility)
        } else if same(name.as_str(), "ThrowGrip") {
            AbilityKind::ThrowGrip(ThrowGripAbility::read(reader)?)
        } else if same(name.as_str(), "GripCharacterFromBehind") {
            AbilityKind::GripCharacterFromBehind(GripCharacterFromBehindAbility::read(reader)?)
        } else if same(name.as_str(), "PickUpCharacter") {
            AbilityKind::PickUpCharacter(PickUpCharacterAbility::read(reader)?)
        } else if same(name.as_str(), "RemoveStatus") {
            AbilityKind::RemoveStatus(RemoveStatusAbility)
        } else if same(name.as_str(), "CastSpell") {
            AbilityKind::CastSpell(CastSpellAbility::read(reader)?)
        } else if same(name.as_str(), "SpecialAbilityAbility") {
            AbilityKind::SpecialAbility(SpecialAbilityAbility::read(reader)?)
        } else {
            return Err(DecodeError::UnknownName { selector: Selector::AbilityKind, name });
        };
        Ok(Ability { kind, cooldown, target, fuzzy_expression, animations })
    }
}

impl Decode for Ability {
    open spec fn wire(c: Cursor) -> (AbilityView, Cursor) {
        Ability::layout(c)
    }

    proof fn lemma_wire_failed(c: Cursor) {
    }

    fn decode(r: &mut Reader) -> (res: Result<Self, DecodeError>) {
        Ability::read(r)
    }
}

} // verus!
