//! Animation sets, their clips, and the actions that run with a clip.
use vstd::prelude::*;
use crate::decode::{Decode, counted, read_counted};
use crate::error::{DecodeError, DecodeErrorView, Selector};
use crate::reader::{Cursor, follows, Reader, same};
use crate::single::{Single, ZERO_BITS};
use crate::content::damage::Damage;
use crate::content::sound::{Sound, SoundView};
use crate::content::special_ability::{SpecialAbility, SpecialAbilityView};
use crate::content::vector3::Vector3;

verus! {

broadcast use {crate::reader::group_failed, crate::decode::group_failed_items};

/// How a character is gripped.
#[derive(Clone, Copy, PartialEq, Eq, Structural, Debug)]
pub enum GripKind {
    Pickup,
    Ride,
    Hold,
}

impl DeepView for GripKind {
    type V = GripKind;

    open spec fn deep_view(&self) -> GripKind {
        *self
    }
}

impl GripKind {
    /// The variant that a number stands for, if any.
    pub open spec fn of(value: u8) -> Option<GripKind> {
        if value == 0 {
            Some(GripKind::Pickup)
        } else if value == 1 {
            Some(GripKind::Ride)
        } else if value == 2 {
            Some(GripKind::Hold)
        } else {
            None
        }
    }

    /// The variant that `value` stands for, if any.
    pub fn from_repr(value: u8) -> (kind: Option<Self>)
        ensures
            kind == Self::of(value),
    {
        if value == 0 {
            Some(GripKind::Pickup)
        } else if value == 1 {
            Some(GripKind::Ride)
        } else if value == 2 {
            Some(GripKind::Hold)
        } else {
            None
        }
    }

    /// One byte on the wire.
    pub open spec fn layout(c: Cursor) -> (GripKind, Cursor) {
        let (raw, c1) = c.u8();
        if c1.err is Some {
            (arbitrary(), c1)
        } else {
            match Self::of(raw) {
                Some(kind) => (kind, c1),
                None => (
                    arbitrary(),
                    c1.fail(DecodeErrorView::UnknownKind { selector: Selector::GripKind, value: raw as i32 }),
                ),
            }
        }
    }

    /// Reads one `GripKind`.
    pub fn read(reader: &mut Reader) -> (res: Result<Self, DecodeError>)
        ensures
            follows(res, final(reader)@, Self::layout(old(reader)@)),
    {
        let raw = reader.read_u8()?;
        match Self::from_repr(raw) {
            Some(kind) => Ok(kind),
            None => Err(DecodeError::UnknownKind { selector: Selector::GripKind, value: raw as i32 }),
        }
    }
}

impl Decode for GripKind {
    open spec fn wire(c: Cursor) -> (GripKind, Cursor) {
        GripKind::layout(c)
    }

    proof fn lemma_wire_failed(c: Cursor) {
    }

    fn decode(r: &mut Reader) -> (res: Result<Self, DecodeError>) {
        GripKind::read(r)
    }
}

/// Whom an action strikes. Every bit of the eight is known.
#[derive(Clone, Copy, PartialEq, Eq, Structural, Debug)]
pub struct AnimationTargets {
    pub bits: u8,
}

impl DeepView for AnimationTargets {
    type V = AnimationTargets;

    open spec fn deep_view(&self) -> AnimationTargets {
        *self
    }
}

impl AnimationTargets {
    pub const FRIENDLY: u8 = 1;

    pub const ENEMY: u8 = 2;

    pub const NON_CHARACTERS: u8 = 4;

    pub const ALL: u8 = 255;

    /// Every bit that some flag has.
    pub const KNOWN: u8 = 255;

    /// The flags that `bits` spell, if all of its bits are known.
    pub open spec fn of(bits: u8) -> Option<AnimationTargets> {
        if bits <= 255 {
            Some(AnimationTargets { bits })
        } else {
            None
        }
    }

    /// The flags that `bits` spell, if all of its bits are known.
    pub fn from_bits(bits: u8) -> (flags: Option<Self>)
        ensures
            flags == Self::of(bits),
    {
        if bits <= 255 {
            Some(AnimationTargets { bits })
        } else {
            None
        }
    }

    /// The bits of the flags.
    pub fn bits(&self) -> (bits: u8)
        ensures
            bits == self.bits,
    {
        self.bits
    }

    /// One byte on the wire.
    pub open spec fn layout(c: Cursor) -> (AnimationTargets, Cursor) {
        let (raw, c1) = c.u8();
        if c1.err is Some {
            (arbitrary(), c1)
        } else {
            match Self::of(raw) {
                Some(flags) => (flags, c1),
                None => (
                    arbitrary(),
                    c1.fail(DecodeErrorView::UnknownKind { selector: Selector::AnimationTargets, value: raw as i32 }),
                ),
            }
        }
    }

    /// Reads one `AnimationTargets`.
    pub fn read(reader: &mut Reader) -> (res: Result<Self, DecodeError>)
        ensures
            follows(res, final(reader)@, Self::layout(old(reader)@)),
    {
        let raw = reader.read_u8()?;
        match Self::from_bits(raw) {
            Some(flags) => Ok(flags),
            None => Err(DecodeError::UnknownKind { selector: Selector::AnimationTargets, value: raw as i32 }),
        }
    }
}

impl Decode for AnimationTargets {
    open spec fn wire(c: Cursor) -> (AnimationTargets, Cursor) {
        AnimationTargets::layout(c)
    }

    proof fn lemma_wire_failed(c: Cursor) {
    }

    fn decode(r: &mut Reader) -> (res: Result<Self, DecodeError>) {
        AnimationTargets::read(r)
    }
}

/// A footstep: no fields.
#[derive(Clone, Copy, PartialEq, Eq, Structural, Debug)]
pub struct FootstepAnimationAction;

impl DeepView for FootstepAnimationAction {
    type V = FootstepAnimationAction;

    open spec fn deep_view(&self) -> FootstepAnimationAction {
        *self
    }
}

/// Moving at a velocity.
#[derive(Clone, Copy, PartialEq, Eq, Structural, Debug)]
pub struct MoveAnimationAction {
    pub velocity: Vector3,
}

impl DeepView for MoveAnimationAction {
    type V = MoveAnimationAction;

    open spec fn deep_view(&self) -> MoveAnimationAction {
        *self
    }
}

impl MoveAnimationAction {
    /// The fields on the wire, one behind the other.
    #[verifier::opaque]
    pub open spec fn fields(c: Cursor) -> (MoveAnimationAction, Cursor) {
        let (velocity, c1) = Vector3::layout(c);
        (MoveAnimationAction { velocity }, c1)
    }

    /// The value at `c`: nothing from a failed cursor.
    pub open spec fn layout(c: Cursor) -> (MoveAnimationAction, Cursor) {
        if c.err is Some {
            (arbitrary(), c)
        } else {
            Self::fields(c)
        }
    }

    /// Reads one `MoveAnimationAction`.
    pub fn read(reader: &mut Reader) -> (res: Result<Self, DecodeError>)
        ensures
            follows(res, final(reader)@, Self::layout(old(reader)@)),
    {
        proof {
            reveal(MoveAnimationAction::fields);
        }
        let velocity = Vector3::read(reader)?;
        Ok(MoveAnimationAction { velocity })
    }
}

impl Decode for MoveAnimationAction {
    open spec fn wire(c: Cursor) -> (MoveAnimationAction, Cursor) {
        MoveAnimationAction::layout(c)
    }

    proof fn lemma_wire_failed(c: Cursor) {
    }

    fn decode(r: &mut Reader) -> (res: Result<Self, DecodeError>) {
        MoveAnimationAction::read(r)
    }
}

/// A jump. Either range is on the wire only behind a byte that is not
/// zero, and is 0.0 otherwise.
#[derive(Clone, Copy, PartialEq, Eq, Structural, Debug)]
pub struct JumpAnimationAction {
    pub elevation: Single,
    pub min_range: Single,
    pub max_range: Single,
}

impl DeepView for JumpAnimationAction {
    type V = JumpAnimationAction;

    open spec fn deep_view(&self) -> JumpAnimationAction {
        *self
    }
}

impl JumpAnimationAction {
    /// The fields on the wire, one behind the other.
    #[verifier::opaque]
    pub open spec fn fields(c: Cursor) -> (JumpAnimationAction, Cursor) {
        let (elevation, c1) = Single::layout(c);
        let (has_min_range, c2) = c1.bool();
        let (min_range, c3) = if has_min_range {
            Single::layout(c2)
        } else {
            (Single { bits: ZERO_BITS }, c2)
        };
        let (has_max_range, c4) = c3.bool();
        let (max_range, c5) = if has_max_range {
            Single::layout(c4)
        } else {
            (Single { bits: ZERO_BITS }, c4)
        };
        (JumpAnimationAction { elevation, min_range, max_range }, c5)
    }

    /// The value at `c`: nothing from a failed cursor.
    pub open spec fn layout(c: Cursor) -> (JumpAnimationAction, Cursor) {
        if c.err is Some {
            (arbitrary(), c)
        } else {
            Self::fields(c)
        }
    }

    /// Reads one `JumpAnimationAction`.
    pub fn read(reader: &mut Reader) -> (res: Result<Self, DecodeError>)
        ensures
            follows(res, final(reader)@, Self::layout(old(reader)@)),
    {
        proof {
            reveal(JumpAnimationAction::fields);
        }
        let elevation = Single::read(reader)?;
        let has_min_range = reader.read_bool()?;
        let min_range = if has_min_range {
            Single::read(reader)?
        } else {
            Single::zero()
        };
        let has_max_range = reader.read_bool()?;
        let max_range = if has_max_range {
            Single::read(reader)?
        } else {
            Single::zero()
        };
        Ok(JumpAnimationAction { elevation, min_range, max_range })
    }
}

impl Decode for JumpAnimationAction {
    open spec fn wire(c: Cursor) -> (JumpAnimationAction, Cursor) {
        JumpAnimationAction::layout(c)
    }

    proof fn lemma_wire_failed(c: Cursor) {
    }

    fn decode(r: &mut Reader) -> (res: Result<Self, DecodeError>) {
        JumpAnimationAction::read(r)
    }
}

/// Crouching into a smaller capsule.
#[derive(Clone, Copy, PartialEq, Eq, Structural, Debug)]
pub struct CrouchAnimationAction {
    pub radius: Single,
    pub length: Single,
}

impl DeepView for CrouchAnimationAction {
    type V = CrouchAnimationAction;

    open spec fn deep_view(&self) -> CrouchAnimationAction {
        *self
    }
}

impl CrouchAnimationAction {
    /// The fields on the wire, one behind the other.
    #[verifier::opaque]
    pub open spec fn fields(c: Cursor) -> (CrouchAnimationAction, Cursor) {
        let (radius, c1) = Single::layout(c);
        let (length, c2) = Single::layout(c1);
        (CrouchAnimationAction { radius, length }, c2)
    }

    /// The value at `c`: nothing from a failed cursor.
    pub open spec fn layout(c: Cursor) -> (CrouchAnimationAction, Cursor) {
        if c.err is Some {
            (arbitrary(), c)
        } else {
            Self::fields(c)
        }
    }

    /// Reads one `CrouchAnimationAction`.
    pub fn read(reader: &mut Reader) -> (res: Result<Self, DecodeError>)
        ensures
            follows(res, final(reader)@, Self::layout(old(reader)@)),
    {
        proof {
            reveal(CrouchAnimationAction::fields);
        }
        let radius = Single::read(reader)?;
        let length = Single::read(reader)?;
        Ok(CrouchAnimationAction { radius, length })
    }
}

impl Decode for CrouchAnimationAction {
    open spec fn wire(c: Cursor) -> (CrouchAnimationAction, Cursor) {
        CrouchAnimationAction::layout(c)
    }

    proof fn lemma_wire_failed(c: Cursor) {
    }

    fn decode(r: &mut Reader) -> (res: Result<Self, DecodeError>) {
        CrouchAnimationAction::read(r)
    }
}

/// Blocking with a weapon.
#[derive(Clone, Copy, PartialEq, Eq, Structural, Debug)]
pub struct BlockAnimationAction {
    pub weapon_slot: i32,
}

impl DeepView for BlockAnimationAction {
    type V = BlockAnimationAction;

    open spec fn deep_view(&self) -> BlockAnimationAction {
        *self
    }
}

impl BlockAnimationAction {
    /// The fields on the wire, one behind the other.
    #[verifier::opaque]
    pub open spec fn fields(c: Cursor) -> (BlockAnimationAction, Cursor) {
        let (weapon_slot, c1) = c.i32();
        (BlockAnimationAction { weapon_slot }, c1)
    }

    /// The value at `c`: nothing from a failed cursor.
    pub open spec fn layout(c: Cursor) -> (BlockAnimationAction, Cursor) {
        if c.err is Some {
            (arbitrary(), c)
        } else {
            Self::fields(c)
        }
    }

    /// Reads one `BlockAnimationAction`.
    pub fn read(reader: &mut Reader) -> (res: Result<Self, DecodeError>)
        ensures
            follows(res, final(reader)@, Self::layout(old(reader)@)),
    {
        proof {
            reveal(BlockAnimationAction::fields);
        }
        let weapon_slot = reader.read_i32()?;
        Ok(BlockAnimationAction { weapon_slot })
    }
}

impl Decode for BlockAnimationAction {
    open spec fn wire(c: Cursor) -> (BlockAnimationAction, Cursor) {
        BlockAnimationAction::layout(c)
    }

    proof fn lemma_wire_failed(c: Cursor) {
    }

    fn decode(r: &mut Reader) -> (res: Result<Self, DecodeError>) {
        BlockAnimationAction::read(r)
    }
}

/// Gripping between two bones.
#[derive(Clone, PartialEq, Eq, Debug)]
pub struct GripAnimationAction {
    pub kind: GripKind,
    pub radius: Single,
    pub break_free_tolerance: Single,
    pub bone_a: String,
    pub bone_b: String,
    pub finish_on_grip: bool,
}

/// `GripAnimationAction` as the format states it.
pub struct GripAnimationActionView {
    pub kind: GripKind,
    pub radius: Single,
    pub break_free_tolerance: Single,
    pub bone_a: Seq<char>,
    pub bone_b: Seq<char>,
    pub finish_on_grip: bool,
}

impl DeepView for GripAnimationAction {
    type V = GripAnimationActionView;

    open spec fn deep_view(&self) -> GripAnimationActionView {
        GripAnimationActionView {
            kind: self.kind,
            radius: self.radius,
            break_free_tolerance: self.break_free_tolerance,
            bone_a: self.bone_a.deep_view(),
            bone_b: self.bone_b.deep_view(),
            finish_on_grip: self.finish_on_grip,
        }
    }
}

impl GripAnimationAction {
    /// The fields on the wire, one behind the other.
    #[verifier::opaque]
    pub open spec fn fields(c: Cursor) -> (GripAnimationActionView, Cursor) {
        let (kind, c1) = GripKind::layout(c);
        let (radius, c2) = Single::layout(c1);
        let (break_free_tolerance, c3) = Single::layout(c2);
        let (bone_a, c4) = c3.string();
        let (bone_b, c5) = c4.string();
        let (finish_on_grip, c6) = c5.bool();
        (GripAnimationActionView { kind, radius, break_free_tolerance, bone_a, bone_b, finish_on_grip }, c6)
    }

    /// The value at `c`: nothing from a failed cursor.
    pub open spec fn layout(c: Cursor) -> (GripAnimationActionView, Cursor) {
        if c.err is Some {
            (arbitrary(), c)
        } else {
            Self::fields(c)
        }
    }

    /// Reads one `GripAnimationAction`.
    pub fn read(reader: &mut Reader) -> (res: Result<Self, DecodeError>)
        ensures
            follows(res, final(reader)@, Self::layout(old(reader)@)),
    {
        proof {
            reveal(GripAnimationAction::fields);
        }
        let kind = GripKind::read(reader)?;
        let radius = Single::read(reader)?;
        let break_free_tolerance = Single::read(reader)?;
        let bone_a = reader.read_7bit_length_string()?;
        let bone_b = reader.read_7bit_length_string()?;
        let finish_on_grip = reader.read_bool()?;
        Ok(GripAnimationAction { kind, radius, break_free_tolerance, bone_a, bone_b, finish_on_grip })
    }
}

impl Decode for GripAnimationAction {
    open spec fn wire(c: Cursor) -> (GripAnimationActionView, Cursor) {
        GripAnimationAction::layout(c)
    }

    proof fn lemma_wire_failed(c: Cursor) {
    }

    fn decode(r: &mut Reader) -> (res: Result<Self, DecodeError>) {
        GripAnimationAction::read(r)
    }
}

/// Damaging what is gripped.
#[derive(Clone, PartialEq, Eq, Debug)]
pub struct DamageGripAnimationAction {
    pub damage_owner: bool,
    pub damages: Vec<Damage>,
}

/// `DamageGripAnimationAction` as the format states it.
pub struct DamageGripAnimationActionView {
    pub damage_owner: bool,
    pub damages: Seq<Damage>,
}

impl DeepView for DamageGripAnimationAction {
    type V = DamageGripAnimationActionView;

    open spec fn deep_view(&self) -> DamageGripAnimationActionView {
        DamageGripAnimationActionView {
            damage_owner: self.damage_owner,
            damages: self.damages.deep_view(),
        }
    }
}

impl DamageGripAnimationAction {
    /// The fields on the wire, one behind the other.
    #[verifier::opaque]
    pub open spec fn fields(c: Cursor) -> (DamageGripAnimationActionView, Cursor) {
        let (damage_owner, c1) = c.bool();
        let (damages, c2) = counted::<Damage>(c1);
        (DamageGripAnimationActionView { damage_owner, damages }, c2)
    }

    /// The value at `c`: nothing from a failed cursor.
    pub open spec fn layout(c: Cursor) -> (DamageGripAnimationActionView, Cursor) {
        if c.err is Some {
            (arbitrary(), c)
        } else {
            Self::fields(c)
        }
    }

    /// Reads one `DamageGripAnimationAction`.
    pub fn read(reader: &mut Reader) -> (res: Result<Self, DecodeError>)
        ensures
            follows(res, final(reader)@, Self::layout(old(reader)@)),
    {
        proof {
            reveal(DamageGripAnimationAction::fields);
        }
        let damage_owner = reader.read_bool()?;
        let damages = read_counted::<Damage>(reader)?;
        Ok(DamageGripAnimationAction { damage_owner, damages })
    }
}

impl Decode for DamageGripAnimationAction {
    open spec fn wire(c: Cursor) -> (DamageGripAnimationActionView, Cursor) {
        DamageGripAnimationAction::layout(c)
    }

    proof fn lemma_wire_failed(c: Cursor) {
    }

    fn decode(r: &mut Reader) -> (res: Result<Self, DecodeError>) {
        DamageGripAnimationAction::read(r)
    }
}

/// Overkilling what is gripped: no fields.
#[derive(Clone, Copy, PartialEq, Eq, Structural, Debug)]
pub struct OverkillGripAnimationAction;

impl DeepView for OverkillGripAnimationAction {
    type V = OverkillGripAnimationAction;

    open spec fn deep_view(&self) -> OverkillGripAnimationAction {
        *self
    }
}

/// Throwing what is gripped: no fields.
#[derive(Clone, Copy, PartialEq, Eq, Structural, Debug)]
pub struct ThrowGripAnimationAction;

impl DeepView for ThrowGripAnimationAction {
    type V = ThrowGripAnimationAction;

    open spec fn deep_view(&self) -> ThrowGripAnimationAction {
        *self
    }
}

/// Releasing what is gripped: no fields.
#[derive(Clone, Copy, PartialEq, Eq, Structural, Debug)]
pub struct ReleaseGripAnimationAction;

impl DeepView for ReleaseGripAnimationAction {
    type V = ReleaseGripAnimationAction;

    open spec fn deep_view(&self) -> ReleaseGripAnimationAction {
        *self
    }
}

/// Breaking free. On the wire the magnitude comes first.
#[derive(Clone, Copy, PartialEq, Eq, Structural, Debug)]
pub struct BreakFreeAnimationAction {
    pub weapon_slot: i32,
    pub magnitude: Single,
}

impl DeepView for BreakFreeAnimationAction {
    type V = BreakFreeAnimationAction;

    open spec fn deep_view(&self) -> BreakFreeAnimationAction {
        *self
    }
}

impl BreakFreeAnimationAction {
    /// The fields on the wire, one behind the other.
    #[verifier::opaque]
    pub open spec fn fields(c: Cursor) -> (BreakFreeAnimationAction, Cursor) {
        let (magnitude, c1) = Single::layout(c);
        let (weapon_slot, c2) = c1.i32();
        (BreakFreeAnimationAction { weapon_slot, magnitude }, c2)
    }

    /// The value at `c`: nothing from a failed cursor.
    pub open spec fn layout(c: Cursor) -> (BreakFreeAnimationAction, Cursor) {
        if c.err is Some {
            (arbitrary(), c)
        } else {
            Self::fields(c)
        }
    }

    /// Reads one `BreakFreeAnimationAction`.
    pub fn read(reader: &mut Reader) -> (res: Result<Self, DecodeError>)
        ensures
            follows(res, final(reader)@, Self::layout(old(reader)@)),
    {
        proof {
            reveal(BreakFreeAnimationAction::fields);
        }
        let magnitude = Single::read(reader)?;
        let weapon_slot = reader.read_i32()?;
        Ok(BreakFreeAnimationAction { weapon_slot, magnitude })
    }
}

impl Decode for BreakFreeAnimationAction {
    open spec fn wire(c: Cursor) -> (BreakFreeAnimationAction, Cursor) {
        BreakFreeAnimationAction::layout(c)
    }

    proof fn lemma_wire_failed(c: Cursor) {
    }

    fn decode(r: &mut Reader) -> (res: Result<Self, DecodeError>) {
        BreakFreeAnimationAction::read(r)
    }
}

/// Firing a gun.
#[derive(Clone, Copy, PartialEq, Eq, Structural, Debug)]
pub struct GunfireAnimationAction {
    pub weapon_slot: i32,
    pub accuracy: Single,
}

impl DeepView for GunfireAnimationAction {
    type V = GunfireAnimationAction;

    open spec fn deep_view(&self) -> GunfireAnimationAction {
        *self
    }
}

impl GunfireAnimationAction {
    /// The fields on the wire, one behind the other.
    #[verifier::opaque]
    pub open spec fn fields(c: Cursor) -> (GunfireAnimationAction, Cursor) {
        let (weapon_slot, c1) = c.i32();
        let (accuracy, c2) = Single::layout(c1);
        (GunfireAnimationAction { weapon_slot, accuracy }, c2)
    }

    /// The value at `c`: nothing from a failed cursor.
    pub open spec fn layout(c: Cursor) -> (GunfireAnimationAction, Cursor) {
        if c.err is Some {
            (arbitrary(), c)
        } else {
            Self::fields(c)
        }
    }

    /// Reads one `GunfireAnimationAction`.
    pub fn read(reader: &mut Reader) -> (res: Result<Self, DecodeError>)
        ensures
            follows(res, final(reader)@, Self::layout(old(reader)@)),
    {
        proof {
            reveal(GunfireAnimationAction::fields);
        }
        let weapon_slot = reader.read_i32()?;
        let accuracy = Single::read(reader)?;
        Ok(GunfireAnimationAction { weapon_slot, accuracy })
    }
}

impl Decode for GunfireAnimationAction {
    open spec fn wire(c: Cursor) -> (GunfireAnimationAction, Cursor) {
        GunfireAnimationAction::layout(c)
    }

    proof fn lemma_wire_failed(c: Cursor) {
    }

    fn decode(r: &mut Reader) -> (res: Result<Self, DecodeError>) {
        GunfireAnimationAction::read(r)
    }
}

/// Dealing damage with a weapon.
#[derive(Clone, Copy, PartialEq, Eq, Structural, Debug)]
pub struct DealDamageAnimationAction {
    pub weapon_slot: i32,
    pub targets: AnimationTargets,
}

impl DeepView for DealDamageAnimationAction {
    type V = DealDamageAnimationAction;

    open spec fn deep_view(&self) -> DealDamageAnimationAction {
        *self
    }
}

impl DealDamageAnimationAction {
    /// The fields on the wire, one behind the other.
    #[verifier::opaque]
    pub open spec fn fields(c: Cursor) -> (DealDamageAnimationAction, Cursor) {
        let (weapon_slot, c1) = c.i32();
        let (targets, c2) = AnimationTargets::layout(c1);
        (DealDamageAnimationAction { weapon_slot, targets }, c2)
    }

    /// The value at `c`: nothing from a failed cursor.
    pub open spec fn layout(c: Cursor) -> (DealDamageAnimationAction, Cursor) {
        if c.err is Some {
            (arbitrary(), c)
        } else {
            Self::fields(c)
        }
    }

    /// Reads one `DealDamageAnimationAction`.
    pub fn read(reader: &mut Reader) -> (res: Result<Self, DecodeError>)
        ensures
            follows(res, final(reader)@, Self::layout(old(reader)@)),
    {
        proof {
            reveal(DealDamageAnimationAction::fields);
        }
        let weapon_slot = reader.read_i32()?;
        let targets = AnimationTargets::read(reader)?;
        Ok(DealDamageAnimationAction { weapon_slot, targets })
    }
}

impl Decode for DealDamageAnimationAction {
    open spec fn wire(c: Cursor) -> (DealDamageAnimationAction, Cursor) {
        DealDamageAnimationAction::layout(c)
    }

    proof fn lemma_wire_failed(c: Cursor) {
    }

    fn decode(r: &mut Reader) -> (res: Result<Self, DecodeError>) {
        DealDamageAnimationAction::read(r)
    }
}

/// Removing a status.
#[derive(Clone, PartialEq, Eq, Debug)]
pub struct RemoveStatusAnimationAction {
    pub status: String,
}

/// `RemoveStatusAnimationAction` as the format states it.
pub struct RemoveStatusAnimationActionView {
    pub status: Seq<char>,
}

impl DeepView for RemoveStatusAnimationAction {
    type V = RemoveStatusAnimationActionView;

    open spec fn deep_view(&self) -> RemoveStatusAnimationActionView {
        RemoveStatusAnimationActionView {
            status: self.status.deep_view(),
        }
    }
}

impl RemoveStatusAnimationAction {
    /// The fields on the wire, one behind the other.
    #[verifier::opaque]
    pub open spec fn fields(c: Cursor) -> (RemoveStatusAnimationActionView, Cursor) {
        let (status, c1) = c.string();
        (RemoveStatusAnimationActionView { status }, c1)
    }

    /// The value at `c`: nothing from a failed cursor.
    pub open spec fn layout(c: Cursor) -> (RemoveStatusAnimationActionView, Cursor) {
        if c.err is Some {
            (arbitrary(), c)
        } else {
            Self::fields(c)
        }
    }

    /// Reads one `RemoveStatusAnimationAction`.
    pub fn read(reader: &mut Reader) -> (res: Result<Self, DecodeError>)
        ensures
            follows(res, final(reader)@, Self::layout(old(reader)@)),
    {
        proof {
            reveal(RemoveStatusAnimationAction::fields);
        }
        let status = reader.read_7bit_length_string()?;
        Ok(RemoveStatusAnimationAction { status })
    }
}

impl Decode for RemoveStatusAnimationAction {
    open spec fn wire(c: Cursor) -> (RemoveStatusAnimationActionView, Cursor) {
        RemoveStatusAnimationAction::layout(c)
    }

    proof fn lemma_wire_failed(c: Cursor) {
    }

    fn decode(r: &mut Reader) -> (res: Result<Self, DecodeError>) {
        RemoveStatusAnimationAction::read(r)
    }
}

/// A special ability. With a negative weapon slot the ability itself
/// follows on the wire.
#[derive(Clone, PartialEq, Eq, Debug)]
pub struct SpecialAbilityAnimationAction {
    pub weapon_slot: i32,
    pub ability: Option<SpecialAbility>,
}

/// `SpecialAbilityAnimationAction` as the format states it.
pub struct SpecialAbilityAnimationActionView {
    pub weapon_slot: i32,
    pub ability: Option<SpecialAbilityView>,
}

impl DeepView for SpecialAbilityAnimationAction {
    type V = SpecialAbilityAnimationActionView;

    open spec fn deep_view(&self) -> SpecialAbilityAnimationActionView {
        SpecialAbilityAnimationActionView {
            weapon_slot: self.weapon_slot,
            ability: self.ability.deep_view(),
        }
    }
}

impl SpecialAbilityAnimationAction {
    /// The fields on the wire, one behind the other.
    #[verifier::opaque]
    pub open spec fn fields(c: Cursor) -> (SpecialAbilityAnimationActionView, Cursor) {
        let (weapon_slot, c1) = c.i32();
        let (ability, c2) = if weapon_slot < 0 {
            let (v, after) = SpecialAbility::layout(c1);
            (Some(v), after)
        } else {
            (None, c1)
        };
        (SpecialAbilityAnimationActionView { weapon_slot, ability }, c2)
    }

    /// The value at `c`: nothing from a failed cursor.
    pub open spec fn layout(c: Cursor) -> (SpecialAbilityAnimationActionView, Cursor) {
        if c.err is Some {
            (arbitrary(), c)
        } else {
            Self::fields(c)
        }
    }

    /// Reads one `SpecialAbilityAnimationAction`.
    pub fn read(reader: &mut Reader) -> (res: Result<Self, DecodeError>)
        ensures
            follows(res, final(reader)@, Self::layout(old(reader)@)),
    {
        proof {
            reveal(SpecialAbilityAnimationAction::fields);
        }
        let weapon_slot = reader.read_i32()?;
        let ability = if weapon_slot < 0 {
            Some(SpecialAbility::read(reader)?)
        } else {
            None
        };
        Ok(SpecialAbilityAnimationAction { weapon_slot, ability })
    }
}

impl Decode for SpecialAbilityAnimationAction {
    open spec fn wire(c: Cursor) -> (SpecialAbilityAnimationActionView, Cursor) {
        SpecialAbilityAnimationAction::layout(c)
    }

    proof fn lemma_wire_failed(c: Cursor) {
    }

    fn decode(r: &mut Reader) -> (res: Result<Self, DecodeError>) {
        SpecialAbilityAnimationAction::read(r)
    }
}

/// Casting a spell, from the staff or else from the bone that follows.
#[derive(Clone, PartialEq, Eq, Debug)]
pub struct CastSpellAnimationAction {
    pub from_staff: bool,
    pub bone: Option<String>,
}

/// `CastSpellAnimationAction` as the format states it.
pub struct CastSpellAnimationActionView {
    pub from_staff: bool,
    pub bone: Option<Seq<char>>,
}

impl DeepView for CastSpellAnimationAction {
    type V = CastSpellAnimationActionView;

    open spec fn deep_view(&self) -> CastSpellAnimationActionView {
        CastSpellAnimationActionView {
            from_staff: self.from_staff,
            bone: self.bone.deep_view(),
        }
    }
}

impl CastSpellAnimationAction {
    /// The fields on the wire, one behind the other.
    #[verifier::opaque]
    pub open spec fn fields(c: Cursor) -> (CastSpellAnimationActionView, Cursor) {
        let (from_staff, c1) = c.bool();
        let (bone, c2) = if !from_staff {
            let (v, after) = c1.string();
            (Some(v), after)
        } else {
            (None, c1)
        };
        (CastSpellAnimationActionView { from_staff, bone }, c2)
    }

    /// The value at `c`: nothing from a failed cursor.
    pub open spec fn layout(c: Cursor) -> (CastSpellAnimationActionView, Cursor) {
        if c.err is Some {
            (arbitrary(), c)
        } else {
            Self::fields(c)
        }
    }

    /// Reads one `CastSpellAnimationAction`.
    pub fn read(reader: &mut Reader) -> (res: Result<Self, DecodeError>)
        ensures
            follows(res, final(reader)@, Self::layout(old(reader)@)),
    {
        proof {
            reveal(CastSpellAnimationAction::fields);
        }
        let from_staff = reader.read_bool()?;
        let bone = if !from_staff {
            Some(reader.read_7bit_length_string()?)
        } else {
            None
        };
        Ok(CastSpellAnimationAction { from_staff, bone })
    }
}

impl Decode for CastSpellAnimationAction {
    open spec fn wire(c: Cursor) -> (CastSpellAnimationActionView, Cursor) {
        CastSpellAnimationAction::layout(c)
    }

    proof fn lemma_wire_failed(c: Cursor) {
    }

    fn decode(r: &mut Reader) -> (res: Result<Self, DecodeError>) {
        CastSpellAnimationAction::read(r)
    }
}

/// Spawning a missile.
#[derive(Clone, Copy, PartialEq, Eq, Structural, Debug)]
pub struct SpawnMissileAnimationAction {
    pub weapon_slot: i32,
    pub velocity: Vector3,
    pub aligned: bool,
}

impl DeepView for SpawnMissileAnimationAction {
    type V = SpawnMissileAnimationAction;

    open spec fn deep_view(&self) -> SpawnMissileAnimationAction {
        *self
    }
}

impl SpawnMissileAnimationAction {
    /// The fields on the wire, one behind the other.
    #[verifier::opaque]
    pub open spec fn fields(c: Cursor) -> (SpawnMissileAnimationAction, Cursor) {
        let (weapon_slot, c1) = c.i32();
        let (velocity, c2) = Vector3::layout(c1);
        let (aligned, c3) = c2.bool();
        (SpawnMissileAnimationAction { weapon_slot, velocity, aligned }, c3)
    }

    /// The value at `c`: nothing from a failed cursor.
    pub open spec fn layout(c: Cursor) -> (SpawnMissileAnimationAction, Cursor) {
        if c.err is Some {
            (arbitrary(), c)
        } else {
            Self::fields(c)
        }
    }

    /// Reads one `SpawnMissileAnimationAction`.
    pub fn read(reader: &mut Reader) -> (res: Result<Self, DecodeError>)
        ensures
            follows(res, final(reader)@, Self::layout(old(reader)@)),
    {
        proof {
            reveal(SpawnMissileAnimationAction::fields);
        }
        let weapon_slot = reader.read_i32()?;
        let velocity = Vector3::read(reader)?;
        let aligned = reader.read_bool()?;
        Ok(SpawnMissileAnimationAction { weapon_slot, velocity, aligned })
    }
}

impl Decode for SpawnMissileAnimationAction {
    open spec fn wire(c: Cursor) -> (SpawnMissileAnimationAction, Cursor) {
        SpawnMissileAnimationAction::layout(c)
    }

    proof fn lemma_wire_failed(c: Cursor) {
    }

    fn decode(r: &mut Reader) -> (res: Result<Self, DecodeError>) {
        SpawnMissileAnimationAction::read(r)
    }
}

/// Lashing a tongue.
#[derive(Clone, Copy, PartialEq, Eq, Structural, Debug)]
pub struct TongueAnimationAction {
    pub max_length: Single,
}

impl DeepView for TongueAnimationAction {
    type V = TongueAnimationAction;

    open spec fn deep_view(&self) -> TongueAnimationAction {
        *self
    }
}

impl TongueAnimationAction {
    /// The fields on the wire, one behind the other.
    #[verifier::opaque]
    pub open spec fn fields(c: Cursor) -> (TongueAnimationAction, Cursor) {
        let (max_length, c1) = Single::layout(c);
        (TongueAnimationAction { max_length }, c1)
    }

    /// The value at `c`: nothing from a failed cursor.
    pub open spec fn layout(c: Cursor) -> (TongueAnimationAction, Cursor) {
        if c.err is Some {
            (arbitrary(), c)
        } else {
            Self::fields(c)
        }
    }

    /// Reads one `TongueAnimationAction`.
    pub fn read(reader: &mut Reader) -> (res: Result<Self, DecodeError>)
        ensures
            follows(res, final(reader)@, Self::layout(old(reader)@)),
    {
        proof {
            reveal(TongueAnimationAction::fields);
        }
        let max_length = Single::read(reader)?;
        Ok(TongueAnimationAction { max_length })
    }
}

impl Decode for TongueAnimationAction {
    open spec fn wire(c: Cursor) -> (TongueAnimationAction, Cursor) {
        TongueAnimationAction::layout(c)
    }

    proof fn lemma_wire_failed(c: Cursor) {
    }

    fn decode(r: &mut Reader) -> (res: Result<Self, DecodeError>) {
        TongueAnimationAction::read(r)
    }
}

/// Turning invisible.
#[derive(Clone, Copy, PartialEq, Eq, Structural, Debug)]
pub struct InvisibleAnimationAction {
    pub shimmer: bool,
}

impl DeepView for InvisibleAnimationAction {
    type V = InvisibleAnimationAction;

    open spec fn deep_view(&self) -> InvisibleAnimationAction {
        *self
    }
}

impl InvisibleAnimationAction {
    /// The fields on the wire, one behind the other.
    #[verifier::opaque]
    pub open spec fn fields(c: Cursor) -> (InvisibleAnimationAction, Cursor) {
        let (shimmer, c1) = c.bool();
        (InvisibleAnimationAction { shimmer }, c1)
    }

    /// The value at `c`: nothing from a failed cursor.
    pub open spec fn layout(c: Cursor) -> (InvisibleAnimationAction, Cursor) {
        if c.err is Some {
            (arbitrary(), c)
        } else {
            Self::fields(c)
        }
    }

    /// Reads one `InvisibleAnimationAction`.
    pub fn read(reader: &mut Reader) -> (res: Result<Self, DecodeError>)
        ensures
            follows(res, final(reader)@, Self::layout(old(reader)@)),
    {
        proof {
            reveal(InvisibleAnimationAction::fields);
        }
        let shimmer = reader.read_bool()?;
        Ok(InvisibleAnimationAction { shimmer })
    }
}

impl Decode for InvisibleAnimationAction {
    open spec fn wire(c: Cursor) -> (InvisibleAnimationAction, Cursor) {
        InvisibleAnimationAction::layout(c)
    }

    proof fn lemma_wire_failed(c: Cursor) {
    }

    fn decode(r: &mut Reader) -> (res: Result<Self, DecodeError>) {
        InvisibleAnimationAction::read(r)
    }
}

/// Turning ethereal.
#[derive(Clone, Copy, PartialEq, Eq, Structural, Debug)]
pub struct EtherealAnimationAction {
    pub is_ethereal: bool,
    pub alpha: Single,
    pub speed: Single,
}

impl DeepView for EtherealAnimationAction {
    type V = EtherealAnimationAction;

    open spec fn deep_view(&self) -> EtherealAnimationAction {
        *self
    }
}

impl EtherealAnimationAction {
    /// The fields on the wire, one behind the other.
    #[verifier::opaque]
    pub open spec fn fields(c: Cursor) -> (EtherealAnimationAction, Cursor) {
        let (is_ethereal, c1) = c.bool();
        let (alpha, c2) = Single::layout(c1);
        let (speed, c3) = Single::layout(c2);
        (EtherealAnimationAction { is_ethereal, alpha, speed }, c3)
    }

    /// The value at `c`: nothing from a failed cursor.
    pub open spec fn layout(c: Cursor) -> (EtherealAnimationAction, Cursor) {
        if c.err is Some {
            (arbitrary(), c)
        } else {
            Self::fields(c)
        }
    }

    /// Reads one `EtherealAnimationAction`.
    pub fn read(reader: &mut Reader) -> (res: Result<Self, DecodeError>)
        ensures
            follows(res, final(reader)@, Self::layout(old(reader)@)),
    {
        proof {
            reveal(EtherealAnimationAction::fields);
        }
        let is_ethereal = reader.read_bool()?;
        let alpha = Single::read(reader)?;
        let speed = Single::read(reader)?;
        Ok(EtherealAnimationAction { is_ethereal, alpha, speed })
    }
}

impl Decode for EtherealAnimationAction {
    open spec fn wire(c: Cursor) -> (EtherealAnimationAction, Cursor) {
        EtherealAnimationAction::layout(c)
    }

    proof fn lemma_wire_failed(c: Cursor) {
    }

    fn decode(r: &mut Reader) -> (res: Result<Self, DecodeError>) {
        EtherealAnimationAction::read(r)
    }
}

/// Turning immortal.
#[derive(Clone, Copy, PartialEq, Eq, Structural, Debug)]
pub struct ImmortalAnimationAction {
    pub collide: bool,
}

impl DeepView for ImmortalAnimationAction {
    type V = ImmortalAnimationAction;

    open spec fn deep_view(&self) -> ImmortalAnimationAction {
        *self
    }
}

impl ImmortalAnimationAction {
    /// The fields on the wire, one behind the other.
    #[verifier::opaque]
    pub open spec fn fields(c: Cursor) -> (ImmortalAnimationAction, Cursor) {
        let (collide, c1) = c.bool();
        (ImmortalAnimationAction { collide }, c1)
    }

    /// The value at `c`: nothing from a failed cursor.
    pub open spec fn layout(c: Cursor) -> (ImmortalAnimationAction, Cursor) {
        if c.err is Some {
            (arbitrary(), c)
        } else {
            Self::fields(c)
        }
    }

    /// Reads one `ImmortalAnimationAction`.
    pub fn read(reader: &mut Reader) -> (res: Result<Self, DecodeError>)
        ensures
            follows(res, final(reader)@, Self::layout(old(reader)@)),
    {
        proof {
            reveal(ImmortalAnimationAction::fields);
        }
        let collide = reader.read_bool()?;
        Ok(ImmortalAnimationAction { collide })
    }
}

impl Decode for ImmortalAnimationAction {
    open spec fn wire(c: Cursor) -> (ImmortalAnimationAction, Cursor) {
        ImmortalAnimationAction::layout(c)
    }

    proof fn lemma_wire_failed(c: Cursor) {
    }

    fn decode(r: &mut Reader) -> (res: Result<Self, DecodeError>) {
        ImmortalAnimationAction::read(r)
    }
}

/// Dying by one's own hand.
#[derive(Clone, Copy, PartialEq, Eq, Structural, Debug)]
pub struct SuicideAnimationAction {
    pub overkill: bool,
}

impl DeepView for SuicideAnimationAction {
    type V = SuicideAnimationAction;

    open spec fn deep_view(&self) -> SuicideAnimationAction {
        *self
    }
}

impl SuicideAnimationAction {
    /// The fields on the wire, one behind the other.
    #[verifier::opaque]
    pub open spec fn fields(c: Cursor) -> (SuicideAnimationAction, Cursor) {
        let (overkill, c1) = c.bool();
        (SuicideAnimationAction { overkill }, c1)
    }

    /// The value at `c`: nothing from a failed cursor.
    pub open spec fn layout(c: Cursor) -> (SuicideAnimationAction, Cursor) {
        if c.err is Some {
            (arbitrary(), c)
        } else {
            Self::fields(c)
        }
    }

    /// Reads one `SuicideAnimationAction`.
    pub fn read(reader: &mut Reader) -> (res: Result<Self, DecodeError>)
        ensures
            follows(res, final(reader)@, Self::layout(old(reader)@)),
    {
        proof {
            reveal(SuicideAnimationAction::fields);
        }
        let overkill = reader.read_bool()?;
        Ok(SuicideAnimationAction { overkill })
    }
}

impl Decode for SuicideAnimationAction {
    open spec fn wire(c: Cursor) -> (SuicideAnimationAction, Cursor) {
        SuicideAnimationAction::layout(c)
    }

    proof fn lemma_wire_failed(c: Cursor) {
    }

    fn decode(r: &mut Reader) -> (res: Result<Self, DecodeError>) {
        SuicideAnimationAction::read(r)
    }
}

/// Showing or hiding a weapon.
#[derive(Clone, Copy, PartialEq, Eq, Structural, Debug)]
pub struct WeaponVisibilityAnimationAction {
    pub weapon_slot: i32,
    pub visible: bool,
}

impl DeepView for WeaponVisibilityAnimationAction {
    type V = WeaponVisibilityAnimationAction;

    open spec fn deep_view(&self) -> WeaponVisibilityAnimationAction {
        *self
    }
}

impl WeaponVisibilityAnimationAction {
    /// The fields on the wire, one behind the other.
    #[verifier::opaque]
    pub open spec fn fields(c: Cursor) -> (WeaponVisibilityAnimationAction, Cursor) {
        let (weapon_slot, c1) = c.i32();
        let (visible, c2) = c1.bool();
        (WeaponVisibilityAnimationAction { weapon_slot, visible }, c2)
    }

    /// The value at `c`: nothing from a failed cursor.
    pub open spec fn layout(c: Cursor) -> (WeaponVisibilityAnimationAction, Cursor) {
        if c.err is Some {
            (arbitrary(), c)
        } else {
            Self::fields(c)
        }
    }

    /// Reads one `WeaponVisibilityAnimationAction`.
    pub fn read(reader: &mut Reader) -> (res: Result<Self, DecodeError>)
        ensures
            follows(res, final(reader)@, Self::layout(old(reader)@)),
    {
        proof {
            reveal(WeaponVisibilityAnimationAction::fields);
        }
        let weapon_slot = reader.read_i32()?;
        let visible = reader.read_bool()?;
        Ok(WeaponVisibilityAnimationAction { weapon_slot, visible })
    }
}

impl Decode for WeaponVisibilityAnimationAction {
    open spec fn wire(c: Cursor) -> (WeaponVisibilityAnimationAction, Cursor) {
        WeaponVisibilityAnimationAction::layout(c)
    }

    proof fn lemma_wire_failed(c: Cursor) {
    }

    fn decode(r: &mut Reader) -> (res: Result<Self, DecodeError>) {
        WeaponVisibilityAnimationAction::read(r)
    }
}

/// Letting go of an item.
#[derive(Clone, Copy, PartialEq, Eq, Structural, Debug)]
pub struct DetachItemAnimationAction {
    pub weapon_slot: i32,
    pub velocity: Vector3,
}

impl DeepView for DetachItemAnimationAction {
    type V = DetachItemAnimationAction;

    open spec fn deep_view(&self) -> DetachItemAnimationAction {
        *self
    }
}

impl DetachItemAnimationAction {
    /// The fields on the wire, one behind the other.
    #[verifier::opaque]
    pub open spec fn fields(c: Cursor) -> (DetachItemAnimationAction, Cursor) {
        let (weapon_slot, c1) = c.i32();
        let (velocity, c2) = Vector3::layout(c1);
        (DetachItemAnimationAction { weapon_slot, velocity }, c2)
    }

    /// The value at `c`: nothing from a failed cursor.
    pub open spec fn layout(c: Cursor) -> (DetachItemAnimationAction, Cursor) {
        if c.err is Some {
            (arbitrary(), c)
        } else {
            Self::fields(c)
        }
    }

    /// Reads one `DetachItemAnimationAction`.
    pub fn read(reader: &mut Reader) -> (res: Result<Self, DecodeError>)
        ensures
            follows(res, final(reader)@, Self::layout(old(reader)@)),
    {
        proof {
            reveal(DetachItemAnimationAction::fields);
        }
        let weapon_slot = reader.read_i32()?;
        let velocity = Vector3::read(reader)?;
        Ok(DetachItemAnimationAction { weapon_slot, velocity })
    }
}

impl Decode for DetachItemAnimationAction {
    open spec fn wire(c: Cursor) -> (DetachItemAnimationAction, Cursor) {
        DetachItemAnimationAction::layout(c)
    }

    proof fn lemma_wire_failed(c: Cursor) {
    }

    fn decode(r: &mut Reader) -> (res: Result<Self, DecodeError>) {
        DetachItemAnimationAction::read(r)
    }
}

/// Shaking the camera. The meaning of the first field is not known.
#[derive(Clone, PartialEq, Eq, Debug)]
pub struct CameraShakeAnimationAction {
    pub unk: String,
    pub duration: Single,
    pub magnitude: Single,
}

/// `CameraShakeAnimationAction` as the format states it.
pub struct CameraShakeAnimationActionView {
    pub unk: Seq<char>,
    pub duration: Single,
    pub magnitude: Single,
}

impl DeepView for CameraShakeAnimationAction {
    type V = CameraShakeAnimationActionView;

    open spec fn deep_view(&self) -> CameraShakeAnimationActionView {
        CameraShakeAnimationActionView {
            unk: self.unk.deep_view(),
            duration: self.duration,
            magnitude: self.magnitude,
        }
    }
}

impl CameraShakeAnimationAction {
    /// The fields on the wire, one behind the other.
    #[verifier::opaque]
    pub open spec fn fields(c: Cursor) -> (CameraShakeAnimationActionView, Cursor) {
        let (unk, c1) = c.string();
        let (duration, c2) = Single::layout(c1);
        let (magnitude, c3) = Single::layout(c2);
        (CameraShakeAnimationActionView { unk, duration, magnitude }, c3)
    }

    /// The value at `c`: nothing from a failed cursor.
    pub open spec fn layout(c: Cursor) -> (CameraShakeAnimationActionView, Cursor) {
        if c.err is Some {
            (arbitrary(), c)
        } else {
            Self::fields(c)
        }
    }

    /// Reads one `CameraShakeAnimationAction`.
    pub fn read(reader: &mut Reader) -> (res: Result<Self, DecodeError>)
        ensures
            follows(res, final(reader)@, Self::layout(old(reader)@)),
    {
        proof {
            reveal(CameraShakeAnimationAction::fields);
        }
        let unk = reader.read_7bit_length_string()?;
        let duration = Single::read(reader)?;
        let magnitude = Single::read(reader)?;
        Ok(CameraShakeAnimationAction { unk, duration, magnitude })
    }
}

impl Decode for CameraShakeAnimationAction {
    open spec fn wire(c: Cursor) -> (CameraShakeAnimationActionView, Cursor) {
        CameraShakeAnimationAction::layout(c)
    }

    proof fn lemma_wire_failed(c: Cursor) {
    }

    fn decode(r: &mut Reader) -> (res: Result<Self, DecodeError>) {
        CameraShakeAnimationAction::read(r)
    }
}

/// Playing a sound.
#[derive(Clone, PartialEq, Eq, Debug)]
pub struct PlaySoundAnimationAction {
    pub sound: Sound,
}

/// `PlaySoundAnimationAction` as the format states it.
pub struct PlaySoundAnimationActionView {
    pub sound: SoundView,
}

impl DeepView for PlaySoundAnimationAction {
    type V = PlaySoundAnimationActionView;

    open spec fn deep_view(&self) -> PlaySoundAnimationActionView {
        PlaySoundAnimationActionView {
            sound: self.sound.deep_view(),
        }
    }
}

impl PlaySoundAnimationAction {
    /// The fields on the wire, one behind the other.
    #[verifier::opaque]
    pub open spec fn fields(c: Cursor) -> (PlaySoundAnimationActionView, Cursor) {
        let (sound, c1) = Sound::layout(c);
        (PlaySoundAnimationActionView { sound }, c1)
    }

    /// The value at `c`: nothing from a failed cursor.
    pub open spec fn layout(c: Cursor) -> (PlaySoundAnimationActionView, Cursor) {
        if c.err is Some {
            (arbitrary(), c)
        } else {
            Self::fields(c)
        }
    }

    /// Reads one `PlaySoundAnimationAction`.
    pub fn read(reader: &mut Reader) -> (res: Result<Self, DecodeError>)
        ensures
            follows(res, final(reader)@, Self::layout(old(reader)@)),
    {
        proof {
            reveal(PlaySoundAnimationAction::fields);
        }
        let sound = Sound::read(reader)?;
        Ok(PlaySoundAnimationAction { sound })
    }
}

impl Decode for PlaySoundAnimationAction {
    open spec fn wire(c: Cursor) -> (PlaySoundAnimationActionView, Cursor) {
        PlaySoundAnimationAction::layout(c)
    }

    proof fn lemma_wire_failed(c: Cursor) {
    }

    fn decode(r: &mut Reader) -> (res: Result<Self, DecodeError>) {
        PlaySoundAnimationAction::read(r)
    }
}

/// Playing an effect at a bone.
#[derive(Clone, PartialEq, Eq, Debug)]
pub struct PlayEffectAnimationAction {
    pub bone: String,
    pub attached: bool,
    pub effect: String,
    pub value: Single,
}

/// `PlayEffectAnimationAction` as the format states it.
pub struct PlayEffectAnimationActionView {
    pub bone: Seq<char>,
    pub attached: bool,
    pub effect: Seq<char>,
    pub value: Single,
}

impl DeepView for PlayEffectAnimationAction {
    type V = PlayEffectAnimationActionView;

    open spec fn deep_view(&self) -> PlayEffectAnimationActionView {
        PlayEffectAnimationActionView {
            bone: self.bone.deep_view(),
            attached: self.attached,
            effect: self.effect.deep_view(),
            value: self.value,
        }
    }
}

impl PlayEffectAnimationAction {
    /// The fields on the wire, one behind the other.
    #[verifier::opaque]
    pub open spec fn fields(c: Cursor) -> (PlayEffectAnimationActionView, Cursor) {
        let (bone, c1) = c.string();
        let (attached, c2) = c1.bool();
        let (effect, c3) = c2.string();
        let (value, c4) = Single::layout(c3);
        (PlayEffectAnimationActionView { bone, attached, effect, value }, c4)
    }

    /// The value at `c`: nothing from a failed cursor.
    pub open spec fn layout(c: Cursor) -> (PlayEffectAnimationActionView, Cursor) {
        if c.err is Some {
            (arbitrary(), c)
        } else {
            Self::fields(c)
        }
    }

    /// Reads one `PlayEffectAnimationAction`.
    pub fn read(reader: &mut Reader) -> (res: Result<Self, DecodeError>)
        ensures
            follows(res, final(reader)@, Self::layout(old(reader)@)),
    {
        proof {
            reveal(PlayEffectAnimationAction::fields);
        }
        let bone = reader.read_7bit_length_string()?;
        let attached = reader.read_bool()?;
        let effect = reader.read_7bit_length_string()?;
        let value = Single::read(reader)?;
        Ok(PlayEffectAnimationAction { bone, attached, effect, value })
    }
}

impl Decode for PlayEffectAnimationAction {
    open spec fn wire(c: Cursor) -> (PlayEffectAnimationActionView, Cursor) {
        PlayEffectAnimationAction::layout(c)
    }

    proof fn lemma_wire_failed(c: Cursor) {
    }

    fn decode(r: &mut Reader) -> (res: Result<Self, DecodeError>) {
        PlayEffectAnimationAction::read(r)
    }
}

/// What an action is, with the fields of its kind.
#[derive(Clone, PartialEq, Eq, Debug)]
pub enum AnimationActionKind {
    Footstep(FootstepAnimationAction),
    Move(MoveAnimationAction),
    Jump(JumpAnimationAction),
    Crouch(CrouchAnimationAction),
    Block(BlockAnimationAction),
    Grip(GripAnimationAction),
    DamageGrip(DamageGripAnimationAction),
    OverkillGrip(OverkillGripAnimationAction),
    ThrowGrip(ThrowGripAnimationAction),
    ReleaseGrip(ReleaseGripAnimationAction),
    BreakFree(BreakFreeAnimationAction),
    Gunfire(GunfireAnimationAction),
    DealDamage(DealDamageAnimationAction),
    RemoveStatus(RemoveStatusAnimationAction),
    SpecialAbility(SpecialAbilityAnimationAction),
    CastSpell(CastSpellAnimationAction),
    SpawnMissile(SpawnMissileAnimationAction),
    Tongue(TongueAnimationAction),
    Invisible(InvisibleAnimationAction),
    Ethereal(EtherealAnimationAction),
    Immortal(ImmortalAnimationAction),
    Suicide(SuicideAnimationAction),
    WeaponVisibility(WeaponVisibilityAnimationAction),
    DetachItem(DetachItemAnimationAction),
    CameraShake(CameraShakeAnimationAction),
    PlaySound(PlaySoundAnimationAction),
    PlayEffect(PlayEffectAnimationAction),
}

/// `AnimationActionKind` as the format states it.
pub enum AnimationActionKindView {
    Footstep(FootstepAnimationAction),
    Move(MoveAnimationAction),
    Jump(JumpAnimationAction),
    Crouch(CrouchAnimationAction),
    Block(BlockAnimationAction),
    Grip(GripAnimationActionView),
    DamageGrip(DamageGripAnimationActionView),
    OverkillGrip(OverkillGripAnimationAction),
    ThrowGrip(ThrowGripAnimationAction),
    ReleaseGrip(ReleaseGripAnimationAction),
    BreakFree(BreakFreeAnimationAction),
    Gunfire(GunfireAnimationAction),
    DealDamage(DealDamageAnimationAction),
    RemoveStatus(RemoveStatusAnimationActionView),
    SpecialAbility(SpecialAbilityAnimationActionView),
    CastSpell(CastSpellAnimationActionView),
    SpawnMissile(SpawnMissileAnimationAction),
    Tongue(TongueAnimationAction),
    Invisible(InvisibleAnimationAction),
    Ethereal(EtherealAnimationAction),
    Immortal(ImmortalAnimationAction),
    Suicide(SuicideAnimationAction),
    WeaponVisibility(WeaponVisibilityAnimationAction),
    DetachItem(DetachItemAnimationAction),
    CameraShake(CameraShakeAnimationActionView),
    PlaySound(PlaySoundAnimationActionView),
    PlayEffect(PlayEffectAnimationActionView),
}

impl DeepView for AnimationActionKind {
    type V = AnimationActionKindView;

    open spec fn deep_view(&self) -> AnimationActionKindView {
        match self {
            AnimationActionKind::Footstep(payload) => AnimationActionKindView::Footstep(*payload),
            AnimationActionKind::Move(payload) => AnimationActionKindView::Move(*payload),
            AnimationActionKind::Jump(payload) => AnimationActionKindView::Jump(*payload),
            AnimationActionKind::Crouch(payload) => AnimationActionKindView::Crouch(*payload),
            AnimationActionKind::Block(payload) => AnimationActionKindView::Block(*payload),
            AnimationActionKind::Grip(payload) => AnimationActionKindView::Grip(payload.deep_view()),
            AnimationActionKind::DamageGrip(payload) => AnimationActionKindView::DamageGrip(payload.deep_view()),
            AnimationActionKind::OverkillGrip(payload) => AnimationActionKindView::OverkillGrip(*payload),
            AnimationActionKind::ThrowGrip(payload) => AnimationActionKindView::ThrowGrip(*payload),
            AnimationActionKind::ReleaseGrip(payload) => AnimationActionKindView::ReleaseGrip(*payload),
            AnimationActionKind::BreakFree(payload) => AnimationActionKindView::BreakFree(*payload),
            AnimationActionKind::Gunfire(payload) => AnimationActionKindView::Gunfire(*payload),
            AnimationActionKind::DealDamage(payload) => AnimationActionKindView::DealDamage(*payload),
            AnimationActionKind::RemoveStatus(payload) => AnimationActionKindView::RemoveStatus(payload.deep_view()),
            AnimationActionKind::SpecialAbility(payload) => AnimationActionKindView::SpecialAbility(
                payload.deep_view(),
            ),
            AnimationActionKind::CastSpell(payload) => AnimationActionKindView::CastSpell(payload.deep_view()),
            AnimationActionKind::SpawnMissile(payload) => AnimationActionKindView::SpawnMissile(*payload),
            AnimationActionKind::Tongue(payload) => AnimationActionKindView::Tongue(*payload),
            AnimationActionKind::Invisible(payload) => AnimationActionKindView::Invisible(*payload),
            AnimationActionKind::Ethereal(payload) => AnimationActionKindView::Ethereal(*payload),
            AnimationActionKind::Immortal(payload) => AnimationActionKindView::Immortal(*payload),
            AnimationActionKind::Suicide(payload) => AnimationActionKindView::Suicide(*payload),
            AnimationActionKind::WeaponVisibility(payload) => AnimationActionKindView::WeaponVisibility(*payload),
            AnimationActionKind::DetachItem(payload) => AnimationActionKindView::DetachItem(*payload),
            AnimationActionKind::CameraShake(payload) => AnimationActionKindView::CameraShake(payload.deep_view()),
            AnimationActionKind::PlaySound(payload) => AnimationActionKindView::PlaySound(payload.deep_view()),
            AnimationActionKind::PlayEffect(payload) => AnimationActionKindView::PlayEffect(payload.deep_view()),
        }
    }
}

/// An action over a span of a clip. The name of its kind leads, the span
/// follows, and the fields of the kind close the record.
#[derive(Clone, PartialEq, Eq, Debug)]
pub struct AnimationAction {
    pub kind: AnimationActionKind,
    pub start: Single,
    pub end: Single,
}

/// `AnimationAction` as the format states it.
pub struct AnimationActionView {
    pub kind: AnimationActionKindView,
    pub start: Single,
    pub end: Single,
}

impl DeepView for AnimationAction {
    type V = AnimationActionView;

    open spec fn deep_view(&self) -> AnimationActionView {
        AnimationActionView {
            kind: self.kind.deep_view(),
            start: self.start,
            end: self.end,
        }
    }
}

impl AnimationAction {
    /// The fields on the wire, one behind the other.
    #[verifier::opaque]
    pub open spec fn fields(c: Cursor) -> (AnimationActionView, Cursor) {
        let (name, c1) = c.string();
        let (start, c2) = Single::layout(c1);
        let (end, c3) = Single::layout(c2);
        let (kind, c4) = if name == "Footstep"@ {
            (AnimationActionKindView::Footstep(FootstepAnimationAction), c3)
        } else if name == "Move"@ {
            let (payload, after) = MoveAnimationAction::layout(c3);
            (AnimationActionKindView::Move(payload), after)
        } else if name == "Jump"@ {
            let (payload, after) = JumpAnimationAction::layout(c3);
            (AnimationActionKindView::Jump(payload), after)
        } else if name == "Crouch"@ {
            let (payload, after) = CrouchAnimationAction::layout(c3);
            (AnimationActionKindView::Crouch(payload), after)
        } else if name == "Block"@ {
            let (payload, after) = BlockAnimationAction::layout(c3);
            (AnimationActionKindView::Block(payload), after)
        } else if name == "Grip"@ {
            let (payload, after) = GripAnimationAction::layout(c3);
            (AnimationActionKindView::Grip(payload), after)
        } else if name == "DamageGrip"@ {
            let (payload, after) = DamageGripAnimationAction::layout(c3);
            (AnimationActionKindView::DamageGrip(payload), after)
        } else if name == "OverkillGrip"@ {
            (AnimationActionKindView::OverkillGrip(OverkillGripAnimationAction), c3)
        } else if name == "ThrowGrip"@ {
            (AnimationActionKindView::ThrowGrip(ThrowGripAnimationAction), c3)
        } else if name == "ReleaseGrip"@ {
            (AnimationActionKindView::ReleaseGrip(ReleaseGripAnimationAction), c3)
        } else if name == "BreakFree"@ {
            let (payload, after) = BreakFreeAnimationAction::layout(c3);
            (AnimationActionKindView::BreakFree(payload), after)
        } else if name == "Gunfire"@ {
            let (payload, after) = GunfireAnimationAction::layout(c3);
            (AnimationActionKindView::Gunfire(payload), after)
        } else if name == "DealDamage"@ {
            let (payload, after) = DealDamageAnimationAction::layout(c3);
            (AnimationActionKindView::DealDamage(payload), after)
        } else if name == "RemoveStatus"@ {
            let (payload, after) = RemoveStatusAnimationAction::layout(c3);
            (AnimationActionKindView::RemoveStatus(payload), after)
        } else if name == "SpecialAbility"@ {
            let (payload, after) = SpecialAbilityAnimationAction::layout(c3);
            (AnimationActionKindView::SpecialAbility(payload), after)
        } else if name == "CastSpell"@ {
            let (payload, after) = CastSpellAnimationAction::layout(c3);
            (AnimationActionKindView::CastSpell(payload), after)
        } else if name == "SpawnMissile"@ {
            let (payload, after) = SpawnMissileAnimationAction::layout(c3);
            (AnimationActionKindView::SpawnMissile(payload), after)
        } else if name == "Tongue"@ {
            let (payload, after) = TongueAnimationAction::layout(c3);
            (AnimationActionKindView::Tongue(payload), after)
        } else if name == "Invisible"@ {
            let (payload, after) = InvisibleAnimationAction::layout(c3);
            (AnimationActionKindView::Invisible(payload), after)
        } else if name == "Ethereal"@ {
            let (payload, after) = EtherealAnimationAction::layout(c3);
            (AnimationActionKindView::Ethereal(payload), after)
        } else if name == "Immortal"@ {
            let (payload, after) = ImmortalAnimationAction::layout(c3);
            (AnimationActionKindView::Immortal(payload), after)
        } else if name == "Suicide"@ {
            let (payload, after) = SuicideAnimationAction::layout(c3);
            (AnimationActionKindView::Suicide(payload), after)
        } else if name == "WeaponVisibility"@ {
            let (payload, after) = WeaponVisibilityAnimationAction::layout(c3);
            (AnimationActionKindView::WeaponVisibility(payload), after)
        } else if name == "DetachItem"@ {
            let (payload, after) = DetachItemAnimationAction::layout(c3);
            (AnimationActionKindView::DetachItem(payload), after)
        } else if name == "CameraShake"@ {
            let (payload, after) = CameraShakeAnimationAction::layout(c3);
            (AnimationActionKindView::CameraShake(payload), after)
        } else if name == "PlaySound"@ {
            let (payload, after) = PlaySoundAnimationAction::layout(c3);
            (AnimationActionKindView::PlaySound(payload), after)
        } else if name == "PlayEffect"@ {
            let (payload, after) = PlayEffectAnimationAction::layout(c3);
            (AnimationActionKindView::PlayEffect(payload), after)
        } else {
            (arbitrary(), c3.fail(DecodeErrorView::UnknownName { selector: Selector::AnimationActionKind, name }))
        };
        (AnimationActionView { kind, start, end }, c4)
    }

    /// The value at `c`: nothing from a failed cursor.
    pub open spec fn layout(c: Cursor) -> (AnimationActionView, Cursor) {
        if c.err is Some {
            (arbitrary(), c)
        } else {
            Self::fields(c)
        }
    }

    /// Reads one `AnimationAction`.
    pub fn read(reader: &mut Reader) -> (res: Result<Self, DecodeError>)
        ensures
            follows(res, final(reader)@, Self::layout(old(reader)@)),
    {
        proof {
            reveal(AnimationAction::fields);
        }
        let name = reader.read_7bit_length_string()?;
        let start = Single::read(reader)?;
        let end = Single::read(reader)?;
        let kind = if same(name.as_str(), "Footstep") {
            AnimationActionKind::Footstep(FootstepAnimationAction)
        } else if same(name.as_str(), "Move") {
            AnimationActionKind::Move(MoveAnimationAction::read(reader)?)
        } else if same(name.as_str(), "Jump") {
            AnimationActionKind::Jump(JumpAnimationAction::read(reader)?)
        } else if same(name.as_str(), "Crouch") {
            AnimationActionKind::Crouch(CrouchAnimationAction::read(reader)?)
        } else if same(name.as_str(), "Block") {
            AnimationActionKind::Block(BlockAnimationAction::read(reader)?)
        } else if same(name.as_str(), "Grip") {
            AnimationActionKind::Grip(GripAnimationAction::read(reader)?)
        } else if same(name.as_str(), "DamageGrip") {
            AnimationActionKind::DamageGrip(DamageGripAnimationAction::read(reader)?)
        } else if same(name.as_str(), "OverkillGrip") {
            AnimationActionKind::OverkillGrip(OverkillGripAnimationAction)
        } else if same(name.as_str(), "ThrowGrip") {
            AnimationActionKind::ThrowGrip(ThrowGripAnimationAction)
        } else if same(name.as_str(), "ReleaseGrip") {
            AnimationActionKind::ReleaseGrip(ReleaseGripAnimationAction)
        } else if same(name.as_str(), "BreakFree") {
            AnimationActionKind::BreakFree(BreakFreeAnimationAction::read(reader)?)
        } else if same(name.as_str(), "Gunfire") {
            AnimationActionKind::Gunfire(GunfireAnimationAction::read(reader)?)
        } else if same(name.as_str(), "DealDamage") {
            AnimationActionKind::DealDamage(DealDamageAnimationAction::read(reader)?)
        } else if same(name.as_str(), "RemoveStatus") {
            AnimationActionKind::RemoveStatus(RemoveStatusAnimationAction::read(reader)?)
        } else if same(name.as_str(), "SpecialAbility") {
            AnimationActionKind::SpecialAbility(SpecialAbilityAnimationAction::read(reader)?)
        } else if same(name.as_str(), "CastSpell") {
            AnimationActionKind::CastSpell(CastSpellAnimationAction::read(reader)?)
        } else if same(name.as_str(), "SpawnMissile") {
            AnimationActionKind::SpawnMissile(SpawnMissileAnimationAction::read(reader)?)
        } else if same(name.as_str(), "Tongue") {
            AnimationActionKind::Tongue(TongueAnimationAction::read(reader)?)
        } else if same(name.as_str(), "Invisible") {
            AnimationActionKind::Invisible(InvisibleAnimationAction::read(reader)?)
        } else if same(name.as_str(), "Ethereal") {
            AnimationActionKind::Ethereal(EtherealAnimationAction::read(reader)?)
        } else if same(name.as_str(), "Immortal") {
            AnimationActionKind::Immortal(ImmortalAnimationAction::read(reader)?)
        } else if same(name.as_str(), "Suicide") {
            AnimationActionKind::Suicide(SuicideAnimationAction::read(reader)?)
        } else if same(name.as_str(), "WeaponVisibility") {
            AnimationActionKind::WeaponVisibility(WeaponVisibilityAnimationAction::read(reader)?)
        } else if same(name.as_str(), "DetachItem") {
            AnimationActionKind::DetachItem(DetachItemAnimationAction::read(reader)?)
        } else if same(name.as_str(), "CameraShake") {
            AnimationActionKind::CameraShake(CameraShakeAnimationAction::read(reader)?)
        } else if same(name.as_str(), "PlaySound") {
            AnimationActionKind::PlaySound(PlaySoundAnimationAction::read(reader)?)
        } else if same(name.as_str(), "PlayEffect") {
            AnimationActionKind::PlayEffect(PlayEffectAnimationAction::read(reader)?)
        } else {
            return Err(DecodeError::UnknownName { selector: Selector::AnimationActionKind, name });
        };
        Ok(AnimationAction { kind, start, end })
    }
}

impl Decode for AnimationAction {
    open spec fn wire(c: Cursor) -> (AnimationActionView, Cursor) {
        AnimationAction::layout(c)
    }

    proof fn lemma_wire_failed(c: Cursor) {
    }

    fn decode(r: &mut Reader) -> (res: Result<Self, DecodeError>) {
        AnimationAction::read(r)
    }
}

/// A clip and its actions.
#[derive(Clone, PartialEq, Eq, Debug)]
pub struct AnimationClip {
    pub kind: String,
    pub key: String,
    pub speed: Single,
    pub blend_time: Single,
    pub loops: bool,
    pub actions: Vec<AnimationAction>,
}

/// `AnimationClip` as the format states it.
pub struct AnimationClipView {
    pub kind: Seq<char>,
    pub key: Seq<char>,
    pub speed: Single,
    pub blend_time: Single,
    pub loops: bool,
    pub actions: Seq<AnimationActionView>,
}

impl DeepView for AnimationClip {
    type V = AnimationClipView;

    open spec fn deep_view(&self) -> AnimationClipView {
        AnimationClipView {
            kind: self.kind.deep_view(),
            key: self.key.deep_view(),
            speed: self.speed,
            blend_time: self.blend_time,
            loops: self.loops,
            actions: self.actions.deep_view(),
        }
    }
}

impl AnimationClip {
    /// The fields on the wire, one behind the other.
    #[verifier::opaque]
    pub open spec fn fields(c: Cursor) -> (AnimationClipView, Cursor) {
        let (kind, c1) = c.string();
        let (key, c2) = c1.string();
        let (speed, c3) = Single::layout(c2);
        let (blend_time, c4) = Single::layout(c3);
        let (loops, c5) = c4.bool();
        let (actions, c6) = counted::<AnimationAction>(c5);
        (AnimationClipView { kind, key, speed, blend_time, loops, actions }, c6)
    }

    /// The value at `c`: nothing from a failed cursor.
    pub open spec fn layout(c: Cursor) -> (AnimationClipView, Cursor) {
        if c.err is Some {
            (arbitrary(), c)
        } else {
            Self::fields(c)
        }
    }

    /// Reads one `AnimationClip`.
    pub fn read(reader: &mut Reader) -> (res: Result<Self, DecodeError>)
        ensures
            follows(res, final(reader)@, Self::layout(old(reader)@)),
    {
        proof {
            reveal(AnimationClip::fields);
        }
        let kind = reader.read_7bit_length_string()?;
        let key = reader.read_7bit_length_string()?;
        let speed = Single::read(reader)?;
        let blend_time = Single::read(reader)?;
        let loops = reader.read_bool()?;
        let actions = read_counted::<AnimationAction>(reader)?;
        Ok(AnimationClip { kind, key, speed, blend_time, loops, actions })
    }
}

impl Decode for AnimationClip {
    open spec fn wire(c: Cursor) -> (AnimationClipView, Cursor) {
        AnimationClip::layout(c)
    }

    proof fn lemma_wire_failed(c: Cursor) {
    }

    fn decode(r: &mut Reader) -> (res: Result<Self, DecodeError>) {
        AnimationClip::read(r)
    }
}

/// The clips of one weapon class.
#[derive(Clone, PartialEq, Eq, Debug)]
pub struct AnimationSet {
    pub clips: Vec<AnimationClip>,
}

/// `AnimationSet` as the format states it.
pub struct AnimationSetView {
    pub clips: Seq<AnimationClipView>,
}

impl DeepView for AnimationSet {
    type V = AnimationSetView;

    open spec fn deep_view(&self) -> AnimationSetView {
        AnimationSetView {
            clips: self.clips.deep_view(),
        }
    }
}

impl AnimationSet {
    /// The fields on the wire, one behind the other.
    #[verifier::opaque]
    pub open spec fn fields(c: Cursor) -> (AnimationSetView, Cursor) {
        let (clips, c1) = counted::<AnimationClip>(c);
        (AnimationSetView { clips }, c1)
    }

    /// The value at `c`: nothing from a failed cursor.
    pub open spec fn layout(c: Cursor) -> (AnimationSetView, Cursor) {
        if c.err is Some {
            (arbitrary(), c)
        } else {
            Self::fields(c)
        }
    }

    /// Reads one `AnimationSet`.
    pub fn read(reader: &mut Reader) -> (res: Result<Self, DecodeError>)
        ensures
            follows(res, final(reader)@, Self::layout(old(reader)@)),
    {
        proof {
            reveal(AnimationSet::fields);
        }
        let clips = read_counted::<AnimationClip>(reader)?;
        Ok(AnimationSet { clips })
    }
}

impl Decode for AnimationSet {
    open spec fn wire(c: Cursor) -> (AnimationSetView, Cursor) {
        AnimationSet::layout(c)
    }

    proof fn lemma_wire_failed(c: Cursor) {
    }

    fn decode(r: &mut Reader) -> (res: Result<Self, DecodeError>) {
        AnimationSet::read(r)
    }
}

} // verus!
