//! Auras and buffs.
use vstd::prelude::*;
use crate::decode::Decode;
use crate::error::{DecodeError, DecodeErrorView, Selector};
use crate::reader::{Cursor, follows, Reader};
use crate::single::Single;
use crate::content::attack_property::AttackProperties;
use crate::content::color::Color;
use crate::content::element::Element;
use crate::content::faction::Factions;
use crate::content::resistance::Resistance;

verus! {

broadcast use crate::reader::group_failed;

/// Whom an aura falls on.
#[derive(Clone, Copy, PartialEq, Eq, Structural, Debug)]
pub enum AuraTarget {
    Friendly,
    FriendlyButSelf,
    Enemy,
    All,
    AllButSelf,
    OnlySelf,
    Type,
    TypeButSelf,
    Faction,
    FactionButSelf,
}

impl DeepView for AuraTarget {
    type V = AuraTarget;

    open spec fn deep_view(&self) -> AuraTarget {
        *self
    }
}

impl AuraTarget {
    /// The variant that a number stands for, if any.
    pub open spec fn of(value: u8) -> Option<AuraTarget> {
        if value == 0 {
            Some(AuraTarget::Friendly)
        } else if value == 1 {
            Some(AuraTarget::FriendlyButSelf)
        } else if value == 2 {
            Some(AuraTarget::Enemy)
        } else if value == 3 {
            Some(AuraTarget::All)
        } else if value == 4 {
            Some(AuraTarget::AllButSelf)
        } else if value == 5 {
            Some(AuraTarget::OnlySelf)
        } else if value == 6 {
            Some(AuraTarget::Type)
        } else if value == 7 {
            Some(AuraTarget::TypeButSelf)
        } else if value == 8 {
            Some(AuraTarget::Faction)
        } else if value == 9 {
            Some(AuraTarget::FactionButSelf)
        } else {
            None
        }
    }

    /// The variant that `value` stands for, if any.
    pub fn from_repr(value: u8) -> (kind: Option<Self>)
        ensures
            kind == Self::of(value),
    {
        if value == 0 {
            Some(AuraTarget::Friendly)
        } else if value == 1 {
            Some(AuraTarget::FriendlyButSelf)
        } else if value == 2 {
            Some(AuraTarget::Enemy)
        } else if value == 3 {
            Some(AuraTarget::All)
        } else if value == 4 {
            Some(AuraTarget::AllButSelf)
        } else if value == 5 {
            Some(AuraTarget::OnlySelf)
        } else if value == 6 {
            Some(AuraTarget::Type)
        } else if value == 7 {
            Some(AuraTarget::TypeButSelf)
        } else if value == 8 {
            Some(AuraTarget::Faction)
        } else if value == 9 {
            Some(AuraTarget::FactionButSelf)
        } else {
            None
        }
    }

    /// One byte on the wire.
    pub open spec fn layout(c: Cursor) -> (AuraTarget, Cursor) {
        let (raw, c1) = c.u8();
        if c1.err is Some {
            (arbitrary(), c1)
        } else {
            match Self::of(raw) {
                Some(kind) => (kind, c1),
                None => (
                    arbitrary(),
                    c1.fail(DecodeErrorView::UnknownKind { selector: Selector::AuraTarget, value: raw as i32 }),
                ),
            }
        }
    }

    /// Reads one `AuraTarget`.
    pub fn read(reader: &mut Reader) -> (res: Result<Self, DecodeError>)
        ensures
            follows(res, final(reader)@, Self::layout(old(reader)@)),
    {
        let raw = reader.read_u8()?;
        match Self::from_repr(raw) {
            Some(kind) => Ok(kind),
            None => Err(DecodeError::UnknownKind { selector: Selector::AuraTarget, value: raw as i32 }),
        }
    }
}

impl Decode for AuraTarget {
    open spec fn wire(c: Cursor) -> (AuraTarget, Cursor) {
        AuraTarget::layout(c)
    }

    proof fn lemma_wire_failed(c: Cursor) {
    }

    fn decode(r: &mut Reader) -> (res: Result<Self, DecodeError>) {
        AuraTarget::read(r)
    }
}

/// How an aura or a buff looks.
#[derive(Clone, Copy, PartialEq, Eq, Structural, Debug)]
pub enum VisualCategory {
    Nothing,
    Offensive,
    Defensive,
    Special,
}

impl DeepView for VisualCategory {
    type V = VisualCategory;

    open spec fn deep_view(&self) -> VisualCategory {
        *self
    }
}

impl VisualCategory {
    /// The variant that a number stands for, if any.
    pub open spec fn of(value: u8) -> Option<VisualCategory> {
        if value == 0 {
            Some(VisualCategory::Nothing)
        } else if value == 1 {
            Some(VisualCategory::Offensive)
        } else if value == 2 {
            Some(VisualCategory::Defensive)
        } else if value == 3 {
            Some(VisualCategory::Special)
        } else {
            None
        }
    }

    /// The variant that `value` stands for, if any.
    pub fn from_repr(value: u8) -> (kind: Option<Self>)
        ensures
            kind == Self::of(value),
    {
        if value == 0 {
            Some(VisualCategory::Nothing)
        } else if value == 1 {
            Some(VisualCategory::Offensive)
        } else if value == 2 {
            Some(VisualCategory::Defensive)
        } else if value == 3 {
            Some(VisualCategory::Special)
        } else {
            None
        }
    }

    /// One byte on the wire.
    pub open spec fn layout(c: Cursor) -> (VisualCategory, Cursor) {
        let (raw, c1) = c.u8();
        if c1.err is Some {
            (arbitrary(), c1)
        } else {
            match Self::of(raw) {
                Some(kind) => (kind, c1),
                None => (
                    arbitrary(),
                    c1.fail(DecodeErrorView::UnknownKind { selector: Selector::VisualCategory, value: raw as i32 }),
                ),
            }
        }
    }

    /// Reads one `VisualCategory`.
    pub fn read(reader: &mut Reader) -> (res: Result<Self, DecodeError>)
        ensures
            follows(res, final(reader)@, Self::layout(old(reader)@)),
    {
        let raw = reader.read_u8()?;
        match Self::from_repr(raw) {
            Some(kind) => Ok(kind),
            None => Err(DecodeError::UnknownKind { selector: Selector::VisualCategory, value: raw as i32 }),
        }
    }
}

impl Decode for VisualCategory {
    open spec fn wire(c: Cursor) -> (VisualCategory, Cursor) {
        VisualCategory::layout(c)
    }

    proof fn lemma_wire_failed(c: Cursor) {
    }

    fn decode(r: &mut Reader) -> (res: Result<Self, DecodeError>) {
        VisualCategory::read(r)
    }
}

/// More damage of some elements.
#[derive(Clone, Copy, PartialEq, Eq, Structural, Debug)]
pub struct BoostDamageBuff {
    pub attack_properties: AttackProperties,
    pub elements: Element,
    pub amount: Single,
    pub magnitude: Single,
}

impl DeepView for BoostDamageBuff {
    type V = BoostDamageBuff;

    open spec fn deep_view(&self) -> BoostDamageBuff {
        *self
    }
}

impl BoostDamageBuff {
    /// The fields on the wire, one behind the other.
    #[verifier::opaque]
    pub open spec fn fields(c: Cursor) -> (BoostDamageBuff, Cursor) {
        let (attack_properties, c1) = AttackProperties::layout(c);
        let (elements, c2) = Element::layout(c1);
        let (amount, c3) = Single::layout(c2);
        let (magnitude, c4) = Single::layout(c3);
        (BoostDamageBuff { attack_properties, elements, amount, magnitude }, c4)
    }

    /// The value at `c`: nothing from a failed cursor.
    pub open spec fn layout(c: Cursor) -> (BoostDamageBuff, Cursor) {
        if c.err is Some {
            (arbitrary(), c)
        } else {
            Self::fields(c)
        }
    }

    /// Reads one `BoostDamageBuff`.
    pub fn read(reader: &mut Reader) -> (res: Result<Self, DecodeError>)
        ensures
            follows(res, final(reader)@, Self::layout(old(reader)@)),
    {
        proof {
            reveal(BoostDamageBuff::fields);
        }
        let attack_properties = AttackProperties::read(reader)?;
        let elements = Element::read(reader)?;
        let amount = Single::read(reader)?;
        let magnitude = Single::read(reader)?;
        Ok(BoostDamageBuff { attack_properties, elements, amount, magnitude })
    }
}

impl Decode for BoostDamageBuff {
    open spec fn wire(c: Cursor) -> (BoostDamageBuff, Cursor) {
        BoostDamageBuff::layout(c)
    }

    proof fn lemma_wire_failed(c: Cursor) {
    }

    fn decode(r: &mut Reader) -> (res: Result<Self, DecodeError>) {
        BoostDamageBuff::read(r)
    }
}

/// Damage over time.
#[derive(Clone, Copy, PartialEq, Eq, Structural, Debug)]
pub struct DealDamageBuff {
    pub attack_properties: AttackProperties,
    pub elements: Element,
    pub amount: Single,
    pub magnitude: Single,
}

impl DeepView for DealDamageBuff {
    type V = DealDamageBuff;

    open spec fn deep_view(&self) -> DealDamageBuff {
        *self
    }
}

impl DealDamageBuff {
    /// The fields on the wire, one behind the other.
    #[verifier::opaque]
    pub open spec fn fields(c: Cursor) -> (DealDamageBuff, Cursor) {
        let (attack_properties, c1) = AttackProperties::layout(c);
        let (elements, c2) = Element::layout(c1);
        let (amount, c3) = Single::layout(c2);
        let (magnitude, c4) = Single::layout(c3);
        (DealDamageBuff { attack_properties, elements, amount, magnitude }, c4)
    }

    /// The value at `c`: nothing from a failed cursor.
    pub open spec fn layout(c: Cursor) -> (DealDamageBuff, Cursor) {
        if c.err is Some {
            (arbitrary(), c)
        } else {
            Self::fields(c)
        }
    }

    /// Reads one `DealDamageBuff`.
    pub fn read(reader: &mut Reader) -> (res: Result<Self, DecodeError>)
        ensures
            follows(res, final(reader)@, Self::layout(old(reader)@)),
    {
        proof {
            reveal(DealDamageBuff::fields);
        }
        let attack_properties = AttackProperties::read(reader)?;
        let elements = Element::read(reader)?;
        let amount = Single::read(reader)?;
        let magnitude = Single::read(reader)?;
        Ok(DealDamageBuff { attack_properties, elements, amount, magnitude })
    }
}

impl Decode for DealDamageBuff {
    open spec fn wire(c: Cursor) -> (DealDamageBuff, Cursor) {
        DealDamageBuff::layout(c)
    }

    proof fn lemma_wire_failed(c: Cursor) {
    }

    fn decode(r: &mut Reader) -> (res: Result<Self, DecodeError>) {
        DealDamageBuff::read(r)
    }
}

/// A resistance.
#[derive(Clone, Copy, PartialEq, Eq, Structural, Debug)]
pub struct ResistanceBuff {
    pub resistance: Resistance,
}

impl DeepView for ResistanceBuff {
    type V = ResistanceBuff;

    open spec fn deep_view(&self) -> ResistanceBuff {
        *self
    }
}

impl ResistanceBuff {
    /// The fields on the wire, one behind the other.
    #[verifier::opaque]
    pub open spec fn fields(c: Cursor) -> (ResistanceBuff, Cursor) {
        let (resistance, c1) = Resistance::layout(c);
        (ResistanceBuff { resistance }, c1)
    }

    /// The value at `c`: nothing from a failed cursor.
    pub open spec fn layout(c: Cursor) -> (ResistanceBuff, Cursor) {
        if c.err is Some {
            (arbitrary(), c)
        } else {
            Self::fields(c)
        }
    }

    /// Reads one `ResistanceBuff`.
    pub fn read(reader: &mut Reader) -> (res: Result<Self, DecodeError>)
        ensures
            follows(res, final(reader)@, Self::layout(old(reader)@)),
    {
        proof {
            reveal(ResistanceBuff::fields);
        }
        let resistance = Resistance::read(reader)?;
        Ok(ResistanceBuff { resistance })
    }
}

impl Decode for ResistanceBuff {
    open spec fn wire(c: Cursor) -> (ResistanceBuff, Cursor) {
        ResistanceBuff::layout(c)
    }

    proof fn lemma_wire_failed(c: Cursor) {
    }

    fn decode(r: &mut Reader) -> (res: Result<Self, DecodeError>) {
        ResistanceBuff::read(r)
    }
}

/// Not dying: no fields.
#[derive(Clone, Copy, PartialEq, Eq, Structural, Debug)]
pub struct UndyingBuff;

impl DeepView for UndyingBuff {
    type V = UndyingBuff;

    open spec fn deep_view(&self) -> UndyingBuff {
        *self
    }
}

/// A boost.
#[derive(Clone, Copy, PartialEq, Eq, Structural, Debug)]
pub struct BoostBuff {
    pub amount: Single,
}

impl DeepView for BoostBuff {
    type V = BoostBuff;

    open spec fn deep_view(&self) -> BoostBuff {
        *self
    }
}

impl BoostBuff {
    /// The fields on the wire, one behind the other.
    #[verifier::opaque]
    pub open spec fn fields(c: Cursor) -> (BoostBuff, Cursor) {
        let (amount, c1) = Single::layout(c);
        (BoostBuff { amount }, c1)
    }

    /// The value at `c`: nothing from a failed cursor.
    pub open spec fn layout(c: Cursor) -> (BoostBuff, Cursor) {
        if c.err is Some {
            (arbitrary(), c)
        } else {
            Self::fields(c)
        }
    }

    /// Reads one `BoostBuff`.
    pub fn read(reader: &mut Reader) -> (res: Result<Self, DecodeError>)
        ensures
            follows(res, final(reader)@, Self::layout(old(reader)@)),
    {
        proof {
            reveal(BoostBuff::fields);
        }
        let amount = Single::read(reader)?;
        Ok(BoostBuff { amount })
    }
}

impl Decode for BoostBuff {
    open spec fn wire(c: Cursor) -> (BoostBuff, Cursor) {
        BoostBuff::layout(c)
    }

    proof fn lemma_wire_failed(c: Cursor) {
    }

    fn decode(r: &mut Reader) -> (res: Result<Self, DecodeError>) {
        BoostBuff::read(r)
    }
}

/// Less aggression drawn.
#[derive(Clone, Copy, PartialEq, Eq, Structural, Debug)]
pub struct ReduceAggroBuff {
    pub amount: Single,
}

impl DeepView for ReduceAggroBuff {
    type V = ReduceAggroBuff;

    open spec fn deep_view(&self) -> ReduceAggroBuff {
        *self
    }
}

impl ReduceAggroBuff {
    /// The fields on the wire, one behind the other.
    #[verifier::opaque]
    pub open spec fn fields(c: Cursor) -> (ReduceAggroBuff, Cursor) {
        let (amount, c1) = Single::layout(c);
        (ReduceAggroBuff { amount }, c1)
    }

    /// The value at `c`: nothing from a failed cursor.
    pub open spec fn layout(c: Cursor) -> (ReduceAggroBuff, Cursor) {
        if c.err is Some {
            (arbitrary(), c)
        } else {
            Self::fields(c)
        }
    }

    /// Reads one `ReduceAggroBuff`.
    pub fn read(reader: &mut Reader) -> (res: Result<Self, DecodeError>)
        ensures
            follows(res, final(reader)@, Self::layout(old(reader)@)),
    {
        proof {
            reveal(ReduceAggroBuff::fields);
        }
        let amount = Single::read(reader)?;
        Ok(ReduceAggroBuff { amount })
    }
}

impl Decode for ReduceAggroBuff {
    open spec fn wire(c: Cursor) -> (ReduceAggroBuff, Cursor) {
        ReduceAggroBuff::layout(c)
    }

    proof fn lemma_wire_failed(c: Cursor) {
    }

    fn decode(r: &mut Reader) -> (res: Result<Self, DecodeError>) {
        ReduceAggroBuff::read(r)
    }
}

/// Changed hit points.
#[derive(Clone, Copy, PartialEq, Eq, Structural, Debug)]
pub struct ModifyHitPointsBuff {
    pub multiplier: Single,
    pub modifier: Single,
}

impl DeepView for ModifyHitPointsBuff {
    type V = ModifyHitPointsBuff;

    open spec fn deep_view(&self) -> ModifyHitPointsBuff {
        *self
    }
}

impl ModifyHitPointsBuff {
    /// The fields on the wire, one behind the other.
    #[verifier::opaque]
    pub open spec fn fields(c: Cursor) -> (ModifyHitPointsBuff, Cursor) {
        let (multiplier, c1) = Single::layout(c);
        let (modifier, c2) = Single::layout(c1);
        (ModifyHitPointsBuff { multiplier, modifier }, c2)
    }

    /// The value at `c`: nothing from a failed cursor.
    pub open spec fn layout(c: Cursor) -> (ModifyHitPointsBuff, Cursor) {
        if c.err is Some {
            (arbitrary(), c)
        } else {
            Self::fields(c)
        }
    }

    /// Reads one `ModifyHitPointsBuff`.
    pub fn read(reader: &mut Reader) -> (res: Result<Self, DecodeError>)
        ensures
            follows(res, final(reader)@, Self::layout(old(reader)@)),
    {
        proof {
            reveal(ModifyHitPointsBuff::fields);
        }
        let multiplier = Single::read(reader)?;
        let modifier = Single::read(reader)?;
        Ok(ModifyHitPointsBuff { multiplier, modifier })
    }
}

impl Decode for ModifyHitPointsBuff {
    open spec fn wire(c: Cursor) -> (ModifyHitPointsBuff, Cursor) {
        ModifyHitPointsBuff::layout(c)
    }

    proof fn lemma_wire_failed(c: Cursor) {
    }

    fn decode(r: &mut Reader) -> (res: Result<Self, DecodeError>) {
        ModifyHitPointsBuff::read(r)
    }
}

/// Changed duration of spells.
#[derive(Clone, Copy, PartialEq, Eq, Structural, Debug)]
pub struct ModifySpellDurationBuff {
    pub multiplier: Single,
    pub modifier: Single,
}

impl DeepView for ModifySpellDurationBuff {
    type V = ModifySpellDurationBuff;

    open spec fn deep_view(&self) -> ModifySpellDurationBuff {
        *self
    }
}

impl ModifySpellDurationBuff {
    /// The fields on the wire, one behind the other.
    #[verifier::opaque]
    pub open spec fn fields(c: Cursor) -> (ModifySpellDurationBuff, Cursor) {
        let (multiplier, c1) = Single::layout(c);
        let (modifier, c2) = Single::layout(c1);
        (ModifySpellDurationBuff { multiplier, modifier }, c2)
    }

    /// The value at `c`: nothing from a failed cursor.
    pub open spec fn layout(c: Cursor) -> (ModifySpellDurationBuff, Cursor) {
        if c.err is Some {
            (arbitrary(), c)
        } else {
            Self::fields(c)
        }
    }

    /// Reads one `ModifySpellDurationBuff`.
    pub fn read(reader: &mut Reader) -> (res: Result<Self, DecodeError>)
        ensures
            follows(res, final(reader)@, Self::layout(old(reader)@)),
    {
        proof {
            reveal(ModifySpellDurationBuff::fields);
        }
        let multiplier = Single::read(reader)?;
        let modifier = Single::read(reader)?;
        Ok(ModifySpellDurationBuff { multiplier, modifier })
    }
}

impl Decode for ModifySpellDurationBuff {
    open spec fn wire(c: Cursor) -> (ModifySpellDurationBuff, Cursor) {
        ModifySpellDurationBuff::layout(c)
    }

    proof fn lemma_wire_failed(c: Cursor) {
    }

    fn decode(r: &mut Reader) -> (res: Result<Self, DecodeError>) {
        ModifySpellDurationBuff::read(r)
    }
}

/// Changed range of spells.
#[derive(Clone, Copy, PartialEq, Eq, Structural, Debug)]
pub struct ModifySpellRangeBuff {
    pub multiplier: Single,
    pub modifier: Single,
}

impl DeepView for ModifySpellRangeBuff {
    type V = ModifySpellRangeBuff;

    open spec fn deep_view(&self) -> ModifySpellRangeBuff {
        *self
    }
}

impl ModifySpellRangeBuff {
    /// The fields on the wire, one behind the other.
    #[verifier::opaque]
    pub open spec fn fields(c: Cursor) -> (ModifySpellRangeBuff, Cursor) {
        let (multiplier, c1) = Single::layout(c);
        let (modifier, c2) = Single::layout(c1);
        (ModifySpellRangeBuff { multiplier, modifier }, c2)
    }

    /// The value at `c`: nothing from a failed cursor.
    pub open spec fn layout(c: Cursor) -> (ModifySpellRangeBuff, Cursor) {
        if c.err is Some {
            (arbitrary(), c)
        } else {
            Self::fields(c)
        }
    }

    /// Reads one `ModifySpellRangeBuff`.
    pub fn read(reader: &mut Reader) -> (res: Result<Self, DecodeError>)
        ensures
            follows(res, final(reader)@, Self::layout(old(reader)@)),
    {
        proof {
            reveal(ModifySpellRangeBuff::fields);
        }
        let multiplier = Single::read(reader)?;
        let modifier = Single::read(reader)?;
        Ok(ModifySpellRangeBuff { multiplier, modifier })
    }
}

impl Decode for ModifySpellRangeBuff {
    open spec fn wire(c: Cursor) -> (ModifySpellRangeBuff, Cursor) {
        ModifySpellRangeBuff::layout(c)
    }

    proof fn lemma_wire_failed(c: Cursor) {
    }

    fn decode(r: &mut Reader) -> (res: Result<Self, DecodeError>) {
        ModifySpellRangeBuff::read(r)
    }
}

/// What a buff is, with the fields of its kind.
#[derive(Clone, Copy, PartialEq, Eq, Structural, Debug)]
pub enum BuffKind {
    BoostDamage(BoostDamageBuff),
    DealDamage(DealDamageBuff),
    Resistance(ResistanceBuff),
    Undying(UndyingBuff),
    Boost(BoostBuff),
    ReduceAggro(ReduceAggroBuff),
    ModifyHitPoints(ModifyHitPointsBuff),
    ModifySpellDuration(ModifySpellDurationBuff),
    ModifySpellRange(ModifySpellRangeBuff),
}

impl DeepView for BuffKind {
    type V = BuffKind;

    open spec fn deep_view(&self) -> BuffKind {
        *self
    }
}

/// A buff. The byte of its kind leads, the common fields follow, and the
/// fields of the kind close the record.
#[derive(Clone, PartialEq, Eq, Debug)]
pub struct Buff {
    pub kind: BuffKind,
    pub visual_category: VisualCategory,
    pub color: Color,
    pub time: Single,
    pub effect: String,
}

/// `Buff` as the format states it.
pub struct BuffView {
    pub kind: BuffKind,
    pub visual_category: VisualCategory,
    pub color: Color,
    pub time: Single,
    pub effect: Seq<char>,
}

impl DeepView for Buff {
    type V = BuffView;

    open spec fn deep_view(&self) -> BuffView {
        BuffView {
            kind: self.kind,
            visual_category: self.visual_category,
            color: self.color,
            time: self.time,
            effect: self.effect.deep_view(),
        }
    }
}

impl Buff {
    /// The fields on the wire, one behind the other.
    #[verifier::opaque]
    pub open spec fn fields(c: Cursor) -> (BuffView, Cursor) {
        let (tag, c1) = c.u8();
        let (visual_category, c2) = VisualCategory::layout(c1);
        let (color, c3) = Color::layout(c2);
        let (time, c4) = Single::layout(c3);
        let (effect, c5) = c4.string();
        let (kind, c6) = if tag == 0 {
            let (payload, after) = BoostDamageBuff::layout(c5);
            (BuffKind::BoostDamage(payload), after)
        } else if tag == 1 {
            let (payload, after) = DealDamageBuff::layout(c5);
            (BuffKind::DealDamage(payload), after)
        } else if tag == 2 {
            let (payload, after) = ResistanceBuff::layout(c5);
            (BuffKind::Resistance(payload), after)
        } else if tag == 3 {
            (BuffKind::Undying(UndyingBuff), c5)
        } else if tag == 4 {
            let (payload, after) = BoostBuff::layout(c5);
            (BuffKind::Boost(payload), after)
        } else if tag == 5 {
            let (payload, after) = ReduceAggroBuff::layout(c5);
            (BuffKind::ReduceAggro(payload), after)
        } else if tag == 6 {
            let (payload, after) = ModifyHitPointsBuff::layout(c5);
            (BuffKind::ModifyHitPoints(payload), after)
        } else if tag == 7 {
            let (payload, after) = ModifySpellDurationBuff::layout(c5);
            (BuffKind::ModifySpellDuration(payload), after)
        } else if tag == 8 {
            let (payload, after) = ModifySpellRangeBuff::layout(c5);
            (BuffKind::ModifySpellRange(payload), after)
        } else {
            (arbitrary(), c5.fail(DecodeErrorView::UnknownKind { selector: Selector::BuffKind, value: tag as i32 }))
        };
        (BuffView { kind, visual_category, color, time, effect }, c6)
    }

    /// The value at `c`: nothing from a failed cursor.
    pub open spec fn layout(c: Cursor) -> (BuffView, Cursor) {
        if c.err is Some {
            (arbitrary(), c)
        } else {
            Self::fields(c)
        }
    }

    /// Reads one `Buff`.
    pub fn read(reader: &mut Reader) -> (res: Result<Self, DecodeError>)
        ensures
            follows(res, final(reader)@, Self::layout(old(reader)@)),
    {
        proof {
            reveal(Buff::fields);
        }
        let tag = reader.read_u8()?;
        let visual_category = VisualCategory::read(reader)?;
        let color = Color::read(reader)?;
        let time = Single::read(reader)?;
        let effect = reader.read_7bit_length_string()?;
        let kind = if tag == 0 {
            BuffKind::BoostDamage(BoostDamageBuff::read(reader)?)
        } else if tag == 1 {
            BuffKind::DealDamage(DealDamageBuff::read(reader)?)
        } else if tag == 2 {
            BuffKind::Resistance(ResistanceBuff::read(reader)?)
        } else if tag == 3 {
            BuffKind::Undying(UndyingBuff)
        } else if tag == 4 {
            BuffKind::Boost(BoostBuff::read(reader)?)
        } else if tag == 5 {
            BuffKind::ReduceAggro(ReduceAggroBuff::read(reader)?)
        } else if tag == 6 {
            BuffKind::ModifyHitPoints(ModifyHitPointsBuff::read(reader)?)
        } else if tag == 7 {
            BuffKind::ModifySpellDuration(ModifySpellDurationBuff::read(reader)?)
        } else if tag == 8 {
            BuffKind::ModifySpellRange(ModifySpellRangeBuff::read(reader)?)
        } else {
            return Err(DecodeError::UnknownKind { selector: Selector::BuffKind, value: tag as i32 });
        };
        Ok(Buff { kind, visual_category, color, time, effect })
    }
}

impl Decode for Buff {
    open spec fn wire(c: Cursor) -> (BuffView, Cursor) {
        Buff::layout(c)
    }

    proof fn lemma_wire_failed(c: Cursor) {
    }

    fn decode(r: &mut Reader) -> (res: Result<Self, DecodeError>) {
        Buff::read(r)
    }
}

/// An aura that lays a buff.
#[derive(Clone, PartialEq, Eq, Debug)]
pub struct BuffAura {
    pub buff: Buff,
}

/// `BuffAura` as the format states it.
pub struct BuffAuraView {
    pub buff: BuffView,
}

impl DeepView for BuffAura {
    type V = BuffAuraView;

    open spec fn deep_view(&self) -> BuffAuraView {
        BuffAuraView {
            buff: self.buff.deep_view(),
        }
    }
}

impl BuffAura {
    /// The fields on the wire, one behind the other.
    #[verifier::opaque]
    pub open spec fn fields(c: Cursor) -> (BuffAuraView, Cursor) {
        let (buff, c1) = Buff::layout(c);
        (BuffAuraView { buff }, c1)
    }

    /// The value at `c`: nothing from a failed cursor.
    pub open spec fn layout(c: Cursor) -> (BuffAuraView, Cursor) {
        if c.err is Some {
            (arbitrary(), c)
        } else {
            Self::fields(c)
        }
    }

    /// Reads one `BuffAura`.
    pub fn read(reader: &mut Reader) -> (res: Result<Self, DecodeError>)
        ensures
            follows(res, final(reader)@, Self::layout(old(reader)@)),
    {
        proof {
            reveal(BuffAura::fields);
        }
        let buff = Buff::read(reader)?;
        Ok(BuffAura { buff })
    }
}

impl Decode for BuffAura {
    open spec fn wire(c: Cursor) -> (BuffAuraView, Cursor) {
        BuffAura::layout(c)
    }

    proof fn lemma_wire_failed(c: Cursor) {
    }

    fn decode(r: &mut Reader) -> (res: Result<Self, DecodeError>) {
        BuffAura::read(r)
    }
}

/// An aura that deflects.
#[derive(Clone, Copy, PartialEq, Eq, Structural, Debug)]
pub struct DeflectAura {
    pub strength: Single,
}

impl DeepView for DeflectAura {
    type V = DeflectAura;

    open spec fn deep_view(&self) -> DeflectAura {
        *self
    }
}

impl DeflectAura {
    /// The fields on the wire, one behind the other.
    #[verifier::opaque]
    pub open spec fn fields(c: Cursor) -> (DeflectAura, Cursor) {
        let (strength, c1) = Single::layout(c);
        (DeflectAura { strength }, c1)
    }

    /// The value at `c`: nothing from a failed cursor.
    pub open spec fn layout(c: Cursor) -> (DeflectAura, Cursor) {
        if c.err is Some {
            (arbitrary(), c)
        } else {
            Self::fields(c)
        }
    }

    /// Reads one `DeflectAura`.
    pub fn read(reader: &mut Reader) -> (res: Result<Self, DecodeError>)
        ensures
            follows(res, final(reader)@, Self::layout(old(reader)@)),
    {
        proof {
            reveal(DeflectAura::fields);
        }
        let strength = Single::read(reader)?;
        Ok(DeflectAura { strength })
    }
}

impl Decode for DeflectAura {
    open spec fn wire(c: Cursor) -> (DeflectAura, Cursor) {
        DeflectAura::layout(c)
    }

    proof fn lemma_wire_failed(c: Cursor) {
    }

    fn decode(r: &mut Reader) -> (res: Result<Self, DecodeError>) {
        DeflectAura::read(r)
    }
}

/// What an aura is, with the fields of its kind.
#[derive(Clone, PartialEq, Eq, Debug)]
pub enum AuraKind {
    Buff(BuffAura),
    Deflect(DeflectAura),
}

/// `AuraKind` as the format states it.
pub enum AuraKindView {
    Buff(BuffAuraView),
    Deflect(DeflectAura),
}

impl DeepView for AuraKind {
    type V = AuraKindView;

    open spec fn deep_view(&self) -> AuraKindView {
        match self {
            AuraKind::Buff(payload) => AuraKindView::Buff(payload.deep_view()),
            AuraKind::Deflect(payload) => AuraKindView::Deflect(*payload),
        }
    }
}

/// An aura. The byte of its kind is the second field, and the fields of
/// the kind close the record. The kinds 2, 3 and 4 have no layout and
/// are refused like any number outside the set.
#[derive(Clone, PartialEq, Eq, Debug)]
pub struct Aura {
    pub kind: AuraKind,
    pub target: AuraTarget,
    pub visual_category: VisualCategory,
    pub color: Color,
    pub effect: String,
    pub duration: Single,
    pub radius: Single,
    pub types: String,
    pub factions: Factions,
}

/// `Aura` as the format states it.
pub struct AuraView {
    pub kind: AuraKindView,
    pub target: AuraTarget,
    pub visual_category: VisualCategory,
    pub color: Color,
    pub effect: Seq<char>,
    pub duration: Single,
    pub radius: Single,
    pub types: Seq<char>,
    pub factions: Factions,
}

impl DeepView for Aura {
    type V = AuraView;

    open spec fn deep_view(&self) -> AuraView {
        AuraView {
            kind: self.kind.deep_view(),
            target: self.target,
            visual_category: self.visual_category,
            color: self.color,
            effect: self.effect.deep_view(),
            duration: self.duration,
            radius: self.radius,
            types: self.types.deep_view(),
            factions: self.factions,
        }
    }
}

impl Aura {
    /// The fields on the wire, one behind the other.
    #[verifier::opaque]
    pub open spec fn fields(c: Cursor) -> (AuraView, Cursor) {
        let (target, c1) = AuraTarget::layout(c);
        let (tag, c2) = c1.u8();
        let (visual_category, c3) = VisualCategory::layout(c2);
        let (color, c4) = Color::layout(c3);
        let (effect, c5) = c4.string();
        let (duration, c6) = Single::layout(c5);
        let (radius, c7) = Single::layout(c6);
        let (types, c8) = c7.string();
        let (factions, c9) = Factions::layout(c8);
        let (kind, c10) = if tag == 0 {
            let (payload, after) = BuffAura::layout(c9);
            (AuraKindView::Buff(payload), after)
        } else if tag == 1 {
            let (payload, after) = DeflectAura::layout(c9);
            (AuraKindView::Deflect(payload), after)
        } else {
            (arbitrary(), c9.fail(DecodeErrorView::UnknownKind { selector: Selector::AuraKind, value: tag as i32 }))
        };
        (AuraView { kind, target, visual_category, color, effect, duration, radius, types, factions }, c10)
    }

    /// The value at `c`: nothing from a failed cursor.
    pub open spec fn layout(c: Cursor) -> (AuraView, Cursor) {
        if c.err is Some {
            (arbitrary(), c)
        } else {
            Self::fields(c)
        }
    }

    /// Reads one `Aura`.
    pub fn read(reader: &mut Reader) -> (res: Result<Self, DecodeError>)
        ensures
            follows(res, final(reader)@, Self::layout(old(reader)@)),
    {
        proof {
            reveal(Aura::fields);
        }
        let target = AuraTarget::read(reader)?;
        let tag = reader.read_u8()?;
        let visual_category = VisualCategory::read(reader)?;
        let color = Color::read(reader)?;
        let effect = reader.read_7bit_length_string()?;
        let duration = Single::read(reader)?;
        let radius = Single::read(reader)?;
        let types = reader.read_7bit_length_string()?;
        let factions = Factions::read(reader)?;
        let kind = if tag == 0 {
            AuraKind::Buff(BuffAura::read(reader)?)
        } else if tag == 1 {
            AuraKind::Deflect(DeflectAura::read(reader)?)
        } else {
            return Err(DecodeError::UnknownKind { selector: Selector::AuraKind, value: tag as i32 });
        };
        Ok(Aura { kind, target, visual_category, color, effect, duration, radius, types, factions })
    }
}

impl Decode for Aura {
    open spec fn wire(c: Cursor) -> (AuraView, Cursor) {
        Aura::layout(c)
    }

    proof fn lemma_wire_failed(c: Cursor) {
    }

    fn decode(r: &mut Reader) -> (res: Result<Self, DecodeError>) {
        Aura::read(r)
    }
}

} // verus!
