//! Events and the conditions that set them off.
use vstd::prelude::*;
use crate::decode::{Decode, counted, read_counted};
use crate::error::{DecodeError, DecodeErrorView, Selector};
use crate::reader::{Cursor, follows, Reader};
use crate::single::Single;
use crate::content::ai::{Order, ReactionTriggers};
use crate::content::attack_property::AttackProperties;
use crate::content::element::Element;
use crate::content::light::Light;
use crate::content::sound::Bank;
use crate::content::vector3::Vector3;

verus! {

broadcast use {crate::reader::group_failed, crate::decode::group_failed_items};

/// Damage to what was hit.
#[derive(Clone, Copy, PartialEq, Eq, Structural, Debug)]
pub struct DamageEvent {
    pub attack_properties: AttackProperties,
    pub elements: Element,
    pub amount: Single,
    pub magnitude: Single,
    pub velocity_based: bool,
}

impl DeepView for DamageEvent {
    type V = DamageEvent;

    open spec fn deep_view(&self) -> DamageEvent {
        *self
    }
}

impl DamageEvent {
    /// The fields on the wire, one behind the other.
    #[verifier::opaque]
    pub open spec fn fields(c: Cursor) -> (DamageEvent, Cursor) {
        let (attack_properties, c1) = AttackProperties::layout(c);
        let (elements, c2) = Element::layout(c1);
        let (amount, c3) = Single::layout(c2);
        let (magnitude, c4) = Single::layout(c3);
        let (velocity_based, c5) = c4.bool();
        (DamageEvent { attack_properties, elements, amount, magnitude, velocity_based }, c5)
    }

    /// The value at `c`: nothing from a failed cursor.
    pub open spec fn layout(c: Cursor) -> (DamageEvent, Cursor) {
        if c.err is Some {
            (arbitrary(), c)
        } else {
            Self::fields(c)
        }
    }

    /// Reads one `DamageEvent`.
    pub fn read(reader: &mut Reader) -> (res: Result<Self, DecodeError>)
        ensures
            follows(res, final(reader)@, Self::layout(old(reader)@)),
    {
        proof {
            reveal(DamageEvent::fields);
        }
        let attack_properties = AttackProperties::read(reader)?;
        let elements = Element::read(reader)?;
        let amount = Single::read(reader)?;
        let magnitude = Single::read(reader)?;
        let velocity_based = reader.read_bool()?;
        Ok(DamageEvent { attack_properties, elements, amount, magnitude, velocity_based })
    }
}

impl Decode for DamageEvent {
    open spec fn wire(c: Cursor) -> (DamageEvent, Cursor) {
        DamageEvent::layout(c)
    }

    proof fn lemma_wire_failed(c: Cursor) {
    }

    fn decode(r: &mut Reader) -> (res: Result<Self, DecodeError>) {
        DamageEvent::read(r)
    }
}

/// Damage in a radius. The amount is a whole number.
#[derive(Clone, Copy, PartialEq, Eq, Structural, Debug)]
pub struct SplashEvent {
    pub attack_properties: AttackProperties,
    pub elements: Element,
    pub amount: i32,
    pub magnitude: Single,
    pub radius: Single,
}

impl DeepView for SplashEvent {
    type V = SplashEvent;

    open spec fn deep_view(&self) -> SplashEvent {
        *self
    }
}

impl SplashEvent {
    /// The fields on the wire, one behind the other.
    #[verifier::opaque]
    pub open spec fn fields(c: Cursor) -> (SplashEvent, Cursor) {
        let (attack_properties, c1) = AttackProperties::layout(c);
        let (elements, c2) = Element::layout(c1);
        let (amount, c3) = c2.i32();
        let (magnitude, c4) = Single::layout(c3);
        let (radius, c5) = Single::layout(c4);
        (SplashEvent { attack_properties, elements, amount, magnitude, radius }, c5)
    }

    /// The value at `c`: nothing from a failed cursor.
    pub open spec fn layout(c: Cursor) -> (SplashEvent, Cursor) {
        if c.err is Some {
            (arbitrary(), c)
        } else {
            Self::fields(c)
        }
    }

    /// Reads one `SplashEvent`.
    pub fn read(reader: &mut Reader) -> (res: Result<Self, DecodeError>)
        ensures
            follows(res, final(reader)@, Self::layout(old(reader)@)),
    {
        proof {
            reveal(SplashEvent::fields);
        }
        let attack_properties = AttackProperties::read(reader)?;
        let elements = Element::read(reader)?;
        let amount = reader.read_i32()?;
        let magnitude = Single::read(reader)?;
        let radius = Single::read(reader)?;
        Ok(SplashEvent { attack_properties, elements, amount, magnitude, radius })
    }
}

impl Decode for SplashEvent {
    open spec fn wire(c: Cursor) -> (SplashEvent, Cursor) {
        SplashEvent::layout(c)
    }

    proof fn lemma_wire_failed(c: Cursor) {
    }

    fn decode(r: &mut Reader) -> (res: Result<Self, DecodeError>) {
        SplashEvent::read(r)
    }
}

/// A sound.
#[derive(Clone, PartialEq, Eq, Debug)]
pub struct SoundEvent {
    pub banks: Bank,
    pub cue: String,
    pub magnitude: Single,
    pub stop_on_remove: bool,
}

/// `SoundEvent` as the format states it.
pub struct SoundEventView {
    pub banks: Bank,
    pub cue: Seq<char>,
    pub magnitude: Single,
    pub stop_on_remove: bool,
}

impl DeepView for SoundEvent {
    type V = SoundEventView;

    open spec fn deep_view(&self) -> SoundEventView {
        SoundEventView {
            banks: self.banks,
            cue: self.cue.deep_view(),
            magnitude: self.magnitude,
            stop_on_remove: self.stop_on_remove,
        }
    }
}

impl SoundEvent {
    /// The fields on the wire, one behind the other.
    #[verifier::opaque]
    pub open spec fn fields(c: Cursor) -> (SoundEventView, Cursor) {
        let (banks, c1) = Bank::layout(c);
        let (cue, c2) = c1.string();
        let (magnitude, c3) = Single::layout(c2);
        let (stop_on_remove, c4) = c3.bool();
        (SoundEventView { banks, cue, magnitude, stop_on_remove }, c4)
    }

    /// The value at `c`: nothing from a failed cursor.
    pub open spec fn layout(c: Cursor) -> (SoundEventView, Cursor) {
        if c.err is Some {
            (arbitrary(), c)
        } else {
            Self::fields(c)
        }
    }

    /// Reads one `SoundEvent`.
    pub fn read(reader: &mut Reader) -> (res: Result<Self, DecodeError>)
        ensures
            follows(res, final(reader)@, Self::layout(old(reader)@)),
    {
        proof {
            reveal(SoundEvent::fields);
        }
        let banks = Bank::read(reader)?;
        let cue = reader.read_7bit_length_string()?;
        let magnitude = Single::read(reader)?;
        let stop_on_remove = reader.read_bool()?;
        Ok(SoundEvent { banks, cue, magnitude, stop_on_remove })
    }
}

impl Decode for SoundEvent {
    open spec fn wire(c: Cursor) -> (SoundEventView, Cursor) {
        SoundEvent::layout(c)
    }

    proof fn lemma_wire_failed(c: Cursor) {
    }

    fn decode(r: &mut Reader) -> (res: Result<Self, DecodeError>) {
        SoundEvent::read(r)
    }
}

/// A visual effect.
#[derive(Clone, PartialEq, Eq, Debug)]
pub struct EffectEvent {
    pub follow: bool,
    pub world_aligned: bool,
    pub effect: String,
}

/// `EffectEvent` as the format states it.
pub struct EffectEventView {
    pub follow: bool,
    pub world_aligned: bool,
    pub effect: Seq<char>,
}

impl DeepView for EffectEvent {
    type V = EffectEventView;

    open spec fn deep_view(&self) -> EffectEventView {
        EffectEventView {
            follow: self.follow,
            world_aligned: self.world_aligned,
            effect: self.effect.deep_view(),
        }
    }
}

impl EffectEvent {
    /// The fields on the wire, one behind the other.
    #[verifier::opaque]
    pub open spec fn fields(c: Cursor) -> (EffectEventView, Cursor) {
        let (follow, c1) = c.bool();
        let (world_aligned, c2) = c1.bool();
        let (effect, c3) = c2.string();
        (EffectEventView { follow, world_aligned, effect }, c3)
    }

    /// The value at `c`: nothing from a failed cursor.
    pub open spec fn layout(c: Cursor) -> (EffectEventView, Cursor) {
        if c.err is Some {
            (arbitrary(), c)
        } else {
            Self::fields(c)
        }
    }

    /// Reads one `EffectEvent`.
    pub fn read(reader: &mut Reader) -> (res: Result<Self, DecodeError>)
        ensures
            follows(res, final(reader)@, Self::layout(old(reader)@)),
    {
        proof {
            reveal(EffectEvent::fields);
        }
        let follow = reader.read_bool()?;
        let world_aligned = reader.read_bool()?;
        let effect = reader.read_7bit_length_string()?;
        Ok(EffectEvent { follow, world_aligned, effect })
    }
}

impl Decode for EffectEvent {
    open spec fn wire(c: Cursor) -> (EffectEventView, Cursor) {
        EffectEvent::layout(c)
    }

    proof fn lemma_wire_failed(c: Cursor) {
    }

    fn decode(r: &mut Reader) -> (res: Result<Self, DecodeError>) {
        EffectEvent::read(r)
    }
}

/// Removal after some bounces.
#[derive(Clone, Copy, PartialEq, Eq, Structural, Debug)]
pub struct RemoveEvent {
    pub bounces: i32,
}

impl DeepView for RemoveEvent {
    type V = RemoveEvent;

    open spec fn deep_view(&self) -> RemoveEvent {
        *self
    }
}

impl RemoveEvent {
    /// The fields on the wire, one behind the other.
    #[verifier::opaque]
    pub open spec fn fields(c: Cursor) -> (RemoveEvent, Cursor) {
        let (bounces, c1) = c.i32();
        (RemoveEvent { bounces }, c1)
    }

    /// The value at `c`: nothing from a failed cursor.
    pub open spec fn layout(c: Cursor) -> (RemoveEvent, Cursor) {
        if c.err is Some {
            (arbitrary(), c)
        } else {
            Self::fields(c)
        }
    }

    /// Reads one `RemoveEvent`.
    pub fn read(reader: &mut Reader) -> (res: Result<Self, DecodeError>)
        ensures
            follows(res, final(reader)@, Self::layout(old(reader)@)),
    {
        proof {
            reveal(RemoveEvent::fields);
        }
        let bounces = reader.read_i32()?;
        Ok(RemoveEvent { bounces })
    }
}

impl Decode for RemoveEvent {
    open spec fn wire(c: Cursor) -> (RemoveEvent, Cursor) {
        RemoveEvent::layout(c)
    }

    proof fn lemma_wire_failed(c: Cursor) {
    }

    fn decode(r: &mut Reader) -> (res: Result<Self, DecodeError>) {
        RemoveEvent::read(r)
    }
}

/// Spawning a character.
#[derive(Clone, PartialEq, Eq, Debug)]
pub struct SpawnEvent {
    pub kind: String,
    pub idle_animation: String,
    pub spawn_animation: String,
    pub health: Single,
    pub order: Order,
    pub react_to: ReactionTriggers,
    pub reaction: Order,
    pub rotation: Single,
    pub offset: Vector3,
}

/// `SpawnEvent` as the format states it.
pub struct SpawnEventView {
    pub kind: Seq<char>,
    pub idle_animation: Seq<char>,
    pub spawn_animation: Seq<char>,
    pub health: Single,
    pub order: Order,
    pub react_to: ReactionTriggers,
    pub reaction: Order,
    pub rotation: Single,
    pub offset: Vector3,
}

impl DeepView for SpawnEvent {
    type V = SpawnEventView;

    open spec fn deep_view(&self) -> SpawnEventView {
        SpawnEventView {
            kind: self.kind.deep_view(),
            idle_animation: self.idle_animation.deep_view(),
            spawn_animation: self.spawn_animation.deep_view(),
            health: self.health,
            order: self.order,
            react_to: self.react_to,
            reaction: self.reaction,
            rotation: self.rotation,
            offset: self.offset,
        }
    }
}

impl SpawnEvent {
    /// The fields on the wire, one behind the other.
    #[verifier::opaque]
    pub open spec fn fields(c: Cursor) -> (SpawnEventView, Cursor) {
        let (kind, c1) = c.string();
        let (idle_animation, c2) = c1.string();
        let (spawn_animation, c3) = c2.string();
        let (health, c4) = Single::layout(c3);
        let (order, c5) = Order::layout(c4);
        let (react_to, c6) = ReactionTriggers::layout(c5);
        let (reaction, c7) = Order::layout(c6);
        let (rotation, c8) = Single::layout(c7);
        let (offset, c9) = Vector3::layout(c8);
        (SpawnEventView {
            kind,
            idle_animation,
            spawn_animation,
            health,
            order,
            react_to,
            reaction,
            rotation,
            offset,
        }, c9)
    }

    /// The value at `c`: nothing from a failed cursor.
    pub open spec fn layout(c: Cursor) -> (SpawnEventView, Cursor) {
        if c.err is Some {
            (arbitrary(), c)
        } else {
            Self::fields(c)
        }
    }

    /// Reads one `SpawnEvent`.
    pub fn read(reader: &mut Reader) -> (res: Result<Self, DecodeError>)
        ensures
            follows(res, final(reader)@, Self::layout(old(reader)@)),
    {
        proof {
            reveal(SpawnEvent::fields);
        }
        let kind = reader.read_7bit_length_string()?;
        let idle_animation = reader.read_7bit_length_string()?;
        let spawn_animation = reader.read_7bit_length_string()?;
        let health = Single::read(reader)?;
        let order = Order::read(reader)?;
        let react_to = ReactionTriggers::read(reader)?;
        let reaction = Order::read(reader)?;
        let rotation = Single::read(reader)?;
        let offset = Vector3::read(reader)?;
        Ok(SpawnEvent {
            kind,
            idle_animation,
            spawn_animation,
            health,
            order,
            react_to,
            reaction,
            rotation,
            offset,
        })
    }
}

impl Decode for SpawnEvent {
    open spec fn wire(c: Cursor) -> (SpawnEventView, Cursor) {
        SpawnEvent::layout(c)
    }

    proof fn lemma_wire_failed(c: Cursor) {
    }

    fn decode(r: &mut Reader) -> (res: Result<Self, DecodeError>) {
        SpawnEvent::read(r)
    }
}

/// Spawning a range of gibs.
#[derive(Clone, Copy, PartialEq, Eq, Structural, Debug)]
pub struct SpawnGibsEvent {
    pub start_index: i32,
    pub end_index: i32,
}

impl DeepView for SpawnGibsEvent {
    type V = SpawnGibsEvent;

    open spec fn deep_view(&self) -> SpawnGibsEvent {
        *self
    }
}

impl SpawnGibsEvent {
    /// The fields on the wire, one behind the other.
    #[verifier::opaque]
    pub open spec fn fields(c: Cursor) -> (SpawnGibsEvent, Cursor) {
        let (start_index, c1) = c.i32();
        let (end_index, c2) = c1.i32();
        (SpawnGibsEvent { start_index, end_index }, c2)
    }

    /// The value at `c`: nothing from a failed cursor.
    pub open spec fn layout(c: Cursor) -> (SpawnGibsEvent, Cursor) {
        if c.err is Some {
            (arbitrary(), c)
        } else {
            Self::fields(c)
        }
    }

    /// Reads one `SpawnGibsEvent`.
    pub fn read(reader: &mut Reader) -> (res: Result<Self, DecodeError>)
        ensures
            follows(res, final(reader)@, Self::layout(old(reader)@)),
    {
        proof {
            reveal(SpawnGibsEvent::fields);
        }
        let start_index = reader.read_i32()?;
        let end_index = reader.read_i32()?;
        Ok(SpawnGibsEvent { start_index, end_index })
    }
}

impl Decode for SpawnGibsEvent {
    open spec fn wire(c: Cursor) -> (SpawnGibsEvent, Cursor) {
        SpawnGibsEvent::layout(c)
    }

    proof fn lemma_wire_failed(c: Cursor) {
    }

    fn decode(r: &mut Reader) -> (res: Result<Self, DecodeError>) {
        SpawnGibsEvent::read(r)
    }
}

/// Spawning an item.
#[derive(Clone, PartialEq, Eq, Debug)]
pub struct SpawnItemEvent {
    pub item: String,
}

/// `SpawnItemEvent` as the format states it.
pub struct SpawnItemEventView {
    pub item: Seq<char>,
}

impl DeepView for SpawnItemEvent {
    type V = SpawnItemEventView;

    open spec fn deep_view(&self) -> SpawnItemEventView {
        SpawnItemEventView {
            item: self.item.deep_view(),
        }
    }
}

impl SpawnItemEvent {
    /// The fields on the wire, one behind the other.
    #[verifier::opaque]
    pub open spec fn fields(c: Cursor) -> (SpawnItemEventView, Cursor) {
        let (item, c1) = c.string();
        (SpawnItemEventView { item }, c1)
    }

    /// The value at `c`: nothing from a failed cursor.
    pub open spec fn layout(c: Cursor) -> (SpawnItemEventView, Cursor) {
        if c.err is Some {
            (arbitrary(), c)
        } else {
            Self::fields(c)
        }
    }

    /// Reads one `SpawnItemEvent`.
    pub fn read(reader: &mut Reader) -> (res: Result<Self, DecodeError>)
        ensures
            follows(res, final(reader)@, Self::layout(old(reader)@)),
    {
        proof {
            reveal(SpawnItemEvent::fields);
        }
        let item = reader.read_7bit_length_string()?;
        Ok(SpawnItemEvent { item })
    }
}

impl Decode for SpawnItemEvent {
    open spec fn wire(c: Cursor) -> (SpawnItemEventView, Cursor) {
        SpawnItemEvent::layout(c)
    }

    proof fn lemma_wire_failed(c: Cursor) {
    }

    fn decode(r: &mut Reader) -> (res: Result<Self, DecodeError>) {
        SpawnItemEvent::read(r)
    }
}

/// Spawning a magick.
#[derive(Clone, PartialEq, Eq, Debug)]
pub struct SpawnMagickEvent {
    pub magick: String,
}

/// `SpawnMagickEvent` as the format states it.
pub struct SpawnMagickEventView {
    pub magick: Seq<char>,
}

impl DeepView for SpawnMagickEvent {
    type V = SpawnMagickEventView;

    open spec fn deep_view(&self) -> SpawnMagickEventView {
        SpawnMagickEventView {
            magick: self.magick.deep_view(),
        }
    }
}

impl SpawnMagickEvent {
    /// The fields on the wire, one behind the other.
    #[verifier::opaque]
    pub open spec fn fields(c: Cursor) -> (SpawnMagickEventView, Cursor) {
        let (magick, c1) = c.string();
        (SpawnMagickEventView { magick }, c1)
    }

    /// The value at `c`: nothing from a failed cursor.
    pub open spec fn layout(c: Cursor) -> (SpawnMagickEventView, Cursor) {
        if c.err is Some {
            (arbitrary(), c)
        } else {
            Self::fields(c)
        }
    }

    /// Reads one `SpawnMagickEvent`.
    pub fn read(reader: &mut Reader) -> (res: Result<Self, DecodeError>)
        ensures
            follows(res, final(reader)@, Self::layout(old(reader)@)),
    {
        proof {
            reveal(SpawnMagickEvent::fields);
        }
        let magick = reader.read_7bit_length_string()?;
        Ok(SpawnMagickEvent { magick })
    }
}

impl Decode for SpawnMagickEvent {
    open spec fn wire(c: Cursor) -> (SpawnMagickEventView, Cursor) {
        SpawnMagickEvent::layout(c)
    }

    proof fn lemma_wire_failed(c: Cursor) {
    }

    fn decode(r: &mut Reader) -> (res: Result<Self, DecodeError>) {
        SpawnMagickEvent::read(r)
    }
}

/// Spawning a missile.
#[derive(Clone, PartialEq, Eq, Debug)]
pub struct SpawnMissileEvent {
    pub kind: String,
    pub velocity: Vector3,
    pub facing: bool,
}

/// `SpawnMissileEvent` as the format states it.
pub struct SpawnMissileEventView {
    pub kind: Seq<char>,
    pub velocity: Vector3,
    pub facing: bool,
}

impl DeepView for SpawnMissileEvent {
    type V = SpawnMissileEventView;

    open spec fn deep_view(&self) -> SpawnMissileEventView {
        SpawnMissileEventView {
            kind: self.kind.deep_view(),
            velocity: self.velocity,
            facing: self.facing,
        }
    }
}

impl SpawnMissileEvent {
    /// The fields on the wire, one behind the other.
    #[verifier::opaque]
    pub open spec fn fields(c: Cursor) -> (SpawnMissileEventView, Cursor) {
        let (kind, c1) = c.string();
        let (velocity, c2) = Vector3::layout(c1);
        let (facing, c3) = c2.bool();
        (SpawnMissileEventView { kind, velocity, facing }, c3)
    }

    /// The value at `c`: nothing from a failed cursor.
    pub open spec fn layout(c: Cursor) -> (SpawnMissileEventView, Cursor) {
        if c.err is Some {
            (arbitrary(), c)
        } else {
            Self::fields(c)
        }
    }

    /// Reads one `SpawnMissileEvent`.
    pub fn read(reader: &mut Reader) -> (res: Result<Self, DecodeError>)
        ensures
            follows(res, final(reader)@, Self::layout(old(reader)@)),
    {
        proof {
            reveal(SpawnMissileEvent::fields);
        }
        let kind = reader.read_7bit_length_string()?;
        let velocity = Vector3::read(reader)?;
        let facing = reader.read_bool()?;
        Ok(SpawnMissileEvent { kind, velocity, facing })
    }
}

impl Decode for SpawnMissileEvent {
    open spec fn wire(c: Cursor) -> (SpawnMissileEventView, Cursor) {
        SpawnMissileEvent::layout(c)
    }

    proof fn lemma_wire_failed(c: Cursor) {
    }

    fn decode(r: &mut Reader) -> (res: Result<Self, DecodeError>) {
        SpawnMissileEvent::read(r)
    }
}

/// A light.
#[derive(Clone, Copy, PartialEq, Eq, Structural, Debug)]
pub struct LightEvent {
    pub light: Light,
}

impl DeepView for LightEvent {
    type V = LightEvent;

    open spec fn deep_view(&self) -> LightEvent {
        *self
    }
}

impl LightEvent {
    /// The fields on the wire, one behind the other.
    #[verifier::opaque]
    pub open spec fn fields(c: Cursor) -> (LightEvent, Cursor) {
        let (light, c1) = Light::layout(c);
        (LightEvent { light }, c1)
    }

    /// The value at `c`: nothing from a failed cursor.
    pub open spec fn layout(c: Cursor) -> (LightEvent, Cursor) {
        if c.err is Some {
            (arbitrary(), c)
        } else {
            Self::fields(c)
        }
    }

    /// Reads one `LightEvent`.
    pub fn read(reader: &mut Reader) -> (res: Result<Self, DecodeError>)
        ensures
            follows(res, final(reader)@, Self::layout(old(reader)@)),
    {
        proof {
            reveal(LightEvent::fields);
        }
        let light = Light::read(reader)?;
        Ok(LightEvent { light })
    }
}

impl Decode for LightEvent {
    open spec fn wire(c: Cursor) -> (LightEvent, Cursor) {
        LightEvent::layout(c)
    }

    proof fn lemma_wire_failed(c: Cursor) {
    }

    fn decode(r: &mut Reader) -> (res: Result<Self, DecodeError>) {
        LightEvent::read(r)
    }
}

/// Casting a magick of some elements.
#[derive(Clone, PartialEq, Eq, Debug)]
pub struct CastMagickEvent {
    pub kind: String,
    pub elements: Vec<Element>,
}

/// `CastMagickEvent` as the format states it.
pub struct CastMagickEventView {
    pub kind: Seq<char>,
    pub elements: Seq<Element>,
}

impl DeepView for CastMagickEvent {
    type V = CastMagickEventView;

    open spec fn deep_view(&self) -> CastMagickEventView {
        CastMagickEventView {
            kind: self.kind.deep_view(),
            elements: self.elements.deep_view(),
        }
    }
}

impl CastMagickEvent {
    /// The fields on the wire, one behind the other.
    #[verifier::opaque]
    pub open spec fn fields(c: Cursor) -> (CastMagickEventView, Cursor) {
        let (kind, c1) = c.string();
        let (elements, c2) = counted::<Element>(c1);
        (CastMagickEventView { kind, elements }, c2)
    }

    /// The value at `c`: nothing from a failed cursor.
    pub open spec fn layout(c: Cursor) -> (CastMagickEventView, Cursor) {
        if c.err is Some {
            (arbitrary(), c)
        } else {
            Self::fields(c)
        }
    }

    /// Reads one `CastMagickEvent`.
    pub fn read(reader: &mut Reader) -> (res: Result<Self, DecodeError>)
        ensures
            follows(res, final(reader)@, Self::layout(old(reader)@)),
    {
        proof {
            reveal(CastMagickEvent::fields);
        }
        let kind = reader.read_7bit_length_string()?;
        let elements = read_counted::<Element>(reader)?;
        Ok(CastMagickEvent { kind, elements })
    }
}

impl Decode for CastMagickEvent {
    open spec fn wire(c: Cursor) -> (CastMagickEventView, Cursor) {
        CastMagickEvent::layout(c)
    }

    proof fn lemma_wire_failed(c: Cursor) {
    }

    fn decode(r: &mut Reader) -> (res: Result<Self, DecodeError>) {
        CastMagickEvent::read(r)
    }
}

/// Damage to the owner.
#[derive(Clone, Copy, PartialEq, Eq, Structural, Debug)]
pub struct DamageOwnerEvent {
    pub attack_properties: AttackProperties,
    pub elements: Element,
    pub amount: Single,
    pub magnitude: Single,
    pub velocity_based: bool,
}

impl DeepView for DamageOwnerEvent {
    type V = DamageOwnerEvent;

    open spec fn deep_view(&self) -> DamageOwnerEvent {
        *self
    }
}

impl DamageOwnerEvent {
    /// The fields on the wire, one behind the other.
    #[verifier::opaque]
    pub open spec fn fields(c: Cursor) -> (DamageOwnerEvent, Cursor) {
        let (attack_properties, c1) = AttackProperties::layout(c);
        let (elements, c2) = Element::layout(c1);
        let (amount, c3) = Single::layout(c2);
        let (magnitude, c4) = Single::layout(c3);
        let (velocity_based, c5) = c4.bool();
        (DamageOwnerEvent { attack_properties, elements, amount, magnitude, velocity_based }, c5)
    }

    /// The value at `c`: nothing from a failed cursor.
    pub open spec fn layout(c: Cursor) -> (DamageOwnerEvent, Cursor) {
        if c.err is Some {
            (arbitrary(), c)
        } else {
            Self::fields(c)
        }
    }

    /// Reads one `DamageOwnerEvent`.
    pub fn read(reader: &mut Reader) -> (res: Result<Self, DecodeError>)
        ensures
            follows(res, final(reader)@, Self::layout(old(reader)@)),
    {
        proof {
            reveal(DamageOwnerEvent::fields);
        }
        let attack_properties = AttackProperties::read(reader)?;
        let elements = Element::read(reader)?;
        let amount = Single::read(reader)?;
        let magnitude = Single::read(reader)?;
        let velocity_based = reader.read_bool()?;
        Ok(DamageOwnerEvent { attack_properties, elements, amount, magnitude, velocity_based })
    }
}

impl Decode for DamageOwnerEvent {
    open spec fn wire(c: Cursor) -> (DamageOwnerEvent, Cursor) {
        DamageOwnerEvent::layout(c)
    }

    proof fn lemma_wire_failed(c: Cursor) {
    }

    fn decode(r: &mut Reader) -> (res: Result<Self, DecodeError>) {
        DamageOwnerEvent::read(r)
    }
}

/// An event: one byte for its kind, then the fields of the kind. The
/// kinds 5, 6, 7, 9 and 17 have no layout and are refused like any
/// number outside the set.
#[derive(Clone, PartialEq, Eq, Debug)]
pub enum Event {
    Damage(DamageEvent),
    Splash(SplashEvent),
    Sound(SoundEvent),
    Effect(EffectEvent),
    Remove(RemoveEvent),
    Spawn(SpawnEvent),
    SpawnGibs(SpawnGibsEvent),
    SpawnItem(SpawnItemEvent),
    SpawnMagick(SpawnMagickEvent),
    SpawnMissile(SpawnMissileEvent),
    Light(LightEvent),
    CastMagick(CastMagickEvent),
    DamageOwner(DamageOwnerEvent),
}

/// `Event` as the format states it.
pub enum EventView {
    Damage(DamageEvent),
    Splash(SplashEvent),
    Sound(SoundEventView),
    Effect(EffectEventView),
    Remove(RemoveEvent),
    Spawn(SpawnEventView),
    SpawnGibs(SpawnGibsEvent),
    SpawnItem(SpawnItemEventView),
    SpawnMagick(SpawnMagickEventView),
    SpawnMissile(SpawnMissileEventView),
    Light(LightEvent),
    CastMagick(CastMagickEventView),
    DamageOwner(DamageOwnerEvent),
}

impl DeepView for Event {
    type V = EventView;

    open spec fn deep_view(&self) -> EventView {
        match self {
            Event::Damage(payload) => EventView::Damage(*payload),
            Event::Splash(payload) => EventView::Splash(*payload),
            Event::Sound(payload) => EventView::Sound(payload.deep_view()),
            Event::Effect(payload) => EventView::Effect(payload.deep_view()),
            Event::Remove(payload) => EventView::Remove(*payload),
            Event::Spawn(payload) => EventView::Spawn(payload.deep_view()),
            Event::SpawnGibs(payload) => EventView::SpawnGibs(*payload),
            Event::SpawnItem(payload) => EventView::SpawnItem(payload.deep_view()),
            Event::SpawnMagick(payload) => EventView::SpawnMagick(payload.deep_view()),
            Event::SpawnMissile(payload) => EventView::SpawnMissile(payload.deep_view()),
            Event::Light(payload) => EventView::Light(*payload),
            Event::CastMagick(payload) => EventView::CastMagick(payload.deep_view()),
            Event::DamageOwner(payload) => EventView::DamageOwner(*payload),
        }
    }
}

impl Event {
    /// The byte of the kind and the fields behind it.
    #[verifier::opaque]
    pub open spec fn fields(c: Cursor) -> (EventView, Cursor) {
        let (tag, c1) = c.u8();
        let (event, c2) = if tag == 0 {
            let (payload, after) = DamageEvent::layout(c1);
            (EventView::Damage(payload), after)
        } else if tag == 1 {
            let (payload, after) = SplashEvent::layout(c1);
            (EventView::Splash(payload), after)
        } else if tag == 2 {
            let (payload, after) = SoundEvent::layout(c1);
            (EventView::Sound(payload), after)
        } else if tag == 3 {
            let (payload, after) = EffectEvent::layout(c1);
            (EventView::Effect(payload), after)
        } else if tag == 4 {
            let (payload, after) = RemoveEvent::layout(c1);
            (EventView::Remove(payload), after)
        } else if tag == 8 {
            let (payload, after) = SpawnEvent::layout(c1);
            (EventView::Spawn(payload), after)
        } else if tag == 10 {
            let (payload, after) = SpawnGibsEvent::layout(c1);
            (EventView::SpawnGibs(payload), after)
        } else if tag == 11 {
            let (payload, after) = SpawnItemEvent::layout(c1);
            (EventView::SpawnItem(payload), after)
        } else if tag == 12 {
            let (payload, after) = SpawnMagickEvent::layout(c1);
            (EventView::SpawnMagick(payload), after)
        } else if tag == 13 {
            let (payload, after) = SpawnMissileEvent::layout(c1);
            (EventView::SpawnMissile(payload), after)
        } else if tag == 14 {
            let (payload, after) = LightEvent::layout(c1);
            (EventView::Light(payload), after)
        } else if tag == 15 {
            let (payload, after) = CastMagickEvent::layout(c1);
            (EventView::CastMagick(payload), after)
        } else if tag == 16 {
            let (payload, after) = DamageOwnerEvent::layout(c1);
            (EventView::DamageOwner(payload), after)
        } else {
            (arbitrary(), c1.fail(DecodeErrorView::UnknownKind { selector: Selector::EventKind, value: tag as i32 }))
        };
        (event, c2)
    }

    /// The value at `c`: nothing from a failed cursor.
    pub open spec fn layout(c: Cursor) -> (EventView, Cursor) {
        if c.err is Some {
            (arbitrary(), c)
        } else {
            Self::fields(c)
        }
    }

    /// Reads one `Event`.
    pub fn read(reader: &mut Reader) -> (res: Result<Self, DecodeError>)
        ensures
            follows(res, final(reader)@, Self::layout(old(reader)@)),
    {
        proof {
            reveal(Event::fields);
        }
        let tag = reader.read_u8()?;
        let event = if tag == 0 {
            Event::Damage(DamageEvent::read(reader)?)
        } else if tag == 1 {
            Event::Splash(SplashEvent::read(reader)?)
        } else if tag == 2 {
            Event::Sound(SoundEvent::read(reader)?)
        } else if tag == 3 {
            Event::Effect(EffectEvent::read(reader)?)
        } else if tag == 4 {
            Event::Remove(RemoveEvent::read(reader)?)
        } else if tag == 8 {
            Event::Spawn(SpawnEvent::read(reader)?)
        } else if tag == 10 {
            Event::SpawnGibs(SpawnGibsEvent::read(reader)?)
        } else if tag == 11 {
            Event::SpawnItem(SpawnItemEvent::read(reader)?)
        } else if tag == 12 {
            Event::SpawnMagick(SpawnMagickEvent::read(reader)?)
        } else if tag == 13 {
            Event::SpawnMissile(SpawnMissileEvent::read(reader)?)
        } else if tag == 14 {
            Event::Light(LightEvent::read(reader)?)
        } else if tag == 15 {
            Event::CastMagick(CastMagickEvent::read(reader)?)
        } else if tag == 16 {
            Event::DamageOwner(DamageOwnerEvent::read(reader)?)
        } else {
            return Err(DecodeError::UnknownKind { selector: Selector::EventKind, value: tag as i32 });
        };
        Ok(event)
    }
}

impl Decode for Event {
    open spec fn wire(c: Cursor) -> (EventView, Cursor) {
        Event::layout(c)
    }

    proof fn lemma_wire_failed(c: Cursor) {
    }

    fn decode(r: &mut Reader) -> (res: Result<Self, DecodeError>) {
        Event::read(r)
    }
}

/// The occasions of events, in the low seven bits.
#[derive(Clone, Copy, PartialEq, Eq, Structural, Debug)]
pub struct EventConditionKind {
    pub bits: u8,
}

impl DeepView for EventConditionKind {
    type V = EventConditionKind;

    open spec fn deep_view(&self) -> EventConditionKind {
        *self
    }
}

impl EventConditionKind {
    pub const DEFAULT: u8 = 1;

    pub const HIT: u8 = 2;

    pub const COLLISION: u8 = 4;

    pub const DAMAGED: u8 = 8;

    pub const TIMER: u8 = 16;

    pub const DEATH: u8 = 32;

    pub const OVERKILL: u8 = 64;

    /// Every bit that some flag has.
    pub const KNOWN: u8 = 127;

    /// The flags that `bits` spell, if all of its bits are known.
    pub open spec fn of(bits: u8) -> Option<EventConditionKind> {
        if bits <= 127 {
            Some(EventConditionKind { bits })
        } else {
            None
        }
    }

    /// The flags that `bits` spell, if all of its bits are known.
    pub fn from_bits(bits: u8) -> (flags: Option<Self>)
        ensures
            flags == Self::of(bits),
    {
        if bits <= 127 {
            Some(EventConditionKind { bits })
        } else {
            None
        }
    }

    /// The bits of the flags.
    pub fn bits(&self) -> (bits: u8)
        ensures
            bits == self.bits,
    {
        self.bits
    }

    /// One byte on the wire.
    pub open spec fn layout(c: Cursor) -> (EventConditionKind, Cursor) {
        let (raw, c1) = c.u8();
        if c1.err is Some {
            (arbitrary(), c1)
        } else {
            match Self::of(raw) {
                Some(flags) => (flags, c1),
                None => (
                    arbitrary(),
                    c1.fail(DecodeErrorView::UnknownKind { selector: Selector::EventConditionKind, value: raw as i32 }),
                ),
            }
        }
    }

    /// Reads one `EventConditionKind`.
    pub fn read(reader: &mut Reader) -> (res: Result<Self, DecodeError>)
        ensures
            follows(res, final(reader)@, Self::layout(old(reader)@)),
    {
        let raw = reader.read_u8()?;
        match Self::from_bits(raw) {
            Some(flags) => Ok(flags),
            None => Err(DecodeError::UnknownKind { selector: Selector::EventConditionKind, value: raw as i32 }),
        }
    }
}

impl Decode for EventConditionKind {
    open spec fn wire(c: Cursor) -> (EventConditionKind, Cursor) {
        EventConditionKind::layout(c)
    }

    proof fn lemma_wire_failed(c: Cursor) {
    }

    fn decode(r: &mut Reader) -> (res: Result<Self, DecodeError>) {
        EventConditionKind::read(r)
    }
}

/// The events of an occasion. The hit points are a whole number on the wire.
#[derive(Clone, PartialEq, Eq, Debug)]
pub struct EventConditions {
    pub kind: EventConditionKind,
    pub hitpoints: i32,
    pub element: Element,
    pub threshold: Single,
    pub time: Single,
    pub repeat: bool,
    pub events: Vec<Event>,
}

/// `EventConditions` as the format states it.
pub struct EventConditionsView {
    pub kind: EventConditionKind,
    pub hitpoints: i32,
    pub element: Element,
    pub threshold: Single,
    pub time: Single,
    pub repeat: bool,
    pub events: Seq<EventView>,
}

impl DeepView for EventConditions {
    type V = EventConditionsView;

    open spec fn deep_view(&self) -> EventConditionsView {
        EventConditionsView {
            kind: self.kind,
            hitpoints: self.hitpoints,
            element: self.element,
            threshold: self.threshold,
            time: self.time,
            repeat: self.repeat,
            events: self.events.deep_view(),
        }
    }
}

impl EventConditions {
    /// The fields on the wire, one behind the other.
    #[verifier::opaque]
    pub open spec fn fields(c: Cursor) -> (EventConditionsView, Cursor) {
        let (kind, c1) = EventConditionKind::layout(c);
        let (hitpoints, c2) = c1.i32();
        let (element, c3) = Element::layout(c2);
        let (threshold, c4) = Single::layout(c3);
        let (time, c5) = Single::layout(c4);
        let (repeat, c6) = c5.bool();
        let (events, c7) = counted::<Event>(c6);
        (EventConditionsView { kind, hitpoints, element, threshold, time, repeat, events }, c7)
    }

    /// The value at `c`: nothing from a failed cursor.
    pub open spec fn layout(c: Cursor) -> (EventConditionsView, Cursor) {
        if c.err is Some {
            (arbitrary(), c)
        } else {
            Self::fields(c)
        }
    }

    /// Reads one `EventConditions`.
    pub fn read(reader: &mut Reader) -> (res: Result<Self, DecodeError>)
        ensures
            follows(res, final(reader)@, Self::layout(old(reader)@)),
    {
        proof {
            reveal(EventConditions::fields);
        }
        let kind = EventConditionKind::read(reader)?;
        let hitpoints = reader.read_i32()?;
        let element = Element::read(reader)?;
        let threshold = Single::read(reader)?;
        let time = Single::read(reader)?;
        let repeat = reader.read_bool()?;
        let events = read_counted::<Event>(reader)?;
        Ok(EventConditions { kind, hitpoints, element, threshold, time, repeat, events })
    }
}

impl Decode for EventConditions {
    open spec fn wire(c: Cursor) -> (EventConditionsView, Cursor) {
        EventConditions::layout(c)
    }

    proof fn lemma_wire_failed(c: Cursor) {
    }

    fn decode(r: &mut Reader) -> (res: Result<Self, DecodeError>) {
        EventConditions::read(r)
    }
}

} // verus!
