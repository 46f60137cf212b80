//! An item template.
use vstd::prelude::*;
use crate::decode::{Decode, counted, optional, read_counted, read_optional};
use crate::error::{DecodeError};
use crate::reader::{Cursor, follows, Reader};
use crate::single::Single;
use crate::content::aura::{Aura, AuraView};
use crate::content::event::{EventConditions, EventConditionsView};
use crate::content::light::Light;
use crate::content::passive_ability::PassiveAbility;
use crate::content::resistance::Resistance;
use crate::content::sound::{Sound, SoundView};
use crate::content::special_ability::{SpecialAbilityWithCooldown, SpecialAbilityWithCooldownView};
use crate::content::weapon_class::WeaponClass;

verus! {

broadcast use {crate::reader::group_failed, crate::decode::group_failed_items};

/// An item template.
#[derive(Clone, PartialEq, Eq, Debug)]
pub struct Item {
    pub name: String,
    pub locale_name: String,
    pub locale_description: String,
    pub sounds: Vec<Sound>,
    pub pickupable: bool,
    pub bound: bool,
    pub block_value: i32,
    pub weapon_class: WeaponClass,
    pub cooldown_time: Single,
    pub hide_model: bool,
    pub hide_effect: bool,
    pub pause_sounds: bool,
    pub resistances: Vec<Resistance>,
    pub passive_ability: PassiveAbility,
    pub effects: Vec<String>,
    pub lights: Vec<Light>,
    pub special_ability: Option<SpecialAbilityWithCooldown>,
    pub melee_range: Single,
    pub melee_multi_hit: bool,
    pub melee_conditions: Vec<EventConditions>,
    pub ranged_range: Single,
    pub facing: bool,
    pub homing_strength: Single,
    pub ranged_elevation: Single,
    pub ranged_danger: Single,
    pub gun_range: Single,
    pub gun_clip: i32,
    pub gun_rate: i32,
    pub gun_accuracy: Single,
    pub gun_sound_cue: String,
    pub gun_muzzle_effect: String,
    pub gun_shell_effect: String,
    pub gun_tracer_velocity: Single,
    pub gun_non_tracer: String,
    pub gun_tracer: String,
    pub gun_conditions: Vec<EventConditions>,
    pub projectile_model: String,
    pub ranged_conditions: Vec<EventConditions>,
    pub scale: Single,
    pub model: String,
    pub auras: Vec<Aura>,
}

/// `Item` as the format states it.
pub struct ItemView {
    pub name: Seq<char>,
    pub locale_name: Seq<char>,
    pub locale_description: Seq<char>,
    pub sounds: Seq<SoundView>,
    pub pickupable: bool,
    pub bound: bool,
    pub block_value: i32,
    pub weapon_class: WeaponClass,
    pub cooldown_time: Single,
    pub hide_model: bool,
    pub hide_effect: bool,
    pub pause_sounds: bool,
    pub resistances: Seq<Resistance>,
    pub passive_ability: PassiveAbility,
    pub effects: Seq<Seq<char>>,
    pub lights: Seq<Light>,
    pub special_ability: Option<SpecialAbilityWithCooldownView>,
    pub melee_range: Single,
    pub melee_multi_hit: bool,
    pub melee_conditions: Seq<EventConditionsView>,
    pub ranged_range: Single,
    pub facing: bool,
    pub homing_strength: Single,
    pub ranged_elevation: Single,
    pub ranged_danger: Single,
    pub gun_range: Single,
    pub gun_clip: i32,
    pub gun_rate: i32,
    pub gun_accuracy: Single,
    pub gun_sound_cue: Seq<char>,
    pub gun_muzzle_effect: Seq<char>,
    pub gun_shell_effect: Seq<char>,
    pub gun_tracer_velocity: Single,
    pub gun_non_tracer: Seq<char>,
    pub gun_tracer: Seq<char>,
    pub gun_conditions: Seq<EventConditionsView>,
    pub projectile_model: Seq<char>,
    pub ranged_conditions: Seq<EventConditionsView>,
    pub scale: Single,
    pub model: Seq<char>,
    pub auras: Seq<AuraView>,
}

impl DeepView for Item {
    type V = ItemView;

    open spec fn deep_view(&self) -> ItemView {
        ItemView {
            name: self.name.deep_view(),
            locale_name: self.locale_name.deep_view(),
            locale_description: self.locale_description.deep_view(),
            sounds: self.sounds.deep_view(),
            pickupable: self.pickupable,
            bound: self.bound,
            block_value: self.block_value,
            weapon_class: self.weapon_class,
            cooldown_time: self.cooldown_time,
            hide_model: self.hide_model,
            hide_effect: self.hide_effect,
            pause_sounds: self.pause_sounds,
            resistances: self.resistances.deep_view(),
            passive_ability: self.passive_ability,
            effects: self.effects.deep_view(),
            lights: self.lights.deep_view(),
            special_ability: self.special_ability.deep_view(),
            melee_range: self.melee_range,
            melee_multi_hit: self.melee_multi_hit,
            melee_conditions: self.melee_conditions.deep_view(),
            ranged_range: self.ranged_range,
            facing: self.facing,
            homing_strength: self.homing_strength,
            ranged_elevation: self.ranged_elevation,
            ranged_danger: self.ranged_danger,
            gun_range: self.gun_range,
            gun_clip: self.gun_clip,
            gun_rate: self.gun_rate,
            gun_accuracy: self.gun_accuracy,
            gun_sound_cue: self.gun_sound_cue.deep_view(),
            gun_muzzle_effect: self.gun_muzzle_effect.deep_view(),
            gun_shell_effect: self.gun_shell_effect.deep_view(),
            gun_tracer_velocity: self.gun_tracer_velocity,
            gun_non_tracer: self.gun_non_tracer.deep_view(),
            gun_tracer: self.gun_tracer.deep_view(),
            gun_conditions: self.gun_conditions.deep_view(),
            projectile_model: self.projectile_model.deep_view(),
            ranged_conditions: self.ranged_conditions.deep_view(),
            scale: self.scale,
            model: self.model.deep_view(),
            auras: self.auras.deep_view(),
        }
    }
}

impl Item {
    /// The fields on the wire, one behind the other.
    #[verifier::opaque]
    pub open spec fn fields(c: Cursor) -> (ItemView, Cursor) {
        let (name, c1) = c.string();
        let (locale_name, c2) = c1.string();
        let (locale_description, c3) = c2.string();
        let (sounds, c4) = counted::<Sound>(c3);
        let (pickupable, c5) = c4.bool();
        let (bound, c6) = c5.bool();
        let (block_value, c7) = c6.i32();
        let (weapon_class, c8) = WeaponClass::layout(c7);
        let (cooldown_time, c9) = Single::layout(c8);
        let (hide_model, c10) = c9.bool();
        let (hide_effect, c11) = c10.bool();
        let (pause_sounds, c12) = c11.bool();
        let (resistances, c13) = counted::<Resistance>(c12);
        let (passive_ability, c14) = PassiveAbility::layout(c13);
        let (effects, c15) = counted::<String>(c14);
        let (lights, c16) = counted::<Light>(c15);
        let (special_ability, c17) = optional::<SpecialAbilityWithCooldown>(c16);
        let (melee_range, c18) = Single::layout(c17);
        let (melee_multi_hit, c19) = c18.bool();
        let (melee_conditions, c20) = counted::<EventConditions>(c19);
        let (ranged_range, c21) = Single::layout(c20);
        let (facing, c22) = c21.bool();
        let (homing_strength, c23) = Single::layout(c22);
        let (ranged_elevation, c24) = Single::layout(c23);
        let (ranged_danger, c25) = Single::layout(c24);
        let (gun_range, c26) = Single::layout(c25);
        let (gun_clip, c27) = c26.i32();
        let (gun_rate, c28) = c27.i32();
        let (gun_accuracy, c29) = Single::layout(c28);
        let (gun_sound_cue, c30) = c29.string();
        let (gun_muzzle_effect, c31) = c30.string();
        let (gun_shell_effect, c32) = c31.string();
        let (gun_tracer_velocity, c33) = Single::layout(c32);
        let (gun_non_tracer, c34) = c33.string();
        let (gun_tracer, c35) = c34.string();
        let (gun_conditions, c36) = counted::<EventConditions>(c35);
        let (projectile_model, c37) = c36.string();
        let (ranged_conditions, c38) = counted::<EventConditions>(c37);
        let (scale, c39) = Single::layout(c38);
        let (model, c40) = c39.string();
        let (auras, c41) = counted::<Aura>(c40);
        (ItemView {
            name,
            locale_name,
            locale_description,
            sounds,
            pickupable,
            bound,
            block_value,
            weapon_class,
            cooldown_time,
            hide_model,
            hide_effect,
            pause_sounds,
            resistances,
            passive_ability,
            effects,
            lights,
            special_ability,
            melee_range,
            melee_multi_hit,
            melee_conditions,
            ranged_range,
            facing,
            homing_strength,
            ranged_elevation,
            ranged_danger,
            gun_range,
            gun_clip,
            gun_rate,
            gun_accuracy,
            gun_sound_cue,
            gun_muzzle_effect,
            gun_shell_effect,
            gun_tracer_velocity,
            gun_non_tracer,
            gun_tracer,
            gun_conditions,
            projectile_model,
            ranged_conditions,
            scale,
            model,
            auras,
        }, c41)
    }

    /// The value at `c`: nothing from a failed cursor.
    pub open spec fn layout(c: Cursor) -> (ItemView, Cursor) {
        if c.err is Some {
            (arbitrary(), c)
        } else {
            Self::fields(c)
        }
    }

    /// Reads one `Item`.
    pub fn read(reader: &mut Reader) -> (res: Result<Self, DecodeError>)
        ensures
            follows(res, final(reader)@, Self::layout(old(reader)@)),
    {
        proof {
            reveal(Item::fields);
        }
        let name = reader.read_7bit_length_string()?;
        let locale_name = reader.read_7bit_length_string()?;
        let locale_description = reader.read_7bit_length_string()?;
        let sounds = read_counted::<Sound>(reader)?;
        let pickupable = reader.read_bool()?;
        let bound = reader.read_bool()?;
        let block_value = reader.read_i32()?;
        let weapon_class = WeaponClass::read(reader)?;
        let cooldown_time = Single::read(reader)?;
        let hide_model = reader.read_bool()?;
        let hide_effect = reader.read_bool()?;
        let pause_sounds = reader.read_bool()?;
        let resistances = read_counted::<Resistance>(reader)?;
        let passive_ability = PassiveAbility::read(reader)?;
        let effects = read_counted::<String>(reader)?;
        let lights = read_counted::<Light>(reader)?;
        let special_ability = read_optional::<SpecialAbilityWithCooldown>(reader)?;
        let melee_range = Single::read(reader)?;
        let melee_multi_hit = reader.read_bool()?;
        let melee_conditions = read_counted::<EventConditions>(reader)?;
        let ranged_range = Single::read(reader)?;
        let facing = reader.read_bool()?;
        let homing_strength = Single::read(reader)?;
        let ranged_elevation = Single::read(reader)?;
        let ranged_danger = Single::read(reader)?;
        let gun_range = Single::read(reader)?;
        let gun_clip = reader.read_i32()?;
        let gun_rate = reader.read_i32()?;
        let gun_accuracy = Single::read(reader)?;
        let gun_sound_cue = reader.read_7bit_length_string()?;
        let gun_muzzle_effect = reader.read_7bit_length_string()?;
        let gun_shell_effect = reader.read_7bit_length_string()?;
        let gun_tracer_velocity = Single::read(reader)?;
        let gun_non_tracer = reader.read_7bit_length_string()?;
        let gun_tracer = reader.read_7bit_length_string()?;
        let gun_conditions = read_counted::<EventConditions>(reader)?;
        let projectile_model = reader.read_7bit_length_string()?;
        let ranged_conditions = read_counted::<EventConditions>(reader)?;
        let scale = Single::read(reader)?;
        let model = reader.read_7bit_length_string()?;
        let auras = read_counted::<Aura>(reader)?;
        Ok(Item {
            name,
            locale_name,
            locale_description,
            sounds,
            pickupable,
            bound,
            block_value,
            weapon_class,
            cooldown_time,
            hide_model,
            hide_effect,
            pause_sounds,
            resistances,
            passive_ability,
            effects,
            lights,
            special_ability,
            melee_range,
            melee_multi_hit,
            melee_conditions,
            ranged_range,
            facing,
            homing_strength,
            ranged_elevation,
            ranged_danger,
            gun_range,
            gun_clip,
            gun_rate,
            gun_accuracy,
            gun_sound_cue,
            gun_muzzle_effect,
            gun_shell_effect,
            gun_tracer_velocity,
            gun_non_tracer,
            gun_tracer,
            gun_conditions,
            projectile_model,
            ranged_conditions,
            scale,
            model,
            auras,
        })
    }
}

impl Decode for Item {
    open spec fn wire(c: Cursor) -> (ItemView, Cursor) {
        Item::layout(c)
    }

    proof fn lemma_wire_failed(c: Cursor) {
    }

    fn decode(r: &mut Reader) -> (res: Result<Self, DecodeError>) {
        Item::read(r)
    }
}

} // verus!
