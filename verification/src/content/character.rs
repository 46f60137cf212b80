//! A character template.
use vstd::prelude::*;
use crate::decode::{Decode, counted, read_counted, read_vec, repeat};
use crate::error::{DecodeError};
use crate::reader::{Cursor, follows, Reader};
use crate::single::Single;
use crate::content::ability::{Ability, AbilityView};
use crate::content::animation::{AnimationSet, AnimationSetView};
use crate::content::attachment::{Attachment, AttachmentView};
use crate::content::aura::{Aura, AuraView, Buff, BuffView};
use crate::content::blood_kind::BloodKind;
use crate::content::boned_light::{BonedLight, BonedLightView};
use crate::content::character_model::{CharacterModel, CharacterModelView};
use crate::content::effect::{BonedEffect, BonedEffectView};
use crate::content::event::{EventConditions, EventConditionsView};
use crate::content::faction::Factions;
use crate::content::gib::{Gib, GibView};
use crate::content::movement::{Movement, MovementView};
use crate::content::resistance::Resistance;
use crate::content::sound::{Bank, Sound, SoundView};

verus! {

broadcast use {crate::reader::group_failed, crate::decode::group_failed_items};

/// A character template. The sound of summoning an element has its bank
/// before its cue on the wire, unlike every other sound.
#[derive(Clone, PartialEq, Eq, Debug)]
pub struct Character {
    pub name: String,
    pub locale_name: String,
    pub factions: Factions,
    pub blood: BloodKind,
    pub is_ethereal: bool,
    pub looks_ethereal: bool,
    pub fearless: bool,
    pub uncharmable: bool,
    pub non_slippery: bool,
    pub has_fairy: bool,
    pub can_see_invisible: bool,
    pub sounds: Vec<Sound>,
    pub gibs: Vec<Gib>,
    pub lights: Vec<BonedLight>,
    pub max_hitpoints: Single,
    pub num_healthbars: i32,
    pub undying: bool,
    pub undie_time: Single,
    pub undie_hitpoints: Single,
    pub pain_tolerance: i32,
    pub knockdown_tolerance: Single,
    pub score_value: i32,
    pub xp_value: i32,
    pub reward_on_kill: bool,
    pub reward_on_overkill: bool,
    pub regeneration: i32,
    pub max_panic: Single,
    pub zap_modifier: Single,
    pub length: Single,
    pub radius: Single,
    pub mass: Single,
    pub speed: Single,
    pub turn_speed: Single,
    pub bleed_rate: Single,
    pub stun_time: Single,
    pub summon_element_sound: Sound,
    pub resistances: Vec<Resistance>,
    pub models: Vec<CharacterModel>,
    pub animation_skeleton: String,
    pub effects: Vec<BonedEffect>,
    pub animations: Vec<AnimationSet>,
    pub equipment: Vec<Attachment>,
    pub conditions: Vec<EventConditions>,
    pub alert_radius: Single,
    pub group_chase: Single,
    pub group_separation: Single,
    pub group_cohesion: Single,
    pub group_alignment: Single,
    pub group_wander: Single,
    pub friendly_avoidance: Single,
    pub enemy_avoidance: Single,
    pub sight_avoidance: Single,
    pub danger_avoidance: Single,
    pub anger_weight: Single,
    pub distance_weight: Single,
    pub health_weight: Single,
    pub flocking: bool,
    pub break_free_strength: Single,
    pub abilities: Vec<Ability>,
    pub movements: Vec<Movement>,
    pub buffs: Vec<Buff>,
    pub auras: Vec<Aura>,
}

/// `Character` as the format states it.
pub struct CharacterView {
    pub name: Seq<char>,
    pub locale_name: Seq<char>,
    pub factions: Factions,
    pub blood: BloodKind,
    pub is_ethereal: bool,
    pub looks_ethereal: bool,
    pub fearless: bool,
    pub uncharmable: bool,
    pub non_slippery: bool,
    pub has_fairy: bool,
    pub can_see_invisible: bool,
    pub sounds: Seq<SoundView>,
    pub gibs: Seq<GibView>,
    pub lights: Seq<BonedLightView>,
    pub max_hitpoints: Single,
    pub num_healthbars: i32,
    pub undying: bool,
    pub undie_time: Single,
    pub undie_hitpoints: Single,
    pub pain_tolerance: i32,
    pub knockdown_tolerance: Single,
    pub score_value: i32,
    pub xp_value: i32,
    pub reward_on_kill: bool,
    pub reward_on_overkill: bool,
    pub regeneration: i32,
    pub max_panic: Single,
    pub zap_modifier: Single,
    pub length: Single,
    pub radius: Single,
    pub mass: Single,
    pub speed: Single,
    pub turn_speed: Single,
    pub bleed_rate: Single,
    pub stun_time: Single,
    pub summon_element_sound: SoundView,
    pub resistances: Seq<Resistance>,
    pub models: Seq<CharacterModelView>,
    pub animation_skeleton: Seq<char>,
    pub effects: Seq<BonedEffectView>,
    pub animations: Seq<AnimationSetView>,
    pub equipment: Seq<AttachmentView>,
    pub conditions: Seq<EventConditionsView>,
    pub alert_radius: Single,
    pub group_chase: Single,
    pub group_separation: Single,
    pub group_cohesion: Single,
    pub group_alignment: Single,
    pub group_wander: Single,
    pub friendly_avoidance: Single,
    pub enemy_avoidance: Single,
    pub sight_avoidance: Single,
    pub danger_avoidance: Single,
    pub anger_weight: Single,
    pub distance_weight: Single,
    pub health_weight: Single,
    pub flocking: bool,
    pub break_free_strength: Single,
    pub abilities: Seq<AbilityView>,
    pub movements: Seq<MovementView>,
    pub buffs: Seq<BuffView>,
    pub auras: Seq<AuraView>,
}

impl DeepView for Character {
    type V = CharacterView;

    open spec fn deep_view(&self) -> CharacterView {
        CharacterView {
            name: self.name.deep_view(),
            locale_name: self.locale_name.deep_view(),
            factions: self.factions,
            blood: self.blood,
            is_ethereal: self.is_ethereal,
            looks_ethereal: self.looks_ethereal,
            fearless: self.fearless,
            uncharmable: self.uncharmable,
            non_slippery: self.non_slippery,
            has_fairy: self.has_fairy,
            can_see_invisible: self.can_see_invisible,
            sounds: self.sounds.deep_view(),
            gibs: self.gibs.deep_view(),
            lights: self.lights.deep_view(),
            max_hitpoints: self.max_hitpoints,
            num_healthbars: self.num_healthbars,
            undying: self.undying,
            undie_time: self.undie_time,
            undie_hitpoints: self.undie_hitpoints,
            pain_tolerance: self.pain_tolerance,
            knockdown_tolerance: self.knockdown_tolerance,
            score_value: self.score_value,
            xp_value: self.xp_value,
            reward_on_kill: self.reward_on_kill,
            reward_on_overkill: self.reward_on_overkill,
            regeneration: self.regeneration,
            max_panic: self.max_panic,
            zap_modifier: self.zap_modifier,
            length: self.length,
            radius: self.radius,
            mass: self.mass,
            speed: self.speed,
            turn_speed: self.turn_speed,
            bleed_rate: self.bleed_rate,
            stun_time: self.stun_time,
            summon_element_sound: self.summon_element_sound.deep_view(),
            resistances: self.resistances.deep_view(),
            models: self.models.deep_view(),
            animation_skeleton: self.animation_skeleton.deep_view(),
            effects: self.effects.deep_view(),
            animations: self.animations.deep_view(),
            equipment: self.equipment.deep_view(),
            conditions: self.conditions.deep_view(),
            alert_radius: self.alert_radius,
            group_chase: self.group_chase,
            group_separation: self.group_separation,
            group_cohesion: self.group_cohesion,
            group_alignment: self.group_alignment,
            group_wander: self.group_wander,
            friendly_avoidance: self.friendly_avoidance,
            enemy_avoidance: self.enemy_avoidance,
            sight_avoidance: self.sight_avoidance,
            danger_avoidance: self.danger_avoidance,
            anger_weight: self.anger_weight,
            distance_weight: self.distance_weight,
            health_weight: self.health_weight,
            flocking: self.flocking,
            break_free_strength: self.break_free_strength,
            abilities: self.abilities.deep_view(),
            movements: self.movements.deep_view(),
            buffs: self.buffs.deep_view(),
            auras: self.auras.deep_view(),
        }
    }
}

impl Character {
    /// The number of animation sets of every character, one for each
    /// weapon class.
    pub const ANIMATION_SETS: usize = 27;

    /// The fields on the wire, one behind the other.
    #[verifier::opaque]
    pub open spec fn fields(c: Cursor) -> (CharacterView, Cursor) {
        let (name, c1) = c.string();
        let (locale_name, c2) = c1.string();
        let (factions, c3) = Factions::layout(c2);
        let (blood, c4) = BloodKind::layout(c3);
        let (is_ethereal, c5) = c4.bool();
        let (looks_ethereal, c6) = c5.bool();
        let (fearless, c7) = c6.bool();
        let (uncharmable, c8) = c7.bool();
        let (non_slippery, c9) = c8.bool();
        let (has_fairy, c10) = c9.bool();
        let (can_see_invisible, c11) = c10.bool();
        let (sounds, c12) = counted::<Sound>(c11);
        let (gibs, c13) = counted::<Gib>(c12);
        let (lights, c14) = counted::<BonedLight>(c13);
        let (max_hitpoints, c15) = Single::layout(c14);
        let (num_healthbars, c16) = c15.i32();
        let (undying, c17) = c16.bool();
        let (undie_time, c18) = Single::layout(c17);
        let (undie_hitpoints, c19) = Single::layout(c18);
        let (pain_tolerance, c20) = c19.i32();
        let (knockdown_tolerance, c21) = Single::layout(c20);
        let (score_value, c22) = c21.i32();
        let (xp_value, c23) = c22.i32();
        let (reward_on_kill, c24) = c23.bool();
        let (reward_on_overkill, c25) = c24.bool();
        let (regeneration, c26) = c25.i32();
        let (max_panic, c27) = Single::layout(c26);
        let (zap_modifier, c28) = Single::layout(c27);
        let (length, c29) = Single::layout(c28);
        let (radius, c30) = Single::layout(c29);
        let (mass, c31) = Single::layout(c30);
        let (speed, c32) = Single::layout(c31);
        let (turn_speed, c33) = Single::layout(c32);
        let (bleed_rate, c34) = Single::layout(c33);
        let (stun_time, c35) = Single::layout(c34);
        let (summon_element_bank, c36) = Bank::layout(c35);
        let (summon_element_cue, c37) = c36.string();
        let (resistances, c38) = counted::<Resistance>(c37);
        let (models, c39) = counted::<CharacterModel>(c38);
        let (animation_skeleton, c40) = c39.string();
        let (effects, c41) = counted::<BonedEffect>(c40);
        let (animations, c42) = repeat::<AnimationSet>(c41, 27);
        let (equipment, c43) = counted::<Attachment>(c42);
        let (conditions, c44) = counted::<EventConditions>(c43);
        let (alert_radius, c45) = Single::layout(c44);
        let (group_chase, c46) = Single::layout(c45);
        let (group_separation, c47) = Single::layout(c46);
        let (group_cohesion, c48) = Single::layout(c47);
        let (group_alignment, c49) = Single::layout(c48);
        let (group_wander, c50) = Single::layout(c49);
        let (friendly_avoidance, c51) = Single::layout(c50);
        let (enemy_avoidance, c52) = Single::layout(c51);
        let (sight_avoidance, c53) = Single::layout(c52);
        let (danger_avoidance, c54) = Single::layout(c53);
        let (anger_weight, c55) = Single::layout(c54);
        let (distance_weight, c56) = Single::layout(c55);
        let (health_weight, c57) = Single::layout(c56);
        let (flocking, c58) = c57.bool();
        let (break_free_strength, c59) = Single::layout(c58);
        let (abilities, c60) = counted::<Ability>(c59);
        let (movements, c61) = counted::<Movement>(c60);
        let (buffs, c62) = counted::<Buff>(c61);
        let (auras, c63) = counted::<Aura>(c62);
        (CharacterView {
            name,
            locale_name,
            factions,
            blood,
            is_ethereal,
            looks_ethereal,
            fearless,
            uncharmable,
            non_slippery,
            has_fairy,
            can_see_invisible,
            sounds,
            gibs,
            lights,
            max_hitpoints,
            num_healthbars,
            undying,
            undie_time,
            undie_hitpoints,
            pain_tolerance,
            knockdown_tolerance,
            score_value,
            xp_value,
            reward_on_kill,
            reward_on_overkill,
            regeneration,
            max_panic,
            zap_modifier,
            length,
            radius,
            mass,
            speed,
            turn_speed,
            bleed_rate,
            stun_time,
            summon_element_sound: SoundView { cue: summon_element_cue,
            bank: summon_element_bank },
            resistances,
            models,
            animation_skeleton,
            effects,
            animations,
            equipment,
            conditions,
            alert_radius,
            group_chase,
            group_separation,
            group_cohesion,
            group_alignment,
            group_wander,
            friendly_avoidance,
            enemy_avoidance,
            sight_avoidance,
            danger_avoidance,
            anger_weight,
            distance_weight,
            health_weight,
            flocking,
            break_free_strength,
            abilities,
            movements,
            buffs,
            auras,
        }, c63)
    }

    /// The value at `c`: nothing from a failed cursor.
    pub open spec fn layout(c: Cursor) -> (CharacterView, Cursor) {
        if c.err is Some {
            (arbitrary(), c)
        } else {
            Self::fields(c)
        }
    }

    /// Reads one `Character`.
    pub fn read(reader: &mut Reader) -> (res: Result<Self, DecodeError>)
        ensures
            follows(res, final(reader)@, Self::layout(old(reader)@)),
    {
        proof {
            reveal(Character::fields);
        }
        let name = reader.read_7bit_length_string()?;
        let locale_name = reader.read_7bit_length_string()?;
        let factions = Factions::read(reader)?;
        let blood = BloodKind::read(reader)?;
        let is_ethereal = reader.read_bool()?;
        let looks_ethereal = reader.read_bool()?;
        let fearless = reader.read_bool()?;
        let uncharmable = reader.read_bool()?;
        let non_slippery = reader.read_bool()?;
        let has_fairy = reader.read_bool()?;
        let can_see_invisible = reader.read_bool()?;
        let sounds = read_counted::<Sound>(reader)?;
        let gibs = read_counted::<Gib>(reader)?;
        let lights = read_counted::<BonedLight>(reader)?;
        let max_hitpoints = Single::read(reader)?;
        let num_healthbars = reader.read_i32()?;
        let undying = reader.read_bool()?;
        let undie_time = Single::read(reader)?;
        let undie_hitpoints = Single::read(reader)?;
        let pain_tolerance = reader.read_i32()?;
        let knockdown_tolerance = Single::read(reader)?;
        let score_value = reader.read_i32()?;
        let xp_value = reader.read_i32()?;
        let reward_on_kill = reader.read_bool()?;
        let reward_on_overkill = reader.read_bool()?;
        let regeneration = reader.read_i32()?;
        let max_panic = Single::read(reader)?;
        let zap_modifier = Single::read(reader)?;
        let length = Single::read(reader)?;
        let radius = Single::read(reader)?;
        let mass = Single::read(reader)?;
        let speed = Single::read(reader)?;
        let turn_speed = Single::read(reader)?;
        let bleed_rate = Single::read(reader)?;
        let stun_time = Single::read(reader)?;
        let summon_element_bank = Bank::read(reader)?;
        let summon_element_cue = reader.read_7bit_length_string()?;
        let resistances = read_counted::<Resistance>(reader)?;
        let models = read_counted::<CharacterModel>(reader)?;
        let animation_skeleton = reader.read_7bit_length_string()?;
        let effects = read_counted::<BonedEffect>(reader)?;
        let animations = read_vec::<AnimationSet>(reader, 27)?;
        let equipment = read_counted::<Attachment>(reader)?;
        let conditions = read_counted::<EventConditions>(reader)?;
        let alert_radius = Single::read(reader)?;
        let group_chase = Single::read(reader)?;
        let group_separation = Single::read(reader)?;
        let group_cohesion = Single::read(reader)?;
        let group_alignment = Single::read(reader)?;
        let group_wander = Single::read(reader)?;
        let friendly_avoidance = Single::read(reader)?;
        let enemy_avoidance = Single::read(reader)?;
        let sight_avoidance = Single::read(reader)?;
        let danger_avoidance = Single::read(reader)?;
        let anger_weight = Single::read(reader)?;
        let distance_weight = Single::read(reader)?;
        let health_weight = Single::read(reader)?;
        let flocking = reader.read_bool()?;
        let break_free_strength = Single::read(reader)?;
        let abilities = read_counted::<Ability>(reader)?;
        let movements = read_counted::<Movement>(reader)?;
        let buffs = read_counted::<Buff>(reader)?;
        let auras = read_counted::<Aura>(reader)?;
        Ok(Character {
            name,
            locale_name,
            factions,
            blood,
            is_ethereal,
            looks_ethereal,
            fearless,
            uncharmable,
            non_slippery,
            has_fairy,
            can_see_invisible,
            sounds,
            gibs,
            lights,
            max_hitpoints,
            num_healthbars,
            undying,
            undie_time,
            undie_hitpoints,
            pain_tolerance,
            knockdown_tolerance,
            score_value,
            xp_value,
            reward_on_kill,
            reward_on_overkill,
            regeneration,
            max_panic,
            zap_modifier,
            length,
            radius,
            mass,
            speed,
            turn_speed,
            bleed_rate,
            stun_time,
            summon_element_sound: Sound { cue: summon_element_cue,
            bank: summon_element_bank },
            resistances,
            models,
            animation_skeleton,
            effects,
            animations,
            equipment,
            conditions,
            alert_radius,
            group_chase,
            group_separation,
            group_cohesion,
            group_alignment,
            group_wander,
            friendly_avoidance,
            enemy_avoidance,
            sight_avoidance,
            danger_avoidance,
            anger_weight,
            distance_weight,
            health_weight,
            flocking,
            break_free_strength,
            abilities,
            movements,
            buffs,
            auras,
        })
    }
}

impl Decode for Character {
    open spec fn wire(c: Cursor) -> (CharacterView, Cursor) {
        Character::layout(c)
    }

    proof fn lemma_wire_failed(c: Cursor) {
    }

    fn decode(r: &mut Reader) -> (res: Result<Self, DecodeError>) {
        Character::read(r)
    }
}

} // verus!
