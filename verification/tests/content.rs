use xnb_tool::content::ability::{Ability, AbilityKind, AbilityTarget, CastKind};
use xnb_tool::content::ai::{Order, ReactionTriggers};
use xnb_tool::content::animation::{
    AnimationAction, AnimationActionKind, AnimationTargets, CastSpellAnimationAction, GripKind,
    JumpAnimationAction, SpecialAbilityAnimationAction,
};
use xnb_tool::content::attack_property::AttackProperties;
use xnb_tool::content::aura::{Aura, AuraKind, AuraTarget, Buff, BuffKind, VisualCategory};
use xnb_tool::content::blood_kind::BloodKind;
use xnb_tool::content::color::Color;
use xnb_tool::content::effect::{AdditiveEffect, BonedEffect, Effect, SkinnedModelBasicEffect};
use xnb_tool::content::element::Element;
use xnb_tool::content::event::{Event, EventConditionKind, EventConditions};
use xnb_tool::content::faction::Factions;
use xnb_tool::content::light::{Light, LightVariation};
use xnb_tool::content::movement::{Movement, MovementProperties};
use xnb_tool::content::passive_ability::{PassiveAbility, PassiveAbilityKind};
use xnb_tool::content::resistance::Resistance;
use xnb_tool::content::sound::{Bank, Sound};
use xnb_tool::content::special_ability::SpecialAbilityWithCooldown;
use xnb_tool::content::texture::Texture2D;
use xnb_tool::content::vector3::Vector3;
use xnb_tool::content::weapon_class::WeaponClass;
use xnb_tool::content::{
    Content, ReaderKind, MAX_DEPTH, MODEL_READER_NAME, SKINNED_MODEL_BASIC_EFFECT_READER_NAME,
    SKINNED_MODEL_READER_NAME, STRING_READER_NAME,
};
use xnb_tool::decode::{read_counted, read_optional, read_vec};
use xnb_tool::error::{DecodeError, Expected, Selector};
use xnb_tool::reader::Reader;
use xnb_tool::single::{Matrix4, Quaternion, Single};
use xnb_tool::xnb::{TypeReader, XnbContent};

/// Bytes of a stream in the making.
struct Wire {
    bytes: Vec<u8>,
}

impl Wire {
    fn new() -> Wire {
        Wire { bytes: Vec::new() }
    }
    fn u8(mut self, v: u8) -> Wire {
        self.bytes.push(v);
        self
    }
    fn u16(mut self, v: u16) -> Wire {
        self.bytes.extend_from_slice(&v.to_le_bytes());
        self
    }
    fn u32(mut self, v: u32) -> Wire {
        self.bytes.extend_from_slice(&v.to_le_bytes());
        self
    }
    fn i32(mut self, v: i32) -> Wire {
        self.bytes.extend_from_slice(&v.to_le_bytes());
        self
    }
    fn single(self, v: f32) -> Wire {
        self.u32(v.to_bits())
    }
    fn string(mut self, s: &str) -> Wire {
        assert!(s.len() < 128);
        self.bytes.push(s.len() as u8);
        self.bytes.extend_from_slice(s.as_bytes());
        self
    }
    fn raw(mut self, bytes: &[u8]) -> Wire {
        self.bytes.extend_from_slice(bytes);
        self
    }
}

fn single(v: f32) -> Single {
    Single { bits: v.to_bits() }
}

fn readers(names: &[&str]) -> Vec<TypeReader> {
    names.iter().map(|n| TypeReader { name: n.to_string(), version: 0 }).collect()
}

#[test]
fn a_type_id_of_zero_is_no_content() {
    let table = readers(&[STRING_READER_NAME]);
    let bytes = [0u8, 1, 2, 3];
    let mut reader = Reader::new(&bytes);
    assert_eq!(Content::read(&mut reader, &table), Ok(Content::Null));
    // Nothing behind the id was read.
    assert_eq!(reader.pos, 1);
    // The table does not matter.
    let mut reader = Reader::new(&bytes);
    assert_eq!(Content::read(&mut reader, &[]), Ok(Content::Null));
}

#[test]
fn content_names_its_decoder_by_place() {
    let table = readers(&["Some.Other.Reader", STRING_READER_NAME]);
    let wire = Wire::new().u8(2).string("bone");
    let mut reader = Reader::new(&wire.bytes);
    assert_eq!(Content::read(&mut reader, &table), Ok(Content::String("bone".to_string())));
    assert_eq!(reader.remaining(), 0);
}

#[test]
fn assembly_qualifiers_of_a_reader_name_are_ignored() {
    let name = format!("{}, Microsoft.Xna.Framework, Version=3.1.0.0, Culture=neutral", STRING_READER_NAME);
    assert_eq!(ReaderKind::resolve(&name), Some(ReaderKind::String));
    assert_eq!(ReaderKind::resolve(STRING_READER_NAME), Some(ReaderKind::String));
    assert_eq!(ReaderKind::resolve(MODEL_READER_NAME), Some(ReaderKind::Model));
    assert_eq!(ReaderKind::resolve(""), None);
    assert_eq!(ReaderKind::resolve(",Microsoft.Xna.Framework.Content.StringReader"), None);
    let longer = format!("{}x", STRING_READER_NAME);
    assert_eq!(ReaderKind::resolve(&longer), None);
}

#[test]
fn an_unknown_reader_name_is_refused_by_name() {
    let table = readers(&["Nobody.Knows.ThisReader, Assembly"]);
    let mut reader = Reader::new(&[1]);
    assert_eq!(
        Content::read(&mut reader, &table),
        Err(DecodeError::UnknownTypeReader { name: "Nobody.Knows.ThisReader, Assembly".to_string() })
    );
}

#[test]
fn a_type_id_past_the_table_is_refused() {
    let table = readers(&[STRING_READER_NAME]);
    assert_eq!(
        Content::read(&mut Reader::new(&[2]), &table),
        Err(DecodeError::TypeIdOutOfRange { id: 2 })
    );
    assert_eq!(
        Content::read(&mut Reader::new(&[0xFF, 0xFF, 0xFF, 0xFF, 0x0F]), &table),
        Err(DecodeError::TypeIdOutOfRange { id: -1 })
    );
}

#[test]
fn content_that_nests_without_end_is_too_deep() {
    // A skinned model whose model is a skinned model, and so on.
    let table = readers(&[SKINNED_MODEL_READER_NAME]);
    let bytes = vec![1u8; 64];
    assert_eq!(Content::read(&mut Reader::new(&bytes), &table), Err(DecodeError::TooDeep));
    assert!(MAX_DEPTH < 64);
}

#[test]
fn a_skinned_model_requires_a_model() {
    let table = readers(&[SKINNED_MODEL_READER_NAME, STRING_READER_NAME]);
    let wire = Wire::new().u8(1).u8(2).string("not a model");
    assert_eq!(
        Content::read(&mut Reader::new(&wire.bytes), &table),
        Err(DecodeError::UnexpectedContent { expected: Expected::Model })
    );
}

#[test]
fn the_content_graph_is_table_then_primary_then_pool() {
    let wire = Wire::new()
        .u8(1)
        .string(STRING_READER_NAME)
        .i32(7)
        .u8(2)
        .u8(1)
        .string("primary")
        .u8(0)
        .u8(1)
        .string("second")
        .u8(0xEE);
    let mut reader = Reader::new(&wire.bytes);
    let graph = XnbContent::parse(&mut reader).unwrap();
    assert_eq!(graph.readers, vec![TypeReader { name: STRING_READER_NAME.to_string(), version: 7 }]);
    assert_eq!(graph.primary_content, Content::String("primary".to_string()));
    assert_eq!(graph.shared_content, vec![Content::Null, Content::String("second".to_string())]);
    // One byte was not part of the graph.
    assert_eq!(reader.remaining(), 1);
}

#[test]
fn a_content_graph_cut_short_is_refused() {
    let wire = Wire::new().u8(1).string(STRING_READER_NAME).i32(0).u8(1).u8(1).string("primary");
    assert_eq!(XnbContent::parse(&mut Reader::new(&wire.bytes)).err(), Some(DecodeError::UnexpectedEof));
}

#[test]
fn the_extension_follows_the_variant() {
    assert_eq!(Content::Null.extension(), None);
    assert_eq!(Content::String(String::new()).extension(), Some("string"));
    assert_eq!(Content::Effect(Effect { bytecode: vec![] }).extension(), Some("effect"));
}

#[test]
fn a_sound_is_its_cue_and_then_its_bank() {
    let wire = Wire::new().string("boom").i32(0x21);
    assert_eq!(
        Sound::read(&mut Reader::new(&wire.bytes)),
        Ok(Sound { cue: "boom".to_string(), bank: Bank { bits: 0x21 } })
    );
}

#[test]
fn flags_with_unknown_bits_are_refused() {
    let wire = Wire::new().i32(0x800);
    assert_eq!(
        Bank::read(&mut Reader::new(&wire.bytes)),
        Err(DecodeError::UnknownKind { selector: Selector::Bank, value: 0x800 })
    );
    assert_eq!(Bank::from_bits(0x7FF), Some(Bank { bits: 0x7FF }));
    assert_eq!(Bank::from_bits(0x7FF).unwrap().bits(), 0x7FF);
    assert_eq!(Bank::from_bits(0x800), None);
    assert_eq!(ReactionTriggers::from_bits(4), None);
    assert_eq!(ReactionTriggers::from_bits(3), Some(ReactionTriggers { bits: 3 }));
    assert_eq!(AttackProperties::from_bits(512), None);
    assert_eq!(Factions::from_bits(0x4000), None);
    assert_eq!(EventConditionKind::from_bits(128), None);
    assert_eq!(Element::from_bits(0xFFFF), Some(Element { bits: 0xFFFF }));
    assert_eq!(AnimationTargets::from_bits(255), Some(AnimationTargets { bits: 255 }));
    assert_eq!(MovementProperties::from_bits(8), Some(MovementProperties { bits: 8 }));
}

#[test]
fn only_the_low_half_of_wide_flags_counts() {
    // The upper half of the 32 bits is cut away before the flags are checked.
    let wire = Wire::new().i32(0x0001_0003);
    assert_eq!(Element::read(&mut Reader::new(&wire.bytes)), Ok(Element { bits: 3 }));
    let wire = Wire::new().i32(-1);
    assert_eq!(Element::read(&mut Reader::new(&wire.bytes)), Ok(Element { bits: 0xFFFF }));
}

#[test]
fn selectors_map_numbers_to_variants() {
    assert_eq!(AbilityTarget::from_repr(0), None);
    assert_eq!(AbilityTarget::from_repr(1), Some(AbilityTarget::User));
    assert_eq!(AbilityTarget::from_repr(3), Some(AbilityTarget::Friendly));
    assert_eq!(AbilityTarget::from_repr(4), None);
    assert_eq!(Order::from_repr(6), Some(Order::Panic));
    assert_eq!(GripKind::from_repr(2), Some(GripKind::Hold));
    assert_eq!(WeaponClass::from_repr(26), Some(WeaponClass::NewAnimationSet7));
    assert_eq!(WeaponClass::from_repr(27), None);
    assert_eq!(PassiveAbilityKind::from_repr(16), Some(PassiveAbilityKind::DragonSlayer));
    assert_eq!(LightVariation::from_repr(4), Some(LightVariation::Strobe));
    assert_eq!(AuraTarget::from_repr(9), Some(AuraTarget::FactionButSelf));
    assert_eq!(VisualCategory::from_repr(3), Some(VisualCategory::Special));
    assert_eq!(BloodKind::from_repr(5), Some(BloodKind::Nothing));
    assert_eq!(CastKind::from_repr(5), Some(CastKind::Magick));
    assert_eq!(CastKind::from_repr(6), None);
}

#[test]
fn an_unknown_selector_is_refused_with_its_number() {
    assert_eq!(
        Order::read(&mut Reader::new(&[7])),
        Err(DecodeError::UnknownKind { selector: Selector::Order, value: 7 })
    );
    let wire = Wire::new().i32(9);
    assert_eq!(
        BloodKind::read(&mut Reader::new(&wire.bytes)),
        Err(DecodeError::UnknownKind { selector: Selector::BloodKind, value: 9 })
    );
    // Of a wide selector only the low byte counts.
    let wire = Wire::new().i32(0x0102);
    assert_eq!(CastKind::read(&mut Reader::new(&wire.bytes)), Ok(CastKind::Area));
}

#[test]
fn a_resistance_is_read_field_by_field() {
    let wire = Wire::new().i32(8).single(0.5).single(-2.0).u8(1);
    assert_eq!(
        Resistance::read(&mut Reader::new(&wire.bytes)),
        Ok(Resistance {
            element: Element { bits: 8 },
            multiplier: single(0.5),
            modifier: single(-2.0),
            status_immunity: true,
        })
    );
    let neutral = Resistance::new(Element { bits: Element::FIRE });
    assert_eq!(neutral.multiplier, single(1.0));
    assert_eq!(neutral.modifier, single(0.0));
    assert!(!neutral.status_immunity);
}

#[test]
fn a_light_holds_its_colours_and_variation() {
    let wire = Wire::new()
        .single(3.0)
        .single(1.0)
        .single(0.5)
        .single(0.25)
        .single(0.0)
        .single(0.0)
        .single(0.0)
        .single(2.0)
        .u8(3)
        .single(0.1)
        .single(0.2);
    assert_eq!(
        Light::read(&mut Reader::new(&wire.bytes)),
        Ok(Light {
            radius: single(3.0),
            diffuse_color: Color { r: single(1.0), g: single(0.5), b: single(0.25) },
            ambient_color: Color { r: single(0.0), g: single(0.0), b: single(0.0) },
            specular_amount: single(2.0),
            variation: LightVariation::Candle,
            variation_amount: single(0.1),
            variation_speed: single(0.2),
        })
    );
}

#[test]
fn a_movement_lists_its_animations_behind_their_count() {
    let wire = Wire::new().u8(2).i32(2).string("walk").string("run");
    assert_eq!(
        Movement::read(&mut Reader::new(&wire.bytes)),
        Ok(Movement {
            properties: MovementProperties { bits: 2 },
            animations: vec!["walk".to_string(), "run".to_string()],
        })
    );
    let wire = Wire::new().u8(0).i32(-1);
    assert_eq!(
        Movement::read(&mut Reader::new(&wire.bytes)),
        Err(DecodeError::Negative { value: -1 })
    );
    let wire = Wire::new().u8(0).i32(2).string("walk");
    assert_eq!(Movement::read(&mut Reader::new(&wire.bytes)), Err(DecodeError::UnexpectedEof));
}

#[test]
fn an_ability_is_decoded_by_the_name_of_its_kind() {
    let wire = Wire::new()
        .string("Block")
        .single(1.5)
        .u8(2)
        .u8(1)
        .string("near")
        .i32(1)
        .string("block_anim")
        .single(90.0)
        .i32(4);
    let ability = Ability::read(&mut Reader::new(&wire.bytes)).unwrap();
    assert_eq!(ability.cooldown, single(1.5));
    assert_eq!(ability.target, AbilityTarget::Enemy);
    assert_eq!(ability.fuzzy_expression, Some("near".to_string()));
    assert_eq!(ability.animations, vec!["block_anim".to_string()]);
    match ability.kind {
        AbilityKind::Block(block) => {
            assert_eq!(block.arc, single(90.0));
            assert_eq!(block.shield, 4);
        }
        other => panic!("{:?}", other),
    }
}

#[test]
fn an_ability_without_fields_of_its_kind_ends_with_the_common_fields() {
    let wire = Wire::new().string("RemoveStatus").single(0.0).u8(1).u8(0).i32(0);
    let mut reader = Reader::new(&wire.bytes);
    let ability = Ability::read(&mut reader).unwrap();
    assert!(matches!(ability.kind, AbilityKind::RemoveStatus(_)));
    assert_eq!(ability.fuzzy_expression, None);
    assert_eq!(reader.remaining(), 0);
}

#[test]
fn an_unknown_ability_kind_is_refused_by_name() {
    let wire = Wire::new().string("Teleport").single(0.0).u8(1).u8(0).i32(0);
    assert_eq!(
        Ability::read(&mut Reader::new(&wire.bytes)),
        Err(DecodeError::UnknownName { selector: Selector::AbilityKind, name: "Teleport".to_string() })
    );
}

#[test]
fn the_ranges_of_a_jump_action_are_optional() {
    let wire = Wire::new().single(2.0).u8(0).u8(1).single(9.0);
    assert_eq!(
        JumpAnimationAction::read(&mut Reader::new(&wire.bytes)),
        Ok(JumpAnimationAction { elevation: single(2.0), min_range: single(0.0), max_range: single(9.0) })
    );
}

#[test]
fn a_special_ability_action_holds_its_ability_for_a_negative_slot() {
    let wire = Wire::new().i32(2);
    assert_eq!(
        SpecialAbilityAnimationAction::read(&mut Reader::new(&wire.bytes)),
        Ok(SpecialAbilityAnimationAction { weapon_slot: 2, ability: None })
    );
    let wire = Wire::new().i32(-1).string("k").string("a").string("h").i32(1).i32(3);
    let action = SpecialAbilityAnimationAction::read(&mut Reader::new(&wire.bytes)).unwrap();
    assert_eq!(action.weapon_slot, -1);
    assert_eq!(action.ability.unwrap().elements, vec![Element { bits: 3 }]);
}

#[test]
fn a_cast_spell_action_names_a_bone_unless_cast_from_the_staff() {
    assert_eq!(
        CastSpellAnimationAction::read(&mut Reader::new(&[1])),
        Ok(CastSpellAnimationAction { from_staff: true, bone: None })
    );
    let wire = Wire::new().u8(0).string("hand");
    assert_eq!(
        CastSpellAnimationAction::read(&mut Reader::new(&wire.bytes)),
        Ok(CastSpellAnimationAction { from_staff: false, bone: Some("hand".to_string()) })
    );
}

#[test]
fn an_animation_action_is_decoded_by_the_name_of_its_kind() {
    let wire = Wire::new().string("Invisible").single(0.25).single(0.75).u8(1);
    let action = AnimationAction::read(&mut Reader::new(&wire.bytes)).unwrap();
    assert_eq!(action.start, single(0.25));
    assert_eq!(action.end, single(0.75));
    match action.kind {
        AnimationActionKind::Invisible(a) => assert!(a.shimmer),
        other => panic!("{:?}", other),
    }
    let wire = Wire::new().string("Dance").single(0.0).single(0.0);
    assert_eq!(
        AnimationAction::read(&mut Reader::new(&wire.bytes)),
        Err(DecodeError::UnknownName { selector: Selector::AnimationActionKind, name: "Dance".to_string() })
    );
}

#[test]
fn an_event_is_decoded_by_the_byte_of_its_kind() {
    let wire = Wire::new().u8(11).string("sword");
    match Event::read(&mut Reader::new(&wire.bytes)).unwrap() {
        Event::SpawnItem(e) => assert_eq!(e.item, "sword"),
        other => panic!("{:?}", other),
    }
    let wire = Wire::new().u8(4).i32(3);
    match Event::read(&mut Reader::new(&wire.bytes)).unwrap() {
        Event::Remove(e) => assert_eq!(e.bounces, 3),
        other => panic!("{:?}", other),
    }
}

#[test]
fn an_event_kind_without_a_layout_is_refused() {
    for kind in [5u8, 6, 7, 9, 17, 18, 200] {
        assert_eq!(
            Event::read(&mut Reader::new(&[kind, 0, 0, 0, 0])),
            Err(DecodeError::UnknownKind { selector: Selector::EventKind, value: kind as i32 })
        );
    }
}

#[test]
fn event_conditions_keep_their_hit_points_whole() {
    let wire = Wire::new().u8(2).i32(150).i32(1).single(0.5).single(1.5).u8(1).i32(1).u8(4).i32(2);
    let conditions = EventConditions::read(&mut Reader::new(&wire.bytes)).unwrap();
    assert_eq!(conditions.kind, EventConditionKind { bits: 2 });
    assert_eq!(conditions.hitpoints, 150);
    assert_eq!(conditions.element, Element { bits: 1 });
    assert!(conditions.repeat);
    assert_eq!(conditions.events.len(), 1);
}

#[test]
fn a_buff_is_decoded_by_the_byte_of_its_kind() {
    let wire = Wire::new().u8(3).u8(1).single(1.0).single(1.0).single(1.0).single(5.0).string("glow");
    let buff = Buff::read(&mut Reader::new(&wire.bytes)).unwrap();
    assert!(matches!(buff.kind, BuffKind::Undying(_)));
    assert_eq!(buff.visual_category, VisualCategory::Offensive);
    assert_eq!(buff.time, single(5.0));
    assert_eq!(buff.effect, "glow");
    let wire = Wire::new().u8(9).u8(1).single(1.0).single(1.0).single(1.0).single(5.0).string("glow");
    assert_eq!(
        Buff::read(&mut Reader::new(&wire.bytes)),
        Err(DecodeError::UnknownKind { selector: Selector::BuffKind, value: 9 })
    );
}

fn aura_wire(kind: u8) -> Wire {
    Wire::new()
        .u8(2)
        .u8(kind)
        .u8(0)
        .single(0.0)
        .single(0.0)
        .single(0.0)
        .string("fx")
        .single(1.0)
        .single(2.0)
        .string("types")
        .i32(4)
}

#[test]
fn an_aura_is_decoded_by_the_byte_of_its_kind() {
    let wire = aura_wire(1).single(0.75);
    let aura = Aura::read(&mut Reader::new(&wire.bytes)).unwrap();
    assert_eq!(aura.target, AuraTarget::Enemy);
    assert_eq!(aura.factions, Factions { bits: 4 });
    match aura.kind {
        AuraKind::Deflect(d) => assert_eq!(d.strength, single(0.75)),
        other => panic!("{:?}", other),
    }
}

#[test]
fn an_aura_kind_without_a_layout_is_refused() {
    for kind in [2u8, 3, 4, 5] {
        assert_eq!(
            Aura::read(&mut Reader::new(&aura_wire(kind).bytes)),
            Err(DecodeError::UnknownKind { selector: Selector::AuraKind, value: kind as i32 })
        );
    }
}

#[test]
fn a_cooldown_comes_before_its_special_ability() {
    let wire = Wire::new().single(4.0).string("kind").string("anim").string("hash").i32(0);
    let ability = SpecialAbilityWithCooldown::read(&mut Reader::new(&wire.bytes)).unwrap();
    assert_eq!(ability.cooldown, single(4.0));
    assert_eq!(ability.ability.kind, "kind");
    assert_eq!(ability.ability.hash, "hash");
}

#[test]
fn a_passive_ability_is_its_kind_and_value() {
    let wire = Wire::new().u8(8).single(3.5);
    assert_eq!(
        PassiveAbility::read(&mut Reader::new(&wire.bytes)),
        Ok(PassiveAbility { kind: PassiveAbilityKind::Zap, value: single(3.5) })
    );
}

#[test]
fn a_matrix_is_read_row_after_row_and_kept_column_after_column() {
    let mut wire = Wire::new();
    for i in 0..16 {
        wire = wire.single(i as f32);
    }
    let matrix = Matrix4::read(&mut Reader::new(&wire.bytes)).unwrap();
    // The second number of the wire is the first of the second column.
    assert_eq!(matrix.cols[4], single(1.0));
    assert_eq!(matrix.cols[1], single(4.0));
    assert_eq!(matrix.cols[15], single(15.0));
    let back = matrix.transposed();
    for i in 0..16 {
        assert_eq!(back.cols[i], single(i as f32));
    }
    assert_eq!(back.transposed(), matrix);
}

#[test]
fn a_quaternion_is_four_numbers() {
    let wire = Wire::new().single(0.0).single(0.0).single(0.5).single(1.0);
    assert_eq!(
        Quaternion::read(&mut Reader::new(&wire.bytes)),
        Ok(Quaternion { x: single(0.0), y: single(0.0), z: single(0.5), w: single(1.0) })
    );
}

#[test]
fn sequences_and_optional_values_are_read_by_type() {
    let wire = Wire::new().i32(2).single(1.0).single(2.0).single(3.0).single(4.0).single(5.0).single(6.0);
    assert_eq!(
        read_counted::<Vector3>(&mut Reader::new(&wire.bytes)),
        Ok(vec![
            Vector3 { x: single(1.0), y: single(2.0), z: single(3.0) },
            Vector3 { x: single(4.0), y: single(5.0), z: single(6.0) },
        ])
    );
    assert_eq!(read_optional::<u8>(&mut Reader::new(&[0, 9])), Ok(None));
    assert_eq!(read_optional::<u8>(&mut Reader::new(&[1, 9])), Ok(Some(9)));
    assert_eq!(read_vec::<u8>(&mut Reader::new(&[1, 2, 3]), 2), Ok(vec![1, 2]));
    assert_eq!(read_vec::<u8>(&mut Reader::new(&[1, 2, 3]), 4), Err(DecodeError::UnexpectedEof));
}

#[test]
fn a_texture_holds_its_mip_levels_behind_their_lengths() {
    let wire = Wire::new().u32(0x1C).u32(4).u32(4).u32(2).u32(3).raw(&[1, 2, 3]).u32(1).raw(&[9]);
    assert_eq!(
        Texture2D::read(&mut Reader::new(&wire.bytes)),
        Ok(Texture2D { format: 0x1C, width: 4, height: 4, mips: vec![vec![1, 2, 3], vec![9]] })
    );
}

#[test]
fn effects_are_read_field_by_field() {
    let wire = Wire::new().single(1.0).single(0.0).single(0.0).u8(1).u8(0).string("tex");
    assert_eq!(
        AdditiveEffect::read(&mut Reader::new(&wire.bytes)),
        Ok(AdditiveEffect {
            color_tint: Color { r: single(1.0), g: single(0.0), b: single(0.0) },
            vertex_color_enabled: true,
            texture_enabled: false,
            texture: "tex".to_string(),
        })
    );
    let wire = Wire::new().string("hip").string("smoke");
    assert_eq!(
        BonedEffect::read(&mut Reader::new(&wire.bytes)),
        Ok(BonedEffect { bone: "hip".to_string(), effect: "smoke".to_string() })
    );
    let wire = Wire::new().u32(2).raw(&[7, 8]);
    assert_eq!(Effect::read(&mut Reader::new(&wire.bytes)), Ok(Effect { bytecode: vec![7, 8] }));
}

fn skinned_effect_wire(enabled: [u8; 6]) -> Wire {
    Wire::new()
        .u8(1)
        .single(0.0)
        .single(1.0)
        .single(1.0)
        .single(1.0)
        .single(0.0)
        .single(0.0)
        .single(1.0)
        .u8(0)
        .raw(&enabled)
}

#[test]
fn the_maps_of_a_skinned_effect_are_references_or_zero_bytes() {
    let table = readers(&[
        SKINNED_MODEL_BASIC_EFFECT_READER_NAME,
        "Microsoft.Xna.Framework.Content.ExternalReferenceReader",
    ]);
    // Diffuse map 0 and the material map are there; the material map is
    // enabled third and stands third.
    let wire = skinned_effect_wire([1, 0, 1, 0, 0, 0])
        .u8(2)
        .string("diffuse")
        .u8(0)
        .u8(2)
        .string("material")
        .u8(0)
        .u8(0)
        .u8(0);
    let effect = SkinnedModelBasicEffect::read(&mut Reader::new(&wire.bytes), &table).unwrap();
    assert_eq!(effect.map_0_diffuse, Some("diffuse".to_string()));
    assert_eq!(effect.map_1_diffuse, None);
    assert_eq!(effect.material_map, Some("material".to_string()));
    assert_eq!(effect.map_0_damage, None);
    assert_eq!(effect.normal_map, None);
}

#[test]
fn the_slot_of_an_unused_map_must_be_zero() {
    let table = readers(&[SKINNED_MODEL_BASIC_EFFECT_READER_NAME]);
    let wire = skinned_effect_wire([0, 0, 0, 0, 0, 0]).u8(5);
    assert_eq!(
        SkinnedModelBasicEffect::read(&mut Reader::new(&wire.bytes), &table),
        Err(DecodeError::NonZeroPadding { byte: 5 })
    );
}

#[test]
fn an_enabled_map_must_be_a_reference() {
    let table = readers(&[SKINNED_MODEL_BASIC_EFFECT_READER_NAME, STRING_READER_NAME]);
    let wire = skinned_effect_wire([1, 0, 0, 0, 0, 0]).u8(2).string("just a string");
    assert_eq!(
        SkinnedModelBasicEffect::read(&mut Reader::new(&wire.bytes), &table),
        Err(DecodeError::UnexpectedContent { expected: Expected::ExternalReference })
    );
}

#[test]
fn a_refused_selector_has_been_read() {
    // The reader stands behind the byte that was refused.
    let bytes = [9u8, 1, 2, 3];
    let mut reader = Reader::new(&bytes);
    assert!(AbilityTarget::read(&mut reader).is_err());
    assert_eq!(reader.pos, 1);
    let mut reader = Reader::new(&bytes);
    assert!(Order::read(&mut reader).is_err());
    assert_eq!(reader.pos, 1);
    let mut reader = Reader::new(&bytes);
    assert!(ReactionTriggers::read(&mut reader).is_err());
    assert_eq!(reader.pos, 1);
    // A number that ends too early has not been read at all.
    let mut reader = Reader::new(&bytes[..3]);
    assert_eq!(reader.read_u32(), Err(DecodeError::UnexpectedEof));
    assert_eq!(reader.pos, 0);
    // A count that is negative has.
    let negative = [0xFFu8, 0xFF, 0xFF, 0xFF, 7];
    let mut reader = Reader::new(&negative);
    assert_eq!(reader.read_count(), Err(DecodeError::Negative { value: -1 }));
    assert_eq!(reader.pos, 4);
}
