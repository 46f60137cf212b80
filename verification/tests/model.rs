use xnb_tool::content::character::Character;
use xnb_tool::content::item::Item;
use xnb_tool::content::model::{
    Bone, ElementFormat, ElementMethod, ElementUsage, IndexBuffer, Mesh, MeshPart, Model, VertexDeclaration,
    VertexElement,
};
use xnb_tool::content::skinned_model::{
    insert_channel, AnimationChannel, SkinnedModel, SkinnedModelAnimationClip, SkinnedModelBone,
};
use xnb_tool::content::sound::Bank;
use xnb_tool::content::weapon_class::WeaponClass;
use xnb_tool::content::Content;
use xnb_tool::error::{DecodeError, Expected, Selector};
use xnb_tool::reader::Reader;
use xnb_tool::single::Single;
use xnb_tool::xnb::TypeReader;

struct Wire {
    bytes: Vec<u8>,
}

impl Wire {
    fn new() -> Wire {
        Wire { bytes: Vec::new() }
    }
    fn u8(mut self, v: u8) -> Wire {
        self.bytes.push(v);
        self
    }
    fn u16(mut self, v: u16) -> Wire {
        self.bytes.extend_from_slice(&v.to_le_bytes());
        self
    }
    fn u32(mut self, v: u32) -> Wire {
        self.bytes.extend_from_slice(&v.to_le_bytes());
        self
    }
    fn i32(mut self, v: i32) -> Wire {
        self.bytes.extend_from_slice(&v.to_le_bytes());
        self
    }
    fn single(self, v: f32) -> Wire {
        self.u32(v.to_bits())
    }
    fn singles(mut self, n: usize, v: f32) -> Wire {
        for _ in 0..n {
            self = self.single(v);
        }
        self
    }
    fn string(mut self, s: &str) -> Wire {
        self.bytes.push(s.len() as u8);
        self.bytes.extend_from_slice(s.as_bytes());
        self
    }
    fn identity(mut self) -> Wire {
        for i in 0..16 {
            self = self.single(if i % 5 == 0 { 1.0 } else { 0.0 });
        }
        self
    }
    fn raw(mut self, bytes: &[u8]) -> Wire {
        self.bytes.extend_from_slice(bytes);
        self
    }
}

fn single(v: f32) -> Single {
    Single { bits: v.to_bits() }
}

const STRING: &str = "Microsoft.Xna.Framework.Content.StringReader";
const DECL: &str = "Microsoft.Xna.Framework.Content.VertexDeclarationReader";
const VERTICES: &str = "Microsoft.Xna.Framework.Content.VertexBufferReader";
const INDICES: &str = "Microsoft.Xna.Framework.Content.IndexBufferReader";
const MODEL: &str = "Microsoft.Xna.Framework.Content.ModelReader";
const SKINNED: &str = "XNAnimation.Pipeline.SkinnedModelReader";

fn table() -> Vec<TypeReader> {
    [STRING, DECL, VERTICES, INDICES, MODEL, SKINNED]
        .iter()
        .map(|n| TypeReader { name: n.to_string(), version: 0 })
        .collect()
}

/// A model of two bones, one declaration and one mesh of one part.
fn model_wire() -> Wire {
    Wire::new()
        .u32(2)
        .u8(1)
        .string("root")
        .identity()
        .u8(1)
        .string("arm")
        .identity()
        // hierarchy: references are one byte wide
        .u8(0)
        .u32(1)
        .u8(2)
        .u8(1)
        .u32(0)
        // declarations
        .u32(1)
        .u8(2)
        .u32(2)
        .u16(0)
        .u16(0)
        .u8(2)
        .u8(0)
        .u8(0)
        .u8(0)
        .u16(0)
        .u16(12)
        .u8(1)
        .u8(0)
        .u8(5)
        .u8(0)
        // meshes
        .u32(1)
        .u8(1)
        .string("body")
        .u8(2)
        .singles(4, 1.0)
        .u8(3)
        .u32(4)
        .raw(&[1, 2, 3, 4])
        .u8(4)
        .u8(1)
        .u32(6)
        .raw(&[0, 0, 1, 0, 2, 0])
        .u8(9)
        .u32(1)
        .u32(0)
        .u32(0)
        .u32(3)
        .u32(0)
        .u32(1)
        .u32(0)
        .u8(0)
        .u8(0)
        // root bone and tag
        .u8(1)
        .u8(77)
}

#[test]
fn a_model_is_decoded_with_its_nested_content() {
    let wire = model_wire();
    let mut reader = Reader::new(&wire.bytes);
    let model = Model::read(&mut reader, &table()).unwrap();
    assert_eq!(reader.remaining(), 0);
    assert_eq!(model.bones.len(), 2);
    assert_eq!(model.bones[1].name, "arm");
    assert_eq!(model.bones[0].transform.cols[0], single(1.0));
    assert_eq!(model.bones_hierarchy[0].parent_ref, 0);
    assert_eq!(model.bones_hierarchy[0].children_refs, vec![2]);
    assert_eq!(model.bones_hierarchy[1].parent_ref, 1);
    assert_eq!(
        model.vertex_decls,
        vec![VertexDeclaration {
            elements: vec![
                VertexElement {
                    stream: 0,
                    offset: 0,
                    format: ElementFormat::Vector3,
                    method: ElementMethod::Default,
                    usage: ElementUsage::Position,
                    usage_index: 0,
                },
                VertexElement {
                    stream: 0,
                    offset: 12,
                    format: ElementFormat::Vector2,
                    method: ElementMethod::Default,
                    usage: ElementUsage::TextureCoordinate,
                    usage_index: 0,
                },
            ],
        }]
    );
    let mesh = &model.meshes[0];
    assert_eq!(mesh.name, "body");
    assert_eq!(mesh.parent_bone_ref, 2);
    assert_eq!(mesh.vertex_buffer.data, vec![1, 2, 3, 4]);
    assert_eq!(mesh.index_buffer, IndexBuffer { is_16_bit: true, data: vec![0, 0, 1, 0, 2, 0] });
    assert_eq!(mesh.tag, 9);
    assert_eq!(
        mesh.parts,
        vec![MeshPart {
            stream_offset: 0,
            base_vertex: 0,
            vertex_count: 3,
            start_index: 0,
            primitive_count: 1,
            vertex_decl_index: 0,
            tag: 0,
            shared_content_id: 0,
        }]
    );
    assert_eq!(model.root_bone_ref, 1);
    assert_eq!(model.tag, 77);
}

#[test]
fn a_model_of_many_bones_has_wide_references() {
    // 256 bones make every reference to a bone four bytes wide.
    let mut wire = Wire::new().u32(256);
    for _ in 0..256 {
        wire = wire.u8(1).string("b").identity();
    }
    for i in 0..256u32 {
        wire = wire.u32(if i == 0 { 0 } else { 1 }).u32(0);
    }
    wire = wire.u32(0).u32(0).u32(0x0000_0100).u8(5);
    let mut reader = Reader::new(&wire.bytes);
    let model = Model::read(&mut reader, &table()).unwrap();
    assert_eq!(reader.remaining(), 0);
    assert_eq!(model.bones.len(), 256);
    assert_eq!(model.bones_hierarchy[255].parent_ref, 1);
    assert_eq!(model.root_bone_ref, 256);
}

/// A mesh without vertices, indices or parts, with its parent bone in
/// `bone`.
fn bare_mesh(wire: Wire, bone: &[u8]) -> Wire {
    wire.u8(1).string("m").raw(bone).singles(4, 0.0).u8(3).u32(0).u8(4).u8(1).u32(0).u8(0).u32(0)
}

#[test]
fn the_parent_bone_of_a_mesh_is_as_wide_as_the_references_of_its_model() {
    let narrow = bare_mesh(Wire::new(), &[7]);
    let mut reader = Reader::new(&narrow.bytes);
    let mesh = Mesh::read(&mut reader, &table(), false).unwrap();
    assert_eq!(mesh.parent_bone_ref, 7);
    assert_eq!(reader.remaining(), 0);
    let wide = bare_mesh(Wire::new(), &[0x2C, 0x01, 0x00, 0x00]);
    let mut reader = Reader::new(&wide.bytes);
    let mesh = Mesh::read(&mut reader, &table(), true).unwrap();
    assert_eq!(mesh.parent_bone_ref, 300);
    assert_eq!(reader.remaining(), 0);
}

#[test]
fn the_meshes_of_a_model_of_many_bones_have_wide_parent_bones() {
    let mut wire = Wire::new().u32(256);
    for _ in 0..256 {
        wire = wire.u8(1).string("b").identity();
    }
    for i in 0..256u32 {
        wire = wire.u32(if i == 0 { 0 } else { 1 }).u32(0);
    }
    // No declarations, one mesh below bone 256, the root bone and the tag.
    wire = bare_mesh(wire.u32(0).u32(1), &[0x00, 0x01, 0x00, 0x00]).u32(1).u8(5);
    let mut reader = Reader::new(&wire.bytes);
    let model = Model::read(&mut reader, &table()).unwrap();
    assert_eq!(reader.remaining(), 0);
    assert_eq!(model.meshes.len(), 1);
    assert_eq!(model.meshes[0].parent_bone_ref, 256);
    assert_eq!(model.root_bone_ref, 1);
    assert_eq!(model.tag, 5);
}

#[test]
fn the_name_of_a_bone_must_be_a_string() {
    let wire = Wire::new().u8(2).u32(0);
    assert_eq!(
        Bone::read(&mut Reader::new(&wire.bytes), &table()),
        Err(DecodeError::UnexpectedContent { expected: Expected::String })
    );
}

#[test]
fn the_buffers_of_a_mesh_must_be_buffers() {
    let wire = Wire::new().u8(1).string("m").u8(1).singles(4, 0.0).u8(1).string("no buffer");
    assert_eq!(
        Mesh::read(&mut Reader::new(&wire.bytes), &table(), false),
        Err(DecodeError::UnexpectedContent { expected: Expected::VertexBuffer })
    );
    let wire = Wire::new().u8(1).string("m").u8(1).singles(4, 0.0).u8(3).u32(0).u8(3).u32(0);
    assert_eq!(
        Mesh::read(&mut Reader::new(&wire.bytes), &table(), false),
        Err(DecodeError::UnexpectedContent { expected: Expected::IndexBuffer })
    );
}

#[test]
fn the_declarations_of_a_model_must_be_declarations() {
    let wire = Wire::new().u32(0).u32(1).u8(1).string("no declaration");
    assert_eq!(
        Model::read(&mut Reader::new(&wire.bytes), &table()),
        Err(DecodeError::UnexpectedContent { expected: Expected::VertexDeclaration })
    );
}

#[test]
fn an_unknown_element_format_is_refused() {
    let wire = Wire::new().u16(0).u16(0).u8(17).u8(0).u8(0).u8(0);
    assert_eq!(
        VertexElement::read(&mut Reader::new(&wire.bytes)),
        Err(DecodeError::UnknownKind { selector: Selector::ElementFormat, value: 17 })
    );
    let wire = Wire::new().u16(0).u16(0).u8(0).u8(1).u8(0).u8(0);
    assert_eq!(
        VertexElement::read(&mut Reader::new(&wire.bytes)),
        Err(DecodeError::UnknownKind { selector: Selector::ElementMethod, value: 1 })
    );
    let wire = Wire::new().u16(0).u16(0).u8(0).u8(4).u8(9).u8(0);
    assert_eq!(
        VertexElement::read(&mut Reader::new(&wire.bytes)),
        Err(DecodeError::UnknownKind { selector: Selector::ElementUsage, value: 9 })
    );
    assert_eq!(ElementMethod::from_repr(6), Some(ElementMethod::LookUpPresampled));
    assert_eq!(ElementUsage::from_repr(10), Some(ElementUsage::Color));
}

#[test]
fn a_skinned_model_holds_its_model_and_its_references() {
    let wire = Wire::new().u8(5).raw(&model_wire().bytes).i32(2).u8(3).u8(4).i32(1).raw(&[0x85, 0x01]);
    let mut reader = Reader::new(&wire.bytes);
    let skinned = SkinnedModel::read(&mut reader, &table()).unwrap();
    assert_eq!(reader.remaining(), 0);
    assert_eq!(skinned.model.bones.len(), 2);
    assert_eq!(skinned.shared_bone_refs, vec![3, 4]);
    assert_eq!(skinned.shared_animation_refs, vec![133]);
}

#[test]
fn a_skinned_model_is_content_of_its_reader() {
    let wire = Wire::new().u8(6).u8(5).raw(&model_wire().bytes).i32(0).i32(0);
    match Content::read(&mut Reader::new(&wire.bytes), &table()).unwrap() {
        Content::SkinnedModel(skinned) => assert_eq!(skinned.model.tag, 77),
        other => panic!("{:?}", other),
    }
}

#[test]
fn a_skinned_bone_refers_to_the_pool() {
    let wire = Wire::new()
        .u16(3)
        .string("spine")
        .singles(3, 1.0)
        .singles(3, 0.0)
        .single(1.0)
        .singles(3, 2.0)
        .identity()
        .u8(4)
        .i32(2)
        .u8(5)
        .u8(6);
    let bone = SkinnedModelBone::read(&mut Reader::new(&wire.bytes)).unwrap();
    assert_eq!(bone.index, 3);
    assert_eq!(bone.name, "spine");
    assert_eq!(bone.translation.x, single(1.0));
    assert_eq!(bone.orientation.w, single(1.0));
    assert_eq!(bone.scale.z, single(2.0));
    assert_eq!(bone.shared_parent_ref, 4);
    assert_eq!(bone.shared_child_refs, vec![5, 6]);
}

fn keyframe(wire: Wire, time: f32) -> Wire {
    wire.single(time).singles(3, 0.0).singles(3, 0.0).single(1.0).singles(3, 1.0)
}

#[test]
fn an_animation_clip_holds_its_channels_by_name() {
    let mut wire = Wire::new().string("walk").single(2.0).i32(2).string("hip").i32(2);
    wire = keyframe(keyframe(wire, 0.0), 1.0);
    wire = wire.string("knee").i32(1);
    wire = keyframe(wire, 0.5);
    let clip = SkinnedModelAnimationClip::read(&mut Reader::new(&wire.bytes)).unwrap();
    assert_eq!(clip.name, "walk");
    assert_eq!(clip.duration, single(2.0));
    assert_eq!(clip.channels.len(), 2);
    assert_eq!(clip.channels[0].name, "hip");
    assert_eq!(clip.channels[0].keyframes.len(), 2);
    assert_eq!(clip.channels[0].keyframes[1].time, single(1.0));
    assert_eq!(clip.channels[1].name, "knee");
    assert_eq!(clip.channels[1].keyframes[0].pose.scale.x, single(1.0));
}

#[test]
fn a_later_channel_takes_the_place_of_an_earlier_one_of_its_name() {
    let mut wire = Wire::new().string("walk").single(2.0).i32(3).string("hip").i32(1);
    wire = keyframe(wire, 0.25);
    wire = wire.string("knee").i32(0);
    wire = wire.string("hip").i32(2);
    wire = keyframe(keyframe(wire, 0.5), 0.75);
    let clip = SkinnedModelAnimationClip::read(&mut Reader::new(&wire.bytes)).unwrap();
    assert_eq!(clip.channels.len(), 2);
    assert_eq!(clip.channels[0].name, "hip");
    assert_eq!(clip.channels[0].keyframes.len(), 2);
    assert_eq!(clip.channels[0].keyframes[0].time, single(0.5));
    assert_eq!(clip.channels[1].name, "knee");
}

#[test]
fn inserting_a_channel_replaces_or_appends() {
    let mut channels = vec![
        AnimationChannel { name: "a".to_string(), keyframes: vec![] },
        AnimationChannel { name: "b".to_string(), keyframes: vec![] },
    ];
    insert_channel(&mut channels, AnimationChannel { name: "c".to_string(), keyframes: vec![] });
    assert_eq!(channels.len(), 3);
    assert_eq!(channels[2].name, "c");
    insert_channel(&mut channels, AnimationChannel { name: "a".to_string(), keyframes: vec![] });
    assert_eq!(channels.len(), 3);
    assert_eq!(channels[0].name, "a");
}

fn item_wire() -> Wire {
    Wire::new()
        .string("sword")
        .string("#sword")
        .string("#sword_d")
        .i32(1)
        .string("swing")
        .i32(128)
        .u8(1)
        .u8(0)
        .i32(5)
        .u8(7)
        .single(0.5)
        .u8(0)
        .u8(0)
        .u8(1)
        .i32(0)
        .u8(0)
        .single(0.0)
        .i32(1)
        .string("sparks")
        .i32(0)
        .u8(0)
        .single(1.5)
        .u8(1)
        .i32(0)
        .single(10.0)
        .u8(0)
        .singles(3, 0.0)
        .single(20.0)
        .i32(6)
        .i32(2)
        .single(0.9)
        .string("bang")
        .string("muzzle")
        .string("shell")
        .single(100.0)
        .string("plain")
        .string("tracer")
        .i32(0)
        .string("arrow")
        .i32(0)
        .single(1.0)
        .string("models/sword")
        .i32(0)
}

#[test]
fn an_item_is_read_field_by_field() {
    let wire = item_wire();
    let mut reader = Reader::new(&wire.bytes);
    let item = Item::read(&mut reader).unwrap();
    assert_eq!(reader.remaining(), 0);
    assert_eq!(item.name, "sword");
    assert_eq!(item.locale_description, "#sword_d");
    assert_eq!(item.sounds.len(), 1);
    assert_eq!(item.sounds[0].bank, Bank { bits: 128 });
    assert!(item.pickupable);
    assert_eq!(item.block_value, 5);
    assert_eq!(item.weapon_class, WeaponClass::SlashFast);
    assert!(item.pause_sounds);
    assert_eq!(item.effects, vec!["sparks".to_string()]);
    assert_eq!(item.special_ability, None);
    assert_eq!(item.melee_range, single(1.5));
    assert!(item.melee_multi_hit);
    assert_eq!(item.gun_clip, 6);
    assert_eq!(item.gun_rate, 2);
    assert_eq!(item.gun_tracer, "tracer");
    assert_eq!(item.projectile_model, "arrow");
    assert_eq!(item.model, "models/sword");
    assert!(item.auras.is_empty());
}

#[test]
fn an_item_cut_short_is_refused_wherever_it_ends() {
    let wire = item_wire();
    for len in 0..wire.bytes.len() {
        assert_eq!(
            Item::read(&mut Reader::new(&wire.bytes[..len])).err(),
            Some(DecodeError::UnexpectedEof),
            "cut at {}",
            len
        );
    }
}

#[test]
fn an_unknown_weapon_class_is_refused() {
    let mut wire = item_wire();
    // The class of the weapon stands behind the names, the sound and five
    // more bytes.
    let at = wire.bytes.iter().position(|b| *b == 7).unwrap();
    wire.bytes[at] = 99;
    assert_eq!(
        Item::read(&mut Reader::new(&wire.bytes)),
        Err(DecodeError::UnknownKind { selector: Selector::WeaponClass, value: 99 })
    );
}

fn character_wire() -> Wire {
    let mut wire = Wire::new()
        .string("goblin")
        .string("#goblin")
        .i32(3)
        .i32(1)
        .raw(&[1, 0, 0, 0, 1, 0, 0])
        .i32(0)
        .i32(1)
        .string("gib")
        .single(1.0)
        .single(2.0)
        .i32(0)
        .single(100.0)
        .i32(1)
        .u8(0)
        .single(0.0)
        .single(0.0)
        .i32(2)
        .single(3.0)
        .i32(10)
        .i32(20)
        .u8(1)
        .u8(0)
        .i32(4)
        .singles(9, 0.5)
        .i32(32)
        .string("summon")
        .i32(0)
        .i32(0)
        .string("skeleton")
        .i32(0);
    for _ in 0..27 {
        wire = wire.i32(0);
    }
    wire.i32(0).i32(0).singles(13, 0.25).u8(1).single(7.0).i32(0).i32(0).i32(0).i32(0)
}

#[test]
fn a_character_is_read_field_by_field() {
    let wire = character_wire();
    let mut reader = Reader::new(&wire.bytes);
    let character = Character::read(&mut reader).unwrap();
    assert_eq!(reader.remaining(), 0);
    assert_eq!(character.name, "goblin");
    assert_eq!(character.factions.bits, 3);
    assert!(character.is_ethereal);
    assert!(!character.looks_ethereal);
    assert!(character.non_slippery);
    assert_eq!(character.gibs.len(), 1);
    assert_eq!(character.gibs[0].scale, single(2.0));
    assert_eq!(character.max_hitpoints, single(100.0));
    assert_eq!(character.pain_tolerance, 2);
    assert_eq!(character.xp_value, 20);
    assert!(character.reward_on_kill);
    assert_eq!(character.regeneration, 4);
    assert_eq!(character.stun_time, single(0.5));
    // The bank of this one sound comes before its cue.
    assert_eq!(character.summon_element_sound.bank, Bank { bits: 32 });
    assert_eq!(character.summon_element_sound.cue, "summon");
    assert_eq!(character.animation_skeleton, "skeleton");
    assert_eq!(character.animations.len(), Character::ANIMATION_SETS);
    assert_eq!(character.health_weight, single(0.25));
    assert!(character.flocking);
    assert_eq!(character.break_free_strength, single(7.0));
}

#[test]
fn a_character_cut_short_is_refused() {
    let wire = character_wire();
    let len = wire.bytes.len();
    assert_eq!(
        Character::read(&mut Reader::new(&wire.bytes[..len - 1])).err(),
        Some(DecodeError::UnexpectedEof)
    );
    assert_eq!(Character::read(&mut Reader::new(&wire.bytes[..40])).err(), Some(DecodeError::UnexpectedEof));
}
