use xnb_tool::content::color::Color;
use xnb_tool::content::effect::{AdditiveEffect, RenderDeferredEffect, RenderDeferredEffectMaterial};
use xnb_tool::content::model::{
    Bone, BoneHierarchy, BoundingSphere, ElementFormat, ElementMethod, ElementUsage, IndexBuffer, Mesh, MeshPart,
    Model, VertexBuffer, VertexDeclaration, VertexElement,
};
use xnb_tool::content::skinned_model::{
    AnimationChannel, SkinnedModel, SkinnedModelAnimationClip, SkinnedModelAnimationKeyframe, SkinnedModelBone,
    SkinnedModelPose,
};
use xnb_tool::content::vector3::Vector3;
use xnb_tool::content::Content;
use xnb_tool::export::animation::{build_animation, build_animations, find_node, latest_time};
use xnb_tool::export::bones::{build_bones, build_mesh_parts};
use xnb_tool::export::bounds::{scan_bounds, Bounds};
use xnb_tool::export::buffer::{pad_to_multiple_of_four, reverse_winding, Packer, Region, RegionKind};
use xnb_tool::export::glb::build_glb_bytes;
use xnb_tool::export::material::build_materials;
use xnb_tool::export::mesh::{build_mesh_part, calculate_bounds, part_layout, resolve_material, MeshData};
use xnb_tool::export::model::{transform_mesh, TransformedModel};
use xnb_tool::export::pack::{build_buffer, push_singles, ChannelRegions, ClipRegions};
use xnb_tool::export::skin::build_skin;
use xnb_tool::export::scene::{
    ComponentType, ElementType, Extent, Node, Property, Scene, Semantic, Transform, ViewTarget,
};
use xnb_tool::export::skeleton::{bone_by_ref, skeleton};
use xnb_tool::export::transformed_model::{
    tangent_frames, transform_vertex_data_tangent, TransformedVertexDeclaration,
};
use xnb_tool::export::ExportError;
use xnb_tool::single::{Matrix4, Quaternion, Single};
use xnb_tool::wire::push_le_u32;

fn single(v: f32) -> Single {
    Single { bits: v.to_bits() }
}

fn value(s: Single) -> f32 {
    f32::from_bits(s.bits)
}

fn vector(x: f32, y: f32, z: f32) -> Vector3 {
    Vector3 { x: single(x), y: single(y), z: single(z) }
}

fn identity() -> Matrix4 {
    let mut cols = [single(0.0); 16];
    for i in 0..4 {
        cols[i * 5] = single(1.0);
    }
    Matrix4 { cols }
}

fn element(offset: u16, format: ElementFormat, usage: ElementUsage) -> VertexElement {
    VertexElement { stream: 0, offset, format, method: ElementMethod::Default, usage, usage_index: 0 }
}

#[test]
fn padding_rounds_up_to_a_multiple_of_four() {
    assert_eq!(pad_to_multiple_of_four(0), 0);
    assert_eq!(pad_to_multiple_of_four(1), 4);
    assert_eq!(pad_to_multiple_of_four(3), 4);
    assert_eq!(pad_to_multiple_of_four(4), 4);
    assert_eq!(pad_to_multiple_of_four(5), 8);
    assert_eq!(pad_to_multiple_of_four(1023), 1024);
}

#[test]
fn reversing_the_winding_swaps_the_second_and_third_index() {
    let indices = IndexBuffer { is_16_bit: true, data: vec![0, 0, 1, 0, 2, 0, 3, 0, 4, 0, 5, 0] };
    let reversed = reverse_winding(&indices).unwrap();
    assert!(reversed.is_16_bit);
    assert_eq!(reversed.data, vec![0, 0, 2, 0, 1, 0, 3, 0, 5, 0, 4, 0]);
    let indices = IndexBuffer { is_16_bit: false, data: vec![1, 0, 0, 0, 2, 0, 0, 9, 3, 0, 0, 0] };
    let reversed = reverse_winding(&indices).unwrap();
    assert!(!reversed.is_16_bit);
    assert_eq!(reversed.data, vec![1, 0, 0, 0, 3, 0, 0, 0, 2, 0, 0, 9]);
}

#[test]
fn reversing_the_winding_twice_gives_the_indices_back() {
    let mut seed: u32 = 7;
    for triangles in 0..20usize {
        for wide in [false, true] {
            let width = if wide { 4 } else { 2 };
            let mut data = Vec::new();
            for _ in 0..triangles * 3 * width {
                seed = seed.wrapping_mul(1664525).wrapping_add(1013904223);
                data.push((seed >> 24) as u8);
            }
            let indices = IndexBuffer { is_16_bit: !wide, data };
            let once = reverse_winding(&indices).unwrap();
            let twice = reverse_winding(&once).unwrap();
            assert_eq!(twice, indices);
        }
    }
}

#[test]
fn indices_that_are_no_whole_triangles_are_refused() {
    let indices = IndexBuffer { is_16_bit: true, data: vec![0, 0, 1, 0] };
    assert_eq!(reverse_winding(&indices), Err(ExportError::MalformedIndexBuffer));
    let indices = IndexBuffer { is_16_bit: false, data: vec![0; 6] };
    assert_eq!(reverse_winding(&indices), Err(ExportError::MalformedIndexBuffer));
    let indices = IndexBuffer { is_16_bit: true, data: vec![] };
    assert_eq!(reverse_winding(&indices).unwrap().data, Vec::<u8>::new());
}

#[test]
fn numbers_are_ordered_by_their_bits() {
    let values = [-3.5f32, -0.0, 0.0, 1.0e-20, 2.0, f32::MAX, f32::MIN, f32::INFINITY, f32::NEG_INFINITY];
    for a in values {
        for b in values {
            let least = value(single(a).min(single(b)));
            let greatest = value(single(a).max(single(b)));
            assert_eq!(least, a.min(b));
            assert_eq!(greatest, a.max(b));
        }
    }
    // What is no number is never chosen over a number.
    assert_eq!(value(single(1.0).min(single(f32::NAN))), 1.0);
    assert_eq!(value(single(f32::NAN).max(single(1.0))), 1.0);
    assert!(single(f32::NAN).is_nan());
    assert!(!single(f32::INFINITY).is_nan());
    assert!(single(-0.0).rank() < single(0.0).rank());
}

fn brute_force_bounds(vertices: &[u8], stride: usize, offset: usize) -> ([f32; 3], [f32; 3]) {
    let mut min = [f32::MAX; 3];
    let mut max = [f32::MIN; 3];
    let mut at = 0;
    while at < vertices.len() {
        for axis in 0..3 {
            let start = at + offset + 4 * axis;
            let v = f32::from_le_bytes([
                vertices[start],
                vertices[start + 1],
                vertices[start + 2],
                vertices[start + 3],
            ]);
            if v < min[axis] {
                min[axis] = v;
            }
            if v > max[axis] {
                max[axis] = v;
            }
        }
        at += stride;
    }
    (min, max)
}

fn as_arrays(b: Bounds) -> ([f32; 3], [f32; 3]) {
    (
        [value(b.min.x), value(b.min.y), value(b.min.z)],
        [value(b.max.x), value(b.max.y), value(b.max.z)],
    )
}

#[test]
fn scanned_bounds_equal_those_of_a_brute_force_scan() {
    let mut seed: u32 = 99;
    let mut next = move || {
        seed = seed.wrapping_mul(1664525).wrapping_add(1013904223);
        seed
    };
    for round in 0..200 {
        let offset = 4 + 4 * (next() as usize % 4);
        let stride = offset + 12 + 4 * (next() as usize % 3);
        let count = 1 + next() as usize % 20;
        let mut vertices = Vec::new();
        for _ in 0..count {
            for at in 0..stride {
                if at >= offset && at < offset + 12 && (at - offset) % 4 == 0 {
                    let v = ((next() % 20001) as f32 - 10000.0) / 7.0;
                    vertices.extend_from_slice(&v.to_le_bytes());
                } else if at < offset || at >= offset + 12 {
                    vertices.push(next() as u8);
                }
            }
        }
        assert_eq!(vertices.len(), count * stride, "round {}", round);
        let bounds = scan_bounds(&vertices, stride, offset).unwrap();
        assert_eq!(as_arrays(bounds), brute_force_bounds(&vertices, stride, offset));
    }
}

#[test]
fn bounds_of_known_positions() {
    let mut vertices = Vec::new();
    for p in [[1.0f32, -2.0, 3.0], [-4.0, 5.0, 0.5], [0.0, 0.0, 9.0]] {
        vertices.extend_from_slice(&[0xEE; 4]);
        for v in p {
            vertices.extend_from_slice(&v.to_le_bytes());
        }
    }
    let bounds = scan_bounds(&vertices, 16, 4).unwrap();
    assert_eq!(bounds.min, vector(-4.0, -2.0, 0.5));
    assert_eq!(bounds.max, vector(1.0, 5.0, 9.0));
}

#[test]
fn bounds_of_no_vertices_are_empty() {
    let bounds = scan_bounds(&[], 16, 4).unwrap();
    assert_eq!(bounds.min, vector(f32::MAX, f32::MAX, f32::MAX));
    assert_eq!(bounds.max, vector(f32::MIN, f32::MIN, f32::MIN));
}

#[test]
fn positions_past_the_data_are_refused() {
    assert_eq!(scan_bounds(&[0; 16], 0, 0), Err(ExportError::EmptyDeclaration));
    assert_eq!(scan_bounds(&[0; 16], 16, 8), Err(ExportError::PartOutOfRange));
    assert_eq!(scan_bounds(&[0; 20], 16, 0), Err(ExportError::PartOutOfRange));
    assert!(scan_bounds(&[0; 28], 16, 0).is_ok());
}

fn bone(name: &str, parent: usize, children: Vec<usize>) -> Content {
    Content::SkinnedModelBone(SkinnedModelBone {
        index: 0,
        name: name.to_string(),
        translation: vector(1.0, 2.0, 3.0),
        orientation: Quaternion { x: single(0.0), y: single(0.0), z: single(0.0), w: single(1.0) },
        scale: vector(1.0, 1.0, 1.0),
        inverse_bind_pose_transform: identity(),
        shared_parent_ref: parent,
        shared_child_refs: children,
    })
}

#[test]
fn the_walk_visits_parents_before_children_in_their_order() {
    // The pool holds the bones out of order, with other content between.
    let pool = vec![
        bone("left", 4, vec![]),
        Content::Null,
        bone("right", 4, vec![6]),
        bone("root", 0, vec![3, 1]),
        Content::String("x".to_string()),
        bone("hand", 3, vec![]),
    ];
    let order = skeleton(&pool, &[1, 3, 4, 6]).unwrap();
    assert_eq!(order, vec![3, 2, 5, 0]);
}

#[test]
fn a_skeleton_needs_exactly_one_root() {
    let pool = vec![bone("a", 2, vec![]), bone("b", 1, vec![])];
    assert_eq!(skeleton(&pool, &[1, 2]), Err(ExportError::NoRootBone));
    let pool = vec![bone("a", 0, vec![]), bone("b", 0, vec![])];
    assert_eq!(skeleton(&pool, &[1, 2]), Err(ExportError::MultipleRootBones));
    assert_eq!(skeleton(&pool, &[]), Err(ExportError::NoRootBone));
    assert_eq!(skeleton(&pool, &[1]), Ok(vec![0]));
}

#[test]
fn bones_that_are_no_tree_are_refused() {
    // The child names the root as its child.
    let pool = vec![bone("root", 0, vec![2]), bone("child", 1, vec![1])];
    assert_eq!(skeleton(&pool, &[1, 2]), Err(ExportError::NotATree));
    // A bone that the walk does not reach.
    let pool = vec![bone("root", 0, vec![]), bone("lost", 1, vec![])];
    assert_eq!(skeleton(&pool, &[1, 2]), Err(ExportError::NotATree));
    // A bone that the walk reaches twice.
    let pool = vec![bone("root", 0, vec![2, 2]), bone("twice", 1, vec![])];
    assert_eq!(skeleton(&pool, &[1, 2]), Err(ExportError::NotATree));
    // A bone that is walked and not listed.
    let pool = vec![bone("root", 0, vec![2]), bone("extra", 1, vec![])];
    assert_eq!(skeleton(&pool, &[1]), Err(ExportError::NotATree));
}

#[test]
fn references_to_bones_must_be_to_bones() {
    let pool = vec![bone("root", 0, vec![]), Content::Null];
    assert_eq!(skeleton(&pool, &[1, 3]), Err(ExportError::SharedIndexOutOfRange { index: 3 }));
    assert_eq!(skeleton(&pool, &[0]), Err(ExportError::SharedIndexOutOfRange { index: 0 }));
    assert_eq!(skeleton(&pool, &[2]), Err(ExportError::UnexpectedShared { index: 2 }));
    assert!(bone_by_ref(&pool, 1).is_ok());
    assert_eq!(bone_by_ref(&pool, 2).err(), Some(ExportError::UnexpectedShared { index: 2 }));
    let pool = vec![bone("root", 0, vec![0])];
    assert_eq!(skeleton(&pool, &[1]), Err(ExportError::SharedIndexOutOfRange { index: 0 }));
    let pool = vec![bone("root", 0, vec![5])];
    assert_eq!(skeleton(&pool, &[1]), Err(ExportError::SharedIndexOutOfRange { index: 5 }));
}

fn keyframe(time: f32, x: f32) -> SkinnedModelAnimationKeyframe {
    SkinnedModelAnimationKeyframe {
        time: single(time),
        pose: SkinnedModelPose {
            translation: vector(x, 0.0, 0.0),
            orientation: Quaternion { x: single(0.0), y: single(0.0), z: single(0.0), w: single(1.0) },
            scale: vector(1.0, 1.0, 1.0),
        },
    }
}

fn clip(name: &str, channel: &str, times: &[f32]) -> Content {
    Content::SkinnedModelAnimationClip(SkinnedModelAnimationClip {
        name: name.to_string(),
        duration: single(1.0),
        channels: vec![AnimationChannel {
            name: channel.to_string(),
            keyframes: times.iter().map(|t| keyframe(*t, *t * 2.0)).collect(),
        }],
    })
}

/// A mesh of `count` vertices of position and texture coordinate and one
/// triangle.
fn mesh(count: u32, material: i32) -> Mesh {
    let mut vertices = Vec::new();
    for i in 0..count {
        for v in [i as f32, 0.0 - i as f32, 2.0 * i as f32, 0.25, 0.75] {
            vertices.extend_from_slice(&v.to_le_bytes());
        }
    }
    Mesh {
        name: "mesh".to_string(),
        parent_bone_ref: 1,
        bounds: BoundingSphere { center: vector(0.0, 0.0, 0.0), radius: single(1.0) },
        vertex_buffer: VertexBuffer { data: vertices },
        index_buffer: IndexBuffer { is_16_bit: true, data: vec![0, 0, 1, 0, 2, 0] },
        parts: vec![MeshPart {
            stream_offset: 0,
            base_vertex: 0,
            vertex_count: count,
            start_index: 0,
            primitive_count: 1,
            vertex_decl_index: 0,
            tag: 0,
            shared_content_id: material,
        }],
        tag: 0,
    }
}

fn declaration() -> VertexDeclaration {
    VertexDeclaration {
        elements: vec![
            element(0, ElementFormat::Vector3, ElementUsage::Position),
            element(12, ElementFormat::Vector2, ElementUsage::TextureCoordinate),
        ],
    }
}

#[test]
fn the_regions_of_a_packed_buffer_fill_it() {
    let pool = vec![bone("root", 0, vec![2]), bone("child", 1, vec![]), clip("walk", "child", &[0.0, 1.0, 2.0])];
    let meshes = vec![mesh(3, 0), mesh(4, 0)];
    let buffer = build_buffer(&meshes, &pool, &[0, 1], &[3, 3]).unwrap();
    let total: usize = buffer.regions.iter().map(|r| r.length).sum();
    assert_eq!(total, buffer.data.len());
    // Each region starts where the one before it ends.
    let mut at = 0;
    for region in &buffer.regions {
        assert_eq!(region.offset, at);
        at += region.length;
    }
    // Two regions a mesh, one of matrices, four a channel of each clip.
    assert_eq!(buffer.regions.len(), 2 * 2 + 1 + 2 * 4);
    assert_eq!(buffer.data.len(), (60 + 6) + (80 + 6) + 2 * 64 + 2 * 3 * (4 + 12 + 16 + 12));
    let kinds: Vec<RegionKind> = buffer.regions.iter().map(|r| r.kind).collect();
    assert_eq!(
        &kinds[..9],
        &[
            RegionKind::Vertices,
            RegionKind::Indices,
            RegionKind::Vertices,
            RegionKind::Indices,
            RegionKind::InverseBindMatrices,
            RegionKind::Timestamps,
            RegionKind::Translations,
            RegionKind::Rotations,
            RegionKind::Scales,
        ]
    );
}

#[test]
fn a_packed_buffer_holds_what_its_regions_say() {
    let pool = vec![bone("root", 0, vec![]), clip("walk", "root", &[0.5, 1.5])];
    let meshes = vec![mesh(3, 0)];
    let buffer = build_buffer(&meshes, &pool, &[0], &[2]).unwrap();
    let v = buffer.vertices[0];
    assert_eq!(&buffer.data[v.offset..v.offset + v.length], &meshes[0].vertex_buffer.data[..]);
    let i = buffer.indices[0];
    assert_eq!(i.count, 3);
    assert_eq!(&buffer.data[i.offset..i.offset + i.length], &[0, 0, 2, 0, 1, 0]);
    let m = buffer.inverse_bind_matrices;
    assert_eq!((m.count, m.length), (1, 64));
    let mut expected = Vec::new();
    for k in 0..16 {
        expected.extend_from_slice(&(if k % 5 == 0 { 1.0f32 } else { 0.0 }).to_le_bytes());
    }
    assert_eq!(&buffer.data[m.offset..m.offset + m.length], &expected[..]);
    let channel = buffer.animations[0].channels[0];
    assert_eq!(channel.timestamps.count, 2);
    let t = channel.timestamps;
    let mut times = Vec::new();
    times.extend_from_slice(&0.5f32.to_le_bytes());
    times.extend_from_slice(&1.5f32.to_le_bytes());
    assert_eq!(&buffer.data[t.offset..t.offset + t.length], &times[..]);
    let tr = channel.translations;
    assert_eq!(tr.length, 24);
    assert_eq!(&buffer.data[tr.offset..tr.offset + 4], &1.0f32.to_le_bytes());
    assert_eq!(channel.rotations.length, 32);
    assert_eq!(channel.scales.length, 24);
}

#[test]
fn inverse_bind_matrices_are_written_row_after_row() {
    let mut cols = [single(0.0); 16];
    for i in 0..16 {
        cols[i] = single(i as f32);
    }
    let mut b = bone("root", 0, vec![]);
    if let Content::SkinnedModelBone(bone) = &mut b {
        bone.inverse_bind_pose_transform = Matrix4 { cols };
    }
    let buffer = build_buffer(&[], &[b], &[0], &[]).unwrap();
    // The second number written is the first of the second column.
    assert_eq!(&buffer.data[4..8], &4.0f32.to_le_bytes());
    assert_eq!(&buffer.data[16..20], &1.0f32.to_le_bytes());
}

#[test]
fn what_cannot_be_packed_is_refused() {
    let pool = vec![bone("root", 0, vec![])];
    let mut broken = mesh(3, 0);
    broken.index_buffer.data.pop();
    assert_eq!(build_buffer(&[broken], &pool, &[], &[]).err(), Some(ExportError::MalformedIndexBuffer));
    assert_eq!(
        build_buffer(&[], &pool, &[1], &[]).err(),
        Some(ExportError::SharedIndexOutOfRange { index: 2 })
    );
    assert_eq!(build_buffer(&[], &pool, &[], &[1]).err(), Some(ExportError::UnexpectedShared { index: 1 }));
    assert_eq!(build_buffer(&[], &pool, &[], &[0]).err(), Some(ExportError::SharedIndexOutOfRange { index: 0 }));
}

#[test]
fn a_packer_records_each_region_as_it_is_written() {
    let mut packer = Packer::new();
    assert_eq!(packer.append(RegionKind::Vertices, &[1, 2, 3], 1), 0);
    assert_eq!(packer.append(RegionKind::Indices, &[], 0), 3);
    assert_eq!(packer.append(RegionKind::Scales, &[4, 5], 2), 3);
    assert_eq!(packer.data, vec![1, 2, 3, 4, 5]);
    assert_eq!(packer.regions.len(), 3);
    assert_eq!((packer.regions[2].offset, packer.regions[2].length, packer.regions[2].count), (3, 2, 2));
}

#[test]
fn numbers_are_written_least_significant_byte_first() {
    let mut out = vec![9];
    push_le_u32(&mut out, 0x1234_5678);
    assert_eq!(out, vec![9, 0x78, 0x56, 0x34, 0x12]);
    let mut out = Vec::new();
    push_singles(&mut out, &[single(1.0), single(-2.0)]);
    assert_eq!(out, vec![0, 0, 0x80, 0x3F, 0, 0, 0, 0xC0]);
}

fn skinned_model() -> (SkinnedModel, Vec<Content>) {
    let pool = vec![bone("root", 0, vec![2]), bone("child", 1, vec![]), clip("wave", "child", &[0.0, 1.0])];
    let model = SkinnedModel {
        model: Model {
            bones: vec![],
            bones_hierarchy: vec![],
            vertex_decls: vec![declaration()],
            meshes: vec![mesh(3, 0)],
            root_bone_ref: 0,
            tag: 0,
        },
        shared_bone_refs: vec![1, 2],
        shared_animation_refs: vec![3],
    };
    (model, pool)
}

#[test]
fn a_skinned_model_of_two_bones_and_one_clip() {
    let (model, pool) = skinned_model();
    let export = model.to_scene(&pool).unwrap();
    let scene = &export.scene;
    assert_eq!(scene.buffer_length, export.buffer.data.len());
    // One skin of two joints, with two inverse bind matrices.
    assert_eq!(scene.skins.len(), 1);
    let skin = &scene.skins[0];
    assert_eq!(skin.joints.len(), 2);
    let matrices = &scene.accessors[skin.inverse_bind_matrices];
    assert_eq!(matrices.count, 2);
    assert_eq!(matrices.element_type, ElementType::Mat4);
    assert_eq!(matrices.component_type, ComponentType::Float);
    assert_eq!(scene.views[matrices.view].byte_length, 128);
    assert_eq!(scene.nodes[skin.joints[0]].name, Some("root".to_string()));
    assert_eq!(scene.nodes[skin.joints[1]].name, Some("child".to_string()));
    assert_eq!(scene.nodes[skin.joints[0]].children, vec![skin.joints[1]]);
    assert_eq!(skin.skeleton, skin.joints[0]);
    // One animation of three channels.
    assert_eq!(scene.animations.len(), 1);
    let animation = &scene.animations[0];
    assert_eq!(animation.name, "wave");
    assert_eq!(animation.channels.len(), 3);
    assert_eq!(animation.samplers.len(), 3);
    let paths: Vec<Property> = animation.channels.iter().map(|c| c.path).collect();
    assert_eq!(paths, vec![Property::Translation, Property::Rotation, Property::Scale]);
    let times = animation.samplers[0].input;
    for (i, channel) in animation.channels.iter().enumerate() {
        assert_eq!(channel.node, skin.joints[1]);
        let sampler = &animation.samplers[channel.sampler];
        assert_eq!(channel.sampler, i);
        // The three share the accessor of the times, of two elements.
        assert_eq!(sampler.input, times);
        assert_eq!(scene.accessors[sampler.input].count, 2);
        assert_eq!(scene.accessors[sampler.output].count, 2);
    }
    assert_eq!(scene.accessors[times].element_type, ElementType::Scalar);
    assert_eq!(scene.accessors[times].extent, Extent::Times { min: single(0.0), max: single(1.0) });
    assert_eq!(scene.accessors[animation.samplers[0].output].element_type, ElementType::Vec3);
    assert_eq!(scene.accessors[animation.samplers[1].output].element_type, ElementType::Vec4);
    assert_eq!(scene.accessors[animation.samplers[2].output].element_type, ElementType::Vec3);
    assert_eq!(scene.views[scene.accessors[animation.samplers[1].output].view].byte_length, 32);
    assert_eq!(scene.views[scene.accessors[animation.samplers[2].output].view].byte_length, 24);
    // The mesh: one node for its part, with the skin, below a node of its own.
    assert_eq!(scene.meshes.len(), 1);
    assert_eq!(scene.roots.len(), 2);
    assert_eq!(scene.roots[1], skin.joints[0]);
    let part = scene.nodes[scene.roots[0]].children[0];
    assert_eq!(scene.nodes[part].skin, Some(0));
    assert_eq!(scene.nodes[part].mesh, Some(0));
}

#[test]
fn a_channel_that_names_no_bone_is_refused() {
    let (model, mut pool) = skinned_model();
    pool[2] = clip("wave", "tail", &[0.0, 1.0]);
    assert_eq!(
        model.to_scene(&pool).err(),
        Some(ExportError::UnknownChannelTarget { name: "tail".to_string() })
    );
}

#[test]
fn a_skinned_model_without_its_one_root_is_refused() {
    let (model, mut pool) = skinned_model();
    pool[0] = bone("root", 2, vec![2]);
    assert_eq!(model.to_scene(&pool).err(), Some(ExportError::NoRootBone));
    pool[0] = bone("root", 0, vec![2]);
    pool[1] = bone("child", 0, vec![]);
    assert_eq!(model.to_scene(&pool).err(), Some(ExportError::MultipleRootBones));
}

#[test]
fn the_part_of_a_mesh_becomes_views_and_accessors() {
    let mesh = mesh(3, 0);
    let decls = vec![TransformedVertexDeclaration::from_declaration(&declaration()).unwrap()];
    let mut scene = Scene::new(1000);
    let data = MeshData { mesh: &mesh, vertex_offset: 100, index_offset: 200 };
    let node = build_mesh_part(&mut scene, &decls, &data, &mesh.parts[0], &[]).unwrap();
    assert_eq!(node, 0);
    assert_eq!(scene.views.len(), 2);
    assert_eq!(
        (scene.views[0].byte_offset, scene.views[0].byte_length, scene.views[0].byte_stride),
        (100, 60, Some(20))
    );
    assert_eq!(scene.views[0].target, Some(ViewTarget::ArrayBuffer));
    assert_eq!((scene.views[1].byte_offset, scene.views[1].byte_length), (200, 6));
    assert_eq!(scene.views[1].target, Some(ViewTarget::ElementArrayBuffer));
    assert_eq!(scene.accessors.len(), 3);
    let position = &scene.accessors[0];
    assert_eq!((position.view, position.byte_offset, position.count), (0, 0, 3));
    assert_eq!(
        position.extent,
        Extent::Positions(Bounds { min: vector(0.0, -2.0, 0.0), max: vector(2.0, 0.0, 4.0) })
    );
    let uv = &scene.accessors[1];
    assert_eq!((uv.byte_offset, uv.element_type, uv.extent), (12, ElementType::Vec2, Extent::Unstated));
    let indices = &scene.accessors[2];
    assert_eq!((indices.view, indices.count, indices.component_type), (1, 3, ComponentType::U16));
    let primitive = &scene.meshes[0].primitives[0];
    assert_eq!(primitive.indices, 2);
    assert_eq!(primitive.material, None);
    assert_eq!(primitive.attributes.len(), 2);
    assert_eq!(primitive.attributes[0].semantic, Semantic::Positions);
    assert_eq!(primitive.attributes[1].semantic, Semantic::TexCoords(0));
    assert_eq!(primitive.attributes[1].accessor, 1);
    assert_eq!(scene.nodes[0].mesh, Some(0));
}

#[test]
fn a_part_that_does_not_fit_is_refused() {
    let decls = vec![TransformedVertexDeclaration::from_declaration(&declaration()).unwrap()];
    let mesh3 = mesh(3, 0);
    let data = MeshData { mesh: &mesh3, vertex_offset: 0, index_offset: 100 };
    let mut part = mesh3.parts[0];
    part.vertex_count = 4;
    let mut scene = Scene::new(1000);
    assert_eq!(build_mesh_part(&mut scene, &decls, &data, &part, &[]), Err(ExportError::PartOutOfRange));
    let mut part = mesh3.parts[0];
    part.primitive_count = 2;
    assert_eq!(build_mesh_part(&mut scene, &decls, &data, &part, &[]), Err(ExportError::PartOutOfRange));
    let mut part = mesh3.parts[0];
    part.vertex_decl_index = 1;
    assert_eq!(
        build_mesh_part(&mut scene, &decls, &data, &part, &[]),
        Err(ExportError::DeclarationOutOfRange { index: 1 })
    );
    // The buffer of the scene is too short for the mesh.
    let mut scene = Scene::new(50);
    assert_eq!(
        build_mesh_part(&mut scene, &decls, &data, &mesh3.parts[0], &[]),
        Err(ExportError::PartOutOfRange)
    );
    assert!(scene.views.is_empty());
    assert_eq!(part_layout(&mesh3.parts[0], 0, &mesh3).is_none(), true);
    assert_eq!(part_layout(&mesh3.parts[0], 20, &mesh3).unwrap().vertex_length, 60);
}

#[test]
fn a_declaration_without_a_position_is_refused() {
    let decl = VertexDeclaration { elements: vec![element(0, ElementFormat::Vector3, ElementUsage::Normal)] };
    let decls = vec![TransformedVertexDeclaration::from_declaration(&decl).unwrap()];
    let mut m = mesh(3, 0);
    m.vertex_buffer.data.truncate(36);
    let data = MeshData { mesh: &m, vertex_offset: 0, index_offset: 36 };
    let mut scene = Scene::new(100);
    assert_eq!(
        build_mesh_part(&mut scene, &decls, &data, &m.parts[0], &[]),
        Err(ExportError::MissingPosition)
    );
    let empty = vec![TransformedVertexDeclaration { elements: vec![] }];
    assert_eq!(
        build_mesh_part(&mut scene, &empty, &data, &m.parts[0], &[]),
        Err(ExportError::EmptyDeclaration)
    );
}

#[test]
fn a_material_reference_of_zero_is_no_material() {
    assert_eq!(resolve_material(0, &[Some(5)]), Ok(None));
    assert_eq!(resolve_material(0, &[]), Ok(None));
    assert_eq!(resolve_material(-3, &[Some(5)]), Ok(None));
    assert_eq!(resolve_material(1, &[Some(5)]), Ok(Some(5)));
    assert_eq!(resolve_material(2, &[Some(5)]), Err(ExportError::SharedIndexOutOfRange { index: 2 }));
    assert_eq!(resolve_material(1, &[None]), Err(ExportError::UnexpectedShared { index: 1 }));
}

fn color(r: f32, g: f32, b: f32) -> Color {
    Color { r: single(r), g: single(g), b: single(b) }
}

fn deferred(texture: &str) -> Content {
    let material = RenderDeferredEffectMaterial {
        diffuse_texture_alpha_disabled: false,
        alpha_mask_enabled: false,
        diffuse_color: color(0.5, 0.25, 1.0),
        spec_amount: single(0.0),
        spec_power: single(0.0),
        emissive_amount: single(0.0),
        normal_power: single(0.0),
        reflectiveness: single(0.0),
        diffuse_texture: texture.to_string(),
        material_texture: String::new(),
        normal_texture: String::new(),
    };
    Content::RenderDeferredEffect(RenderDeferredEffect {
        alpha: single(1.0),
        sharpness: single(1.0),
        vertex_color_enabled: false,
        use_material_texture_for_reflectiveness: false,
        reflection_map: String::new(),
        material_0: material,
        material_1: None,
    })
}

#[test]
fn effects_of_the_pool_become_materials() {
    let additive = Content::AdditiveEffect(AdditiveEffect {
        color_tint: color(1.0, 0.0, 0.0),
        vertex_color_enabled: false,
        texture_enabled: false,
        texture: "unused".to_string(),
    });
    let pool = vec![Content::Null, deferred("stone"), bone("root", 0, vec![]), additive];
    let mut scene = Scene::new(0);
    let materials = build_materials(&mut scene, &pool);
    assert_eq!(materials, vec![None, Some(0), None, Some(1)]);
    assert_eq!(scene.materials.len(), 2);
    assert_eq!(scene.materials[0].source, 1);
    assert_eq!(scene.materials[0].color, Some(color(0.5, 0.25, 1.0)));
    assert_eq!(scene.materials[0].texture, Some("stone.texture2d.png".to_string()));
    assert_eq!(scene.materials[1].source, 3);
    assert_eq!(scene.materials[1].texture, None);
}

#[test]
fn a_part_takes_its_material_from_the_pool() {
    let pool = vec![Content::Null, deferred("stone")];
    let mesh = mesh(3, 2);
    let decls = vec![TransformedVertexDeclaration::from_declaration(&declaration()).unwrap()];
    let mut scene = Scene::new(1000);
    let materials = build_materials(&mut scene, &pool);
    let data = MeshData { mesh: &mesh, vertex_offset: 0, index_offset: 100 };
    build_mesh_part(&mut scene, &decls, &data, &mesh.parts[0], &materials).unwrap();
    assert_eq!(scene.meshes[0].primitives[0].material, Some(0));
    let mut part = mesh.parts[0];
    part.shared_content_id = 1;
    assert_eq!(
        build_mesh_part(&mut scene, &decls, &data, &part, &materials),
        Err(ExportError::UnexpectedShared { index: 1 })
    );
}

fn basic_model() -> Model {
    let mut moved = identity();
    moved.cols[12] = single(5.0);
    Model {
        bones: vec![
            Bone { name: "root".to_string(), transform: identity() },
            Bone { name: "arm".to_string(), transform: moved },
        ],
        bones_hierarchy: vec![
            BoneHierarchy { parent_ref: 0, children_refs: vec![2] },
            BoneHierarchy { parent_ref: 1, children_refs: vec![] },
        ],
        vertex_decls: vec![declaration()],
        meshes: vec![{
            let mut m = mesh(3, 0);
            m.parent_bone_ref = 2;
            m
        }],
        root_bone_ref: 1,
        tag: 0,
    }
}

#[test]
fn a_model_becomes_bones_with_its_meshes_below_them() {
    let model = basic_model();
    let export = model.to_scene(&[], &[]).unwrap();
    let scene = &export.scene;
    assert_eq!(scene.roots, vec![0]);
    assert_eq!(scene.nodes[0].name, Some("root".to_string()));
    assert_eq!(scene.nodes[0].transform, Transform::Identity);
    assert_eq!(scene.nodes[0].children, vec![1]);
    assert_eq!(scene.nodes[1].name, Some("arm".to_string()));
    // The transform of a bone is written row after row.
    match scene.nodes[1].transform {
        Transform::Matrix(m) => {
            assert_eq!(m.cols[3], single(5.0));
            assert_eq!(m.cols[12], single(0.0));
        }
        other => panic!("{:?}", other),
    }
    // The part of the mesh stands below the bone of the mesh.
    assert_eq!(scene.nodes[1].children, vec![2]);
    assert_eq!(scene.nodes[2].mesh, Some(0));
    assert!(scene.skins.is_empty());
    assert!(scene.animations.is_empty());
    assert_eq!(export.buffer.data.len(), 66);
}

#[test]
fn the_bones_of_a_model_need_exactly_one_root() {
    let mut model = basic_model();
    model.bones_hierarchy[0].parent_ref = 2;
    let mut scene = Scene::new(0);
    assert_eq!(
        build_bones(&mut scene, &model.bones, &model.bones_hierarchy).err(),
        Some(ExportError::NoRootBone)
    );
    model.bones_hierarchy[0].parent_ref = 0;
    model.bones_hierarchy[1].parent_ref = 0;
    assert_eq!(
        build_bones(&mut scene, &model.bones, &model.bones_hierarchy).err(),
        Some(ExportError::MultipleRootBones)
    );
    model.bones_hierarchy[1].parent_ref = 1;
    model.bones_hierarchy[1].children_refs = vec![3];
    assert_eq!(
        build_bones(&mut scene, &model.bones, &model.bones_hierarchy).err(),
        Some(ExportError::BoneOutOfRange { index: 3 })
    );
    let mut model = basic_model();
    model.meshes[0].parent_bone_ref = 0;
    assert_eq!(model.to_scene(&[], &[]).err(), Some(ExportError::BoneOutOfRange { index: 0 }));
}

#[test]
fn a_matrix_is_the_identity_whatever_the_sign_of_its_zeros() {
    let mut m = identity();
    assert!(m.is_identity());
    m.cols[1] = single(-0.0);
    assert!(m.is_identity());
    m.cols[1] = single(1.0e-30);
    assert!(!m.is_identity());
    let mut m = identity();
    m.cols[10] = single(-1.0);
    assert!(!m.is_identity());
}

#[test]
fn declarations_are_put_in_the_terms_of_the_scene() {
    let decl = VertexDeclaration {
        elements: vec![
            element(0, ElementFormat::Vector3, ElementUsage::Position),
            element(12, ElementFormat::Color, ElementUsage::Color),
            element(16, ElementFormat::Byte4, ElementUsage::BlendIndices),
            element(20, ElementFormat::Vector4, ElementUsage::BlendWeight),
        ],
    };
    assert_eq!(decl.stride(), 36);
    let t = TransformedVertexDeclaration::from_declaration(&decl).unwrap();
    assert_eq!(t.stride(), Some(36));
    assert_eq!(t.position(), Some(0));
    assert_eq!(t.elements[1].semantic, Semantic::Colors(0));
    assert_eq!(t.elements[1].component_type, ComponentType::U8);
    assert_eq!(t.elements[1].element_type, ElementType::Vec4);
    assert!(t.elements[1].normalized);
    assert_eq!(t.elements[1].size(), 4);
    assert_eq!(t.elements[2].semantic, Semantic::Joints(0));
    assert!(!t.elements[2].normalized);
    assert_eq!((t.elements[3].semantic, t.elements[3].offset, t.elements[3].size()), (Semantic::Weights(0), 20, 16));
    let fog = VertexDeclaration { elements: vec![element(0, ElementFormat::Single, ElementUsage::Fog)] };
    assert_eq!(TransformedVertexDeclaration::from_declaration(&fog).err(), Some(ExportError::UnsupportedUsage));
    let short = VertexDeclaration { elements: vec![element(0, ElementFormat::Short2, ElementUsage::Normal)] };
    assert_eq!(TransformedVertexDeclaration::from_declaration(&short).err(), Some(ExportError::UnsupportedFormat));
    assert_eq!(ElementFormat::HalfVector4.size(), 8);
    assert_eq!(ElementType::Mat4.multiplicity(), 16);
    assert_eq!(ComponentType::U16.size(), 2);
}

fn tangent_declaration() -> VertexDeclaration {
    VertexDeclaration {
        elements: vec![
            element(0, ElementFormat::Vector3, ElementUsage::Position),
            element(12, ElementFormat::Vector3, ElementUsage::Normal),
            element(24, ElementFormat::Vector3, ElementUsage::Tangent),
            element(36, ElementFormat::Vector3, ElementUsage::Binormal),
            element(48, ElementFormat::Vector2, ElementUsage::TextureCoordinate),
        ],
    }
}

fn tangent_vertex(seed: f32) -> Vec<u8> {
    let mut bytes = Vec::new();
    for i in 0..14 {
        bytes.extend_from_slice(&(seed + i as f32).to_le_bytes());
    }
    bytes
}

#[test]
fn a_tangent_gains_its_handedness_and_the_binormal_goes() {
    let decl = tangent_declaration();
    assert_eq!(decl.stride(), 56);
    let t = TransformedVertexDeclaration::from_declaration(&decl).unwrap();
    // The elements lie packed in the vertices that are written anew.
    let offsets: Vec<usize> = t.elements.iter().map(|e| e.offset).collect();
    assert_eq!(offsets, vec![0, 12, 24, 40]);
    assert_eq!(t.elements[2].semantic, Semantic::Tangents);
    assert_eq!(t.elements[2].element_type, ElementType::Vec4);
    assert_eq!(t.stride(), Some(48));
    let mut data = tangent_vertex(0.0);
    data.extend_from_slice(&tangent_vertex(100.0));
    let mut frames = Vec::new();
    tangent_frames(&data, &decl, &mut frames).unwrap();
    assert_eq!(frames.len(), 2);
    assert_eq!(frames[0].normal, vector(3.0, 4.0, 5.0));
    assert_eq!(frames[0].tangent, vector(6.0, 7.0, 8.0));
    assert_eq!(frames[1].binormal, vector(109.0, 110.0, 111.0));
    let mut out = vec![0xAA];
    transform_vertex_data_tangent(&data, &decl, &[single(1.0), single(-1.0)], &mut out).unwrap();
    assert_eq!(out.len(), 1 + 2 * 48);
    let mut expected = vec![0xAA];
    for (seed, w) in [(0.0f32, 1.0f32), (100.0, -1.0)] {
        for i in 0..9 {
            expected.extend_from_slice(&(seed + i as f32).to_le_bytes());
        }
        expected.extend_from_slice(&w.to_le_bytes());
        for i in 12..14 {
            expected.extend_from_slice(&(seed + i as f32).to_le_bytes());
        }
    }
    assert_eq!(out, expected);
}

#[test]
fn vertices_with_a_tangent_need_their_frame_and_their_handedness() {
    let decl = tangent_declaration();
    let data = tangent_vertex(0.0);
    let mut out = Vec::new();
    assert_eq!(
        transform_vertex_data_tangent(&data, &decl, &[], &mut out),
        Err(ExportError::PartOutOfRange)
    );
    assert_eq!(
        transform_vertex_data_tangent(&data[..50], &decl, &[single(1.0)], &mut out),
        Err(ExportError::PartOutOfRange)
    );
    let mut lame = tangent_declaration();
    lame.elements.remove(3);
    assert_eq!(
        transform_vertex_data_tangent(&data[..48], &lame, &[single(1.0)], &mut out),
        Err(ExportError::MissingTangentFrame)
    );
    assert!(out.is_empty());
    let mut frames = Vec::new();
    assert_eq!(tangent_frames(&data, &lame, &mut frames), Err(ExportError::MissingTangentFrame));
}

#[test]
fn a_model_with_tangents_is_made_ready_with_their_handedness() {
    let mut model = basic_model();
    model.vertex_decls = vec![tangent_declaration()];
    let mut data = tangent_vertex(0.0);
    data.extend_from_slice(&tangent_vertex(50.0));
    data.extend_from_slice(&tangent_vertex(90.0));
    model.meshes[0].vertex_buffer.data = data;
    let frames = model.tangent_frames().unwrap();
    assert_eq!(frames.len(), 3);
    let signs = vec![single(1.0), single(-1.0), single(1.0)];
    let ready = TransformedModel::from_model(&model, &signs).unwrap();
    assert_eq!(ready.meshes[0].vertex_buffer.data.len(), 3 * 48);
    assert_eq!(ready.meshes[0].parts, model.meshes[0].parts);
    assert_eq!(ready.vertex_decls[0].stride(), Some(48));
    assert_eq!(TransformedModel::from_model(&model, &signs[..2]).err(), Some(ExportError::PartOutOfRange));
    let export = model.to_scene(&[], &signs).unwrap();
    assert_eq!(export.scene.views[0].byte_stride, Some(48));
    assert_eq!(export.scene.accessors[2].element_type, ElementType::Vec4);
    let (mesh, used) = transform_mesh(&model.meshes[0], &model.vertex_decls, &signs, 0).unwrap();
    assert_eq!((mesh.vertex_buffer.data.len(), used), (144, 3));
}

#[test]
fn nodes_are_found_by_name_and_the_latest_time_by_order() {
    let (model, pool) = skinned_model();
    let scene = model.to_scene(&pool).unwrap().scene;
    assert_eq!(find_node(&scene, "child").map(|n| scene.nodes[n].name.clone()), Some(Some("child".to_string())));
    assert_eq!(find_node(&scene, "nobody"), None);
    assert_eq!(latest_time(&vec![keyframe(0.5, 0.0), keyframe(2.5, 0.0), keyframe(1.0, 0.0)]), single(2.5));
    assert_eq!(latest_time(&vec![keyframe(-1.0, 0.0)]), single(0.0));
    assert_eq!(latest_time(&vec![]), single(0.0));
}

#[test]
fn the_container_is_a_header_and_two_padded_chunks() {
    let bytes = build_glb_bytes(b"{\"a\":1}", &[1, 2, 3, 4, 5]).unwrap();
    let mut expected = Vec::new();
    expected.extend_from_slice(b"glTF");
    expected.extend_from_slice(&2u32.to_le_bytes());
    expected.extend_from_slice(&(12u32 + 8 + 8 + 8 + 8).to_le_bytes());
    expected.extend_from_slice(&8u32.to_le_bytes());
    expected.extend_from_slice(b"JSON");
    expected.extend_from_slice(b"{\"a\":1} ");
    expected.extend_from_slice(&8u32.to_le_bytes());
    expected.extend_from_slice(b"BIN\0");
    expected.extend_from_slice(&[1, 2, 3, 4, 5, 0, 0, 0]);
    assert_eq!(bytes, expected);
    assert_eq!(bytes.len() % 4, 0);
    let empty = build_glb_bytes(b"", &[]).unwrap();
    assert_eq!(empty.len(), 28);
    assert_eq!(&empty[8..12], &28u32.to_le_bytes());
}

fn matrices(count: usize) -> Region {
    Region { kind: RegionKind::InverseBindMatrices, offset: 0, length: 64 * count, count }
}

#[test]
fn the_joints_of_a_skin_stand_in_the_order_of_the_walk() {
    let pool = vec![bone("hip", 0, vec![3, 2]), bone("left", 1, vec![]), bone("right", 1, vec![])];
    let mut scene = Scene::new(192);
    scene.push_node(Node { name: None, transform: Transform::Identity, children: vec![], mesh: None, skin: None });
    let (skin, root) = build_skin(&mut scene, matrices(3), &[0, 2, 1], &pool).unwrap();
    assert_eq!((skin, root), (0, 1));
    assert_eq!(scene.skins[0].joints, vec![1, 2, 3]);
    assert_eq!(scene.skins[0].skeleton, 1);
    assert_eq!(scene.nodes[1].name, Some("hip".to_string()));
    assert_eq!(scene.nodes[2].name, Some("right".to_string()));
    assert_eq!(scene.nodes[3].name, Some("left".to_string()));
    // The children of the hip are `right`, then `left`, as its bone has them.
    assert_eq!(scene.nodes[1].children, vec![2, 3]);
    let accessor = &scene.accessors[scene.skins[0].inverse_bind_matrices];
    assert_eq!(accessor.count, 3);
    assert_eq!(scene.views[accessor.view].byte_length, 192);
    assert_eq!(scene.views[accessor.view].byte_offset, 0);
}

#[test]
fn joints_that_are_no_skeleton_are_refused() {
    let pool = vec![bone("hip", 0, vec![2]), bone("left", 1, vec![]), clip("wave", "hip", &[0.0])];
    let mut scene = Scene::new(192);
    assert_eq!(build_skin(&mut scene, matrices(0), &[], &pool).err(), Some(ExportError::NoRootBone));
    // The matrices would lie past the buffer.
    assert_eq!(
        build_skin(&mut Scene::new(100), matrices(2), &[0, 1], &pool).err(),
        Some(ExportError::PartOutOfRange)
    );
    // Joint 7 is what a reference of 8 refers to.
    assert_eq!(
        build_skin(&mut scene, matrices(2), &[0, 7], &pool).err(),
        Some(ExportError::SharedIndexOutOfRange { index: 8 })
    );
    assert_eq!(
        build_skin(&mut scene, matrices(2), &[0, 2], &pool).err(),
        Some(ExportError::UnexpectedShared { index: 3 })
    );
    // The child of the hip is no joint.
    assert_eq!(build_skin(&mut Scene::new(192), matrices(1), &[0], &pool).err(), Some(ExportError::NotATree));
    let pool = vec![bone("hip", 0, vec![9])];
    assert_eq!(build_skin(&mut Scene::new(192), matrices(1), &[0], &pool).err(), Some(ExportError::NotATree));
}

fn values(kind: RegionKind, offset: usize, length: usize) -> Region {
    Region { kind, offset, length, count: 2 }
}

fn channel_regions(offset: usize) -> ChannelRegions {
    ChannelRegions {
        timestamps: values(RegionKind::Timestamps, offset, 8),
        translations: values(RegionKind::Translations, offset + 8, 24),
        rotations: values(RegionKind::Rotations, offset + 32, 32),
        scales: values(RegionKind::Scales, offset + 64, 24),
    }
}

#[test]
fn an_animation_needs_a_node_and_regions_for_each_channel() {
    let wave = match clip("wave", "hip", &[0.0, 1.0]) {
        Content::SkinnedModelAnimationClip(c) => c,
        _ => unreachable!(),
    };
    let named =
        Node { name: Some("hip".into()), transform: Transform::Identity, children: vec![], mesh: None, skin: None };
    let mut scene = Scene::new(88);
    scene.push_node(named.clone());
    let regions = ClipRegions { channels: vec![channel_regions(0)] };
    assert_eq!(build_animation(&mut scene, &regions, &wave), Ok(0));
    assert_eq!(scene.animations[0].channels.len(), 3);
    assert_eq!(scene.accessors.len(), 4);
    assert_eq!(scene.views[3].byte_offset, 64);
    // No regions for the channel.
    let none = ClipRegions { channels: vec![] };
    assert_eq!(build_animation(&mut scene, &none, &wave), Err(ExportError::PartOutOfRange));
    // Regions that lie past the buffer.
    let past = ClipRegions { channels: vec![channel_regions(1)] };
    assert_eq!(build_animation(&mut scene, &past, &wave), Err(ExportError::PartOutOfRange));
    // No node of the name.
    let mut empty = Scene::new(88);
    assert_eq!(
        build_animation(&mut empty, &regions, &wave),
        Err(ExportError::UnknownChannelTarget { name: "hip".to_string() })
    );
}

#[test]
fn the_parts_of_a_mesh_stand_below_the_node_of_its_bone() {
    let mut m = mesh(3, 0);
    m.parent_bone_ref = 2;
    let decls = vec![TransformedVertexDeclaration::from_declaration(&declaration()).unwrap()];
    let length = m.vertex_buffer.data.len() + m.index_buffer.data.len();
    let data = MeshData { mesh: &m, vertex_offset: 0, index_offset: m.vertex_buffer.data.len() };
    let bare = Node { name: None, transform: Transform::Identity, children: vec![], mesh: None, skin: None };
    let mut scene = Scene::new(length);
    scene.push_node(bare.clone());
    scene.push_node(bare.clone());
    let (parent, parts) = build_mesh_parts(&mut scene, &decls, &data, &[], Some(&[0, 1])).unwrap();
    assert_eq!(parent, 1);
    assert_eq!(parts, vec![2]);
    assert_eq!(scene.nodes[1].children, vec![2]);
    assert_eq!(scene.nodes[2].mesh, Some(0));
    // Without bones the parts stand below a node of their own.
    let (parent, parts) = build_mesh_parts(&mut scene, &decls, &data, &[], None).unwrap();
    assert_eq!(parts, vec![3]);
    assert_eq!(parent, 4);
    assert_eq!(scene.nodes[4].children, vec![3]);
    // A mesh of a bone that is not there.
    m.parent_bone_ref = 3;
    let data = MeshData { mesh: &m, vertex_offset: 0, index_offset: m.vertex_buffer.data.len() };
    assert_eq!(
        build_mesh_parts(&mut scene, &decls, &data, &[], Some(&[0, 1])).err(),
        Some(ExportError::BoneOutOfRange { index: 3 })
    );
}

#[test]
fn bounds_are_those_of_the_position_of_the_declaration() {
    // Texture coordinates first, the position behind them.
    let source = VertexDeclaration {
        elements: vec![
            element(0, ElementFormat::Vector2, ElementUsage::TextureCoordinate),
            element(8, ElementFormat::Vector3, ElementUsage::Position),
        ],
    };
    let decl = TransformedVertexDeclaration::from_declaration(&source).unwrap();
    let mut vertices = Vec::new();
    for p in [[1.0f32, -2.0, 3.0], [-4.0, 5.0, 0.5], [0.0, 0.0, 9.0], [2.5, 2.5, 2.5]] {
        vertices.extend_from_slice(&[0x7F; 8]);
        for v in p {
            vertices.extend_from_slice(&v.to_le_bytes());
        }
    }
    let bounds = calculate_bounds(&vertices, &decl).unwrap();
    assert_eq!(as_arrays(bounds), brute_force_bounds(&vertices, 20, 8));
    assert_eq!(bounds.min, vector(-4.0, -2.0, 0.5));
    assert_eq!(bounds.max, vector(2.5, 5.0, 9.0));
    // Half a vertex at the end still holds no position.
    vertices.extend_from_slice(&[0; 10]);
    assert_eq!(calculate_bounds(&vertices, &decl), Err(ExportError::PartOutOfRange));
    let bare = TransformedVertexDeclaration { elements: vec![] };
    assert_eq!(calculate_bounds(&vertices, &bare), Err(ExportError::MissingPosition));
}

#[test]
fn the_animations_of_the_clips_are_added_in_their_order() {
    let pool = vec![clip("wave", "hip", &[0.0, 1.0]), bone("hip", 0, vec![]), clip("nod", "hip", &[0.0, 2.0])];
    let named =
        Node { name: Some("hip".into()), transform: Transform::Identity, children: vec![], mesh: None, skin: None };
    let mut scene = Scene::new(176);
    scene.push_node(named);
    let regions =
        vec![ClipRegions { channels: vec![channel_regions(0)] }, ClipRegions { channels: vec![channel_regions(88)] }];
    assert_eq!(build_animations(&mut scene, &regions, &pool, &[3, 1]), Ok(()));
    assert_eq!(scene.animations.len(), 2);
    assert_eq!(scene.animations[0].name, "nod");
    assert_eq!(scene.animations[1].name, "wave");
    assert_eq!(scene.accessors.len(), 8);
    assert_eq!(scene.views[4].byte_offset, 88);
    // A reference to what is no clip, to nothing, and regions for one clip only.
    assert_eq!(
        build_animations(&mut scene, &regions, &pool, &[3, 2]),
        Err(ExportError::UnexpectedShared { index: 2 })
    );
    assert_eq!(
        build_animations(&mut scene, &regions, &pool, &[4, 1]),
        Err(ExportError::SharedIndexOutOfRange { index: 4 })
    );
    assert_eq!(build_animations(&mut scene, &regions, &pool, &[3]), Err(ExportError::PartOutOfRange));
}

#[test]
fn a_declaration_that_no_part_names_does_not_stand_in_the_way() {
    let fog = VertexDeclaration { elements: vec![element(0, ElementFormat::Single, ElementUsage::Fog)] };
    let (mut model, pool) = skinned_model();
    model.model.vertex_decls.push(fog.clone());
    let export = model.to_scene(&pool).unwrap();
    assert_eq!(export.scene.skins.len(), 1);
    assert_eq!(export.scene.meshes.len(), 1);
    // A model without meshes names no declaration at all.
    let (mut bare, pool) = skinned_model();
    bare.model.meshes.clear();
    bare.model.vertex_decls = vec![fog];
    let export = bare.to_scene(&pool).unwrap();
    let skin = &export.scene.skins[0];
    assert_eq!(skin.joints.len(), 2);
    assert_eq!(export.scene.nodes[skin.joints[0]].name, Some("root".to_string()));
    assert_eq!(export.scene.nodes[skin.joints[1]].name, Some("child".to_string()));
    let matrices = &export.scene.accessors[skin.inverse_bind_matrices];
    assert_eq!((matrices.count, matrices.element_type), (2, ElementType::Mat4));
    assert_eq!(matrices.component_type, ComponentType::Float);
    assert_eq!(export.scene.views[matrices.view].byte_length, 128);
    // One that a part names does.
    model.model.meshes[0].parts[0].vertex_decl_index = 1;
    assert_eq!(model.to_scene(&pool).err(), Some(ExportError::UnsupportedUsage));
}

#[test]
fn the_outputs_of_a_channel_read_its_own_regions() {
    let (model, pool) = skinned_model();
    let export = model.to_scene(&pool).unwrap();
    let scene = &export.scene;
    let regions = &export.buffer.animations[0].channels[0];
    let animation = &scene.animations[0];
    let view_of = |accessor: usize| &scene.views[scene.accessors[accessor].view];
    let times = view_of(animation.samplers[0].input);
    assert_eq!((times.byte_offset, times.byte_length), (regions.timestamps.offset, 8));
    let translations = view_of(animation.samplers[0].output);
    assert_eq!((translations.byte_offset, translations.byte_length), (regions.translations.offset, 24));
    let rotations = view_of(animation.samplers[1].output);
    assert_eq!((rotations.byte_offset, rotations.byte_length), (regions.rotations.offset, 32));
    let scales = view_of(animation.samplers[2].output);
    assert_eq!((scales.byte_offset, scales.byte_length), (regions.scales.offset, 24));
    assert!(scales.byte_offset + scales.byte_length <= export.buffer.data.len());
}

#[test]
fn a_clip_that_does_not_fit_leaves_the_document_as_it_was() {
    let pool = vec![clip("wave", "hip", &[0.0, 1.0]), clip("nod", "tail", &[0.0, 2.0])];
    let named =
        Node { name: Some("hip".into()), transform: Transform::Identity, children: vec![], mesh: None, skin: None };
    let mut scene = Scene::new(176);
    scene.push_node(named);
    let before = scene.clone();
    let regions =
        vec![ClipRegions { channels: vec![channel_regions(0)] }, ClipRegions { channels: vec![channel_regions(88)] }];
    assert_eq!(
        build_animations(&mut scene, &regions, &pool, &[1, 2]),
        Err(ExportError::UnknownChannelTarget { name: "tail".to_string() })
    );
    assert_eq!(scene, before);
    let nod = match &pool[1] {
        Content::SkinnedModelAnimationClip(c) => c.clone(),
        _ => unreachable!(),
    };
    assert_eq!(
        build_animation(&mut scene, &regions[1], &nod),
        Err(ExportError::UnknownChannelTarget { name: "tail".to_string() })
    );
    assert_eq!(scene, before);
}

#[test]
fn the_regions_of_a_packed_buffer_stand_in_their_order() {
    let pool = vec![bone("root", 0, vec![]), clip("wave", "root", &[0.0, 1.0])];
    let meshes = vec![mesh(3, 0), mesh(4, 0)];
    let buffer = build_buffer(&meshes, &pool, &[0], &[2]).unwrap();
    let channel = buffer.animations[0].channels[0];
    let named = vec![
        buffer.vertices[0],
        buffer.indices[0],
        buffer.vertices[1],
        buffer.indices[1],
        buffer.inverse_bind_matrices,
        channel.timestamps,
        channel.translations,
        channel.rotations,
        channel.scales,
    ];
    assert_eq!(buffer.regions, named);
    assert_eq!(buffer.vertices[0].offset, 0);
    let mut at = 0;
    for region in &buffer.regions {
        assert_eq!(region.offset, at);
        at += region.length;
    }
    assert_eq!(at, buffer.data.len());
    assert_eq!(buffer.indices[0].offset, meshes[0].vertex_buffer.data.len());
    assert_eq!(buffer.inverse_bind_matrices.offset, buffer.indices[1].offset + meshes[1].index_buffer.data.len());
}

#[test]
fn joints_that_cannot_be_added_leave_the_document_as_it_was() {
    // The child of the hip is no joint: nothing is added, not even the hip.
    let pool = vec![bone("hip", 0, vec![2]), bone("left", 1, vec![])];
    let mut scene = Scene::new(192);
    scene.push_node(Node { name: None, transform: Transform::Identity, children: vec![], mesh: None, skin: None });
    let before = scene.clone();
    assert_eq!(build_skin(&mut scene, matrices(1), &[0], &pool).err(), Some(ExportError::NotATree));
    assert_eq!(scene, before);
    assert_eq!(
        build_skin(&mut scene, matrices(2), &[0, 5], &pool).err(),
        Some(ExportError::SharedIndexOutOfRange { index: 6 })
    );
    assert_eq!(scene, before);
    assert!(build_skin(&mut scene, matrices(2), &[0, 1], &pool).is_ok());
    assert_eq!(scene.nodes.len(), 3);
}
