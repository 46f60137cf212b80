//! The content that a container holds, and the decoders of content that
//! holds other content.
//!
//! Content names its decoder by an id into the reader table, and the
//! decoders of models read content again: for the names of bones, for
//! vertex layouts and buffers. They call each other, so they stand together
//! here, each with the depth to which it may still nest.
use vstd::prelude::*;
use vstd::string::StrSliceExecFns;
use crate::decode::{group_failed_items, read_ucounted, ucounted, Decode};
use crate::error::{DecodeError, DecodeErrorView, Expected};
use crate::reader::{follows, group_failed, same, Cursor, Reader};
use crate::single::{Matrix4, Single};
use crate::xnb::{TypeReader, TypeReaderView};
use character::{Character, CharacterView};
use effect::{
    AdditiveEffect, AdditiveEffectView, BasicEffect, BasicEffectView, Effect, EffectView, RenderDeferredEffect,
    RenderDeferredEffectView, SkinnedModelBasicEffect, SkinnedModelBasicEffectView,
};
use item::{Item, ItemView};
use model::{
    Bone, BoneHierarchy, BoneHierarchyView, BoneView, BoundingSphere, IndexBuffer, IndexBufferView, Mesh, MeshPart,
    MeshView, Model, ModelView, VertexBuffer, VertexBufferView, VertexDeclaration, VertexDeclarationView,
};
use skinned_model::{
    SkinnedModel, SkinnedModelAnimationClip, SkinnedModelAnimationClipView, SkinnedModelBone, SkinnedModelBoneView,
    SkinnedModelView,
};
use texture::{Texture2D, Texture2DView};
use color::Color;

pub mod ability;
pub mod ai;
pub mod animation;
pub mod attachment;
pub mod attack_property;
pub mod aura;
pub mod blood_kind;
pub mod boned_light;
pub mod character;
pub mod character_model;
pub mod color;
pub mod damage;
pub mod effect;
pub mod element;
pub mod event;
pub mod faction;
pub mod gib;
pub mod item;
pub mod light;
pub mod model;
pub mod movement;
pub mod passive_ability;
pub mod resistance;
pub mod skinned_model;
pub mod sound;
pub mod special_ability;
pub mod texture;
pub mod vector3;
pub mod weapon_class;

verus! {

broadcast use {group_failed, group_failed_items};

/// How deep content may nest inside content.
pub const MAX_DEPTH: usize = 8;

/// One decoded value of the content graph.
#[derive(Debug, Clone, PartialEq, Eq)]
pub enum Content {
    Null,
    Item(Item),
    Character(Character),
    String(String),
    ExternalReference(String),
    Texture2D(Texture2D),
    Model(Model),
    SkinnedModel(SkinnedModel),
    SkinnedModelBone(SkinnedModelBone),
    SkinnedModelAnimationClip(SkinnedModelAnimationClip),
    VertexDeclaration(VertexDeclaration),
    VertexBuffer(VertexBuffer),
    IndexBuffer(IndexBuffer),
    Effect(Effect),
    BasicEffect(BasicEffect),
    SkinnedModelBasicEffect(SkinnedModelBasicEffect),
    AdditiveEffect(AdditiveEffect),
    RenderDeferredEffect(RenderDeferredEffect),
}

/// `Content` as the format states it.
pub enum ContentView {
    Null,
    Item(ItemView),
    Character(CharacterView),
    String(Seq<char>),
    ExternalReference(Seq<char>),
    Texture2D(Texture2DView),
    Model(ModelView),
    SkinnedModel(SkinnedModelView),
    SkinnedModelBone(SkinnedModelBoneView),
    SkinnedModelAnimationClip(SkinnedModelAnimationClipView),
    VertexDeclaration(VertexDeclarationView),
    VertexBuffer(VertexBufferView),
    IndexBuffer(IndexBufferView),
    Effect(EffectView),
    BasicEffect(BasicEffectView),
    SkinnedModelBasicEffect(SkinnedModelBasicEffectView),
    AdditiveEffect(AdditiveEffectView),
    RenderDeferredEffect(RenderDeferredEffectView),
}

impl DeepView for Content {
    type V = ContentView;

    open spec fn deep_view(&self) -> ContentView {
        match self {
            Content::Null => ContentView::Null,
            Content::Item(v) => ContentView::Item(v.deep_view()),
            Content::Character(v) => ContentView::Character(v.deep_view()),
            Content::String(v) => ContentView::String(v.deep_view()),
            Content::ExternalReference(v) => ContentView::ExternalReference(v.deep_view()),
            Content::Texture2D(v) => ContentView::Texture2D(v.deep_view()),
            Content::Model(v) => ContentView::Model(v.deep_view()),
            Content::SkinnedModel(v) => ContentView::SkinnedModel(v.deep_view()),
            Content::SkinnedModelBone(v) => ContentView::SkinnedModelBone(v.deep_view()),
            Content::SkinnedModelAnimationClip(v) => ContentView::SkinnedModelAnimationClip(v.deep_view()),
            Content::VertexDeclaration(v) => ContentView::VertexDeclaration(v.deep_view()),
            Content::VertexBuffer(v) => ContentView::VertexBuffer(v.deep_view()),
            Content::IndexBuffer(v) => ContentView::IndexBuffer(v.deep_view()),
            Content::Effect(v) => ContentView::Effect(v.deep_view()),
            Content::BasicEffect(v) => ContentView::BasicEffect(v.deep_view()),
            Content::SkinnedModelBasicEffect(v) => ContentView::SkinnedModelBasicEffect(v.deep_view()),
            Content::AdditiveEffect(v) => ContentView::AdditiveEffect(v.deep_view()),
            Content::RenderDeferredEffect(v) => ContentView::RenderDeferredEffect(v.deep_view()),
        }
    }
}

/// The decoders that exist: a closed set, one for each supported reader
/// name.
#[derive(Debug, Clone, Copy, PartialEq, Eq, Structural)]
pub enum ReaderKind {
    String,
    ExternalReference,
    Item,
    Character,
    Texture2D,
    Model,
    VertexDeclaration,
    VertexBuffer,
    IndexBuffer,
    Effect,
    BasicEffect,
    SkinnedModel,
    SkinnedModelBone,
    SkinnedModelAnimationClip,
    SkinnedModelBasicEffect,
    AdditiveEffect,
    RenderDeferredEffect,
}

pub const STRING_READER_NAME: &'static str = "Microsoft.Xna.Framework.Content.StringReader";

pub const EXTERNAL_REFERENCE_READER_NAME: &'static str = "Microsoft.Xna.Framework.Content.ExternalReferenceReader";

pub const ITEM_READER_NAME: &'static str = "Magicka.ContentReaders.ItemReader";

pub const CHARACTER_READER_NAME: &'static str = "Magicka.ContentReaders.CharacterTemplateReader";

pub const TEXTURE_2D_READER_NAME: &'static str = "Microsoft.Xna.Framework.Content.Texture2DReader";

pub const MODEL_READER_NAME: &'static str = "Microsoft.Xna.Framework.Content.ModelReader";

pub const VERTEX_DECL_READER_NAME: &'static str = "Microsoft.Xna.Framework.Content.VertexDeclarationReader";

pub const VERTEX_BUFFER_READER_NAME: &'static str = "Microsoft.Xna.Framework.Content.VertexBufferReader";

pub const INDEX_BUFFER_READER_NAME: &'static str = "Microsoft.Xna.Framework.Content.IndexBufferReader";

pub const EFFECT_READER_NAME: &'static str = "Microsoft.Xna.Framework.Content.EffectReader";

pub const BASIC_EFFECT_READER_NAME: &'static str = "Microsoft.Xna.Framework.Content.BasicEffectReader";

pub const SKINNED_MODEL_READER_NAME: &'static str = "XNAnimation.Pipeline.SkinnedModelReader";

pub const SKINNED_MODEL_BONE_READER_NAME: &'static str = "XNAnimation.Pipeline.SkinnedModelBoneReader";

pub const SKINNED_MODEL_ANIMATION_CLIP_READER_NAME: &'static str = "XNAnimation.Pipeline.AnimationClipReader";

pub const SKINNED_MODEL_BASIC_EFFECT_READER_NAME: &'static str = "XNAnimation.Pipeline.SkinnedModelBasicEffectReader";

pub const ADDITIVE_EFFECT_READER_NAME: &'static str = "PolygonHead.Pipeline.AdditiveEffectReader";

pub const RENDER_DEFERRED_EFFECT_READER_NAME: &'static str = "PolygonHead.Pipeline.RenderDeferredEffectReader";

/// The place of the first comma of `name` at or behind `from`, or the
/// length of `name` where there is none.
pub open spec fn comma_from(name: Seq<char>, from: int) -> int
    decreases name.len() - from,
{
    if from < 0 || from >= name.len() {
        name.len() as int
    } else if name[from] == ',' {
        from
    } else {
        comma_from(name, from + 1)
    }
}

/// A qualified name without the assembly qualifiers that follow its first
/// comma.
pub open spec fn base_name(name: Seq<char>) -> Seq<char> {
    name.subrange(0, comma_from(name, 0))
}

impl ReaderKind {
    /// The decoder that a reader name stands for, whatever follows its
    /// first comma.
    #[verifier::opaque]
    pub open spec fn of(name: Seq<char>) -> Option<ReaderKind> {
        let base = base_name(name);
        if base == STRING_READER_NAME@ {
            Some(ReaderKind::String)
        } else if base == EXTERNAL_REFERENCE_READER_NAME@ {
            Some(ReaderKind::ExternalReference)
        } else if base == ITEM_READER_NAME@ {
            Some(ReaderKind::Item)
        } else if base == CHARACTER_READER_NAME@ {
            Some(ReaderKind::Character)
        } else if base == TEXTURE_2D_READER_NAME@ {
            Some(ReaderKind::Texture2D)
        } else if base == MODEL_READER_NAME@ {
            Some(ReaderKind::Model)
        } else if base == SKINNED_MODEL_READER_NAME@ {
            Some(ReaderKind::SkinnedModel)
        } else if base == SKINNED_MODEL_BONE_READER_NAME@ {
            Some(ReaderKind::SkinnedModelBone)
        } else if base == SKINNED_MODEL_ANIMATION_CLIP_READER_NAME@ {
            Some(ReaderKind::SkinnedModelAnimationClip)
        } else if base == VERTEX_DECL_READER_NAME@ {
            Some(ReaderKind::VertexDeclaration)
        } else if base == VERTEX_BUFFER_READER_NAME@ {
            Some(ReaderKind::VertexBuffer)
        } else if base == INDEX_BUFFER_READER_NAME@ {
            Some(ReaderKind::IndexBuffer)
        } else if base == EFFECT_READER_NAME@ {
            Some(ReaderKind::Effect)
        } else if base == BASIC_EFFECT_READER_NAME@ {
            Some(ReaderKind::BasicEffect)
        } else if base == SKINNED_MODEL_BASIC_EFFECT_READER_NAME@ {
            Some(ReaderKind::SkinnedModelBasicEffect)
        } else if base == RENDER_DEFERRED_EFFECT_READER_NAME@ {
            Some(ReaderKind::RenderDeferredEffect)
        } else if base == ADDITIVE_EFFECT_READER_NAME@ {
            Some(ReaderKind::AdditiveEffect)
        } else {
            None
        }
    }

    /// Finds the decoder for a reader name.
    pub fn resolve(name: &str) -> (kind: Option<ReaderKind>)
        ensures
            kind == Self::of(name@),
    {
        proof {
            reveal(ReaderKind::of);
        }
        let len = name.unicode_len();
        let mut end: usize = 0;
        while end < len && name.get_char(end) != ','
            invariant
                end <= len,
                len == name@.len(),
                comma_from(name@, 0) == comma_from(name@, end as int),
            decreases len - end,
        {
            end = end + 1;
        }
        let base = name.substring_char(0, end);
        if same(base, STRING_READER_NAME) {
            Some(ReaderKind::String)
        } else if same(base, EXTERNAL_REFERENCE_READER_NAME) {
            Some(ReaderKind::ExternalReference)
        } else if same(base, ITEM_READER_NAME) {
            Some(ReaderKind::Item)
        } else if same(base, CHARACTER_READER_NAME) {
            Some(ReaderKind::Character)
        } else if same(base, TEXTURE_2D_READER_NAME) {
            Some(ReaderKind::Texture2D)
        } else if same(base, MODEL_READER_NAME) {
            Some(ReaderKind::Model)
        } else if same(base, SKINNED_MODEL_READER_NAME) {
            Some(ReaderKind::SkinnedModel)
        } else if same(base, SKINNED_MODEL_BONE_READER_NAME) {
            Some(ReaderKind::SkinnedModelBone)
        } else if same(base, SKINNED_MODEL_ANIMATION_CLIP_READER_NAME) {
            Some(ReaderKind::SkinnedModelAnimationClip)
        } else if same(base, VERTEX_DECL_READER_NAME) {
            Some(ReaderKind::VertexDeclaration)
        } else if same(base, VERTEX_BUFFER_READER_NAME) {
            Some(ReaderKind::VertexBuffer)
        } else if same(base, INDEX_BUFFER_READER_NAME) {
            Some(ReaderKind::IndexBuffer)
        } else if same(base, EFFECT_READER_NAME) {
            Some(ReaderKind::Effect)
        } else if same(base, BASIC_EFFECT_READER_NAME) {
            Some(ReaderKind::BasicEffect)
        } else if same(base, SKINNED_MODEL_BASIC_EFFECT_READER_NAME) {
            Some(ReaderKind::SkinnedModelBasicEffect)
        } else if same(base, RENDER_DEFERRED_EFFECT_READER_NAME) {
            Some(ReaderKind::RenderDeferredEffect)
        } else if same(base, ADDITIVE_EFFECT_READER_NAME) {
            Some(ReaderKind::AdditiveEffect)
        } else {
            None
        }
    }
}

/// The failed cursor and the value without meaning that go with it.
pub open spec fn refused<V>(c: Cursor, e: DecodeErrorView) -> (V, Cursor) {
    (arbitrary(), c.fail(e))
}

/// A reference to a bone of a model: one byte in a model of up to 255
/// bones, four bytes in a larger one.
pub open spec fn bone_ref(c: Cursor, wide: bool) -> (u32, Cursor) {
    if wide {
        c.u32()
    } else {
        let (b, c1) = c.u8();
        (b as u32, c1)
    }
}

/// `n` references to bones.
pub open spec fn bone_refs(c: Cursor, wide: bool, n: nat) -> (Seq<u32>, Cursor)
    decreases n,
{
    if c.err is Some || n == 0 {
        (Seq::empty(), c)
    } else {
        let (items, c1) = bone_refs(c, wide, (n - 1) as nat);
        let (item, c2) = bone_ref(c1, wide);
        (items.push(item), c2)
    }
}

/// The place of one bone in the hierarchy: its parent, and its children
/// behind their count.
pub open spec fn hierarchy_entry(c: Cursor, wide: bool) -> (BoneHierarchyView, Cursor) {
    let (parent_ref, c1) = bone_ref(c, wide);
    let (count, c2) = c1.u32();
    let (children_refs, c3) = bone_refs(c2, wide, count as nat);
    (BoneHierarchyView { parent_ref, children_refs }, c3)
}

/// The places of `n` bones in the hierarchy.
pub open spec fn hierarchy(c: Cursor, wide: bool, n: nat) -> (Seq<BoneHierarchyView>, Cursor)
    decreases n,
{
    if c.err is Some || n == 0 {
        (Seq::empty(), c)
    } else {
        let (items, c1) = hierarchy(c, wide, (n - 1) as nat);
        let (item, c2) = hierarchy_entry(c1, wide);
        (items.push(item), c2)
    }
}

impl Content {
    /// The content at `c`. A compact integer names the decoder: 0 stands
    /// for no content and nothing follows it; any other id is a place in
    /// the reader table, counted from 1, and the value follows in the
    /// layout of that decoder. `depth` is how deep the content may nest.
    pub open spec fn layout(c: Cursor, readers: Seq<TypeReaderView>, depth: nat) -> (ContentView, Cursor)
        decreases depth, 0nat, 0nat,
    {
        let (id, c1) = c.varint();
        if c1.err is Some {
            (arbitrary(), c1)
        } else if id == 0 {
            (ContentView::Null, c1)
        } else if id < 0 || id > readers.len() {
            refused(c1, DecodeErrorView::TypeIdOutOfRange { id })
        } else {
            let name = readers[id - 1].name;
            match ReaderKind::of(name) {
                None => refused(c1, DecodeErrorView::UnknownTypeReader { name }),
                Some(ReaderKind::String) => {
                    let (v, c2) = c1.string();
                    (ContentView::String(v), c2)
                },
                Some(ReaderKind::ExternalReference) => {
                    let (v, c2) = c1.string();
                    (ContentView::ExternalReference(v), c2)
                },
                Some(ReaderKind::Item) => {
                    let (v, c2) = Item::layout(c1);
                    (ContentView::Item(v), c2)
                },
                Some(ReaderKind::Character) => {
                    let (v, c2) = Character::layout(c1);
                    (ContentView::Character(v), c2)
                },
                Some(ReaderKind::Texture2D) => {
                    let (v, c2) = Texture2D::layout(c1);
                    (ContentView::Texture2D(v), c2)
                },
                Some(ReaderKind::Model) => if depth == 0 {
                    refused(c1, DecodeErrorView::TooDeep)
                } else {
                    let (v, c2) = Model::layout(c1, readers, (depth - 1) as nat);
                    (ContentView::Model(v), c2)
                },
                Some(ReaderKind::SkinnedModel) => if depth == 0 {
                    refused(c1, DecodeErrorView::TooDeep)
                } else {
                    let (v, c2) = SkinnedModel::layout(c1, readers, (depth - 1) as nat);
                    (ContentView::SkinnedModel(v), c2)
                },
                Some(ReaderKind::SkinnedModelBone) => {
                    let (v, c2) = SkinnedModelBone::layout(c1);
                    (ContentView::SkinnedModelBone(v), c2)
                },
                Some(ReaderKind::SkinnedModelAnimationClip) => {
                    let (v, c2) = SkinnedModelAnimationClip::layout(c1);
                    (ContentView::SkinnedModelAnimationClip(v), c2)
                },
                Some(ReaderKind::VertexDeclaration) => {
                    let (v, c2) = VertexDeclaration::layout(c1);
                    (ContentView::VertexDeclaration(v), c2)
                },
                Some(ReaderKind::VertexBuffer) => {
                    let (v, c2) = VertexBuffer::layout(c1);
                    (ContentView::VertexBuffer(v), c2)
                },
                Some(ReaderKind::IndexBuffer) => {
                    let (v, c2) = IndexBuffer::layout(c1);
                    (ContentView::IndexBuffer(v), c2)
                },
                Some(ReaderKind::Effect) => {
                    let (v, c2) = Effect::layout(c1);
                    (ContentView::Effect(v), c2)
                },
                Some(ReaderKind::BasicEffect) => {
                    let (v, c2) = BasicEffect::layout(c1);
                    (ContentView::BasicEffect(v), c2)
                },
                Some(ReaderKind::SkinnedModelBasicEffect) => if depth == 0 {
                    refused(c1, DecodeErrorView::TooDeep)
                } else {
                    let (v, c2) = SkinnedModelBasicEffect::layout(c1, readers, (depth - 1) as nat);
                    (ContentView::SkinnedModelBasicEffect(v), c2)
                },
                Some(ReaderKind::RenderDeferredEffect) => {
                    let (v, c2) = RenderDeferredEffect::layout(c1);
                    (ContentView::RenderDeferredEffect(v), c2)
                },
                Some(ReaderKind::AdditiveEffect) => {
                    let (v, c2) = AdditiveEffect::layout(c1);
                    (ContentView::AdditiveEffect(v), c2)
                },
            }
        }
    }

    /// Content that must be a string.
    pub open spec fn string_at(c: Cursor, readers: Seq<TypeReaderView>, depth: nat) -> (Seq<char>, Cursor)
        decreases depth, 1nat, 0nat,
    {
        let (v, c1) = Content::layout(c, readers, depth);
        if c1.err is Some {
            (arbitrary(), c1)
        } else {
            match v {
                ContentView::String(s) => (s, c1),
                _ => refused(c1, DecodeErrorView::UnexpectedContent { expected: Expected::String }),
            }
        }
    }

    /// Content that must be a reference to another asset.
    pub open spec fn external_reference_at(c: Cursor, readers: Seq<TypeReaderView>, depth: nat) -> (
        Seq<char>,
        Cursor,
    )
        decreases depth, 1nat, 0nat,
    {
        let (v, c1) = Content::layout(c, readers, depth);
        if c1.err is Some {
            (arbitrary(), c1)
        } else {
            match v {
                ContentView::ExternalReference(s) => (s, c1),
                _ => refused(c1, DecodeErrorView::UnexpectedContent { expected: Expected::ExternalReference }),
            }
        }
    }

    /// Content that must be a model.
    pub open spec fn model_at(c: Cursor, readers: Seq<TypeReaderView>, depth: nat) -> (ModelView, Cursor)
        decreases depth, 1nat, 0nat,
    {
        let (v, c1) = Content::layout(c, readers, depth);
        if c1.err is Some {
            (arbitrary(), c1)
        } else {
            match v {
                ContentView::Model(m) => (m, c1),
                _ => refused(c1, DecodeErrorView::UnexpectedContent { expected: Expected::Model }),
            }
        }
    }

    /// Content that must be a vertex declaration.
    pub open spec fn declaration_at(c: Cursor, readers: Seq<TypeReaderView>, depth: nat) -> (
        VertexDeclarationView,
        Cursor,
    )
        decreases depth, 1nat, 0nat,
    {
        let (v, c1) = Content::layout(c, readers, depth);
        if c1.err is Some {
            (arbitrary(), c1)
        } else {
            match v {
                ContentView::VertexDeclaration(d) => (d, c1),
                _ => refused(c1, DecodeErrorView::UnexpectedContent { expected: Expected::VertexDeclaration }),
            }
        }
    }

    /// Content that must be a vertex buffer.
    pub open spec fn vertex_buffer_at(c: Cursor, readers: Seq<TypeReaderView>, depth: nat) -> (
        VertexBufferView,
        Cursor,
    )
        decreases depth, 1nat, 0nat,
    {
        let (v, c1) = Content::layout(c, readers, depth);
        if c1.err is Some {
            (arbitrary(), c1)
        } else {
            match v {
                ContentView::VertexBuffer(b) => (b, c1),
                _ => refused(c1, DecodeErrorView::UnexpectedContent { expected: Expected::VertexBuffer }),
            }
        }
    }

    /// Content that must be an index buffer.
    pub open spec fn index_buffer_at(c: Cursor, readers: Seq<TypeReaderView>, depth: nat) -> (
        IndexBufferView,
        Cursor,
    )
        decreases depth, 1nat, 0nat,
    {
        let (v, c1) = Content::layout(c, readers, depth);
        if c1.err is Some {
            (arbitrary(), c1)
        } else {
            match v {
                ContentView::IndexBuffer(b) => (b, c1),
                _ => refused(c1, DecodeErrorView::UnexpectedContent { expected: Expected::IndexBuffer }),
            }
        }
    }

    /// `n` values of content, one behind the other.
    pub open spec fn sequence(c: Cursor, readers: Seq<TypeReaderView>, depth: nat, n: nat) -> (
        Seq<ContentView>,
        Cursor,
    )
        decreases depth, 2nat, n,
    {
        if c.err is Some || n == 0 {
            (Seq::empty(), c)
        } else {
            let (items, c1) = Content::sequence(c, readers, depth, (n - 1) as nat);
            let (item, c2) = Content::layout(c1, readers, depth);
            (items.push(item), c2)
        }
    }
}

impl Bone {
    /// A bone on the wire: its name as content, then its transform.
    pub open spec fn layout(c: Cursor, readers: Seq<TypeReaderView>, depth: nat) -> (BoneView, Cursor)
        decreases depth, 2nat, 0nat,
    {
        let (name, c1) = Content::string_at(c, readers, depth);
        let (transform, c2) = Matrix4::layout(c1);
        (BoneView { name, transform }, c2)
    }

    /// `n` bones, one behind the other.
    pub open spec fn sequence(c: Cursor, readers: Seq<TypeReaderView>, depth: nat, n: nat) -> (
        Seq<BoneView>,
        Cursor,
    )
        decreases depth, 3nat, n,
    {
        if c.err is Some || n == 0 {
            (Seq::empty(), c)
        } else {
            let (items, c1) = Bone::sequence(c, readers, depth, (n - 1) as nat);
            let (item, c2) = Bone::layout(c1, readers, depth);
            (items.push(item), c2)
        }
    }
}

impl VertexDeclaration {
    /// `n` vertex declarations, each as content.
    pub open spec fn sequence(c: Cursor, readers: Seq<TypeReaderView>, depth: nat, n: nat) -> (
        Seq<VertexDeclarationView>,
        Cursor,
    )
        decreases depth, 3nat, n,
    {
        if c.err is Some || n == 0 {
            (Seq::empty(), c)
        } else {
            let (items, c1) = VertexDeclaration::sequence(c, readers, depth, (n - 1) as nat);
            let (item, c2) = Content::declaration_at(c1, readers, depth);
            (items.push(item), c2)
        }
    }
}

impl Mesh {
    /// A mesh on the wire. Its name and its buffers are content. The
    /// reference to its parent bone is as wide as every reference to a
    /// bone in its model: four bytes where `wide`, else one.
    pub open spec fn layout(c: Cursor, readers: Seq<TypeReaderView>, depth: nat, wide: bool) -> (MeshView, Cursor)
        decreases depth, 2nat, 0nat,
    {
        let (name, c1) = Content::string_at(c, readers, depth);
        let (parent_bone_ref, c2) = bone_ref(c1, wide);
        let (bounds, c3) = BoundingSphere::layout(c2);
        let (vertex_buffer, c4) = Content::vertex_buffer_at(c3, readers, depth);
        let (index_buffer, c5) = Content::index_buffer_at(c4, readers, depth);
        let (tag, c6) = c5.u8();
        let (parts, c7) = ucounted::<MeshPart>(c6);
        (MeshView { name, parent_bone_ref, bounds, vertex_buffer, index_buffer, parts, tag }, c7)
    }

    /// `n` meshes of one model, one behind the other.
    pub open spec fn sequence(c: Cursor, readers: Seq<TypeReaderView>, depth: nat, n: nat, wide: bool) -> (
        Seq<MeshView>,
        Cursor,
    )
        decreases depth, 3nat, n,
    {
        if c.err is Some || n == 0 {
            (Seq::empty(), c)
        } else {
            let (items, c1) = Mesh::sequence(c, readers, depth, (n - 1) as nat, wide);
            let (item, c2) = Mesh::layout(c1, readers, depth, wide);
            (items.push(item), c2)
        }
    }
}

impl Model {
    /// A model on the wire: the bones behind their count, the hierarchy
    /// with one entry for each bone, the vertex declarations and the meshes
    /// behind their counts, the reference to the root bone, and a tag. The
    /// count of the bones decides the width of every reference to a bone in
    /// the model.
    pub open spec fn layout(c: Cursor, readers: Seq<TypeReaderView>, depth: nat) -> (ModelView, Cursor)
        decreases depth, 4nat, 0nat,
    {
        let (num_bones, c1) = c.u32();
        let wide = num_bones > 255;
        let (bones, c2) = Bone::sequence(c1, readers, depth, num_bones as nat);
        let (bones_hierarchy, c3) = hierarchy(c2, wide, num_bones as nat);
        let (num_decls, c4) = c3.u32();
        let (vertex_decls, c5) = VertexDeclaration::sequence(c4, readers, depth, num_decls as nat);
        let (num_meshes, c6) = c5.u32();
        let (meshes, c7) = Mesh::sequence(c6, readers, depth, num_meshes as nat, wide);
        let (root_bone_ref, c8) = bone_ref(c7, wide);
        let (tag, c9) = c8.u8();
        (ModelView { bones, bones_hierarchy, vertex_decls, meshes, root_bone_ref, tag }, c9)
    }
}

impl SkinnedModel {
    /// A skinned model on the wire: its model as content, then the
    /// references to its bones and to its animation clips, each list behind
    /// its count.
    pub open spec fn layout(c: Cursor, readers: Seq<TypeReaderView>, depth: nat) -> (SkinnedModelView, Cursor)
        decreases depth, 2nat, 0nat,
    {
        let (model, c1) = Content::model_at(c, readers, depth);
        let (shared_bone_refs, c2) = crate::decode::counted::<usize>(c1);
        let (shared_animation_refs, c3) = crate::decode::counted::<usize>(c2);
        (SkinnedModelView { model, shared_bone_refs, shared_animation_refs }, c3)
    }
}

/// A map of a material: a reference as content where the map is enabled,
/// one byte that must be zero where it is not.
pub open spec fn map_at(c: Cursor, enabled: bool, readers: Seq<TypeReaderView>, depth: nat) -> (
    Option<Seq<char>>,
    Cursor,
)
    decreases depth, 2nat, 0nat,
{
    if enabled {
        let (path, c1) = Content::external_reference_at(c, readers, depth);
        (Some(path), c1)
    } else {
        let (zero, c1) = c.u8();
        if c1.err is Some {
            (None, c1)
        } else if zero != 0 {
            (None, c1.fail(DecodeErrorView::NonZeroPadding { byte: zero }))
        } else {
            (None, c1)
        }
    }
}

impl SkinnedModelBasicEffect {
    /// The material of a skinned model on the wire. The six bytes that
    /// enable the maps come before the maps, and in another order: the
    /// material map is enabled third and stands third, the damage maps
    /// follow it.
    pub open spec fn layout(c: Cursor, readers: Seq<TypeReaderView>, depth: nat) -> (
        SkinnedModelBasicEffectView,
        Cursor,
    )
        decreases depth, 3nat, 0nat,
    {
        let (method, c1) = c.u8();
        let (emissive_amount, c2) = Single::layout(c1);
        let (diffuse_color, c3) = Color::layout(c2);
        let (specular_amount, c4) = Single::layout(c3);
        let (specular_power, c5) = Single::layout(c4);
        let (alpha, c6) = Single::layout(c5);
        let (use_soft_light_blend, c7) = c6.bool();
        let (map_0_diffuse_enabled, c8) = c7.bool();
        let (map_1_diffuse_enabled, c9) = c8.bool();
        let (material_map_enabled, c10) = c9.bool();
        let (map_0_damage_enabled, c11) = c10.bool();
        let (map_1_damage_enabled, c12) = c11.bool();
        let (normal_map_enabled, c13) = c12.bool();
        let (map_0_diffuse, c14) = map_at(c13, map_0_diffuse_enabled, readers, depth);
        let (map_1_diffuse, c15) = map_at(c14, map_1_diffuse_enabled, readers, depth);
        let (material_map, c16) = map_at(c15, material_map_enabled, readers, depth);
        let (map_0_damage, c17) = map_at(c16, map_0_damage_enabled, readers, depth);
        let (map_1_damage, c18) = map_at(c17, map_1_damage_enabled, readers, depth);
        let (normal_map, c19) = map_at(c18, normal_map_enabled, readers, depth);
        (
            SkinnedModelBasicEffectView {
                method,
                emissive_amount,
                diffuse_color,
                specular_amount,
                specular_power,
                alpha,
                use_soft_light_blend,
                map_0_diffuse,
                map_1_diffuse,
                map_0_damage,
                map_1_damage,
                material_map,
                normal_map,
            },
            c19,
        )
    }
}

/// The reader table as the format states it.
pub open spec fn table(readers: Seq<TypeReader>) -> Seq<TypeReaderView> {
    Seq::new(readers.len(), |i: int| readers[i].deep_view())
}

/// A type id of 0 stands for no content: the decoder returns `Null` and
/// reads nothing behind the id, whatever the reader table holds.
pub proof fn lemma_id_zero_is_null(c: Cursor, readers: Seq<TypeReaderView>, depth: nat)
    requires
        c.varint().1.err is None,
        c.varint().0 == 0,
    ensures
        Content::layout(c, readers, depth) == (ContentView::Null, c.varint().1),
{
}

/// A failed cursor stays as it is under every layout of content.
pub proof fn lemma_content_failed(c: Cursor, readers: Seq<TypeReaderView>, depth: nat)
    requires
        c.err is Some,
    ensures
        Content::layout(c, readers, depth).1 == c,
        Content::string_at(c, readers, depth).1 == c,
        Content::external_reference_at(c, readers, depth).1 == c,
        Content::model_at(c, readers, depth).1 == c,
        Content::declaration_at(c, readers, depth).1 == c,
        Content::vertex_buffer_at(c, readers, depth).1 == c,
        Content::index_buffer_at(c, readers, depth).1 == c,
        Bone::layout(c, readers, depth).1 == c,
        Mesh::layout(c, readers, depth, false).1 == c,
        Mesh::layout(c, readers, depth, true).1 == c,
{
    assert(c.varint().1 == c);
    assert(Content::layout(c, readers, depth).1 == c);
    assert(Content::string_at(c, readers, depth).1 == c);
    assert(Content::vertex_buffer_at(c, readers, depth).1 == c);
    assert(Content::index_buffer_at(c, readers, depth).1 == c);
    assert(Matrix4::layout(c).1 == c);
    assert(bone_ref(c, false).1 == c);
    assert(BoundingSphere::layout(c).1 == c);
}

proof fn lemma_bone_refs_failed(c: Cursor, wide: bool, i: nat, n: nat)
    requires
        i <= n,
        bone_refs(c, wide, i).1.err is Some,
    ensures
        bone_refs(c, wide, n).1 == bone_refs(c, wide, i).1,
    decreases n - i,
{
    if i < n {
        lemma_bone_refs_failed(c, wide, i, (n - 1) as nat);
    }
}

proof fn lemma_hierarchy_failed(c: Cursor, wide: bool, i: nat, n: nat)
    requires
        i <= n,
        hierarchy(c, wide, i).1.err is Some,
    ensures
        hierarchy(c, wide, n).1 == hierarchy(c, wide, i).1,
    decreases n - i,
{
    if i < n {
        lemma_hierarchy_failed(c, wide, i, (n - 1) as nat);
    }
}

proof fn lemma_contents_failed(c: Cursor, readers: Seq<TypeReaderView>, depth: nat, i: nat, n: nat)
    requires
        i <= n,
        Content::sequence(c, readers, depth, i).1.err is Some,
    ensures
        Content::sequence(c, readers, depth, n).1 == Content::sequence(c, readers, depth, i).1,
    decreases n - i,
{
    if i < n {
        lemma_contents_failed(c, readers, depth, i, (n - 1) as nat);
    }
}

proof fn lemma_bones_failed(c: Cursor, readers: Seq<TypeReaderView>, depth: nat, i: nat, n: nat)
    requires
        i <= n,
        Bone::sequence(c, readers, depth, i).1.err is Some,
    ensures
        Bone::sequence(c, readers, depth, n).1 == Bone::sequence(c, readers, depth, i).1,
    decreases n - i,
{
    if i < n {
        lemma_bones_failed(c, readers, depth, i, (n - 1) as nat);
        lemma_content_failed(Bone::sequence(c, readers, depth, (n - 1) as nat).1, readers, depth);
    }
}

proof fn lemma_declarations_failed(c: Cursor, readers: Seq<TypeReaderView>, depth: nat, i: nat, n: nat)
    requires
        i <= n,
        VertexDeclaration::sequence(c, readers, depth, i).1.err is Some,
    ensures
        VertexDeclaration::sequence(c, readers, depth, n).1 == VertexDeclaration::sequence(
            c,
            readers,
            depth,
            i,
        ).1,
    decreases n - i,
{
    if i < n {
        lemma_declarations_failed(c, readers, depth, i, (n - 1) as nat);
        lemma_content_failed(VertexDeclaration::sequence(c, readers, depth, (n - 1) as nat).1, readers, depth);
    }
}

proof fn lemma_meshes_failed(c: Cursor, readers: Seq<TypeReaderView>, depth: nat, i: nat, n: nat, wide: bool)
    requires
        i <= n,
        Mesh::sequence(c, readers, depth, i, wide).1.err is Some,
    ensures
        Mesh::sequence(c, readers, depth, n, wide).1 == Mesh::sequence(c, readers, depth, i, wide).1,
    decreases n - i,
{
    if i < n {
        lemma_meshes_failed(c, readers, depth, i, (n - 1) as nat, wide);
        lemma_content_failed(Mesh::sequence(c, readers, depth, (n - 1) as nat, wide).1, readers, depth);
    }
}

/// Reads a reference to a bone, one byte wide or four.
fn read_bone_ref(reader: &mut Reader, wide: bool) -> (res: Result<u32, DecodeError>)
    ensures
        follows(res, final(reader)@, bone_ref(old(reader)@, wide)),
{
    if wide {
        reader.read_u32()
    } else {
        let b = reader.read_u8()?;
        Ok(b as u32)
    }
}

fn read_bone_refs(reader: &mut Reader, wide: bool, n: usize) -> (res: Result<Vec<u32>, DecodeError>)
    ensures
        follows(res, final(reader)@, bone_refs(old(reader)@, wide, n as nat)),
{
    let mut out: Vec<u32> = Vec::new();
    let mut i: usize = 0;
    let ghost start = reader@;
    while i < n
        invariant
            i <= n,
            start == old(reader)@,
            bone_refs(start, wide, i as nat) == (out.deep_view(), reader@),
        decreases n - i,
    {
        let ghost items = out.deep_view();
        match read_bone_ref(reader, wide) {
            Ok(item) => {
                out.push(item);
                assert(out.deep_view() =~= items.push(item));
            },
            Err(e) => {
                proof {
                    lemma_bone_refs_failed(start, wide, (i + 1) as nat, n as nat);
                }
                return Err(e);
            },
        }
        i = i + 1;
    }
    Ok(out)
}

fn read_hierarchy_entry(reader: &mut Reader, wide: bool) -> (res: Result<BoneHierarchy, DecodeError>)
    ensures
        follows(res, final(reader)@, hierarchy_entry(old(reader)@, wide)),
{
    let parent_ref = read_bone_ref(reader, wide)?;
    let count = reader.read_u32()?;
    let children_refs = read_bone_refs(reader, wide, count as usize)?;
    Ok(BoneHierarchy { parent_ref, children_refs })
}

fn read_hierarchy(reader: &mut Reader, wide: bool, n: usize) -> (res: Result<
    Vec<BoneHierarchy>,
    DecodeError,
>)
    ensures
        follows(res, final(reader)@, hierarchy(old(reader)@, wide, n as nat)),
{
    let mut out: Vec<BoneHierarchy> = Vec::new();
    let mut i: usize = 0;
    let ghost start = reader@;
    while i < n
        invariant
            i <= n,
            start == old(reader)@,
            hierarchy(start, wide, i as nat) == (out.deep_view(), reader@),
        decreases n - i,
    {
        let ghost items = out.deep_view();
        match read_hierarchy_entry(reader, wide) {
            Ok(item) => {
                out.push(item);
                assert(out.deep_view() =~= items.push(item.deep_view()));
            },
            Err(e) => {
                proof {
                    lemma_hierarchy_failed(start, wide, (i + 1) as nat, n as nat);
                }
                return Err(e);
            },
        }
        i = i + 1;
    }
    Ok(out)
}

impl Content {
    /// Reads one value of content, with the reader table that the ids of
    /// the stream refer to.
    pub fn read(reader: &mut Reader, type_readers: &[TypeReader]) -> (res: Result<Self, DecodeError>)
        ensures
            follows(
                res,
                final(reader)@,
                Content::layout(old(reader)@, table(type_readers@), MAX_DEPTH as nat),
            ),
    {
        Content::read_nested(reader, type_readers, MAX_DEPTH)
    }

    /// Reads one value of content that may nest `depth` deep.
    pub fn read_nested(reader: &mut Reader, type_readers: &[TypeReader], depth: usize) -> (res: Result<
        Self,
        DecodeError,
    >)
        ensures
            follows(res, final(reader)@, Content::layout(old(reader)@, table(type_readers@), depth as nat)),
        decreases depth, 0nat, 0nat,
    {
        let id = reader.read_7bit_encoded_i32()?;
        if id == 0 {
            return Ok(Content::Null);
        }
        if id < 0 || id as usize > type_readers.len() {
            return Err(DecodeError::TypeIdOutOfRange { id });
        }
        let entry = &type_readers[(id - 1) as usize];
        match ReaderKind::resolve(entry.name.as_str()) {
            None => Err(DecodeError::UnknownTypeReader { name: entry.name.clone() }),
            Some(ReaderKind::String) => Ok(Content::String(reader.read_7bit_length_string()?)),
            Some(ReaderKind::ExternalReference) => Ok(
                Content::ExternalReference(reader.read_7bit_length_string()?),
            ),
            Some(ReaderKind::Item) => Ok(Content::Item(Item::read(reader)?)),
            Some(ReaderKind::Character) => Ok(Content::Character(Character::read(reader)?)),
            Some(ReaderKind::Texture2D) => Ok(Content::Texture2D(Texture2D::read(reader)?)),
            Some(ReaderKind::Model) => {
                if depth == 0 {
                    Err(DecodeError::TooDeep)
                } else {
                    Ok(Content::Model(Model::read_nested(reader, type_readers, depth - 1)?))
                }
            },
            Some(ReaderKind::SkinnedModel) => {
                if depth == 0 {
                    Err(DecodeError::TooDeep)
                } else {
                    Ok(Content::SkinnedModel(SkinnedModel::read_nested(reader, type_readers, depth - 1)?))
                }
            },
            Some(ReaderKind::SkinnedModelBone) => Ok(
                Content::SkinnedModelBone(SkinnedModelBone::read(reader)?),
            ),
            Some(ReaderKind::SkinnedModelAnimationClip) => Ok(
                Content::SkinnedModelAnimationClip(SkinnedModelAnimationClip::read(reader)?),
            ),
            Some(ReaderKind::VertexDeclaration) => Ok(
                Content::VertexDeclaration(VertexDeclaration::read(reader)?),
            ),
            Some(ReaderKind::VertexBuffer) => Ok(Content::VertexBuffer(VertexBuffer::read(reader)?)),
            Some(ReaderKind::IndexBuffer) => Ok(Content::IndexBuffer(IndexBuffer::read(reader)?)),
            Some(ReaderKind::Effect) => Ok(Content::Effect(Effect::read(reader)?)),
            Some(ReaderKind::BasicEffect) => Ok(Content::BasicEffect(BasicEffect::read(reader)?)),
            Some(ReaderKind::SkinnedModelBasicEffect) => {
                if depth == 0 {
                    Err(DecodeError::TooDeep)
                } else {
                    Ok(
                        Content::SkinnedModelBasicEffect(
                            SkinnedModelBasicEffect::read_nested(reader, type_readers, depth - 1)?,
                        ),
                    )
                }
            },
            Some(ReaderKind::RenderDeferredEffect) => Ok(
                Content::RenderDeferredEffect(RenderDeferredEffect::read(reader)?),
            ),
            Some(ReaderKind::AdditiveEffect) => Ok(Content::AdditiveEffect(AdditiveEffect::read(reader)?)),
        }
    }

    /// Reads content and requires a string.
    pub fn read_string(reader: &mut Reader, type_readers: &[TypeReader], depth: usize) -> (res: Result<
        String,
        DecodeError,
    >)
        ensures
            follows(res, final(reader)@, Content::string_at(old(reader)@, table(type_readers@), depth as nat)),
        decreases depth, 1nat, 0nat,
    {
        match Content::read_nested(reader, type_readers, depth)? {
            Content::String(s) => Ok(s),
            _ => Err(DecodeError::UnexpectedContent { expected: Expected::String }),
        }
    }

    /// Reads content and requires a reference to another asset.
    pub fn read_external_reference(reader: &mut Reader, type_readers: &[TypeReader], depth: usize) -> (res:
        Result<String, DecodeError>)
        ensures
            follows(
                res,
                final(reader)@,
                Content::external_reference_at(old(reader)@, table(type_readers@), depth as nat),
            ),
        decreases depth, 1nat, 0nat,
    {
        match Content::read_nested(reader, type_readers, depth)? {
            Content::ExternalReference(s) => Ok(s),
            _ => Err(DecodeError::UnexpectedContent { expected: Expected::ExternalReference }),
        }
    }

    /// Reads content and requires a model.
    pub fn read_model(reader: &mut Reader, type_readers: &[TypeReader], depth: usize) -> (res: Result<
        Model,
        DecodeError,
    >)
        ensures
            follows(res, final(reader)@, Content::model_at(old(reader)@, table(type_readers@), depth as nat)),
        decreases depth, 1nat, 0nat,
    {
        match Content::read_nested(reader, type_readers, depth)? {
            Content::Model(m) => Ok(m),
            _ => Err(DecodeError::UnexpectedContent { expected: Expected::Model }),
        }
    }

    /// Reads content and requires a vertex declaration.
    pub fn read_declaration(reader: &mut Reader, type_readers: &[TypeReader], depth: usize) -> (res: Result<
        VertexDeclaration,
        DecodeError,
    >)
        ensures
            follows(
                res,
                final(reader)@,
                Content::declaration_at(old(reader)@, table(type_readers@), depth as nat),
            ),
        decreases depth, 1nat, 0nat,
    {
        match Content::read_nested(reader, type_readers, depth)? {
            Content::VertexDeclaration(d) => Ok(d),
            _ => Err(DecodeError::UnexpectedContent { expected: Expected::VertexDeclaration }),
        }
    }

    /// Reads content and requires a vertex buffer.
    pub fn read_vertex_buffer(reader: &mut Reader, type_readers: &[TypeReader], depth: usize) -> (res: Result<
        VertexBuffer,
        DecodeError,
    >)
        ensures
            follows(
                res,
                final(reader)@,
                Content::vertex_buffer_at(old(reader)@, table(type_readers@), depth as nat),
            ),
        decreases depth, 1nat, 0nat,
    {
        match Content::read_nested(reader, type_readers, depth)? {
            Content::VertexBuffer(b) => Ok(b),
            _ => Err(DecodeError::UnexpectedContent { expected: Expected::VertexBuffer }),
        }
    }

    /// Reads content and requires an index buffer.
    pub fn read_index_buffer(reader: &mut Reader, type_readers: &[TypeReader], depth: usize) -> (res: Result<
        IndexBuffer,
        DecodeError,
    >)
        ensures
            follows(
                res,
                final(reader)@,
                Content::index_buffer_at(old(reader)@, table(type_readers@), depth as nat),
            ),
        decreases depth, 1nat, 0nat,
    {
        match Content::read_nested(reader, type_readers, depth)? {
            Content::IndexBuffer(b) => Ok(b),
            _ => Err(DecodeError::UnexpectedContent { expected: Expected::IndexBuffer }),
        }
    }

    /// Reads `n` values of content.
    pub fn read_sequence(reader: &mut Reader, type_readers: &[TypeReader], depth: usize, n: usize) -> (res:
        Result<Vec<Content>, DecodeError>)
        ensures
            follows(
                res,
                final(reader)@,
                Content::sequence(old(reader)@, table(type_readers@), depth as nat, n as nat),
            ),
    {
        let mut out: Vec<Content> = Vec::new();
        let mut i: usize = 0;
        let ghost start = reader@;
        let ghost readers = table(type_readers@);
        while i < n
            invariant
                i <= n,
                start == old(reader)@,
                readers == table(type_readers@),
                Content::sequence(start, readers, depth as nat, i as nat) == (out.deep_view(), reader@),
            decreases n - i,
        {
            let ghost items = out.deep_view();
            match Content::read_nested(reader, type_readers, depth) {
                Ok(item) => {
                    out.push(item);
                    assert(out.deep_view() =~= items.push(item.deep_view()));
                },
                Err(e) => {
                    proof {
                        lemma_contents_failed(start, readers, depth as nat, (i + 1) as nat, n as nat);
                    }
                    return Err(e);
                },
            }
            i = i + 1;
        }
        Ok(out)
    }
}

impl Bone {
    /// Reads one bone.
    pub fn read(reader: &mut Reader, type_readers: &[TypeReader]) -> (res: Result<Self, DecodeError>)
        ensures
            follows(res, final(reader)@, Bone::layout(old(reader)@, table(type_readers@), MAX_DEPTH as nat)),
    {
        Bone::read_nested(reader, type_readers, MAX_DEPTH)
    }

    /// Reads one bone whose name may nest `depth` deep.
    pub fn read_nested(reader: &mut Reader, type_readers: &[TypeReader], depth: usize) -> (res: Result<
        Self,
        DecodeError,
    >)
        ensures
            follows(res, final(reader)@, Bone::layout(old(reader)@, table(type_readers@), depth as nat)),
        decreases depth, 2nat, 0nat,
    {
        let name = Content::read_string(reader, type_readers, depth)?;
        let transform = Matrix4::read(reader)?;
        Ok(Bone { name, transform })
    }

    fn read_sequence(reader: &mut Reader, type_readers: &[TypeReader], depth: usize, n: usize) -> (res:
        Result<Vec<Bone>, DecodeError>)
        ensures
            follows(
                res,
                final(reader)@,
                Bone::sequence(old(reader)@, table(type_readers@), depth as nat, n as nat),
            ),
        decreases depth, 3nat, 0nat,
    {
        let mut out: Vec<Bone> = Vec::new();
        let mut i: usize = 0;
        let ghost start = reader@;
        let ghost readers = table(type_readers@);
        while i < n
            invariant
                i <= n,
                start == old(reader)@,
                readers == table(type_readers@),
                Bone::sequence(start, readers, depth as nat, i as nat) == (out.deep_view(), reader@),
            decreases n - i,
        {
            let ghost items = out.deep_view();
            match Bone::read_nested(reader, type_readers, depth) {
                Ok(item) => {
                    out.push(item);
                    assert(out.deep_view() =~= items.push(item.deep_view()));
                },
                Err(e) => {
                    proof {
                        lemma_bones_failed(start, readers, depth as nat, (i + 1) as nat, n as nat);
                    }
                    return Err(e);
                },
            }
            i = i + 1;
        }
        Ok(out)
    }
}

impl VertexDeclaration {
    fn read_sequence(reader: &mut Reader, type_readers: &[TypeReader], depth: usize, n: usize) -> (res:
        Result<Vec<VertexDeclaration>, DecodeError>)
        ensures
            follows(
                res,
                final(reader)@,
                VertexDeclaration::sequence(old(reader)@, table(type_readers@), depth as nat, n as nat),
            ),
        decreases depth, 3nat, 0nat,
    {
        let mut out: Vec<VertexDeclaration> = Vec::new();
        let mut i: usize = 0;
        let ghost start = reader@;
        let ghost readers = table(type_readers@);
        while i < n
            invariant
                i <= n,
                start == old(reader)@,
                readers == table(type_readers@),
                VertexDeclaration::sequence(start, readers, depth as nat, i as nat) == (
                    out.deep_view(),
                    reader@,
                ),
            decreases n - i,
        {
            let ghost items = out.deep_view();
            match Content::read_declaration(reader, type_readers, depth) {
                Ok(item) => {
                    out.push(item);
                    assert(out.deep_view() =~= items.push(item.deep_view()));
                },
                Err(e) => {
                    proof {
                        lemma_declarations_failed(start, readers, depth as nat, (i + 1) as nat, n as nat);
                    }
                    return Err(e);
                },
            }
            i = i + 1;
        }
        Ok(out)
    }
}

impl Mesh {
    /// Reads one mesh of a model whose references to bones are four bytes
    /// where `wide`, else one.
    pub fn read(reader: &mut Reader, type_readers: &[TypeReader], wide: bool) -> (res: Result<Self, DecodeError>)
        ensures
            follows(
                res,
                final(reader)@,
                Mesh::layout(old(reader)@, table(type_readers@), MAX_DEPTH as nat, wide),
            ),
    {
        Mesh::read_nested(reader, type_readers, MAX_DEPTH, wide)
    }

    /// Reads one mesh whose content may nest `depth` deep.
    pub fn read_nested(reader: &mut Reader, type_readers: &[TypeReader], depth: usize, wide: bool) -> (res:
        Result<Self, DecodeError>)
        ensures
            follows(res, final(reader)@, Mesh::layout(old(reader)@, table(type_readers@), depth as nat, wide)),
        decreases depth, 2nat, 0nat,
    {
        let name = Content::read_string(reader, type_readers, depth)?;
        let parent_bone_ref = read_bone_ref(reader, wide)?;
        let bounds = BoundingSphere::read(reader)?;
        let vertex_buffer = Content::read_vertex_buffer(reader, type_readers, depth)?;
        let index_buffer = Content::read_index_buffer(reader, type_readers, depth)?;
        let tag = reader.read_u8()?;
        let parts = read_ucounted::<MeshPart>(reader)?;
        Ok(Mesh { name, parent_bone_ref, bounds, vertex_buffer, index_buffer, parts, tag })
    }

    fn read_sequence(
        reader: &mut Reader,
        type_readers: &[TypeReader],
        depth: usize,
        n: usize,
        wide: bool,
    ) -> (res: Result<Vec<Mesh>, DecodeError>)
        ensures
            follows(
                res,
                final(reader)@,
                Mesh::sequence(old(reader)@, table(type_readers@), depth as nat, n as nat, wide),
            ),
        decreases depth, 3nat, 0nat,
    {
        let mut out: Vec<Mesh> = Vec::new();
        let mut i: usize = 0;
        let ghost start = reader@;
        let ghost readers = table(type_readers@);
        while i < n
            invariant
                i <= n,
                start == old(reader)@,
                readers == table(type_readers@),
                Mesh::sequence(start, readers, depth as nat, i as nat, wide) == (out.deep_view(), reader@),
            decreases n - i,
        {
            let ghost items = out.deep_view();
            match Mesh::read_nested(reader, type_readers, depth, wide) {
                Ok(item) => {
                    out.push(item);
                    assert(out.deep_view() =~= items.push(item.deep_view()));
                },
                Err(e) => {
                    proof {
                        lemma_meshes_failed(start, readers, depth as nat, (i + 1) as nat, n as nat, wide);
                    }
                    return Err(e);
                },
            }
            i = i + 1;
        }
        Ok(out)
    }
}

impl Model {
    /// Reads one model.
    pub fn read(reader: &mut Reader, type_readers: &[TypeReader]) -> (res: Result<Self, DecodeError>)
        ensures
            follows(res, final(reader)@, Model::layout(old(reader)@, table(type_readers@), MAX_DEPTH as nat)),
    {
        Model::read_nested(reader, type_readers, MAX_DEPTH)
    }

    /// Reads one model whose content may nest `depth` deep.
    pub fn read_nested(reader: &mut Reader, type_readers: &[TypeReader], depth: usize) -> (res: Result<
        Self,
        DecodeError,
    >)
        ensures
            follows(res, final(reader)@, Model::layout(old(reader)@, table(type_readers@), depth as nat)),
        decreases depth, 4nat, 0nat,
    {
        let num_bones = reader.read_u32()?;
        let wide = num_bones > 255;
        let bones = Bone::read_sequence(reader, type_readers, depth, num_bones as usize)?;
        let bones_hierarchy = read_hierarchy(reader, wide, num_bones as usize)?;
        let num_decls = reader.read_u32()?;
        let vertex_decls = VertexDeclaration::read_sequence(reader, type_readers, depth, num_decls as usize)?;
        let num_meshes = reader.read_u32()?;
        let meshes = Mesh::read_sequence(reader, type_readers, depth, num_meshes as usize, wide)?;
        let root_bone_ref = read_bone_ref(reader, wide)?;
        let tag = reader.read_u8()?;
        Ok(Model { bones, bones_hierarchy, vertex_decls, meshes, root_bone_ref, tag })
    }
}

impl SkinnedModel {
    /// Reads one skinned model.
    pub fn read(reader: &mut Reader, type_readers: &[TypeReader]) -> (res: Result<Self, DecodeError>)
        ensures
            follows(
                res,
                final(reader)@,
                SkinnedModel::layout(old(reader)@, table(type_readers@), MAX_DEPTH as nat),
            ),
    {
        SkinnedModel::read_nested(reader, type_readers, MAX_DEPTH)
    }

    /// Reads one skinned model whose content may nest `depth` deep.
    pub fn read_nested(reader: &mut Reader, type_readers: &[TypeReader], depth: usize) -> (res: Result<
        Self,
        DecodeError,
    >)
        ensures
            follows(res, final(reader)@, SkinnedModel::layout(old(reader)@, table(type_readers@), depth as nat)),
        decreases depth, 2nat, 0nat,
    {
        let model = Content::read_model(reader, type_readers, depth)?;
        let shared_bone_refs = crate::decode::read_counted::<usize>(reader)?;
        let shared_animation_refs = crate::decode::read_counted::<usize>(reader)?;
        Ok(SkinnedModel { model, shared_bone_refs, shared_animation_refs })
    }
}

/// Reads a map of a material: a reference where the map is enabled, a zero
/// byte where it is not.
fn read_map(reader: &mut Reader, enabled: bool, type_readers: &[TypeReader], depth: usize) -> (res: Result<
    Option<String>,
    DecodeError,
>)
    ensures
        follows(res, final(reader)@, map_at(old(reader)@, enabled, table(type_readers@), depth as nat)),
    decreases depth, 2nat, 0nat,
{
    if enabled {
        let path = Content::read_external_reference(reader, type_readers, depth)?;
        Ok(Some(path))
    } else {
        let zero = reader.read_u8()?;
        if zero != 0 {
            Err(DecodeError::NonZeroPadding { byte: zero })
        } else {
            Ok(None)
        }
    }
}

impl SkinnedModelBasicEffect {
    /// Reads the material of a skinned model.
    pub fn read(reader: &mut Reader, type_readers: &[TypeReader]) -> (res: Result<Self, DecodeError>)
        ensures
            follows(
                res,
                final(reader)@,
                SkinnedModelBasicEffect::layout(old(reader)@, table(type_readers@), MAX_DEPTH as nat),
            ),
    {
        SkinnedModelBasicEffect::read_nested(reader, type_readers, MAX_DEPTH)
    }

    /// Reads the material of a skinned model whose maps may nest `depth`
    /// deep.
    #[verifier::rlimit(40)]
    pub fn read_nested(reader: &mut Reader, type_readers: &[TypeReader], depth: usize) -> (res: Result<
        Self,
        DecodeError,
    >)
        ensures
            follows(
                res,
                final(reader)@,
                SkinnedModelBasicEffect::layout(old(reader)@, table(type_readers@), depth as nat),
            ),
        decreases depth, 3nat, 0nat,
    {
        let method = reader.read_u8()?;
        let emissive_amount = Single::read(reader)?;
        let diffuse_color = Color::read(reader)?;
        let specular_amount = Single::read(reader)?;
        let specular_power = Single::read(reader)?;
        let alpha = Single::read(reader)?;
        let use_soft_light_blend = reader.read_bool()?;
        let map_0_diffuse_enabled = reader.read_bool()?;
        let map_1_diffuse_enabled = reader.read_bool()?;
        let material_map_enabled = reader.read_bool()?;
        let map_0_damage_enabled = reader.read_bool()?;
        let map_1_damage_enabled = reader.read_bool()?;
        let normal_map_enabled = reader.read_bool()?;
        let map_0_diffuse = read_map(reader, map_0_diffuse_enabled, type_readers, depth)?;
        let map_1_diffuse = read_map(reader, map_1_diffuse_enabled, type_readers, depth)?;
        let material_map = read_map(reader, material_map_enabled, type_readers, depth)?;
        let map_0_damage = read_map(reader, map_0_damage_enabled, type_readers, depth)?;
        let map_1_damage = read_map(reader, map_1_damage_enabled, type_readers, depth)?;
        let normal_map = read_map(reader, normal_map_enabled, type_readers, depth)?;
        Ok(
            SkinnedModelBasicEffect {
                method,
                emissive_amount,
                diffuse_color,
                specular_amount,
                specular_power,
                alpha,
                use_soft_light_blend,
                map_0_diffuse,
                map_1_diffuse,
                map_0_damage,
                map_1_damage,
                material_map,
                normal_map,
            },
        )
    }
}

impl Content {
    /// The extension under which content of this variant is saved, or
    /// `None` for no content.
    pub open spec fn extension_name(&self) -> Option<Seq<char>> {
        match self {
            Content::Null => None,
            Content::String(_) => Some("string"@),
            Content::ExternalReference(_) => Some("externalreference"@),
            Content::Item(_) => Some("item"@),
            Content::Character(_) => Some("character"@),
            Content::Texture2D(_) => Some("texture2d"@),
            Content::Model(_) => Some("model"@),
            Content::SkinnedModel(_) => Some("skinnedmodel"@),
            Content::SkinnedModelBone(_) => Some("skinnedmodelbone"@),
            Content::SkinnedModelAnimationClip(_) => Some("animationclip"@),
            Content::VertexDeclaration(_) => Some("vertexdecl"@),
            Content::VertexBuffer(_) => Some("vertexbuffer"@),
            Content::IndexBuffer(_) => Some("indexbuffer"@),
            Content::Effect(_) => Some("effect"@),
            Content::BasicEffect(_) => Some("basiceffect"@),
            Content::SkinnedModelBasicEffect(_) => Some("skinnedmodelbasiceffect"@),
            Content::AdditiveEffect(_) => Some("additiveeffect"@),
            Content::RenderDeferredEffect(_) => Some("renderdeferredeffect"@),
        }
    }

    /// The extension under which content of this variant is saved, or
    /// `None` for no content, of which nothing is saved.
    pub fn extension(&self) -> (ext: Option<&'static str>)
        ensures
            match ext {
                Some(e) => self.extension_name() == Some(e@),
                None => self.extension_name() is None,
            },
    {
        match self {
            Content::Null => None,
            Content::String(_) => Some("string"),
            Content::ExternalReference(_) => Some("externalreference"),
            Content::Item(_) => Some("item"),
            Content::Character(_) => Some("character"),
            Content::Texture2D(_) => Some("texture2d"),
            Content::Model(_) => Some("model"),
            Content::SkinnedModel(_) => Some("skinnedmodel"),
            Content::SkinnedModelBone(_) => Some("skinnedmodelbone"),
            Content::SkinnedModelAnimationClip(_) => Some("animationclip"),
            Content::VertexDeclaration(_) => Some("vertexdecl"),
            Content::VertexBuffer(_) => Some("vertexbuffer"),
            Content::IndexBuffer(_) => Some("indexbuffer"),
            Content::Effect(_) => Some("effect"),
            Content::BasicEffect(_) => Some("basiceffect"),
            Content::SkinnedModelBasicEffect(_) => Some("skinnedmodelbasiceffect"),
            Content::AdditiveEffect(_) => Some("additiveeffect"),
            Content::RenderDeferredEffect(_) => Some("renderdeferredeffect"),
        }
    }
}

} // verus!
