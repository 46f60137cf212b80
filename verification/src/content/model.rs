//! Models: bones, vertex layouts, meshes and their parts.
use vstd::prelude::*;
use crate::decode::{Decode, read_ucounted, ucounted};
use crate::error::{DecodeError, DecodeErrorView, Selector};
use crate::reader::{Cursor, follows, Reader};
use crate::single::{Matrix4, Single};
use crate::content::vector3::Vector3;

verus! {

broadcast use {crate::reader::group_failed, crate::decode::group_failed_items};

/// The format of a vertex element.
#[derive(Clone, Copy, PartialEq, Eq, Structural, Debug)]
pub enum ElementFormat {
    Single,
    Vector2,
    Vector3,
    Vector4,
    Color,
    Byte4,
    Short2,
    Short4,
    RGBA32,
    NormalizedShort2,
    NormalizedShort4,
    RGB32,
    RGBA64,
    UInt40,
    Normalized40,
    HalfVector2,
    HalfVector4,
}

impl DeepView for ElementFormat {
    type V = ElementFormat;

    open spec fn deep_view(&self) -> ElementFormat {
        *self
    }
}

impl ElementFormat {
    /// The variant that a number stands for, if any.
    pub open spec fn of(value: u8) -> Option<ElementFormat> {
        if value == 0 {
            Some(ElementFormat::Single)
        } else if value == 1 {
            Some(ElementFormat::Vector2)
        } else if value == 2 {
            Some(ElementFormat::Vector3)
        } else if value == 3 {
            Some(ElementFormat::Vector4)
        } else if value == 4 {
            Some(ElementFormat::Color)
        } else if value == 5 {
            Some(ElementFormat::Byte4)
        } else if value == 6 {
            Some(ElementFormat::Short2)
        } else if value == 7 {
            Some(ElementFormat::Short4)
        } else if value == 8 {
            Some(ElementFormat::RGBA32)
        } else if value == 9 {
            Some(ElementFormat::NormalizedShort2)
        } else if value == 10 {
            Some(ElementFormat::NormalizedShort4)
        } else if value == 11 {
            Some(ElementFormat::RGB32)
        } else if value == 12 {
            Some(ElementFormat::RGBA64)
        } else if value == 13 {
            Some(ElementFormat::UInt40)
        } else if value == 14 {
            Some(ElementFormat::Normalized40)
        } else if value == 15 {
            Some(ElementFormat::HalfVector2)
        } else if value == 16 {
            Some(ElementFormat::HalfVector4)
        } else {
            None
        }
    }

    /// The variant that `value` stands for, if any.
    pub fn from_repr(value: u8) -> (kind: Option<Self>)
        ensures
            kind == Self::of(value),
    {
        if value == 0 {
            Some(ElementFormat::Single)
        } else if value == 1 {
            Some(ElementFormat::Vector2)
        } else if value == 2 {
            Some(ElementFormat::Vector3)
        } else if value == 3 {
            Some(ElementFormat::Vector4)
        } else if value == 4 {
            Some(ElementFormat::Color)
        } else if value == 5 {
            Some(ElementFormat::Byte4)
        } else if value == 6 {
            Some(ElementFormat::Short2)
        } else if value == 7 {
            Some(ElementFormat::Short4)
        } else if value == 8 {
            Some(ElementFormat::RGBA32)
        } else if value == 9 {
            Some(ElementFormat::NormalizedShort2)
        } else if value == 10 {
            Some(ElementFormat::NormalizedShort4)
        } else if value == 11 {
            Some(ElementFormat::RGB32)
        } else if value == 12 {
            Some(ElementFormat::RGBA64)
        } else if value == 13 {
            Some(ElementFormat::UInt40)
        } else if value == 14 {
            Some(ElementFormat::Normalized40)
        } else if value == 15 {
            Some(ElementFormat::HalfVector2)
        } else if value == 16 {
            Some(ElementFormat::HalfVector4)
        } else {
            None
        }
    }

    /// One byte on the wire.
    pub open spec fn layout(c: Cursor) -> (ElementFormat, Cursor) {
        let (raw, c1) = c.u8();
        if c1.err is Some {
            (arbitrary(), c1)
        } else {
            match Self::of(raw) {
                Some(kind) => (kind, c1),
                None => (
                    arbitrary(),
                    c1.fail(DecodeErrorView::UnknownKind { selector: Selector::ElementFormat, value: raw as i32 }),
                ),
            }
        }
    }

    /// Reads one `ElementFormat`.
    pub fn read(reader: &mut Reader) -> (res: Result<Self, DecodeError>)
        ensures
            follows(res, final(reader)@, Self::layout(old(reader)@)),
    {
        let raw = reader.read_u8()?;
        match Self::from_repr(raw) {
            Some(kind) => Ok(kind),
            None => Err(DecodeError::UnknownKind { selector: Selector::ElementFormat, value: raw as i32 }),
        }
    }
}

impl Decode for ElementFormat {
    open spec fn wire(c: Cursor) -> (ElementFormat, Cursor) {
        ElementFormat::layout(c)
    }

    proof fn lemma_wire_failed(c: Cursor) {
    }

    fn decode(r: &mut Reader) -> (res: Result<Self, DecodeError>) {
        ElementFormat::read(r)
    }
}

/// How a vertex element is tessellated.
#[derive(Clone, Copy, PartialEq, Eq, Structural, Debug)]
pub enum ElementMethod {
    Default,
    UV,
    LookUp,
    LookUpPresampled,
}

impl DeepView for ElementMethod {
    type V = ElementMethod;

    open spec fn deep_view(&self) -> ElementMethod {
        *self
    }
}

impl ElementMethod {
    /// The variant that a number stands for, if any.
    pub open spec fn of(value: u8) -> Option<ElementMethod> {
        if value == 0 {
            Some(ElementMethod::Default)
        } else if value == 4 {
            Some(ElementMethod::UV)
        } else if value == 5 {
            Some(ElementMethod::LookUp)
        } else if value == 6 {
            Some(ElementMethod::LookUpPresampled)
        } else {
            None
        }
    }

    /// The variant that `value` stands for, if any.
    pub fn from_repr(value: u8) -> (kind: Option<Self>)
        ensures
            kind == Self::of(value),
    {
        if value == 0 {
            Some(ElementMethod::Default)
        } else if value == 4 {
            Some(ElementMethod::UV)
        } else if value == 5 {
            Some(ElementMethod::LookUp)
        } else if value == 6 {
            Some(ElementMethod::LookUpPresampled)
        } else {
            None
        }
    }

    /// One byte on the wire.
    pub open spec fn layout(c: Cursor) -> (ElementMethod, Cursor) {
        let (raw, c1) = c.u8();
        if c1.err is Some {
            (arbitrary(), c1)
        } else {
            match Self::of(raw) {
                Some(kind) => (kind, c1),
                None => (
                    arbitrary(),
                    c1.fail(DecodeErrorView::UnknownKind { selector: Selector::ElementMethod, value: raw as i32 }),
                ),
            }
        }
    }

    /// Reads one `ElementMethod`.
    pub fn read(reader: &mut Reader) -> (res: Result<Self, DecodeError>)
        ensures
            follows(res, final(reader)@, Self::layout(old(reader)@)),
    {
        let raw = reader.read_u8()?;
        match Self::from_repr(raw) {
            Some(kind) => Ok(kind),
            None => Err(DecodeError::UnknownKind { selector: Selector::ElementMethod, value: raw as i32 }),
        }
    }
}

impl Decode for ElementMethod {
    open spec fn wire(c: Cursor) -> (ElementMethod, Cursor) {
        ElementMethod::layout(c)
    }

    proof fn lemma_wire_failed(c: Cursor) {
    }

    fn decode(r: &mut Reader) -> (res: Result<Self, DecodeError>) {
        ElementMethod::read(r)
    }
}

/// What a vertex element is used for.
#[derive(Clone, Copy, PartialEq, Eq, Structural, Debug)]
pub enum ElementUsage {
    Position,
    BlendWeight,
    BlendIndices,
    Normal,
    PointSize,
    TextureCoordinate,
    Tangent,
    Binormal,
    TessellateFactor,
    Color,
    Fog,
    Depth,
    Sample,
}

impl DeepView for ElementUsage {
    type V = ElementUsage;

    open spec fn deep_view(&self) -> ElementUsage {
        *self
    }
}

impl ElementUsage {
    /// The variant that a number stands for, if any.
    pub open spec fn of(value: u8) -> Option<ElementUsage> {
        if value == 0 {
            Some(ElementUsage::Position)
        } else if value == 1 {
            Some(ElementUsage::BlendWeight)
        } else if value == 2 {
            Some(ElementUsage::BlendIndices)
        } else if value == 3 {
            Some(ElementUsage::Normal)
        } else if value == 4 {
            Some(ElementUsage::PointSize)
        } else if value == 5 {
            Some(ElementUsage::TextureCoordinate)
        } else if value == 6 {
            Some(ElementUsage::Tangent)
        } else if value == 7 {
            Some(ElementUsage::Binormal)
        } else if value == 8 {
            Some(ElementUsage::TessellateFactor)
        } else if value == 10 {
            Some(ElementUsage::Color)
        } else if value == 11 {
            Some(ElementUsage::Fog)
        } else if value == 12 {
            Some(ElementUsage::Depth)
        } else if value == 13 {
            Some(ElementUsage::Sample)
        } else {
            None
        }
    }

    /// The variant that `value` stands for, if any.
    pub fn from_repr(value: u8) -> (kind: Option<Self>)
        ensures
            kind == Self::of(value),
    {
        if value == 0 {
            Some(ElementUsage::Position)
        } else if value == 1 {
            Some(ElementUsage::BlendWeight)
        } else if value == 2 {
            Some(ElementUsage::BlendIndices)
        } else if value == 3 {
            Some(ElementUsage::Normal)
        } else if value == 4 {
            Some(ElementUsage::PointSize)
        } else if value == 5 {
            Some(ElementUsage::TextureCoordinate)
        } else if value == 6 {
            Some(ElementUsage::Tangent)
        } else if value == 7 {
            Some(ElementUsage::Binormal)
        } else if value == 8 {
            Some(ElementUsage::TessellateFactor)
        } else if value == 10 {
            Some(ElementUsage::Color)
        } else if value == 11 {
            Some(ElementUsage::Fog)
        } else if value == 12 {
            Some(ElementUsage::Depth)
        } else if value == 13 {
            Some(ElementUsage::Sample)
        } else {
            None
        }
    }

    /// One byte on the wire.
    pub open spec fn layout(c: Cursor) -> (ElementUsage, Cursor) {
        let (raw, c1) = c.u8();
        if c1.err is Some {
            (arbitrary(), c1)
        } else {
            match Self::of(raw) {
                Some(kind) => (kind, c1),
                None => (
                    arbitrary(),
                    c1.fail(DecodeErrorView::UnknownKind { selector: Selector::ElementUsage, value: raw as i32 }),
                ),
            }
        }
    }

    /// Reads one `ElementUsage`.
    pub fn read(reader: &mut Reader) -> (res: Result<Self, DecodeError>)
        ensures
            follows(res, final(reader)@, Self::layout(old(reader)@)),
    {
        let raw = reader.read_u8()?;
        match Self::from_repr(raw) {
            Some(kind) => Ok(kind),
            None => Err(DecodeError::UnknownKind { selector: Selector::ElementUsage, value: raw as i32 }),
        }
    }
}

impl Decode for ElementUsage {
    open spec fn wire(c: Cursor) -> (ElementUsage, Cursor) {
        ElementUsage::layout(c)
    }

    proof fn lemma_wire_failed(c: Cursor) {
    }

    fn decode(r: &mut Reader) -> (res: Result<Self, DecodeError>) {
        ElementUsage::read(r)
    }
}

/// One element of a vertex: where it lies in the vertex and what it is.
#[derive(Clone, Copy, PartialEq, Eq, Structural, Debug)]
pub struct VertexElement {
    pub stream: u16,
    pub offset: u16,
    pub format: ElementFormat,
    pub method: ElementMethod,
    pub usage: ElementUsage,
    pub usage_index: u8,
}

impl DeepView for VertexElement {
    type V = VertexElement;

    open spec fn deep_view(&self) -> VertexElement {
        *self
    }
}

impl VertexElement {
    /// The fields on the wire, one behind the other.
    #[verifier::opaque]
    pub open spec fn fields(c: Cursor) -> (VertexElement, Cursor) {
        let (stream, c1) = c.u16();
        let (offset, c2) = c1.u16();
        let (format, c3) = ElementFormat::layout(c2);
        let (method, c4) = ElementMethod::layout(c3);
        let (usage, c5) = ElementUsage::layout(c4);
        let (usage_index, c6) = c5.u8();
        (VertexElement { stream, offset, format, method, usage, usage_index }, c6)
    }

    /// The value at `c`: nothing from a failed cursor.
    pub open spec fn layout(c: Cursor) -> (VertexElement, Cursor) {
        if c.err is Some {
            (arbitrary(), c)
        } else {
            Self::fields(c)
        }
    }

    /// Reads one `VertexElement`.
    pub fn read(reader: &mut Reader) -> (res: Result<Self, DecodeError>)
        ensures
            follows(res, final(reader)@, Self::layout(old(reader)@)),
    {
        proof {
            reveal(VertexElement::fields);
        }
        let stream = reader.read_u16()?;
        let offset = reader.read_u16()?;
        let format = ElementFormat::read(reader)?;
        let method = ElementMethod::read(reader)?;
        let usage = ElementUsage::read(reader)?;
        let usage_index = reader.read_u8()?;
        Ok(VertexElement { stream, offset, format, method, usage, usage_index })
    }
}

impl Decode for VertexElement {
    open spec fn wire(c: Cursor) -> (VertexElement, Cursor) {
        VertexElement::layout(c)
    }

    proof fn lemma_wire_failed(c: Cursor) {
    }

    fn decode(r: &mut Reader) -> (res: Result<Self, DecodeError>) {
        VertexElement::read(r)
    }
}

/// The layout of a vertex: its elements behind their count.
#[derive(Clone, PartialEq, Eq, Debug)]
pub struct VertexDeclaration {
    pub elements: Vec<VertexElement>,
}

/// `VertexDeclaration` as the format states it.
pub struct VertexDeclarationView {
    pub elements: Seq<VertexElement>,
}

impl DeepView for VertexDeclaration {
    type V = VertexDeclarationView;

    open spec fn deep_view(&self) -> VertexDeclarationView {
        VertexDeclarationView {
            elements: self.elements.deep_view(),
        }
    }
}

impl VertexDeclaration {
    /// The fields on the wire, one behind the other.
    #[verifier::opaque]
    pub open spec fn fields(c: Cursor) -> (VertexDeclarationView, Cursor) {
        let (elements, c1) = ucounted::<VertexElement>(c);
        (VertexDeclarationView { elements }, c1)
    }

    /// The value at `c`: nothing from a failed cursor.
    pub open spec fn layout(c: Cursor) -> (VertexDeclarationView, Cursor) {
        if c.err is Some {
            (arbitrary(), c)
        } else {
            Self::fields(c)
        }
    }

    /// Reads one `VertexDeclaration`.
    pub fn read(reader: &mut Reader) -> (res: Result<Self, DecodeError>)
        ensures
            follows(res, final(reader)@, Self::layout(old(reader)@)),
    {
        proof {
            reveal(VertexDeclaration::fields);
        }
        let elements = read_ucounted::<VertexElement>(reader)?;
        Ok(VertexDeclaration { elements })
    }
}

impl Decode for VertexDeclaration {
    open spec fn wire(c: Cursor) -> (VertexDeclarationView, Cursor) {
        VertexDeclaration::layout(c)
    }

    proof fn lemma_wire_failed(c: Cursor) {
    }

    fn decode(r: &mut Reader) -> (res: Result<Self, DecodeError>) {
        VertexDeclaration::read(r)
    }
}

/// The bytes of the vertices of a mesh.
#[derive(Clone, PartialEq, Eq, Debug)]
pub struct VertexBuffer {
    pub data: Vec<u8>,
}

/// `VertexBuffer` as the format states it.
pub struct VertexBufferView {
    pub data: Seq<u8>,
}

impl DeepView for VertexBuffer {
    type V = VertexBufferView;

    open spec fn deep_view(&self) -> VertexBufferView {
        VertexBufferView {
            data: self.data.deep_view(),
        }
    }
}

impl VertexBuffer {
    /// The fields on the wire, one behind the other.
    #[verifier::opaque]
    pub open spec fn fields(c: Cursor) -> (VertexBufferView, Cursor) {
        let (data, c1) = c.blob();
        (VertexBufferView { data }, c1)
    }

    /// The value at `c`: nothing from a failed cursor.
    pub open spec fn layout(c: Cursor) -> (VertexBufferView, Cursor) {
        if c.err is Some {
            (arbitrary(), c)
        } else {
            Self::fields(c)
        }
    }

    /// Reads one `VertexBuffer`.
    pub fn read(reader: &mut Reader) -> (res: Result<Self, DecodeError>)
        ensures
            follows(res, final(reader)@, Self::layout(old(reader)@)),
    {
        proof {
            reveal(VertexBuffer::fields);
        }
        let data = reader.read_blob()?;
        Ok(VertexBuffer { data })
    }
}

impl Decode for VertexBuffer {
    open spec fn wire(c: Cursor) -> (VertexBufferView, Cursor) {
        VertexBuffer::layout(c)
    }

    proof fn lemma_wire_failed(c: Cursor) {
    }

    fn decode(r: &mut Reader) -> (res: Result<Self, DecodeError>) {
        VertexBuffer::read(r)
    }
}

/// The bytes of the indices of a mesh, each index of 16 or of 32 bits.
#[derive(Clone, PartialEq, Eq, Debug)]
pub struct IndexBuffer {
    pub is_16_bit: bool,
    pub data: Vec<u8>,
}

/// `IndexBuffer` as the format states it.
pub struct IndexBufferView {
    pub is_16_bit: bool,
    pub data: Seq<u8>,
}

impl DeepView for IndexBuffer {
    type V = IndexBufferView;

    open spec fn deep_view(&self) -> IndexBufferView {
        IndexBufferView {
            is_16_bit: self.is_16_bit,
            data: self.data.deep_view(),
        }
    }
}

impl IndexBuffer {
    /// The fields on the wire, one behind the other.
    #[verifier::opaque]
    pub open spec fn fields(c: Cursor) -> (IndexBufferView, Cursor) {
        let (is_16_bit, c1) = c.bool();
        let (data, c2) = c1.blob();
        (IndexBufferView { is_16_bit, data }, c2)
    }

    /// The value at `c`: nothing from a failed cursor.
    pub open spec fn layout(c: Cursor) -> (IndexBufferView, Cursor) {
        if c.err is Some {
            (arbitrary(), c)
        } else {
            Self::fields(c)
        }
    }

    /// Reads one `IndexBuffer`.
    pub fn read(reader: &mut Reader) -> (res: Result<Self, DecodeError>)
        ensures
            follows(res, final(reader)@, Self::layout(old(reader)@)),
    {
        proof {
            reveal(IndexBuffer::fields);
        }
        let is_16_bit = reader.read_bool()?;
        let data = reader.read_blob()?;
        Ok(IndexBuffer { is_16_bit, data })
    }
}

impl Decode for IndexBuffer {
    open spec fn wire(c: Cursor) -> (IndexBufferView, Cursor) {
        IndexBuffer::layout(c)
    }

    proof fn lemma_wire_failed(c: Cursor) {
    }

    fn decode(r: &mut Reader) -> (res: Result<Self, DecodeError>) {
        IndexBuffer::read(r)
    }
}

/// One draw call of a mesh. `shared_content_id` refers to the material in
/// the shared pool, counted from 1; 0 stands for none.
#[derive(Clone, Copy, PartialEq, Eq, Structural, Debug)]
pub struct MeshPart {
    pub stream_offset: u32,
    pub base_vertex: u32,
    pub vertex_count: u32,
    pub start_index: u32,
    pub primitive_count: u32,
    pub vertex_decl_index: u32,
    pub tag: u8,
    pub shared_content_id: i32,
}

impl DeepView for MeshPart {
    type V = MeshPart;

    open spec fn deep_view(&self) -> MeshPart {
        *self
    }
}

impl MeshPart {
    /// The fields on the wire, one behind the other.
    #[verifier::opaque]
    pub open spec fn fields(c: Cursor) -> (MeshPart, Cursor) {
        let (stream_offset, c1) = c.u32();
        let (base_vertex, c2) = c1.u32();
        let (vertex_count, c3) = c2.u32();
        let (start_index, c4) = c3.u32();
        let (primitive_count, c5) = c4.u32();
        let (vertex_decl_index, c6) = c5.u32();
        let (tag, c7) = c6.u8();
        let (shared_content_id, c8) = c7.varint();
        (MeshPart {
            stream_offset,
            base_vertex,
            vertex_count,
            start_index,
            primitive_count,
            vertex_decl_index,
            tag,
            shared_content_id,
        }, c8)
    }

    /// The value at `c`: nothing from a failed cursor.
    pub open spec fn layout(c: Cursor) -> (MeshPart, Cursor) {
        if c.err is Some {
            (arbitrary(), c)
        } else {
            Self::fields(c)
        }
    }

    /// Reads one `MeshPart`.
    pub fn read(reader: &mut Reader) -> (res: Result<Self, DecodeError>)
        ensures
            follows(res, final(reader)@, Self::layout(old(reader)@)),
    {
        proof {
            reveal(MeshPart::fields);
        }
        let stream_offset = reader.read_u32()?;
        let base_vertex = reader.read_u32()?;
        let vertex_count = reader.read_u32()?;
        let start_index = reader.read_u32()?;
        let primitive_count = reader.read_u32()?;
        let vertex_decl_index = reader.read_u32()?;
        let tag = reader.read_u8()?;
        let shared_content_id = reader.read_7bit_encoded_i32()?;
        Ok(MeshPart {
            stream_offset,
            base_vertex,
            vertex_count,
            start_index,
            primitive_count,
            vertex_decl_index,
            tag,
            shared_content_id,
        })
    }
}

impl Decode for MeshPart {
    open spec fn wire(c: Cursor) -> (MeshPart, Cursor) {
        MeshPart::layout(c)
    }

    proof fn lemma_wire_failed(c: Cursor) {
    }

    fn decode(r: &mut Reader) -> (res: Result<Self, DecodeError>) {
        MeshPart::read(r)
    }
}

/// A sphere around a mesh.
#[derive(Clone, Copy, PartialEq, Eq, Structural, Debug)]
pub struct BoundingSphere {
    pub center: Vector3,
    pub radius: Single,
}

impl DeepView for BoundingSphere {
    type V = BoundingSphere;

    open spec fn deep_view(&self) -> BoundingSphere {
        *self
    }
}

impl BoundingSphere {
    /// The fields on the wire, one behind the other.
    #[verifier::opaque]
    pub open spec fn fields(c: Cursor) -> (BoundingSphere, Cursor) {
        let (center, c1) = Vector3::layout(c);
        let (radius, c2) = Single::layout(c1);
        (BoundingSphere { center, radius }, c2)
    }

    /// The value at `c`: nothing from a failed cursor.
    pub open spec fn layout(c: Cursor) -> (BoundingSphere, Cursor) {
        if c.err is Some {
            (arbitrary(), c)
        } else {
            Self::fields(c)
        }
    }

    /// Reads one `BoundingSphere`.
    pub fn read(reader: &mut Reader) -> (res: Result<Self, DecodeError>)
        ensures
            follows(res, final(reader)@, Self::layout(old(reader)@)),
    {
        proof {
            reveal(BoundingSphere::fields);
        }
        let center = Vector3::read(reader)?;
        let radius = Single::read(reader)?;
        Ok(BoundingSphere { center, radius })
    }
}

impl Decode for BoundingSphere {
    open spec fn wire(c: Cursor) -> (BoundingSphere, Cursor) {
        BoundingSphere::layout(c)
    }

    proof fn lemma_wire_failed(c: Cursor) {
    }

    fn decode(r: &mut Reader) -> (res: Result<Self, DecodeError>) {
        BoundingSphere::read(r)
    }
}

/// A bone: its name and its transform relative to its parent.
#[derive(Clone, PartialEq, Eq, Debug)]
pub struct Bone {
    pub name: String,
    pub transform: Matrix4,
}

/// `Bone` as the format states it.
pub struct BoneView {
    pub name: Seq<char>,
    pub transform: Seq<Single>,
}

impl DeepView for Bone {
    type V = BoneView;

    open spec fn deep_view(&self) -> BoneView {
        BoneView {
            name: self.name.deep_view(),
            transform: self.transform.deep_view(),
        }
    }
}

/// The place of a bone in the hierarchy. The references count the bones of
/// the model from 1; a parent of 0 marks the root.
#[derive(Clone, PartialEq, Eq, Debug)]
pub struct BoneHierarchy {
    pub parent_ref: u32,
    pub children_refs: Vec<u32>,
}

/// `BoneHierarchy` as the format states it.
pub struct BoneHierarchyView {
    pub parent_ref: u32,
    pub children_refs: Seq<u32>,
}

impl DeepView for BoneHierarchy {
    type V = BoneHierarchyView;

    open spec fn deep_view(&self) -> BoneHierarchyView {
        BoneHierarchyView {
            parent_ref: self.parent_ref,
            children_refs: self.children_refs.deep_view(),
        }
    }
}

/// A mesh: its buffers and the parts that draw from them.
#[derive(Clone, PartialEq, Eq, Debug)]
pub struct Mesh {
    pub name: String,
    pub parent_bone_ref: u32,
    pub bounds: BoundingSphere,
    pub vertex_buffer: VertexBuffer,
    pub index_buffer: IndexBuffer,
    pub parts: Vec<MeshPart>,
    pub tag: u8,
}

/// `Mesh` as the format states it.
pub struct MeshView {
    pub name: Seq<char>,
    pub parent_bone_ref: u32,
    pub bounds: BoundingSphere,
    pub vertex_buffer: VertexBufferView,
    pub index_buffer: IndexBufferView,
    pub parts: Seq<MeshPart>,
    pub tag: u8,
}

impl DeepView for Mesh {
    type V = MeshView;

    open spec fn deep_view(&self) -> MeshView {
        MeshView {
            name: self.name.deep_view(),
            parent_bone_ref: self.parent_bone_ref,
            bounds: self.bounds,
            vertex_buffer: self.vertex_buffer.deep_view(),
            index_buffer: self.index_buffer.deep_view(),
            parts: self.parts.deep_view(),
            tag: self.tag,
        }
    }
}

/// A model.
#[derive(Clone, PartialEq, Eq, Debug)]
pub struct Model {
    pub bones: Vec<Bone>,
    pub bones_hierarchy: Vec<BoneHierarchy>,
    pub vertex_decls: Vec<VertexDeclaration>,
    pub meshes: Vec<Mesh>,
    pub root_bone_ref: u32,
    pub tag: u8,
}

/// `Model` as the format states it.
pub struct ModelView {
    pub bones: Seq<BoneView>,
    pub bones_hierarchy: Seq<BoneHierarchyView>,
    pub vertex_decls: Seq<VertexDeclarationView>,
    pub meshes: Seq<MeshView>,
    pub root_bone_ref: u32,
    pub tag: u8,
}

impl DeepView for Model {
    type V = ModelView;

    open spec fn deep_view(&self) -> ModelView {
        ModelView {
            bones: self.bones.deep_view(),
            bones_hierarchy: self.bones_hierarchy.deep_view(),
            vertex_decls: self.vertex_decls.deep_view(),
            meshes: self.meshes.deep_view(),
            root_bone_ref: self.root_bone_ref,
            tag: self.tag,
        }
    }
}

} // verus!
