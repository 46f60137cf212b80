//! Vertex declarations in the terms of the scene: what each element means
//! there, of what type it is, and how far the vertices lie apart.
use vstd::prelude::*;
use vstd::slice::slice_subrange;
use crate::content::model::{ElementFormat, ElementUsage, VertexDeclaration, VertexElement};
use crate::content::vector3::Vector3;
use crate::export::bounds::position_at;
use crate::single::Single;
use crate::wire::{le_bytes4, le_u32, push_le_u32};
use crate::xnb::lemma_le_at;
use crate::export::bounds::Bounds;
use crate::export::scene::{Accessor, ComponentType, ElementType, Extent, Semantic};
use crate::export::ExportError;

verus! {

impl ElementFormat {
    /// The number of bytes of an element of this format.
    pub open spec fn width(self) -> int {
        match self {
            ElementFormat::Single => 4,
            ElementFormat::Vector2 => 8,
            ElementFormat::Vector3 => 12,
            ElementFormat::Vector4 => 16,
            ElementFormat::Color => 4,
            ElementFormat::Byte4 => 4,
            ElementFormat::Short2 => 4,
            ElementFormat::Short4 => 8,
            ElementFormat::RGBA32 => 4,
            ElementFormat::NormalizedShort2 => 4,
            ElementFormat::NormalizedShort4 => 8,
            ElementFormat::RGB32 => 4,
            ElementFormat::RGBA64 => 8,
            ElementFormat::UInt40 => 4,
            ElementFormat::Normalized40 => 4,
            ElementFormat::HalfVector2 => 4,
            ElementFormat::HalfVector4 => 8,
        }
    }

    /// The number of bytes of an element of this format.
    pub fn size(&self) -> (n: usize)
        ensures
            n == self.width(),
    {
        match self {
            ElementFormat::Single => 4,
            ElementFormat::Vector2 => 8,
            ElementFormat::Vector3 => 12,
            ElementFormat::Vector4 => 16,
            ElementFormat::Color => 4,
            ElementFormat::Byte4 => 4,
            ElementFormat::Short2 => 4,
            ElementFormat::Short4 => 8,
            ElementFormat::RGBA32 => 4,
            ElementFormat::NormalizedShort2 => 4,
            ElementFormat::NormalizedShort4 => 8,
            ElementFormat::RGB32 => 4,
            ElementFormat::RGBA64 => 8,
            ElementFormat::UInt40 => 4,
            ElementFormat::Normalized40 => 4,
            ElementFormat::HalfVector2 => 4,
            ElementFormat::HalfVector4 => 8,
        }
    }

    /// The type of the components of this format in the scene, for the
    /// formats that the scene has a type for.
    pub open spec fn component(self) -> Option<ComponentType> {
        match self {
            ElementFormat::Single => Some(ComponentType::Float),
            ElementFormat::Vector2 => Some(ComponentType::Float),
            ElementFormat::Vector3 => Some(ComponentType::Float),
            ElementFormat::Vector4 => Some(ComponentType::Float),
            ElementFormat::Color => Some(ComponentType::U8),
            ElementFormat::Byte4 => Some(ComponentType::U8),
            _ => None,
        }
    }

    /// The shape of this format in the scene, for the formats that the
    /// scene has a type for.
    pub open spec fn shape(self) -> Option<ElementType> {
        match self {
            ElementFormat::Single => Some(ElementType::Scalar),
            ElementFormat::Vector2 => Some(ElementType::Vec2),
            ElementFormat::Vector3 => Some(ElementType::Vec3),
            ElementFormat::Vector4 => Some(ElementType::Vec4),
            ElementFormat::Color => Some(ElementType::Vec4),
            ElementFormat::Byte4 => Some(ElementType::Vec4),
            _ => None,
        }
    }

    /// The type of the components of this format in the scene.
    pub fn component_type(&self) -> (c: Option<ComponentType>)
        ensures
            c == self.component(),
    {
        match self {
            ElementFormat::Single => Some(ComponentType::Float),
            ElementFormat::Vector2 => Some(ComponentType::Float),
            ElementFormat::Vector3 => Some(ComponentType::Float),
            ElementFormat::Vector4 => Some(ComponentType::Float),
            ElementFormat::Color => Some(ComponentType::U8),
            ElementFormat::Byte4 => Some(ComponentType::U8),
            _ => None,
        }
    }

    /// The shape of this format in the scene.
    pub fn element_type(&self) -> (t: Option<ElementType>)
        ensures
            t == self.shape(),
    {
        match self {
            ElementFormat::Single => Some(ElementType::Scalar),
            ElementFormat::Vector2 => Some(ElementType::Vec2),
            ElementFormat::Vector3 => Some(ElementType::Vec3),
            ElementFormat::Vector4 => Some(ElementType::Vec4),
            ElementFormat::Color => Some(ElementType::Vec4),
            ElementFormat::Byte4 => Some(ElementType::Vec4),
            _ => None,
        }
    }
}

/// What an element of this usage means in the scene. A binormal means
/// nothing there and is left out; the usages that no vertex of a model has
/// are `None`.
pub open spec fn meaning(usage: ElementUsage, usage_index: u8) -> Option<Option<Semantic>> {
    match usage {
        ElementUsage::Position => Some(Some(Semantic::Positions)),
        ElementUsage::Normal => Some(Some(Semantic::Normals)),
        ElementUsage::Tangent => Some(Some(Semantic::Tangents)),
        ElementUsage::Color => Some(Some(Semantic::Colors(usage_index as u32))),
        ElementUsage::TextureCoordinate => Some(Some(Semantic::TexCoords(usage_index as u32))),
        ElementUsage::BlendWeight => Some(Some(Semantic::Weights(usage_index as u32))),
        ElementUsage::BlendIndices => Some(Some(Semantic::Joints(usage_index as u32))),
        ElementUsage::Binormal => Some(None),
        _ => None,
    }
}

impl VertexElement {
    /// What the element means in the scene.
    pub fn semantic(&self) -> (m: Option<Option<Semantic>>)
        ensures
            m == meaning(self.usage, self.usage_index),
    {
        match self.usage {
            ElementUsage::Position => Some(Some(Semantic::Positions)),
            ElementUsage::Normal => Some(Some(Semantic::Normals)),
            ElementUsage::Tangent => Some(Some(Semantic::Tangents)),
            ElementUsage::Color => Some(Some(Semantic::Colors(self.usage_index as u32))),
            ElementUsage::TextureCoordinate => Some(Some(Semantic::TexCoords(self.usage_index as u32))),
            ElementUsage::BlendWeight => Some(Some(Semantic::Weights(self.usage_index as u32))),
            ElementUsage::BlendIndices => Some(Some(Semantic::Joints(self.usage_index as u32))),
            ElementUsage::Binormal => Some(None),
            _ => None,
        }
    }
}

/// The size in bytes of a vertex whose elements are `elements`: the
/// greatest end of any of the first `k`.
pub open spec fn source_stride(elements: Seq<VertexElement>, k: nat) -> int
    decreases k,
{
    if k == 0 {
        0
    } else {
        let rest = source_stride(elements, (k - 1) as nat);
        let end = elements[k - 1].offset + elements[k - 1].format.width();
        if end > rest {
            end
        } else {
            rest
        }
    }
}

impl VertexDeclaration {
    /// The size in bytes of a vertex: the greatest end of any element.
    pub fn stride(&self) -> (n: usize)
        ensures
            n == source_stride(self.elements@, self.elements@.len()),
            n <= 0x1_0000 + 16,
    {
        let mut end: usize = 0;
        let mut i: usize = 0;
        while i < self.elements.len()
            invariant
                i <= self.elements@.len(),
                end == source_stride(self.elements@, i as nat),
                end <= 0x1_0000 + 16,
            decreases self.elements@.len() - i,
        {
            let e = self.elements[i].offset as usize + self.elements[i].format.size();
            if e > end {
                end = e;
            }
            i = i + 1;
        }
        end
    }
}

/// A vertex element in the terms of the scene.
#[derive(Debug, Clone, Copy, PartialEq, Eq, Structural)]
pub struct TransformedVertexElement {
    pub semantic: Semantic,
    pub element_type: ElementType,
    pub component_type: ComponentType,
    pub offset: usize,
    pub normalized: bool,
}

impl TransformedVertexElement {
    /// The number of bytes of the element.
    pub open spec fn width(self) -> int {
        self.element_type.arity() * self.component_type.width()
    }

    /// The number of bytes of the element.
    pub fn size(&self) -> (n: usize)
        ensures
            n == self.width(),
            n <= 64,
    {
        let m = self.element_type.multiplicity();
        let c = self.component_type.size();
        assert(m * c <= 64) by (nonlinear_arith)
            requires
                m <= 16,
                c <= 4,
        ;
        m * c
    }

    /// The accessor of this element over `num_vertices` vertices in the
    /// view at `view`. Only positions declare their bounds.
    pub fn accessor(&self, view: usize, num_vertices: usize, bounds: Bounds) -> (a: Accessor)
        ensures
            a == self.accessor_of(view, num_vertices, bounds),
    {
        let extent = match self.semantic {
            Semantic::Positions => Extent::Positions(bounds),
            _ => Extent::Unstated,
        };
        Accessor {
            view,
            byte_offset: self.offset,
            count: num_vertices,
            component_type: self.component_type,
            element_type: self.element_type,
            normalized: self.normalized,
            extent,
        }
    }

    /// The accessor of this element over `num_vertices` vertices in the
    /// view at `view`.
    pub open spec fn accessor_of(self, view: usize, num_vertices: usize, bounds: Bounds) -> Accessor {
        Accessor {
            view,
            byte_offset: self.offset,
            count: num_vertices,
            component_type: self.component_type,
            element_type: self.element_type,
            normalized: self.normalized,
            extent: if self.semantic == Semantic::Positions {
                Extent::Positions(bounds)
            } else {
                Extent::Unstated
            },
        }
    }
}

/// The element of the scene that `e` becomes, `None` for a binormal, or
/// why it becomes none. A tangent must be three numbers and gains a
/// fourth. `offset` is
/// where the element lies in the vertices of the scene.
pub open spec fn transformed_element(e: VertexElement, offset: usize) -> Result<
    Option<TransformedVertexElement>,
    ExportError,
> {
    match meaning(e.usage, e.usage_index) {
        None => Err(ExportError::UnsupportedUsage),
        Some(None) => Ok(None),
        Some(Some(semantic)) => match (e.format.shape(), e.format.component()) {
            (Some(shape), Some(component)) => if semantic == Semantic::Tangents && e.format
                != ElementFormat::Vector3 {
                Err(ExportError::UnsupportedFormat)
            } else {
                Ok(
                Some(
                    TransformedVertexElement {
                        semantic,
                        element_type: if semantic == Semantic::Tangents {
                            ElementType::Vec4
                        } else {
                            shape
                        },
                        component_type: component,
                        offset,
                        normalized: e.format == ElementFormat::Color,
                    },
                ),
            )
            },
            _ => Err(ExportError::UnsupportedFormat),
        },
    }
}

/// Whether any of the elements is a tangent.
pub open spec fn has_tangent(elements: Seq<VertexElement>) -> bool {
    exists|i: int| 0 <= i < elements.len() && (#[trigger] elements[i]).usage == ElementUsage::Tangent
}

/// The first `k` elements in the terms of the scene, and the size of the
/// vertex that they make up when they are laid one behind the other.
/// Where no element is a tangent, every element stays where it was: the
/// vertices of the scene are then those of the model. With a tangent the
/// vertices are written anew, and the elements lie packed in their order.
pub open spec fn transformed(elements: Seq<VertexElement>, packed: bool, k: nat) -> Result<
    (Seq<TransformedVertexElement>, int),
    ExportError,
>
    decreases k,
{
    if k == 0 {
        Ok((Seq::empty(), 0))
    } else {
        match transformed(elements, packed, (k - 1) as nat) {
            Err(e) => Err(e),
            Ok((done, end)) => {
                let e = elements[k - 1];
                let offset = if packed {
                    end as usize
                } else {
                    e.offset as usize
                };
                match transformed_element(e, offset) {
                    Err(err) => Err(err),
                    Ok(None) => Ok((done, end)),
                    Ok(Some(t)) => if end + t.width() > usize::MAX {
                        Err(ExportError::TooLarge)
                    } else {
                        Ok((done.push(t), end + t.width()))
                    },
                }
            },
        }
    }
}

/// The size in bytes of a vertex of the scene: the greatest end of any of
/// the first `k` elements.
pub open spec fn stride_of(elements: Seq<TransformedVertexElement>, k: nat) -> int
    decreases k,
{
    if k == 0 {
        0
    } else {
        let rest = stride_of(elements, (k - 1) as nat);
        let end = elements[k - 1].offset + elements[k - 1].width();
        if end > rest {
            end
        } else {
            rest
        }
    }
}

/// A vertex declaration in the terms of the scene.
#[derive(Debug, Clone, PartialEq, Eq)]
pub struct TransformedVertexDeclaration {
    pub elements: Vec<TransformedVertexElement>,
}

impl TransformedVertexDeclaration {
    /// The size in bytes of a vertex: the greatest end of any element, or
    /// `None` where that is more than the machine can count.
    pub fn stride(&self) -> (n: Option<usize>)
        ensures
            match n {
                Some(n) => n == stride_of(self.elements@, self.elements@.len()),
                None => stride_of(self.elements@, self.elements@.len()) > usize::MAX,
            },
    {
        let mut end: usize = 0;
        let mut i: usize = 0;
        while i < self.elements.len()
            invariant
                i <= self.elements@.len(),
                end == stride_of(self.elements@, i as nat),
            decreases self.elements@.len() - i,
        {
            let size = self.elements[i].size();
            if self.elements[i].offset > usize::MAX - size {
                proof {
                    lemma_stride_grows(self.elements@, (i + 1) as nat, self.elements@.len());
                }
                return None;
            }
            let e = self.elements[i].offset + size;
            if e > end {
                end = e;
            }
            i = i + 1;
        }
        Some(end)
    }

    /// The element that holds the positions, if there is one: the first of
    /// that meaning.
    pub fn position(&self) -> (at: Option<usize>)
        ensures
            match at {
                Some(i) => i < self.elements@.len() && self.elements@[i as int].semantic == Semantic::Positions
                    && forall|j: int| 0 <= j < i ==> self.elements@[j].semantic != Semantic::Positions,
                None => forall|j: int|
                    0 <= j < self.elements@.len() ==> self.elements@[j].semantic != Semantic::Positions,
            },
    {
        let mut i: usize = 0;
        while i < self.elements.len()
            invariant
                i <= self.elements@.len(),
                forall|j: int| 0 <= j < i ==> self.elements@[j].semantic != Semantic::Positions,
            decreases self.elements@.len() - i,
        {
            match self.elements[i].semantic {
                Semantic::Positions => {
                    return Some(i);
                },
                _ => {},
            }
            i = i + 1;
        }
        None
    }

    /// The accessors of the elements, one for each and in their order.
    pub fn accessors(&self, view: usize, num_vertices: usize, bounds: Bounds) -> (out: Vec<Accessor>)
        ensures
            out@.len() == self.elements@.len(),
            forall|i: int|
                0 <= i < out@.len() ==> out@[i] == self.elements@[i].accessor_of(view, num_vertices, bounds),
    {
        let mut out: Vec<Accessor> = Vec::new();
        let mut i: usize = 0;
        while i < self.elements.len()
            invariant
                i <= self.elements@.len(),
                out@.len() == i,
                forall|j: int| 0 <= j < i ==> out@[j] == self.elements@[j].accessor_of(view, num_vertices, bounds),
            decreases self.elements@.len() - i,
        {
            out.push(self.elements[i].accessor(view, num_vertices, bounds));
            i = i + 1;
        }
        out
    }

    /// Puts a vertex declaration in the terms of the scene.
    pub fn from_declaration(decl: &VertexDeclaration) -> (res: Result<Self, ExportError>)
        ensures
            res matches Err(e) ==> e !is UnknownChannelTarget,
            match res {
                Ok(t) => transformed(decl.elements@, has_tangent(decl.elements@), decl.elements@.len())
                    matches Ok((elements, _)) && t.elements@ == elements,
                Err(e) => transformed(decl.elements@, has_tangent(decl.elements@), decl.elements@.len())
                    == Err::<(Seq<TransformedVertexElement>, int), ExportError>(e),
            },
    {
        let packed = decl.tangent().is_some();
        let mut elements: Vec<TransformedVertexElement> = Vec::new();
        let mut end: usize = 0;
        let mut i: usize = 0;
        while i < decl.elements.len()
            invariant
                i <= decl.elements@.len(),
                packed == has_tangent(decl.elements@),
                transformed(decl.elements@, packed, i as nat) == Ok::<
                    (Seq<TransformedVertexElement>, int),
                    ExportError,
                >((elements@, end as int)),
            decreases decl.elements@.len() - i,
        {
            let e = &decl.elements[i];
            let semantic = match e.semantic() {
                None => {
                    proof {
                        lemma_transformed_stays(decl.elements@, packed, (i + 1) as nat, decl.elements@.len());
                    }
                    return Err(ExportError::UnsupportedUsage);
                },
                Some(s) => s,
            };
            match semantic {
                None => {},
                Some(semantic) => {
                    let (shape, component) = match (e.format.element_type(), e.format.component_type()) {
                        (Some(shape), Some(component)) => (shape, component),
                        _ => {
                            proof {
                                lemma_transformed_stays(
                                    decl.elements@,
                                    packed,
                                    (i + 1) as nat,
                                    decl.elements@.len(),
                                );
                            }
                            return Err(ExportError::UnsupportedFormat);
                        },
                    };
                    let element_type = match semantic {
                        Semantic::Tangents => {
                            match e.format {
                                ElementFormat::Vector3 => {},
                                _ => {
                                    proof {
                                        lemma_transformed_stays(
                                            decl.elements@,
                                            packed,
                                            (i + 1) as nat,
                                            decl.elements@.len(),
                                        );
                                    }
                                    return Err(ExportError::UnsupportedFormat);
                                },
                            }
                            ElementType::Vec4
                        },
                        _ => shape,
                    };
                    let normalized = match e.format {
                        ElementFormat::Color => true,
                        _ => false,
                    };
                    let offset = if packed {
                        end
                    } else {
                        e.offset as usize
                    };
                    let t = TransformedVertexElement {
                        semantic,
                        element_type,
                        component_type: component,
                        offset,
                        normalized,
                    };
                    let size = t.size();
                    if end > usize::MAX - size {
                        proof {
                            lemma_transformed_stays(
                                decl.elements@,
                                packed,
                                (i + 1) as nat,
                                decl.elements@.len(),
                            );
                        }
                        return Err(ExportError::TooLarge);
                    }
                    elements.push(t);
                    end = end + size;
                },
            }
            i = i + 1;
        }
        Ok(TransformedVertexDeclaration { elements })
    }
}

impl VertexDeclaration {
    /// The element that is a tangent, if there is one: the first of that
    /// usage.
    pub fn tangent(&self) -> (at: Option<usize>)
        ensures
            at is Some == has_tangent(self.elements@),
            at matches Some(i) ==> i < self.elements@.len() && self.elements@[i as int].usage
                == ElementUsage::Tangent,
    {
        let mut i: usize = 0;
        while i < self.elements.len()
            invariant
                i <= self.elements@.len(),
                forall|j: int| 0 <= j < i ==> self.elements@[j].usage != ElementUsage::Tangent,
            decreases self.elements@.len() - i,
        {
            match self.elements[i].usage {
                ElementUsage::Tangent => {
                    return Some(i);
                },
                _ => {},
            }
            i = i + 1;
        }
        None
    }
}

/// Once an element has been refused, the declaration has been.
pub proof fn lemma_transformed_stays(elements: Seq<VertexElement>, packed: bool, k: nat, n: nat)
    requires
        k <= n,
        transformed(elements, packed, k) is Err,
    ensures
        transformed(elements, packed, n) == transformed(elements, packed, k),
    decreases n - k,
{
    if k < n {
        lemma_transformed_stays(elements, packed, k, (n - 1) as nat);
    }
}

/// The size of a vertex does not shrink as elements are added.
pub proof fn lemma_stride_grows(elements: Seq<TransformedVertexElement>, k: nat, n: nat)
    requires
        k <= n,
    ensures
        stride_of(elements, k) <= stride_of(elements, n),
    decreases n - k,
{
    if k < n {
        lemma_stride_grows(elements, k, (n - 1) as nat);
    }
}

/// The normal, the tangent and the binormal of one vertex. Their triple
/// product decides the handedness of the tangent.
#[derive(Debug, Clone, Copy, PartialEq, Eq, Structural)]
pub struct TangentFrame {
    pub normal: Vector3,
    pub tangent: Vector3,
    pub binormal: Vector3,
}

/// Where the normal, the tangent and the binormal lie in a vertex.
#[derive(Debug, Clone, Copy, PartialEq, Eq, Structural)]
pub struct FrameOffsets {
    pub normal: usize,
    pub tangent: usize,
    pub binormal: usize,
}

/// The place of the first element of `usage` at or behind `from`, or the
/// number of elements where there is none.
pub open spec fn usage_from(elements: Seq<VertexElement>, usage: ElementUsage, from: int) -> int
    decreases elements.len() - from,
{
    if from < 0 || from >= elements.len() {
        elements.len() as int
    } else if elements[from].usage == usage {
        from
    } else {
        usage_from(elements, usage, from + 1)
    }
}

/// Where the frame lies in a vertex of these elements: at the first
/// element of each of the three usages, which must all be there and be
/// three numbers each.
pub open spec fn frame_offsets(elements: Seq<VertexElement>) -> Option<FrameOffsets> {
    let n = usage_from(elements, ElementUsage::Normal, 0);
    let t = usage_from(elements, ElementUsage::Tangent, 0);
    let b = usage_from(elements, ElementUsage::Binormal, 0);
    if 0 <= n < elements.len() && 0 <= t < elements.len() && 0 <= b < elements.len() && elements[n].format
        == ElementFormat::Vector3 && elements[t].format == ElementFormat::Vector3 && elements[b].format
        == ElementFormat::Vector3 {
        Some(
            FrameOffsets {
                normal: elements[n].offset as usize,
                tangent: elements[t].offset as usize,
                binormal: elements[b].offset as usize,
            },
        )
    } else {
        None
    }
}

impl VertexDeclaration {
    /// The first element of a usage.
    pub fn find_usage(&self, usage: ElementUsage) -> (at: Option<usize>)
        ensures
            match at {
                Some(i) => i == usage_from(self.elements@, usage, 0) && i < self.elements@.len(),
                None => usage_from(self.elements@, usage, 0) == self.elements@.len(),
            },
    {
        let mut i: usize = 0;
        while i < self.elements.len()
            invariant
                i <= self.elements@.len(),
                usage_from(self.elements@, usage, 0) == usage_from(self.elements@, usage, i as int),
            decreases self.elements@.len() - i,
        {
            if self.elements[i].usage == usage {
                return Some(i);
            }
            i = i + 1;
        }
        None
    }

    /// Where the normal, the tangent and the binormal lie in a vertex.
    pub fn frame(&self) -> (f: Option<FrameOffsets>)
        ensures
            f == frame_offsets(self.elements@),
            f matches Some(o) ==> o.normal + 12 <= source_stride(self.elements@, self.elements@.len())
                && o.tangent + 12 <= source_stride(self.elements@, self.elements@.len()) && o.binormal + 12
                <= source_stride(self.elements@, self.elements@.len()),
    {
        let n = match self.find_usage(ElementUsage::Normal) {
            Some(n) => n,
            None => {
                return None;
            },
        };
        let t = match self.find_usage(ElementUsage::Tangent) {
            Some(t) => t,
            None => {
                return None;
            },
        };
        let b = match self.find_usage(ElementUsage::Binormal) {
            Some(b) => b,
            None => {
                return None;
            },
        };
        let three = match (self.elements[n].format, self.elements[t].format, self.elements[b].format) {
            (ElementFormat::Vector3, ElementFormat::Vector3, ElementFormat::Vector3) => true,
            _ => false,
        };
        if !three {
            return None;
        }
        proof {
            lemma_element_fits(self.elements@, n as int);
            lemma_element_fits(self.elements@, t as int);
            lemma_element_fits(self.elements@, b as int);
        }
        Some(
            FrameOffsets {
                normal: self.elements[n].offset as usize,
                tangent: self.elements[t].offset as usize,
                binormal: self.elements[b].offset as usize,
            },
        )
    }
}

/// Every element ends within the vertex.
pub proof fn lemma_element_fits(elements: Seq<VertexElement>, i: int)
    requires
        0 <= i < elements.len(),
    ensures
        elements[i].offset + elements[i].format.width() <= source_stride(elements, elements.len()),
{
    lemma_source_stride_grows(elements, (i + 1) as nat, elements.len());
}

pub proof fn lemma_source_stride_grows(elements: Seq<VertexElement>, k: nat, n: nat)
    requires
        k <= n,
    ensures
        source_stride(elements, k) <= source_stride(elements, n),
    decreases n - k,
{
    if k < n {
        lemma_source_stride_grows(elements, k, (n - 1) as nat);
    }
}

/// The frame of the vertex that starts at `at`.
pub open spec fn frame_at(data: Seq<u8>, at: int, offsets: FrameOffsets) -> TangentFrame {
    TangentFrame {
        normal: position_at(data, at + offsets.normal),
        tangent: position_at(data, at + offsets.tangent),
        binormal: position_at(data, at + offsets.binormal),
    }
}

/// Reads the three numbers that stand at `at`.
fn read_vector(data: &[u8], at: usize) -> (v: Vector3)
    requires
        at + 12 <= data@.len(),
    ensures
        v == position_at(data@, at as int),
{
    let len = data.len();
    proof {
        lemma_le_at(data@, at as int);
        lemma_le_at(data@, at + 4);
        lemma_le_at(data@, at + 8);
    }
    Vector3 {
        x: Single { bits: le_u32(slice_subrange(data, at, at + 4)) },
        y: Single { bits: le_u32(slice_subrange(data, at + 4, at + 8)) },
        z: Single { bits: le_u32(slice_subrange(data, at + 8, at + 12)) },
    }
}

/// The frames of the first `k` vertices of `data`.
pub open spec fn frames_of(data: Seq<u8>, stride: int, offsets: FrameOffsets, k: nat) -> Seq<TangentFrame>
    decreases k,
{
    if k == 0 {
        Seq::empty()
    } else {
        frames_of(data, stride, offsets, (k - 1) as nat).push(frame_at(data, (k - 1) * stride, offsets))
    }
}

/// Why the frames of `length` bytes of vertices cannot be read: the
/// declaration lacks a normal, a tangent or a binormal, or the bytes are
/// no whole vertices. `None` where they can.
pub open spec fn frames_error(length: int, elements: Seq<VertexElement>) -> Option<ExportError> {
    let stride = source_stride(elements, elements.len());
    if frame_offsets(elements) is None {
        Some(ExportError::MissingTangentFrame)
    } else if stride == 0 || length % stride != 0 {
        Some(ExportError::PartOutOfRange)
    } else {
        None
    }
}

/// Appends the frames of the vertices of `data` to `frames`. The data
/// must be whole vertices of a declaration with a normal, a tangent and a
/// binormal.
pub fn tangent_frames(data: &[u8], decl: &VertexDeclaration, frames: &mut Vec<TangentFrame>) -> (res: Result<
    (),
    ExportError,
>)
    ensures
        match res {
            Ok(()) => {
                let stride = source_stride(decl.elements@, decl.elements@.len());
                &&& frames_error(data@.len() as int, decl.elements@) is None
                &&& stride > 0
                &&& data@.len() % (stride as nat) == 0
                &&& frame_offsets(decl.elements@) matches Some(offsets)
                &&& final(frames)@ == old(frames)@ + frames_of(
                    data@,
                    stride,
                    offsets,
                    (data@.len() / (stride as nat)) as nat,
                )
            },
            Err(e) => final(frames)@ == old(frames)@ && frames_error(data@.len() as int, decl.elements@) == Some(e),
        },
{
    let stride = decl.stride();
    let offsets = match decl.frame() {
        Some(offsets) => offsets,
        None => {
            return Err(ExportError::MissingTangentFrame);
        },
    };
    if stride == 0 || data.len() % stride != 0 {
        return Err(ExportError::PartOutOfRange);
    }
    let n = data.len() / stride;
    let ghost start = frames@;
    let mut v: usize = 0;
    assert(start + frames_of(data@, stride as int, offsets, 0) =~= start);
    while v < n
        invariant
            v <= n,
            stride > 0,
            n == data@.len() / (stride as nat),
            data@.len() % (stride as nat) == 0,
            offsets.normal + 12 <= stride,
            offsets.tangent + 12 <= stride,
            offsets.binormal + 12 <= stride,
            start == old(frames)@,
            frames@ == start + frames_of(data@, stride as int, offsets, v as nat),
        decreases n - v,
    {
        assert((v + 1) * stride <= data@.len()) by (nonlinear_arith)
            requires
                v < n,
                n == data@.len() / (stride as nat),
                stride > 0,
        ;
        assert(v * stride + stride == (v + 1) * stride) by (nonlinear_arith);
        let len = data.len();
        let at = v * stride;
        let frame = TangentFrame {
            normal: read_vector(data, at + offsets.normal),
            tangent: read_vector(data, at + offsets.tangent),
            binormal: read_vector(data, at + offsets.binormal),
        };
        frames.push(frame);
        assert(frames@ =~= start + frames_of(data@, stride as int, offsets, (v + 1) as nat));
        v = v + 1;
    }
    Ok(())
}

/// What an element becomes in a vertex of the scene: a tangent gains the
/// handedness `w` as its fourth number, a binormal is left out, and every
/// other element stays as it is.
pub open spec fn element_out(vertex: Seq<u8>, e: VertexElement, w: Single) -> Seq<u8> {
    if e.usage == ElementUsage::Tangent {
        vertex.subrange(e.offset as int, e.offset + 12) + le_bytes4(w.bits as nat)
    } else if e.usage == ElementUsage::Binormal {
        Seq::empty()
    } else {
        vertex.subrange(e.offset as int, e.offset + e.format.width())
    }
}

/// What the first `k` elements of a vertex become, one behind the other.
pub open spec fn vertex_out(vertex: Seq<u8>, elements: Seq<VertexElement>, w: Single, k: nat) -> Seq<u8>
    decreases k,
{
    if k == 0 {
        Seq::empty()
    } else {
        vertex_out(vertex, elements, w, (k - 1) as nat) + element_out(vertex, elements[k - 1], w)
    }
}

/// What the first `n` vertices of `data` become, one behind the other,
/// each with its own handedness.
pub open spec fn data_out(
    data: Seq<u8>,
    stride: int,
    elements: Seq<VertexElement>,
    handedness: Seq<Single>,
    n: nat,
) -> Seq<u8>
    decreases n,
{
    if n == 0 {
        Seq::empty()
    } else {
        data_out(data, stride, elements, handedness, (n - 1) as nat) + vertex_out(
            data.subrange((n - 1) * stride, n * stride),
            elements,
            handedness[n - 1],
            elements.len(),
        )
    }
}

/// Whether every tangent among the first `k` elements is three numbers.
pub open spec fn tangents_are_three(elements: Seq<VertexElement>, k: int) -> bool {
    forall|i: int|
        0 <= i < k && (#[trigger] elements[i]).usage == ElementUsage::Tangent ==> elements[i].format
            == ElementFormat::Vector3
}

impl VertexDeclaration {
    /// Whether every tangent of the declaration is three numbers.
    pub fn tangents_are_three(&self) -> (b: bool)
        ensures
            b == tangents_are_three(self.elements@, self.elements@.len() as int),
    {
        let mut i: usize = 0;
        while i < self.elements.len()
            invariant
                i <= self.elements@.len(),
                tangents_are_three(self.elements@, i as int),
            decreases self.elements@.len() - i,
        {
            match (self.elements[i].usage, self.elements[i].format) {
                (ElementUsage::Tangent, ElementFormat::Vector3) => {},
                (ElementUsage::Tangent, _) => {
                    return false;
                },
                _ => {},
            }
            i = i + 1;
        }
        true
    }
}

/// Why `length` bytes of vertices cannot be written anew with `count`
/// tangents: the declaration lacks a normal, a tangent or a binormal, a
/// tangent is not three numbers, or the bytes are not `count` whole
/// vertices. `None` where they can.
pub open spec fn rewrite_error(length: int, elements: Seq<VertexElement>, count: int) -> Option<ExportError> {
    let stride = source_stride(elements, elements.len());
    if frame_offsets(elements) is None {
        Some(ExportError::MissingTangentFrame)
    } else if !tangents_are_three(elements, elements.len() as int) {
        Some(ExportError::UnsupportedFormat)
    } else if stride == 0 || length != count * stride {
        Some(ExportError::PartOutOfRange)
    } else {
        None
    }
}

/// Writes the vertices of `data` anew for the scene and appends them to
/// `dest`: the tangent of each vertex gains its handedness, of which
/// `handedness` holds one for each vertex, and the binormal is left out.
pub fn transform_vertex_data_tangent(
    data: &[u8],
    decl: &VertexDeclaration,
    handedness: &[Single],
    dest: &mut Vec<u8>,
) -> (res: Result<(), ExportError>)
    ensures
        res matches Err(e) ==> e !is UnknownChannelTarget,
        match res {
            Ok(()) => {
                let stride = source_stride(decl.elements@, decl.elements@.len());
                &&& rewrite_error(data@.len() as int, decl.elements@, handedness@.len() as int) is None
                &&& stride > 0
                &&& data@.len() == handedness@.len() * stride
                &&& frame_offsets(decl.elements@) is Some
                &&& tangents_are_three(decl.elements@, decl.elements@.len() as int)
                &&& final(dest)@ == old(dest)@ + data_out(
                    data@,
                    stride,
                    decl.elements@,
                    handedness@,
                    handedness@.len(),
                )
            },
            Err(e) => final(dest)@ == old(dest)@ && rewrite_error(
                data@.len() as int,
                decl.elements@,
                handedness@.len() as int,
            ) == Some(e),
        },
{
    let stride = decl.stride();
    if decl.frame().is_none() {
        return Err(ExportError::MissingTangentFrame);
    }
    if !decl.tangents_are_three() {
        return Err(ExportError::UnsupportedFormat);
    }
    if stride == 0 || data.len() % stride != 0 || data.len() / stride != handedness.len() {
        proof {
            if stride > 0 && data@.len() == handedness@.len() * stride {
                vstd::arithmetic::div_mod::lemma_fundamental_div_mod_converse(
                    data@.len() as int,
                    stride as int,
                    handedness@.len() as int,
                    0,
                );
            }
        }
        return Err(ExportError::PartOutOfRange);
    }
    let n = handedness.len();
    assert(data@.len() == n * stride) by (nonlinear_arith)
        requires
            data@.len() % (stride as nat) == 0,
            data@.len() / (stride as nat) == n,
            stride > 0,
    ;
    let ghost start = dest@;
    let ghost elements = decl.elements@;
    let mut v: usize = 0;
    assert(start + data_out(data@, stride as int, elements, handedness@, 0) =~= start);
    while v < n
        invariant
            v <= n,
            stride > 0,
            n == handedness@.len(),
            data@.len() == n * stride,
            stride == source_stride(decl.elements@, decl.elements@.len()),
            elements == decl.elements@,
            tangents_are_three(elements, elements.len() as int),
            start == old(dest)@,
            dest@ == start + data_out(data@, stride as int, elements, handedness@, v as nat),
        decreases n - v,
    {
        assert((v + 1) * stride <= n * stride) by (nonlinear_arith)
            requires
                v < n,
                stride > 0,
        ;
        assert(v * stride + stride == (v + 1) * stride) by (nonlinear_arith);
        let len = data.len();
        let at = v * stride;
        let vertex = slice_subrange(data, at, at + stride);
        let w = handedness[v];
        let ghost before = dest@;
        let mut k: usize = 0;
        assert(before + vertex_out(vertex@, elements, w, 0) =~= before);
        while k < decl.elements.len()
            invariant
                k <= elements.len(),
                elements == decl.elements@,
                vertex@.len() == stride,
                stride == source_stride(decl.elements@, decl.elements@.len()),
                tangents_are_three(elements, elements.len() as int),
                dest@ == before + vertex_out(vertex@, elements, w, k as nat),
            decreases elements.len() - k,
        {
            let e = &decl.elements[k];
            proof {
                lemma_element_fits(elements, k as int);
            }
            let ghost had = dest@;
            let offset = e.offset as usize;
            match e.usage {
                ElementUsage::Tangent => {
                    let mut i: usize = 0;
                    assert(had + vertex@.subrange(offset as int, offset as int) =~= had);
                    while i < 12
                        invariant
                            i <= 12,
                            offset + 12 <= vertex@.len(),
                            dest@ == had + vertex@.subrange(offset as int, offset + i),
                        decreases 12 - i,
                    {
                        let room = vertex.len();
                        dest.push(vertex[offset + i]);
                        assert(dest@ =~= had + vertex@.subrange(offset as int, offset + i + 1));
                        i = i + 1;
                    }
                    push_le_u32(dest, w.bits);
                    assert(dest@ =~= had + element_out(vertex@, *e, w));
                },
                ElementUsage::Binormal => {
                    assert(had + element_out(vertex@, *e, w) =~= had);
                },
                _ => {
                    let size = e.format.size();
                    let mut i: usize = 0;
                    assert(had + vertex@.subrange(offset as int, offset as int) =~= had);
                    while i < size
                        invariant
                            i <= size,
                            offset + size <= vertex@.len(),
                            dest@ == had + vertex@.subrange(offset as int, offset + i),
                        decreases size - i,
                    {
                        let room = vertex.len();
                        dest.push(vertex[offset + i]);
                        assert(dest@ =~= had + vertex@.subrange(offset as int, offset + i + 1));
                        i = i + 1;
                    }
                },
            }
            assert(dest@ =~= before + vertex_out(vertex@, elements, w, (k + 1) as nat));
            k = k + 1;
        }
        assert(dest@ =~= start + data_out(data@, stride as int, elements, handedness@, (v + 1) as nat));
        v = v + 1;
    }
    Ok(())
}

impl VertexElement {
    /// The accessor of this element over `num_vertices` vertices in the
    /// view at `view`, or `None` for a binormal.
    pub fn accessor(&self, view: usize, num_vertices: usize, bounds: Bounds) -> (res: Result<
        Option<Accessor>,
        ExportError,
    >)
        ensures
            match res {
                Ok(Some(a)) => transformed_element(*self, self.offset as usize) matches Ok(Some(t)) && a
                    == t.accessor_of(view, num_vertices, bounds),
                Ok(None) => transformed_element(*self, self.offset as usize) == Ok::<
                    Option<TransformedVertexElement>,
                    ExportError,
                >(None),
                Err(e) => transformed_element(*self, self.offset as usize) == Err::<
                    Option<TransformedVertexElement>,
                    ExportError,
                >(e),
            },
    {
        let semantic = match self.semantic() {
            None => {
                return Err(ExportError::UnsupportedUsage);
            },
            Some(None) => {
                return Ok(None);
            },
            Some(Some(semantic)) => semantic,
        };
        let (shape, component) = match (self.format.element_type(), self.format.component_type()) {
            (Some(shape), Some(component)) => (shape, component),
            _ => {
                return Err(ExportError::UnsupportedFormat);
            },
        };
        let element_type = match semantic {
            Semantic::Tangents => {
                match self.format {
                    ElementFormat::Vector3 => {},
                    _ => {
                        return Err(ExportError::UnsupportedFormat);
                    },
                }
                ElementType::Vec4
            },
            _ => shape,
        };
        let normalized = match self.format {
            ElementFormat::Color => true,
            _ => false,
        };
        let t = TransformedVertexElement {
            semantic,
            element_type,
            component_type: component,
            offset: self.offset as usize,
            normalized,
        };
        Ok(Some(t.accessor(view, num_vertices, bounds)))
    }
}

impl VertexDeclaration {
    /// The accessors of the elements over the vertices as the model holds
    /// them: one for each element but the binormals, in their order.
    pub fn accessors(&self, view: usize, num_vertices: usize, bounds: Bounds) -> (res: Result<
        Vec<Accessor>,
        ExportError,
    >)
        ensures
            match res {
                Ok(out) => transformed(self.elements@, false, self.elements@.len()) matches Ok((elements, _))
                    && out@.len() == elements.len() && forall|i: int|
                    0 <= i < out@.len() ==> #[trigger] out@[i] == elements[i].accessor_of(
                        view,
                        num_vertices,
                        bounds,
                    ),
                Err(e) => transformed(self.elements@, false, self.elements@.len()) == Err::<
                    (Seq<TransformedVertexElement>, int),
                    ExportError,
                >(e),
            },
    {
        let mut out: Vec<Accessor> = Vec::new();
        let mut end: usize = 0;
        let ghost mut done: Seq<TransformedVertexElement> = Seq::empty();
        let mut i: usize = 0;
        while i < self.elements.len()
            invariant
                i <= self.elements@.len(),
                transformed(self.elements@, false, i as nat) == Ok::<
                    (Seq<TransformedVertexElement>, int),
                    ExportError,
                >((done, end as int)),
                out@.len() == done.len(),
                forall|k: int|
                    0 <= k < out@.len() ==> #[trigger] out@[k] == done[k].accessor_of(view, num_vertices, bounds),
            decreases self.elements@.len() - i,
        {
            match self.elements[i].accessor(view, num_vertices, bounds) {
                Err(e) => {
                    proof {
                        lemma_transformed_stays(self.elements@, false, (i + 1) as nat, self.elements@.len());
                    }
                    return Err(e);
                },
                Ok(None) => {},
                Ok(Some(a)) => {
                    let size = a.element_type.multiplicity() * a.component_type.size();
                    if end > usize::MAX - size {
                        proof {
                            lemma_transformed_stays(self.elements@, false, (i + 1) as nat, self.elements@.len());
                        }
                        return Err(ExportError::TooLarge);
                    }
                    proof {
                        let t = transformed_element(
                            self.elements@[i as int],
                            self.elements@[i as int].offset as usize,
                        )->Ok_0->0;
                        done = done.push(t);
                    }
                    end = end + size;
                    out.push(a);
                },
            }
            i = i + 1;
        }
        Ok(out)
    }
}

} // verus!
