//! The parts of a mesh in the scene: for each part a view of its
//! vertices, an accessor for each element of its vertices, a view and an
//! accessor of its indices, and a node that draws them.
use vstd::prelude::*;
use vstd::slice::slice_subrange;
use crate::content::model::{Mesh, MeshPart};
use crate::export::bounds::{bounds_of, positions_fit, scan_bounds, vertex_count, Bounds};
use crate::export::scene::{
    node_extends, Accessor, Attribute, BufferView, ComponentType, ElementType, Extent, Node, Primitive, Scene,
    SceneMesh, Semantic, Transform, ViewTarget,
};
use crate::export::transformed_model::{stride_of, TransformedVertexDeclaration, TransformedVertexElement};
use crate::export::ExportError;

verus! {

/// Where the parts of one mesh find their data: the regions of the mesh
/// in the buffer.
pub struct MeshData<'a> {
    pub mesh: &'a Mesh,
    /// The start of the vertices of the mesh in the buffer.
    pub vertex_offset: usize,
    /// The start of the indices of the mesh in the buffer.
    pub index_offset: usize,
}

/// The material of a part: none for a reference of zero or less, else the
/// material of the pool entry that the reference counts from 1.
pub open spec fn part_material(id: i32, materials: Seq<Option<usize>>) -> Result<Option<usize>, ExportError> {
    if id <= 0 {
        Ok(None)
    } else if id > materials.len() {
        Err(ExportError::SharedIndexOutOfRange { index: id as usize })
    } else {
        match materials[id - 1] {
            Some(m) => Ok(Some(m)),
            None => Err(ExportError::UnexpectedShared { index: id as usize }),
        }
    }
}

/// Resolves the reference of a part to its material. A reference of zero
/// is no material, and nothing is looked up for it.
pub fn resolve_material(id: i32, materials: &[Option<usize>]) -> (res: Result<Option<usize>, ExportError>)
    ensures
        res == part_material(id, materials@),
        id == 0 ==> res == Ok::<Option<usize>, ExportError>(None),
{
    if id <= 0 {
        return Ok(None);
    }
    let index = id as usize;
    if index > materials.len() {
        return Err(ExportError::SharedIndexOutOfRange { index });
    }
    match materials[index - 1] {
        Some(m) => Ok(Some(m)),
        None => Err(ExportError::UnexpectedShared { index }),
    }
}

/// What the parts of a mesh read of it: its vertices as the scene holds
/// them, the length and the width of its indices, and where both start
/// in the buffer.
pub struct Source {
    pub vertices: Seq<u8>,
    pub index_length: nat,
    pub is_16_bit: bool,
    pub vertex_offset: usize,
    pub index_offset: usize,
}

/// What the parts of `mesh` read of it where its vertices start at
/// `vertex_offset` in the buffer and its indices at `index_offset`.
pub open spec fn source_of(mesh: Mesh, vertex_offset: usize, index_offset: usize) -> Source {
    Source {
        vertices: mesh.vertex_buffer.data@,
        index_length: mesh.index_buffer.data@.len(),
        is_16_bit: mesh.index_buffer.is_16_bit,
        vertex_offset,
        index_offset,
    }
}

impl<'a> MeshData<'a> {
    /// What the parts of the mesh read of it.
    pub open spec fn source(&self) -> Source {
        source_of(*self.mesh, self.vertex_offset, self.index_offset)
    }
}

/// The numbers of a part, worked out: where its vertices and its indices
/// lie in the data of its mesh.
pub struct PartLayout {
    pub stride: usize,
    pub vertex_count: usize,
    /// Where the vertices of the part start in the vertices of the mesh.
    pub vertex_start: usize,
    pub vertex_length: usize,
    pub index_width: usize,
    pub index_count: usize,
    /// Where the indices of the part start in the indices of the mesh.
    pub index_start: usize,
    pub index_length: usize,
}

/// The layout of a part, where its data lies within that of its mesh: the
/// vertices are `vertex_count` vertices of `stride` bytes from vertex
/// `base_vertex` on, the indices three for each primitive from index
/// `start_index` on.
pub open spec fn layout_of(part: MeshPart, stride: int, source: Source) -> Option<PartLayout> {
    let width = if source.is_16_bit {
        2int
    } else {
        4int
    };
    let vertex_start = part.base_vertex * stride;
    let vertex_length = part.vertex_count * stride;
    let index_count = part.primitive_count * 3;
    let index_start = part.start_index * width;
    let index_length = index_count * width;
    if stride > 0 && vertex_start + vertex_length <= source.vertices.len() && index_start + index_length
        <= source.index_length {
        Some(
            PartLayout {
                stride: stride as usize,
                vertex_count: part.vertex_count as usize,
                vertex_start: vertex_start as usize,
                vertex_length: vertex_length as usize,
                index_width: width as usize,
                index_count: index_count as usize,
                index_start: index_start as usize,
                index_length: index_length as usize,
            },
        )
    } else {
        None
    }
}

/// Works out where the data of a part lies, or `None` where it would lie
/// past the data of its mesh.
pub fn part_layout(part: &MeshPart, stride: usize, mesh: &Mesh) -> (res: Option<PartLayout>)
    ensures
        res == layout_of(*part, stride as int, source_of(*mesh, 0, 0)),
        res matches Some(l) ==> l.stride == stride && l.vertex_length == l.vertex_count * stride
            && l.vertex_start + l.vertex_length <= mesh.vertex_buffer.data@.len() && l.index_start
            + l.index_length <= mesh.index_buffer.data@.len(),
{
    let width: usize = if mesh.index_buffer.is_16_bit {
        2
    } else {
        4
    };
    if stride == 0 {
        return None;
    }
    let vlen = mesh.vertex_buffer.data.len();
    let ilen = mesh.index_buffer.data.len();
    let base = part.base_vertex as u64;
    let count = part.vertex_count as u64;
    let total = base + count;
    assert(total * stride == base * stride + count * stride) by (nonlinear_arith)
        requires
            total == base + count,
    ;
    if total > (vlen / stride) as u64 {
        assert(total * stride > vlen) by (nonlinear_arith)
            requires
                total > vlen / stride,
                stride > 0,
        ;
        return None;
    }
    assert(total * stride <= vlen) by (nonlinear_arith)
        requires
            total <= vlen / stride,
            stride > 0,
    ;
    assert(base * stride <= total * stride && count * stride <= total * stride) by (nonlinear_arith)
        requires
            total == base + count,
            0 <= base,
            0 <= count,
            stride > 0,
    ;
    let vertex_start = (base as usize) * stride;
    let vertex_length = (count as usize) * stride;
    let index_count = part.primitive_count as u64 * 3;
    let first = part.start_index as u64;
    let last = first + index_count;
    if last > (ilen / width) as u64 {
        return None;
    }
    let index_start = (first as usize) * width;
    let index_length = (index_count as usize) * width;
    Some(
        PartLayout {
            stride,
            vertex_count: count as usize,
            vertex_start,
            vertex_length,
            index_width: width,
            index_count: index_count as usize,
            index_start,
            index_length,
        },
    )
}

/// Whether a document has grown into another: nothing that was in it has
/// changed, and views, accessors, meshes and nodes may have been added.
pub open spec fn grown(before: &Scene, after: &Scene) -> bool {
    &&& after.buffer_length == before.buffer_length
    &&& after.materials == before.materials
    &&& after.skins == before.skins
    &&& after.animations == before.animations
    &&& after.roots == before.roots
    &&& before.views@.len() <= after.views@.len()
    &&& before.accessors@.len() <= after.accessors@.len()
    &&& before.meshes@.len() <= after.meshes@.len()
    &&& before.nodes@.len() <= after.nodes@.len()
    &&& after.views@.subrange(0, before.views@.len() as int) == before.views@
    &&& after.accessors@.subrange(0, before.accessors@.len() as int) == before.accessors@
    &&& after.meshes@.subrange(0, before.meshes@.len() as int) == before.meshes@
    &&& after.nodes@.subrange(0, before.nodes@.len() as int) == before.nodes@
}

/// The node of a part that was added to `before`: what `after` holds
/// behind what `before` held.
pub open spec fn part_added(
    before: &Scene,
    after: &Scene,
    decl: TransformedVertexDeclaration,
    data: Source,
    layout: PartLayout,
    bounds: Bounds,
    material: Option<usize>,
) -> bool {
    let elements = decl.elements@;
    let v = before.views@.len() as int;
    let a = before.accessors@.len() as int;
    &&& after.views@.len() == v + 2
    &&& after.accessors@.len() == a + elements.len() + 1
    &&& after.meshes@.len() == before.meshes@.len() + 1
    &&& after.nodes@.len() == before.nodes@.len() + 1
    &&& after.views@[v] == BufferView {
        byte_offset: (data.vertex_offset + layout.vertex_start) as usize,
        byte_length: layout.vertex_length,
        byte_stride: Some(layout.stride),
        target: Some(ViewTarget::ArrayBuffer),
    }
    &&& after.views@[v + 1] == BufferView {
        byte_offset: (data.index_offset + layout.index_start) as usize,
        byte_length: layout.index_length,
        byte_stride: None,
        target: Some(ViewTarget::ElementArrayBuffer),
    }
    &&& forall|i: int|
        0 <= i < elements.len() ==> #[trigger] after.accessors@[a + i] == elements[i].accessor_of(
            v as usize,
            layout.vertex_count,
            bounds,
        )
    &&& after.accessors@[a + elements.len()] == Accessor {
        view: (v + 1) as usize,
        byte_offset: 0,
        count: layout.index_count,
        component_type: if layout.index_width == 2 {
            ComponentType::U16
        } else {
            ComponentType::U32
        },
        element_type: ElementType::Scalar,
        normalized: false,
        extent: Extent::Unstated,
    }
    &&& after.meshes@.last().primitives@.len() == 1
    &&& after.meshes@.last().primitives@[0].indices == a + elements.len()
    &&& after.meshes@.last().primitives@[0].material == material
    &&& after.meshes@.last().primitives@[0].attributes@.len() == elements.len()
    &&& forall|i: int|
        0 <= i < elements.len() ==> #[trigger] after.meshes@.last().primitives@[0].attributes@[i] == (Attribute {
            semantic: elements[i].semantic,
            accessor: (a + i) as usize,
        })
    &&& after.nodes@.last().mesh == Some(before.meshes@.len() as usize)
    &&& after.nodes@.last().skin is None
    &&& after.nodes@.last().name is None
    &&& after.nodes@.last().children@.len() == 0
    &&& after.nodes@.last().transform == Transform::Identity
}

/// Whether the element at `i` is the position of a vertex: the first
/// element with that meaning.
pub open spec fn is_position_at(elements: Seq<TransformedVertexElement>, i: int) -> bool {
    &&& 0 <= i < elements.len()
    &&& elements[i].semantic == Semantic::Positions
    &&& forall|j: int| 0 <= j < i ==> (#[trigger] elements[j]).semantic != Semantic::Positions
}

/// Whether a vertex has a position.
pub open spec fn has_position(elements: Seq<TransformedVertexElement>) -> bool {
    exists|i: int| is_position_at(elements, i)
}

/// The place of the position among the elements of a vertex that has
/// one.
pub open spec fn position_of(elements: Seq<TransformedVertexElement>) -> int {
    choose|i: int| is_position_at(elements, i)
}

/// A vertex has its position at one place only.
pub proof fn lemma_position_at(elements: Seq<TransformedVertexElement>, i: int)
    requires
        is_position_at(elements, i),
    ensures
        has_position(elements),
        position_of(elements) == i,
{
    let j = position_of(elements);
    assert(is_position_at(elements, j));
    if j < i {
        assert(elements[j].semantic != Semantic::Positions);
    }
    if i < j {
        assert(elements[i].semantic != Semantic::Positions);
    }
}

/// Why the positions of `length` bytes of vertices have no bounds, or
/// `None` where they have: the size of a vertex cannot be counted, the
/// vertices have no position, a vertex has no size, or the position of
/// the last vertex lies past the data.
pub open spec fn bounds_error(length: int, elements: Seq<TransformedVertexElement>) -> Option<ExportError> {
    let stride = stride_of(elements, elements.len());
    if stride > usize::MAX {
        Some(ExportError::TooLarge)
    } else if !has_position(elements) {
        Some(ExportError::MissingPosition)
    } else if stride == 0 {
        Some(ExportError::EmptyDeclaration)
    } else if !positions_fit(length, stride, elements[position_of(elements)].offset as int) {
        Some(ExportError::PartOutOfRange)
    } else {
        None
    }
}

/// The bounds of the positions of `vertices`: the least and the greatest
/// of each of their three numbers, over every vertex. The vertices lie
/// as far apart as the declaration says, and the position of each where
/// the declaration has it.
pub fn calculate_bounds(vertices: &[u8], decl: &TransformedVertexDeclaration) -> (res: Result<Bounds, ExportError>)
    ensures
        res matches Err(e) ==> e !is UnknownChannelTarget,
        match res {
            Ok(b) => {
                let stride = stride_of(decl.elements@, decl.elements@.len());
                &&& bounds_error(vertices@.len() as int, decl.elements@) is None
                &&& b == bounds_of(
                    vertices@,
                    stride,
                    decl.elements@[position_of(decl.elements@)].offset as int,
                    vertex_count(vertices@.len() as int, stride) as nat,
                )
            },
            Err(e) => bounds_error(vertices@.len() as int, decl.elements@) == Some(e),
        },
{
    let stride = match decl.stride() {
        Some(stride) => stride,
        None => {
            return Err(ExportError::TooLarge);
        },
    };
    let position = match decl.position() {
        Some(p) => p,
        None => {
            assert(!has_position(decl.elements@)) by {
                if has_position(decl.elements@) {
                    assert(is_position_at(decl.elements@, position_of(decl.elements@)));
                }
            }
            return Err(ExportError::MissingPosition);
        },
    };
    proof {
        lemma_position_at(decl.elements@, position as int);
    }
    scan_bounds(vertices, stride, decl.elements[position].offset)
}

/// What is wrong with a part whatever buffer it lies in, or `None` where
/// nothing is: the part names a declaration that is not there; its
/// declaration has no size, or one that cannot be counted; its vertices
/// or indices lie past the data of its mesh; its vertices have no
/// position; or its material is not there, `material_count` being the
/// number of materials.
pub open spec fn part_flaw(
    material_count: int,
    decls: Seq<Seq<TransformedVertexElement>>,
    materials: Seq<Option<usize>>,
    part: MeshPart,
    data: Source,
) -> Option<ExportError> {
    if part.vertex_decl_index >= decls.len() {
        Some(ExportError::DeclarationOutOfRange { index: part.vertex_decl_index })
    } else {
        let elements = decls[part.vertex_decl_index as int];
        let stride = stride_of(elements, elements.len());
        if stride > usize::MAX {
            Some(ExportError::TooLarge)
        } else if stride == 0 {
            Some(ExportError::EmptyDeclaration)
        } else {
            match layout_of(part, stride, data) {
                None => Some(ExportError::PartOutOfRange),
                Some(layout) => if !has_position(elements) {
                    Some(ExportError::MissingPosition)
                } else {
                    match part_material(part.shared_content_id, materials) {
                        Err(e) => Some(e),
                        Ok(material) => if material matches Some(m) && m >= material_count {
                            Some(ExportError::UnexpectedShared { index: part.shared_content_id as usize })
                        } else if !positions_fit(
                            layout.vertex_length as int,
                            stride,
                            elements[position_of(elements)].offset as int,
                        ) {
                            Some(ExportError::PartOutOfRange)
                        } else {
                            None
                        },
                    }
                },
            }
        }
    }
}

/// Whether the data of a part lies within a buffer of `buffer_length`
/// bytes, where the data of its mesh starts as `data` says.
pub open spec fn part_within(buffer_length: int, data: Source, layout: PartLayout) -> bool {
    &&& data.vertex_offset + layout.vertex_start + layout.vertex_length <= buffer_length
    &&& data.index_offset + layout.index_start + layout.index_length <= buffer_length
}

/// Why a part cannot be added to a document over a buffer of
/// `buffer_length` bytes with `material_count` materials, or `None` where
/// it can: something is wrong with the part, or its data lies past the
/// buffer.
pub open spec fn part_refusal(
    buffer_length: int,
    material_count: int,
    decls: Seq<Seq<TransformedVertexElement>>,
    materials: Seq<Option<usize>>,
    part: MeshPart,
    data: Source,
) -> Option<ExportError> {
    match part_flaw(material_count, decls, materials, part, data) {
        Some(e) => Some(e),
        None => {
            let elements = decls[part.vertex_decl_index as int];
            if part_within(buffer_length, data, layout_of(part, stride_of(elements, elements.len()), data)->0) {
                None
            } else {
                Some(ExportError::PartOutOfRange)
            }
        },
    }
}

/// Whether two meshes are read alike but for where they start in the
/// buffer.
pub open spec fn same_data(data: Source, other: Source) -> bool {
    &&& data.vertices == other.vertices
    &&& data.index_length == other.index_length
    &&& data.is_16_bit == other.is_16_bit
}

/// Whether the data of a mesh lies within a buffer of `buffer_length`
/// bytes.
pub open spec fn source_within(buffer_length: int, data: Source) -> bool {
    &&& data.vertex_offset + data.vertices.len() <= buffer_length
    &&& data.index_offset + data.index_length <= buffer_length
}

/// A part of a mesh that lies within the buffer is refused for what is
/// wrong with the part alone, wherever the mesh starts.
pub proof fn lemma_refusal_is_flaw(
    buffer_length: int,
    material_count: int,
    decls: Seq<Seq<TransformedVertexElement>>,
    materials: Seq<Option<usize>>,
    part: MeshPart,
    data: Source,
    other: Source,
)
    requires
        source_within(buffer_length, data),
        same_data(data, other),
    ensures
        part_refusal(buffer_length, material_count, decls, materials, part, data) == part_flaw(
            material_count,
            decls,
            materials,
            part,
            other,
        ),
{
    let elements = decls[part.vertex_decl_index as int];
    let stride = stride_of(elements, elements.len());
    assert(layout_of(part, stride, data) == layout_of(part, stride, other));
}

/// Whether the node at `node` draws a part: its mesh has one primitive
/// with the material of the part, an attribute for each element of the
/// declaration over a view of the vertices of the part, and indices over
/// a view of the indices of the part.
pub open spec fn part_drawn(
    scene: &Scene,
    node: int,
    elements: Seq<TransformedVertexElement>,
    data: Source,
    layout: PartLayout,
    bounds: Bounds,
    material: Option<usize>,
) -> bool {
    &&& 0 <= node < scene.nodes@.len()
    &&& scene.nodes@[node].name is None
    &&& scene.nodes@[node].transform == Transform::Identity
    &&& scene.nodes@[node].mesh matches Some(m)
    &&& m < scene.meshes@.len()
    &&& scene.meshes@[m as int].primitives@.len() == 1
    &&& primitive_drawn(scene, scene.meshes@[m as int].primitives@[0], elements, data, layout, bounds, material)
}

/// Whether a primitive is that of a part: see `part_drawn`.
pub open spec fn primitive_drawn(
    scene: &Scene,
    primitive: Primitive,
    elements: Seq<TransformedVertexElement>,
    data: Source,
    layout: PartLayout,
    bounds: Bounds,
    material: Option<usize>,
) -> bool {
    let indices = scene.accessors@[primitive.indices as int];
    &&& primitive.material == material
    &&& primitive.indices < scene.accessors@.len()
    &&& indices.view < scene.views@.len()
    &&& indices == Accessor {
        view: indices.view,
        byte_offset: 0,
        count: layout.index_count,
        component_type: if layout.index_width == 2 {
            ComponentType::U16
        } else {
            ComponentType::U32
        },
        element_type: ElementType::Scalar,
        normalized: false,
        extent: Extent::Unstated,
    }
    &&& scene.views@[indices.view as int] == BufferView {
        byte_offset: (data.index_offset + layout.index_start) as usize,
        byte_length: layout.index_length,
        byte_stride: None,
        target: Some(ViewTarget::ElementArrayBuffer),
    }
    &&& primitive.attributes@.len() == elements.len()
    &&& forall|i: int|
        0 <= i < elements.len() ==> attribute_drawn(
            scene,
            #[trigger] primitive.attributes@[i],
            elements[i],
            data,
            layout,
            bounds,
        )
}

/// Whether an attribute is that of an element of the vertices of a part:
/// its accessor reads the element in a view of those vertices.
pub open spec fn attribute_drawn(
    scene: &Scene,
    attribute: Attribute,
    element: TransformedVertexElement,
    data: Source,
    layout: PartLayout,
    bounds: Bounds,
) -> bool {
    let accessor = scene.accessors@[attribute.accessor as int];
    &&& attribute.semantic == element.semantic
    &&& attribute.accessor < scene.accessors@.len()
    &&& accessor.view < scene.views@.len()
    &&& accessor == element.accessor_of(accessor.view, layout.vertex_count, bounds)
    &&& scene.views@[accessor.view as int] == BufferView {
        byte_offset: (data.vertex_offset + layout.vertex_start) as usize,
        byte_length: layout.vertex_length,
        byte_stride: Some(layout.stride),
        target: Some(ViewTarget::ArrayBuffer),
    }
}

/// Whether the node at `node` draws `part` of the mesh that `data` is
/// read from: the part has a declaration, lies within the data, has a
/// material that is there or none, and the node draws it with the bounds
/// of its positions.
pub open spec fn draws(
    scene: &Scene,
    node: int,
    decls: Seq<Seq<TransformedVertexElement>>,
    materials: Seq<Option<usize>>,
    part: MeshPart,
    data: Source,
) -> bool {
    let elements = decls[part.vertex_decl_index as int];
    &&& part.vertex_decl_index < decls.len()
    &&& layout_of(part, stride_of(elements, elements.len()), data) matches Some(layout)
    &&& part_material(part.shared_content_id, materials) matches Ok(material)
    &&& exists|p: int|
        0 <= p < elements.len() && part_drawn(
            scene,
            node,
            elements,
            data,
            layout,
            #[trigger] part_bounds(data.vertices, layout, elements[p].offset),
            material,
        ) && elements[p].semantic == Semantic::Positions
}

/// The elements of each declaration.
pub open spec fn elements_of(decls: Seq<TransformedVertexDeclaration>) -> Seq<Seq<TransformedVertexElement>> {
    Seq::new(decls.len(), |k: int| decls[k].elements@)
}

/// The node that was added for a part draws it.
pub proof fn lemma_added_is_drawn(
    before: &Scene,
    after: &Scene,
    decl: TransformedVertexDeclaration,
    data: Source,
    layout: PartLayout,
    bounds: Bounds,
    material: Option<usize>,
)
    requires
        part_added(before, after, decl, data, layout, bounds, material),
        before.accessors@.len() + decl.elements@.len() <= usize::MAX,
        before.views@.len() + 1 <= usize::MAX,
        before.meshes@.len() <= usize::MAX,
    ensures
        part_drawn(after, before.nodes@.len() as int, decl.elements@, data, layout, bounds, material),
{
    let elements = decl.elements@;
    let a = before.accessors@.len() as int;
    let primitive = after.meshes@.last().primitives@[0];
    assert forall|i: int| 0 <= i < elements.len() implies attribute_drawn(
        after,
        #[trigger] primitive.attributes@[i],
        elements[i],
        data,
        layout,
        bounds,
    ) by {
        assert(after.accessors@[a + i] == elements[i].accessor_of(
            before.views@.len() as usize,
            layout.vertex_count,
            bounds,
        ));
    }
}

/// A node that draws a part in a document draws it in every document
/// that extends it.
pub proof fn lemma_drawn_later(
    before: &Scene,
    after: &Scene,
    node: int,
    elements: Seq<TransformedVertexElement>,
    data: Source,
    layout: PartLayout,
    bounds: Bounds,
    material: Option<usize>,
)
    requires
        part_drawn(before, node, elements, data, layout, bounds, material),
        before.extends(after),
    ensures
        part_drawn(after, node, elements, data, layout, bounds, material),
{
    let m = before.nodes@[node].mesh->0 as int;
    assert(node_extends(before.nodes@[node], after.nodes@[node]));
    assert(after.meshes@.subrange(0, before.meshes@.len() as int)[m] == after.meshes@[m]);
    let primitive = before.meshes@[m].primitives@[0];
    let at = primitive.indices as int;
    assert(after.accessors@.subrange(0, before.accessors@.len() as int)[at] == after.accessors@[at]);
    let v = before.accessors@[at].view as int;
    assert(after.views@.subrange(0, before.views@.len() as int)[v] == after.views@[v]);
    assert forall|i: int| 0 <= i < elements.len() implies attribute_drawn(
        after,
        #[trigger] primitive.attributes@[i],
        elements[i],
        data,
        layout,
        bounds,
    ) by {
        assert(attribute_drawn(before, primitive.attributes@[i], elements[i], data, layout, bounds));
        let x = primitive.attributes@[i].accessor as int;
        assert(after.accessors@.subrange(0, before.accessors@.len() as int)[x] == after.accessors@[x]);
        let w = before.accessors@[x].view as int;
        assert(after.views@.subrange(0, before.views@.len() as int)[w] == after.views@[w]);
    }
}

/// A node that draws a part of a mesh in a document draws it in every
/// document that extends it.
pub proof fn lemma_draws_later(
    before: &Scene,
    after: &Scene,
    node: int,
    decls: Seq<Seq<TransformedVertexElement>>,
    materials: Seq<Option<usize>>,
    part: MeshPart,
    data: Source,
)
    requires
        draws(before, node, decls, materials, part, data),
        before.extends(after),
    ensures
        draws(after, node, decls, materials, part, data),
{
    let elements = decls[part.vertex_decl_index as int];
    let layout = layout_of(part, stride_of(elements, elements.len()), data)->0;
    let material = part_material(part.shared_content_id, materials)->Ok_0;
    let p = choose|p: int|
        0 <= p < elements.len() && part_drawn(
            before,
            node,
            elements,
            data,
            layout,
            #[trigger] part_bounds(data.vertices, layout, elements[p].offset),
            material,
        ) && elements[p].semantic == Semantic::Positions;
    lemma_drawn_later(
        before,
        after,
        node,
        elements,
        data,
        layout,
        part_bounds(data.vertices, layout, elements[p].offset),
        material,
    );
}

/// Whether the children of the node at `parent` from the child at `start`
/// on draw the parts of a mesh, one for one and in their order.
pub open spec fn parts_from(
    scene: &Scene,
    parent: int,
    start: int,
    decls: Seq<Seq<TransformedVertexElement>>,
    materials: Seq<Option<usize>>,
    parts: Seq<MeshPart>,
    data: Source,
) -> bool {
    &&& 0 <= parent < scene.nodes@.len()
    &&& 0 <= start
    &&& start + parts.len() <= scene.nodes@[parent].children@.len()
    &&& forall|i: int|
        0 <= i < parts.len() ==> draws(
            scene,
            scene.nodes@[parent].children@[start + i] as int,
            decls,
            materials,
            #[trigger] parts[i],
            data,
        )
}

/// Children that draw the parts of a mesh in a document draw them in
/// every document that extends it.
pub proof fn lemma_parts_from_later(
    before: &Scene,
    after: &Scene,
    parent: int,
    start: int,
    decls: Seq<Seq<TransformedVertexElement>>,
    materials: Seq<Option<usize>>,
    parts: Seq<MeshPart>,
    data: Source,
)
    requires
        parts_from(before, parent, start, decls, materials, parts, data),
        before.extends(after),
    ensures
        parts_from(after, parent, start, decls, materials, parts, data),
{
    assert(node_extends(before.nodes@[parent], after.nodes@[parent]));
    let was = before.nodes@[parent].children@;
    let now = after.nodes@[parent].children@;
    assert forall|i: int| 0 <= i < parts.len() implies draws(
        after,
        now[start + i] as int,
        decls,
        materials,
        #[trigger] parts[i],
        data,
    ) by {
        assert(now.subrange(0, was.len() as int)[start + i] == now[start + i]);
        lemma_draws_later(before, after, was[start + i] as int, decls, materials, parts[i], data);
    }
}

/// Adds the node of one part of a mesh, with its mesh, its views and its
/// accessors, and returns the place of the node.
///
/// The part is refused where it names a vertex declaration that is not
/// there, where its declaration has no size or no position, where its
/// vertices or indices lie past the data of its mesh or the mesh past the
/// buffer, and where its material is not there.
pub fn build_mesh_part(
    scene: &mut Scene,
    decls: &[TransformedVertexDeclaration],
    data: &MeshData,
    part: &MeshPart,
    materials: &[Option<usize>],
) -> (res: Result<usize, ExportError>)
    requires
        old(scene).wf(),
    ensures
        res matches Err(e) ==> e !is UnknownChannelTarget,
        res matches Err(e) ==> part_refusal(
            old(scene).buffer_length as int,
            old(scene).materials@.len() as int,
            elements_of(decls@),
            materials@,
            *part,
            data.source(),
        ) == Some(e),
        res matches Ok(node) ==> {
            &&& part_refusal(
                old(scene).buffer_length as int,
                old(scene).materials@.len() as int,
                elements_of(decls@),
                materials@,
                *part,
                data.source(),
            ) is None
            &&& final(scene).wf()
            &&& grown(old(scene), final(scene))
            &&& node == old(scene).nodes@.len()
            &&& part.vertex_decl_index < decls@.len()
            &&& layout_of(
                *part,
                stride_of(
                    decls@[part.vertex_decl_index as int].elements@,
                    decls@[part.vertex_decl_index as int].elements@.len(),
                ),
                data.source(),
            ) matches Some(layout)
            &&& part_material(part.shared_content_id, materials@) matches Ok(material)
            &&& exists|p: int|
                0 <= p < decls@[part.vertex_decl_index as int].elements@.len() && part_added(
                    old(scene),
                    final(scene),
                    decls@[part.vertex_decl_index as int],
                    data.source(),
                    layout,
                    #[trigger] part_bounds(
                        data.source().vertices,
                        layout,
                        decls@[part.vertex_decl_index as int].elements@[p].offset,
                    ),
                    material,
                ) && decls@[part.vertex_decl_index as int].elements@[p].semantic == Semantic::Positions
            &&& draws(final(scene), node as int, elements_of(decls@), materials@, *part, data.source())
        },
        res matches Err(e) ==> *final(scene) == *old(scene),
{
    let decl_index = part.vertex_decl_index as usize;
    if decl_index >= decls.len() {
        return Err(ExportError::DeclarationOutOfRange { index: part.vertex_decl_index });
    }
    let decl = &decls[decl_index];
    let stride = match decl.stride() {
        Some(stride) => stride,
        None => {
            return Err(ExportError::TooLarge);
        },
    };
    if stride == 0 {
        return Err(ExportError::EmptyDeclaration);
    }
    let layout = match part_layout(part, stride, data.mesh) {
        Some(layout) => layout,
        None => {
            return Err(ExportError::PartOutOfRange);
        },
    };
    let position = match decl.position() {
        Some(p) => p,
        None => {
            assert(!has_position(decl.elements@)) by {
                if has_position(decl.elements@) {
                    assert(is_position_at(decl.elements@, position_of(decl.elements@)));
                }
            }
            return Err(ExportError::MissingPosition);
        },
    };
    proof {
        lemma_position_at(decl.elements@, position as int);
    }
    let material = resolve_material(part.shared_content_id, materials)?;
    match material {
        Some(m) => {
            if m >= scene.materials.len() {
                return Err(ExportError::UnexpectedShared { index: part.shared_content_id as usize });
            }
        },
        None => {},
    }
    let length = scene.buffer_length;
    if data.vertex_offset > length || layout.vertex_start > length - data.vertex_offset || layout.vertex_length
        > length - data.vertex_offset - layout.vertex_start {
        return Err(ExportError::PartOutOfRange);
    }
    if data.index_offset > length || layout.index_start > length - data.index_offset || layout.index_length
        > length - data.index_offset - layout.index_start {
        return Err(ExportError::PartOutOfRange);
    }
    let vertices = slice_subrange(
        data.mesh.vertex_buffer.data.as_slice(),
        layout.vertex_start,
        layout.vertex_start + layout.vertex_length,
    );
    let bounds = calculate_bounds(vertices, decl)?;
    let accessors = decl.accessors(scene.views.len(), layout.vertex_count, bounds);
    let ghost start = *scene;
    let vertex_view = scene.push_view(
        BufferView {
            byte_offset: data.vertex_offset + layout.vertex_start,
            byte_length: layout.vertex_length,
            byte_stride: Some(stride),
            target: Some(ViewTarget::ArrayBuffer),
        },
    );
    let index_view = scene.push_view(
        BufferView {
            byte_offset: data.index_offset + layout.index_start,
            byte_length: layout.index_length,
            byte_stride: None,
            target: Some(ViewTarget::ElementArrayBuffer),
        },
    );
    let first = scene.accessors.len();
    let mut attributes: Vec<Attribute> = Vec::new();
    let mut i: usize = 0;
    while i < accessors.len()
        invariant
            i <= accessors@.len(),
            accessors@.len() == decl.elements@.len(),
            first == start.accessors@.len(),
            scene.wf(),
            scene.views@ == start.views@.push(
                BufferView {
                    byte_offset: (data.vertex_offset + layout.vertex_start) as usize,
                    byte_length: layout.vertex_length,
                    byte_stride: Some(stride),
                    target: Some(ViewTarget::ArrayBuffer),
                },
            ).push(
                BufferView {
                    byte_offset: (data.index_offset + layout.index_start) as usize,
                    byte_length: layout.index_length,
                    byte_stride: None,
                    target: Some(ViewTarget::ElementArrayBuffer),
                },
            ),
            start.same_but_views(scene) || i > 0,
            scene.buffer_length == start.buffer_length,
            scene.materials == start.materials,
            scene.meshes == start.meshes,
            scene.nodes == start.nodes,
            scene.skins == start.skins,
            scene.animations == start.animations,
            scene.roots == start.roots,
            scene.accessors@.len() == first + i,
            scene.accessors@.subrange(0, first as int) == start.accessors@,
            forall|k: int| 0 <= k < i ==> #[trigger] scene.accessors@[first + k] == accessors@[k],
            forall|k: int|
                0 <= k < accessors@.len() ==> (#[trigger] accessors@[k]).view == start.views@.len(),
            attributes@.len() == i,
            forall|k: int|
                0 <= k < i ==> #[trigger] attributes@[k] == (Attribute {
                    semantic: decl.elements@[k].semantic,
                    accessor: (first + k) as usize,
                }),
        decreases accessors@.len() - i,
    {
        let ghost before = scene.accessors@;
        let place = scene.push_accessor(accessors[i]);
        attributes.push(Attribute { semantic: decl.elements[i].semantic, accessor: place });
        proof {
            assert(scene.accessors@.subrange(0, first as int) =~= before.subrange(0, first as int));
            assert forall|k: int| 0 <= k < i + 1 implies #[trigger] scene.accessors@[first + k]
                == accessors@[k] by {
                if k < i {
                    assert(scene.accessors@[first + k] == before[first + k]);
                }
            }
        }
        i = i + 1;
    }
    let index_accessor = scene.push_accessor(
        Accessor {
            view: index_view,
            byte_offset: 0,
            count: layout.index_count,
            component_type: if layout.index_width == 2 {
                ComponentType::U16
            } else {
                ComponentType::U32
            },
            element_type: ElementType::Scalar,
            normalized: false,
            extent: Extent::Unstated,
        },
    );
    let mut primitives: Vec<Primitive> = Vec::new();
    primitives.push(Primitive { attributes, indices: index_accessor, material });
    let mesh = scene.push_mesh(SceneMesh { primitives });
    let node = scene.push_node(
        Node { name: None, transform: Transform::Identity, children: Vec::new(), mesh: Some(mesh), skin: None },
    );
    proof {
        let p = position as int;
        let b = part_bounds(data.source().vertices, layout, decl.elements@[p].offset);
        lemma_whole_vertices(layout.vertex_count as int, stride as int);
        assert(bounds == b);
        assert(scene.views@.subrange(0, start.views@.len() as int) =~= start.views@);
        assert(scene.accessors@.subrange(0, start.accessors@.len() as int) =~= start.accessors@);
        assert(scene.meshes@.subrange(0, start.meshes@.len() as int) =~= start.meshes@);
        assert(scene.nodes@.subrange(0, start.nodes@.len() as int) =~= start.nodes@);
        assert(part_added(&start, scene, *decl, data.source(), layout, b, material));
        assert(index_view == start.views@.len() + 1);
        assert(index_accessor == start.accessors@.len() + decl.elements@.len());
        assert(mesh == start.meshes@.len());
        lemma_added_is_drawn(&start, scene, *decl, data.source(), layout, b, material);
    }
    Ok(node)
}

/// The bounds of the positions of a part: those of its vertices in the
/// data of its mesh, the position standing `offset` bytes into a vertex.
pub open spec fn part_bounds(vertices: Seq<u8>, layout: PartLayout, offset: usize) -> Bounds {
    bounds_of(
        vertices.subrange(
            layout.vertex_start as int,
            layout.vertex_start + layout.vertex_length,
        ),
        layout.stride as int,
        offset as int,
        layout.vertex_count as nat,
    )
}

/// Whole vertices count as what they are.
pub proof fn lemma_whole_vertices(n: int, stride: int)
    requires
        n >= 0,
        stride > 0,
    ensures
        vertex_count(n * stride, stride) == n,
{
    assert((n * stride + stride - 1) / stride == n) by (nonlinear_arith)
        requires
            n >= 0,
            stride > 0,
    ;
}

} // verus!
