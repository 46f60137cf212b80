//! The export of a model and of a skinned model: the packed buffer and the
//! document of the scene.
use vstd::prelude::*;
use vstd::slice::slice_subrange;
use crate::content::model::{
    Bone, BoneHierarchy, IndexBuffer, Mesh, MeshPart, Model, VertexBuffer, VertexDeclaration,
};
use crate::content::skinned_model::SkinnedModel;
use crate::content::Content;
use crate::export::animation::{
    animation_of, build_animations, channel_name, clip_fits, clip_regions_fit, joints_behind,
    lemma_animation_of_later, lemma_clip_fits, lemma_held_regions_fit, lemma_target_is_joint, names_joint,
    region_view,
};
use crate::export::bones::{
    bone_children, bones_refusal, build_bones, build_mesh_parts, is_bone_node, lemma_parts_refusal_none,
    mesh_refusal, parent_refusal, parts_refusal, places_of,
};
use crate::export::buffer::{consecutive, index_width, reversed, total_length, whole_triangles};
use crate::export::material::{
    build_materials, is_material_of, material_places, material_view, materials_before,
};
use crate::export::mesh::{
    elements_of, lemma_parts_from_later, lemma_refusal_is_flaw, part_flaw, part_refusal, parts_from, source_of,
    source_within, MeshData, Source,
};
use crate::export::pack::{
    build_buffer, clip_error, clip_of, holds, matrix_singles, packable, singles_bytes, whole_meshes, FullBuffer,
};
use crate::export::scene::{
    lemma_extends_refl, lemma_extends_trans, node_extends, Accessor, ComponentType, ElementType, Extent, Node,
    Scene,
};
use crate::export::skeleton::{bone_of, skeleton, skeleton_of};
use crate::export::skin::{build_skin, children_match, is_joint_node, lemma_skeleton_builds};
use crate::export::transformed_model::{
    data_out, frame_offsets, frames_error, frames_of, has_tangent, rewrite_error, source_stride,
    tangent_frames,
    transform_vertex_data_tangent, transformed, TangentFrame, TransformedVertexDeclaration,
    TransformedVertexElement,
};
use crate::export::ExportError;
use crate::single::Single;

verus! {

/// A model made ready for the scene: its vertex declarations in the terms
/// of the scene, and its meshes with the vertices that go with them.
pub struct TransformedModel<'a> {
    pub model: &'a Model,
    pub vertex_decls: Vec<TransformedVertexDeclaration>,
    pub meshes: Vec<Mesh>,
}

/// Why the vertices of a part cannot be written as the scene holds them,
/// or `None` where they can: the part names a declaration that is not
/// there, its declaration has no size, its vertices lie past those of
/// its mesh, or they have a tangent and too few of the `signs` values of
/// handedness are left from `at` on, or cannot be written anew.
pub open spec fn part_error(
    mesh: Mesh,
    decls: Seq<VertexDeclaration>,
    signs: int,
    at: int,
    part: MeshPart,
) -> Option<ExportError> {
    if part.vertex_decl_index >= decls.len() {
        Some(ExportError::DeclarationOutOfRange { index: part.vertex_decl_index })
    } else {
        let elements = decls[part.vertex_decl_index as int].elements@;
        let stride = source_stride(elements, elements.len());
        if stride == 0 {
            Some(ExportError::EmptyDeclaration)
        } else if (part.base_vertex + part.vertex_count) * stride > mesh.vertex_buffer.data@.len() {
            Some(ExportError::PartOutOfRange)
        } else if !has_tangent(elements) {
            None
        } else if part.vertex_count > signs - at {
            Some(ExportError::PartOutOfRange)
        } else {
            rewrite_error(part.vertex_count * stride, elements, part.vertex_count as int)
        }
    }
}

/// The vertices of the first `k` parts of a mesh as the scene holds them,
/// one part behind the other, and how many of `handedness` they have used
/// up, or why the first part that cannot be written cannot. The vertices
/// of a part whose declaration has a tangent are written anew; those of
/// any other part are taken as they are.
pub open spec fn parts_out(
    mesh: Mesh,
    decls: Seq<VertexDeclaration>,
    handedness: Seq<Single>,
    used: int,
    k: nat,
) -> Result<(Seq<u8>, int), ExportError>
    decreases k,
{
    if k == 0 {
        if used > handedness.len() {
            Err(ExportError::PartOutOfRange)
        } else {
            Ok((Seq::empty(), used))
        }
    } else {
        match parts_out(mesh, decls, handedness, used, (k - 1) as nat) {
            Err(e) => Err(e),
            Ok((done, at)) => {
                let part = mesh.parts@[k - 1];
                match part_error(mesh, decls, handedness.len() as int, at, part) {
                    Some(e) => Err(e),
                    None => {
                        let decl = decls[part.vertex_decl_index as int];
                        let stride = source_stride(decl.elements@, decl.elements@.len());
                        let data = mesh.vertex_buffer.data@.subrange(
                            part.base_vertex * stride,
                            (part.base_vertex + part.vertex_count) * stride,
                        );
                        if has_tangent(decl.elements@) {
                            Ok(
                                (
                                    done + data_out(
                                        data,
                                        stride,
                                        decl.elements@,
                                        handedness.subrange(at, at + part.vertex_count),
                                        part.vertex_count as nat,
                                    ),
                                    at + part.vertex_count,
                                ),
                            )
                        } else {
                            Ok((done + data, at))
                        }
                    },
                }
            },
        }
    }
}

/// Once a part has been refused, the mesh has been.
pub proof fn lemma_parts_out_stays(
    mesh: Mesh,
    decls: Seq<VertexDeclaration>,
    handedness: Seq<Single>,
    used: int,
    k: nat,
    n: nat,
)
    requires
        k <= n,
        parts_out(mesh, decls, handedness, used, k) is Err,
    ensures
        parts_out(mesh, decls, handedness, used, n) == parts_out(mesh, decls, handedness, used, k),
    decreases n - k,
{
    if k < n {
        lemma_parts_out_stays(mesh, decls, handedness, used, k, (n - 1) as nat);
    }
}

/// Whether `out` is `mesh` with other vertices.
pub open spec fn same_but_vertices(mesh: Mesh, out: Mesh) -> bool {
    &&& out.name@ == mesh.name@
    &&& out.parent_bone_ref == mesh.parent_bone_ref
    &&& out.bounds == mesh.bounds
    &&& out.index_buffer.is_16_bit == mesh.index_buffer.is_16_bit
    &&& out.index_buffer.data@ == mesh.index_buffer.data@
    &&& out.parts@ == mesh.parts@
    &&& out.tag == mesh.tag
}

/// The vertices of one part in the data of its mesh.
fn part_data<'a>(mesh: &'a Mesh, part: &MeshPart, stride: usize) -> (res: Result<&'a [u8], ExportError>)
    ensures
        match res {
            Ok(data) => stride > 0 && (part.base_vertex + part.vertex_count) * stride
                <= mesh.vertex_buffer.data@.len() && data@ == mesh.vertex_buffer.data@.subrange(
                part.base_vertex * stride,
                (part.base_vertex + part.vertex_count) * stride,
            ) && data@.len() == part.vertex_count * stride,
            Err(e) => if stride == 0 {
                e == ExportError::EmptyDeclaration
            } else {
                e == ExportError::PartOutOfRange && (part.base_vertex + part.vertex_count) * stride
                    > mesh.vertex_buffer.data@.len()
            },
        },
{
    if stride == 0 {
        return Err(ExportError::EmptyDeclaration);
    }
    let len = mesh.vertex_buffer.data.len();
    let base = part.base_vertex as u64;
    let count = part.vertex_count as u64;
    let total = base + count;
    if total > (len / stride) as u64 {
        assert(total * stride > len) by (nonlinear_arith)
            requires
                total > len / stride,
                stride > 0,
        ;
        return Err(ExportError::PartOutOfRange);
    }
    assert(total * stride <= len) by (nonlinear_arith)
        requires
            total <= len / stride,
            stride > 0,
    ;
    assert(base * stride <= total * stride && total * stride - base * stride == count * stride) by (nonlinear_arith)
        requires
            total == base + count,
            0 <= base,
            0 <= count,
            stride > 0,
    ;
    Ok(slice_subrange(mesh.vertex_buffer.data.as_slice(), base as usize * stride, total as usize * stride))
}

/// Writes the vertices of a mesh as the scene holds them, part by part,
/// and takes the handedness of the vertices that have a tangent from
/// `handedness`, from `used` on. Returns the mesh with these vertices and
/// how many of `handedness` are used up.
pub fn transform_mesh(mesh: &Mesh, vertex_decls: &[VertexDeclaration], handedness: &[Single], used: usize) -> (res:
    Result<(Mesh, usize), ExportError>)
    ensures
        res matches Err(e) ==> e !is UnknownChannelTarget,
        match res {
            Ok((out, after)) => {
                &&& same_but_vertices(*mesh, out)
                &&& used <= after <= handedness@.len()
                &&& parts_out(*mesh, vertex_decls@, handedness@, used as int, mesh.parts@.len()) == Ok::<
                    (Seq<u8>, int),
                    ExportError,
                >((out.vertex_buffer.data@, after as int))
            },
            Err(e) => parts_out(*mesh, vertex_decls@, handedness@, used as int, mesh.parts@.len()) == Err::<
                (Seq<u8>, int),
                ExportError,
            >(e),
        },
{
    let ghost n = mesh.parts@.len();
    if used > handedness.len() {
        proof {
            lemma_parts_out_stays(*mesh, vertex_decls@, handedness@, used as int, 0, n);
        }
        return Err(ExportError::PartOutOfRange);
    }
    let mut data: Vec<u8> = Vec::new();
    let mut at: usize = used;
    let mut i: usize = 0;
    while i < mesh.parts.len()
        invariant
            i <= mesh.parts@.len(),
            n == mesh.parts@.len(),
            used <= at <= handedness@.len(),
            parts_out(*mesh, vertex_decls@, handedness@, used as int, i as nat) == Ok::<(Seq<u8>, int), ExportError>(
                (data@, at as int),
            ),
        decreases mesh.parts@.len() - i,
    {
        let part = &mesh.parts[i];
        let index = part.vertex_decl_index as usize;
        if index >= vertex_decls.len() {
            proof {
                lemma_parts_out_stays(*mesh, vertex_decls@, handedness@, used as int, (i + 1) as nat, n);
            }
            return Err(ExportError::DeclarationOutOfRange { index: part.vertex_decl_index });
        }
        let decl = &vertex_decls[index];
        let stride = decl.stride();
        let source = match part_data(mesh, part, stride) {
            Ok(source) => source,
            Err(e) => {
                proof {
                    lemma_parts_out_stays(*mesh, vertex_decls@, handedness@, used as int, (i + 1) as nat, n);
                }
                return Err(e);
            },
        };
        let ghost was = at;
        let ghost before = data@;
        if decl.tangent().is_some() {
            let count = part.vertex_count as usize;
            if count > handedness.len() - at {
                proof {
                    lemma_parts_out_stays(*mesh, vertex_decls@, handedness@, used as int, (i + 1) as nat, n);
                }
                return Err(ExportError::PartOutOfRange);
            }
            let signs = slice_subrange(handedness, at, at + count);
            assert(source@.len() == part.vertex_count * stride);
            match transform_vertex_data_tangent(source, decl, signs, &mut data) {
                Ok(()) => {},
                Err(e) => {
                    proof {
                        assert(part_error(*mesh, vertex_decls@, handedness@.len() as int, at as int, *part)
                            == Some(e));
                        lemma_parts_out_stays(*mesh, vertex_decls@, handedness@, used as int, (i + 1) as nat, n);
                    }
                    return Err(e);
                },
            }
            at = at + count;
        } else {
            data.extend_from_slice(source);
        }
        proof {
            assert(part_error(*mesh, vertex_decls@, handedness@.len() as int, was as int, *part) is None);
            let r = parts_out(*mesh, vertex_decls@, handedness@, used as int, (i + 1) as nat);
            assert(parts_out(*mesh, vertex_decls@, handedness@, used as int, i as nat) == Ok::<
                (Seq<u8>, int),
                ExportError,
            >((before, was as int)));
            assert(r is Ok);
            assert(r->Ok_0.1 == at);
            assert(r->Ok_0.0 == data@);
        }
        i = i + 1;
    }
    let out = Mesh {
        name: mesh.name.clone(),
        parent_bone_ref: mesh.parent_bone_ref,
        bounds: mesh.bounds,
        vertex_buffer: VertexBuffer { data },
        index_buffer: IndexBuffer { is_16_bit: mesh.index_buffer.is_16_bit, data: mesh.index_buffer.data.clone() },
        parts: mesh.parts.clone(),
        tag: mesh.tag,
    };
    assert(out.parts@ =~= mesh.parts@);
    assert(out.index_buffer.data@ =~= mesh.index_buffer.data@);
    Ok((out, at))
}

/// The vertices of the first `m` meshes as the scene holds them, and how
/// many of `handedness` they use up, each mesh going on where the one
/// before it ended, or why the first mesh that cannot be written cannot.
pub open spec fn meshes_out(
    meshes: Seq<Mesh>,
    decls: Seq<VertexDeclaration>,
    handedness: Seq<Single>,
    m: nat,
) -> Result<(Seq<Seq<u8>>, int), ExportError>
    decreases m,
{
    if m == 0 {
        Ok((Seq::empty(), 0))
    } else {
        match meshes_out(meshes, decls, handedness, (m - 1) as nat) {
            Err(e) => Err(e),
            Ok((done, used)) => match parts_out(meshes[m - 1], decls, handedness, used, meshes[m - 1].parts@.len()) {
                Err(e) => Err(e),
                Ok((bytes, after)) => Ok((done.push(bytes), after)),
            },
        }
    }
}

/// Once a mesh has been refused, the model has been.
pub proof fn lemma_meshes_out_stays(
    meshes: Seq<Mesh>,
    decls: Seq<VertexDeclaration>,
    handedness: Seq<Single>,
    k: nat,
    n: nat,
)
    requires
        k <= n,
        meshes_out(meshes, decls, handedness, k) is Err,
    ensures
        meshes_out(meshes, decls, handedness, n) == meshes_out(meshes, decls, handedness, k),
    decreases n - k,
{
    if k < n {
        lemma_meshes_out_stays(meshes, decls, handedness, k, (n - 1) as nat);
    }
}

/// The vertices of every mesh as the scene holds them, or why they cannot
/// be written: a mesh cannot, or not every one of `handedness` is used
/// up.
pub open spec fn model_vertices(meshes: Seq<Mesh>, decls: Seq<VertexDeclaration>, handedness: Seq<Single>) -> Result<
    Seq<Seq<u8>>,
    ExportError,
> {
    match meshes_out(meshes, decls, handedness, meshes.len()) {
        Err(e) => Err(e),
        Ok((done, used)) => if used != handedness.len() {
            Err(ExportError::PartOutOfRange)
        } else {
            Ok(done)
        },
    }
}

/// Writes the vertices of every mesh as the scene holds them. Every one of
/// `handedness` must be used up.
pub fn transform_meshes(meshes: &[Mesh], vertex_decls: &[VertexDeclaration], handedness: &[Single]) -> (res:
    Result<Vec<Mesh>, ExportError>)
    ensures
        res matches Err(e) ==> e !is UnknownChannelTarget,
        match res {
            Ok(out) => {
                &&& model_vertices(meshes@, vertex_decls@, handedness@) matches Ok(vertices)
                &&& out@.len() == meshes@.len()
                &&& vertices.len() == meshes@.len()
                &&& forall|m: int|
                    0 <= m < meshes@.len() ==> same_but_vertices(meshes@[m], #[trigger] out@[m])
                        && out@[m].vertex_buffer.data@ == vertices[m]
            },
            Err(e) => model_vertices(meshes@, vertex_decls@, handedness@) == Err::<Seq<Seq<u8>>, ExportError>(e),
        },
{
    let mut out: Vec<Mesh> = Vec::new();
    let mut used: usize = 0;
    let ghost mut done: Seq<Seq<u8>> = Seq::empty();
    let mut m: usize = 0;
    while m < meshes.len()
        invariant
            m <= meshes@.len(),
            out@.len() == m,
            done.len() == m,
            meshes_out(meshes@, vertex_decls@, handedness@, m as nat) == Ok::<(Seq<Seq<u8>>, int), ExportError>(
                (done, used as int),
            ),
            forall|k: int|
                0 <= k < m ==> same_but_vertices(meshes@[k], #[trigger] out@[k]) && out@[k].vertex_buffer.data@
                    == done[k],
        decreases meshes@.len() - m,
    {
        let (mesh, after) = match transform_mesh(&meshes[m], vertex_decls, handedness, used) {
            Ok(pair) => pair,
            Err(e) => {
                proof {
                    lemma_meshes_out_stays(meshes@, vertex_decls@, handedness@, (m + 1) as nat, meshes@.len());
                }
                return Err(e);
            },
        };
        let ghost before = out@;
        let ghost had = done;
        proof {
            done = done.push(mesh.vertex_buffer.data@);
        }
        out.push(mesh);
        assert forall|k: int| 0 <= k < m + 1 implies same_but_vertices(meshes@[k], #[trigger] out@[k])
            && out@[k].vertex_buffer.data@ == done[k] by {
            if k < m {
                assert(out@[k] == before[k]);
                assert(done[k] == had[k]);
            }
        }
        used = after;
        m = m + 1;
    }
    if used != handedness.len() {
        return Err(ExportError::PartOutOfRange);
    }
    Ok(out)
}

/// Why the frames of the vertices of a part cannot be read, or `None`
/// where they can or the part has no tangent: the part names a
/// declaration that is not there, or it has a tangent and its declaration
/// has no size, its vertices lie past those of its mesh, or the
/// declaration lacks a normal or a binormal.
pub open spec fn part_frames_error(mesh: Mesh, decls: Seq<VertexDeclaration>, part: MeshPart) -> Option<ExportError> {
    if part.vertex_decl_index >= decls.len() {
        Some(ExportError::DeclarationOutOfRange { index: part.vertex_decl_index })
    } else {
        let elements = decls[part.vertex_decl_index as int].elements@;
        let stride = source_stride(elements, elements.len());
        if !has_tangent(elements) {
            None
        } else if stride == 0 {
            Some(ExportError::EmptyDeclaration)
        } else if (part.base_vertex + part.vertex_count) * stride > mesh.vertex_buffer.data@.len() {
            Some(ExportError::PartOutOfRange)
        } else {
            frames_error(part.vertex_count * stride, elements)
        }
    }
}

/// The frames of the vertices of the first `k` parts of a mesh that have
/// a tangent, one part behind the other, or why those of the first part
/// that cannot be read cannot.
pub open spec fn mesh_frames(mesh: Mesh, decls: Seq<VertexDeclaration>, k: nat) -> Result<
    Seq<TangentFrame>,
    ExportError,
>
    decreases k,
{
    if k == 0 {
        Ok(Seq::empty())
    } else {
        match mesh_frames(mesh, decls, (k - 1) as nat) {
            Err(e) => Err(e),
            Ok(done) => {
                let part = mesh.parts@[k - 1];
                match part_frames_error(mesh, decls, part) {
                    Some(e) => Err(e),
                    None => {
                        let decl = decls[part.vertex_decl_index as int];
                        let stride = source_stride(decl.elements@, decl.elements@.len());
                        if has_tangent(decl.elements@) {
                            Ok(
                                done + frames_of(
                                    mesh.vertex_buffer.data@.subrange(
                                        part.base_vertex * stride,
                                        (part.base_vertex + part.vertex_count) * stride,
                                    ),
                                    stride,
                                    frame_offsets(decl.elements@)->0,
                                    part.vertex_count as nat,
                                ),
                            )
                        } else {
                            Ok(done)
                        }
                    },
                }
            },
        }
    }
}

/// Once a part has been refused, the mesh has been.
pub proof fn lemma_mesh_frames_stays(mesh: Mesh, decls: Seq<VertexDeclaration>, k: nat, n: nat)
    requires
        k <= n,
        mesh_frames(mesh, decls, k) is Err,
    ensures
        mesh_frames(mesh, decls, n) == mesh_frames(mesh, decls, k),
    decreases n - k,
{
    if k < n {
        lemma_mesh_frames_stays(mesh, decls, k, (n - 1) as nat);
    }
}

/// The frames of the first `m` meshes of a model, one mesh behind the
/// other, or why those of the first mesh that cannot be read cannot.
pub open spec fn model_frames(model: Model, m: nat) -> Result<Seq<TangentFrame>, ExportError>
    decreases m,
{
    if m == 0 {
        Ok(Seq::empty())
    } else {
        match model_frames(model, (m - 1) as nat) {
            Err(e) => Err(e),
            Ok(done) => match mesh_frames(
                model.meshes@[m - 1],
                model.vertex_decls@,
                model.meshes@[m - 1].parts@.len(),
            ) {
                Err(e) => Err(e),
                Ok(frames) => Ok(done + frames),
            },
        }
    }
}

/// Once a mesh has been refused, the model has been.
pub proof fn lemma_model_frames_stays(model: Model, k: nat, n: nat)
    requires
        k <= n,
        model_frames(model, k) is Err,
    ensures
        model_frames(model, n) == model_frames(model, k),
    decreases n - k,
{
    if k < n {
        lemma_model_frames_stays(model, k, (n - 1) as nat);
    }
}

impl Model {
    /// The frames of all vertices that have a tangent, in the order of the
    /// meshes and of their parts: the handedness of each is what
    /// `TransformedModel::from_model` asks for.
    pub fn tangent_frames(&self) -> (res: Result<Vec<TangentFrame>, ExportError>)
        ensures
            match res {
                Ok(frames) => model_frames(*self, self.meshes@.len()) == Ok::<Seq<TangentFrame>, ExportError>(
                    frames@,
                ),
                Err(e) => model_frames(*self, self.meshes@.len()) == Err::<Seq<TangentFrame>, ExportError>(e),
            },
    {
        let mut frames: Vec<TangentFrame> = Vec::new();
        let mut m: usize = 0;
        while m < self.meshes.len()
            invariant
                m <= self.meshes@.len(),
                model_frames(*self, m as nat) == Ok::<Seq<TangentFrame>, ExportError>(frames@),
            decreases self.meshes@.len() - m,
        {
            let mesh = &self.meshes[m];
            let ghost start = frames@;
            let ghost mut done: Seq<TangentFrame> = Seq::empty();
            let ghost parts = mesh.parts@.len();
            let mut i: usize = 0;
            assert(start + done =~= start);
            while i < mesh.parts.len()
                invariant
                    i <= mesh.parts@.len(),
                    m < self.meshes@.len(),
                    parts == mesh.parts@.len(),
                    *mesh == self.meshes@[m as int],
                    model_frames(*self, m as nat) == Ok::<Seq<TangentFrame>, ExportError>(start),
                    mesh_frames(*mesh, self.vertex_decls@, i as nat) == Ok::<Seq<TangentFrame>, ExportError>(done),
                    frames@ == start + done,
                decreases mesh.parts@.len() - i,
            {
                let part = &mesh.parts[i];
                let index = part.vertex_decl_index as usize;
                if index >= self.vertex_decls.len() {
                    proof {
                        lemma_mesh_frames_stays(*mesh, self.vertex_decls@, (i + 1) as nat, parts);
                        lemma_model_frames_stays(*self, (m + 1) as nat, self.meshes@.len());
                    }
                    return Err(ExportError::DeclarationOutOfRange { index: part.vertex_decl_index });
                }
                let decl = &self.vertex_decls[index];
                if decl.tangent().is_some() {
                    let stride = decl.stride();
                    let source = match part_data(mesh, part, stride) {
                        Ok(source) => source,
                        Err(e) => {
                            proof {
                                lemma_mesh_frames_stays(*mesh, self.vertex_decls@, (i + 1) as nat, parts);
                                lemma_model_frames_stays(*self, (m + 1) as nat, self.meshes@.len());
                            }
                            return Err(e);
                        },
                    };
                    let ghost before = frames@;
                    match tangent_frames(source, decl, &mut frames) {
                        Ok(()) => {},
                        Err(e) => {
                            proof {
                                lemma_mesh_frames_stays(*mesh, self.vertex_decls@, (i + 1) as nat, parts);
                                lemma_model_frames_stays(*self, (m + 1) as nat, self.meshes@.len());
                            }
                            return Err(e);
                        },
                    }
                    proof {
                        let n = part.vertex_count as int;
                        assert((n * stride) / (stride as int) == n) by (nonlinear_arith)
                            requires
                                stride > 0,
                                n >= 0,
                        ;
                        let more = frames_of(source@, stride as int, frame_offsets(decl.elements@)->0, n as nat);
                        assert(frames@ == before + more);
                        assert(part_frames_error(*mesh, self.vertex_decls@, *part) is None);
                        assert(frames@ =~= start + (done + more));
                        done = done + more;
                    }
                } else {
                    assert(part_frames_error(*mesh, self.vertex_decls@, *part) is None);
                }
                i = i + 1;
            }
            m = m + 1;
        }
        Ok(frames)
    }
}

/// Whether `decl` is `source` in the terms of the scene.
pub open spec fn declaration_matches(source: VertexDeclaration, decl: TransformedVertexDeclaration) -> bool {
    transformed(source.elements@, has_tangent(source.elements@), source.elements@.len()) matches Ok(
        (elements, _),
    ) && decl.elements@ == elements
}

/// Whether `decls` are `sources` in the terms of the scene, one for one.
pub open spec fn declarations_match(sources: Seq<VertexDeclaration>, decls: Seq<TransformedVertexDeclaration>) -> bool {
    &&& decls.len() == sources.len()
    &&& forall|i: int| 0 <= i < sources.len() ==> declaration_matches(sources[i], #[trigger] decls[i])
}

/// Why the first `k` declarations cannot be put in the terms of the
/// scene: why the first of them that cannot be cannot. `None` where all
/// can.
pub open spec fn declarations_error(sources: Seq<VertexDeclaration>, k: nat) -> Option<ExportError>
    decreases k,
{
    if k == 0 {
        None
    } else {
        match declarations_error(sources, (k - 1) as nat) {
            Some(e) => Some(e),
            None => {
                let elements = sources[k - 1].elements@;
                match transformed(elements, has_tangent(elements), elements.len()) {
                    Err(e) => Some(e),
                    Ok(_) => None,
                }
            },
        }
    }
}

/// Once a declaration has been refused, all have been.
pub proof fn lemma_declarations_error_stays(sources: Seq<VertexDeclaration>, k: nat, n: nat)
    requires
        k <= n,
        declarations_error(sources, k) is Some,
    ensures
        declarations_error(sources, n) == declarations_error(sources, k),
    decreases n - k,
{
    if k < n {
        lemma_declarations_error_stays(sources, k, (n - 1) as nat);
    }
}

/// Puts every vertex declaration in the terms of the scene.
pub fn transform_declarations(sources: &[VertexDeclaration]) -> (res: Result<
    Vec<TransformedVertexDeclaration>,
    ExportError,
>)
    ensures
        res matches Err(e) ==> e !is UnknownChannelTarget,
        match res {
            Ok(decls) => declarations_error(sources@, sources@.len()) is None && declarations_match(
                sources@,
                decls@,
            ),
            Err(e) => declarations_error(sources@, sources@.len()) == Some(e),
        },
{
    let mut decls: Vec<TransformedVertexDeclaration> = Vec::new();
    let mut i: usize = 0;
    while i < sources.len()
        invariant
            i <= sources@.len(),
            decls@.len() == i,
            declarations_error(sources@, i as nat) is None,
            forall|k: int| 0 <= k < i ==> declaration_matches(sources@[k], #[trigger] decls@[k]),
        decreases sources@.len() - i,
    {
        let decl = match TransformedVertexDeclaration::from_declaration(&sources[i]) {
            Ok(decl) => decl,
            Err(e) => {
                proof {
                    lemma_declarations_error_stays(sources@, (i + 1) as nat, sources@.len());
                }
                return Err(e);
            },
        };
        let ghost before = decls@;
        decls.push(decl);
        assert forall|k: int| 0 <= k < i + 1 implies declaration_matches(sources@[k], #[trigger] decls@[k]) by {
            if k < i {
                assert(decls@[k] == before[k]);
            }
        }
        i = i + 1;
    }
    Ok(decls)
}

/// Why a model cannot be made ready for the scene: a declaration cannot
/// be put in its terms, or the vertices of a mesh cannot be written.
/// `None` where it can.
pub open spec fn model_error(model: Model, handedness: Seq<Single>) -> Option<ExportError> {
    match declarations_error(model.vertex_decls@, model.vertex_decls@.len()) {
        Some(e) => Some(e),
        None => match model_vertices(model.meshes@, model.vertex_decls@, handedness) {
            Err(e) => Some(e),
            Ok(_) => None,
        },
    }
}

impl<'a> TransformedModel<'a> {
    /// Makes a model ready for the scene. `handedness` holds the
    /// handedness of the tangent of every vertex that has one, in the
    /// order of `Model::tangent_frames`.
    pub fn from_model(model: &'a Model, handedness: &[Single]) -> (res: Result<Self, ExportError>)
        ensures
            res matches Err(e) ==> e !is UnknownChannelTarget,
            match res {
                Ok(t) => {
                    &&& model_error(*model, handedness@) is None
                    &&& t.model == model
                    &&& declarations_match(model.vertex_decls@, t.vertex_decls@)
                    &&& model_vertices(model.meshes@, model.vertex_decls@, handedness@) matches Ok(vertices)
                    &&& t.meshes@.len() == model.meshes@.len()
                    &&& vertices.len() == model.meshes@.len()
                    &&& forall|m: int|
                        0 <= m < model.meshes@.len() ==> same_but_vertices(
                            model.meshes@[m],
                            #[trigger] t.meshes@[m],
                        ) && t.meshes@[m].vertex_buffer.data@ == vertices[m]
                },
                Err(e) => model_error(*model, handedness@) == Some(e),
            },
    {
        let vertex_decls = transform_declarations(model.vertex_decls.as_slice())?;
        let meshes = transform_meshes(model.meshes.as_slice(), model.vertex_decls.as_slice(), handedness)?;
        Ok(TransformedModel { model, vertex_decls, meshes })
    }
}

/// An export: the document of the scene and the buffer that it describes.
pub struct Export {
    pub scene: Scene,
    pub buffer: FullBuffer,
}

/// The elements of a declaration in the terms of the scene, and none
/// for a declaration that cannot be put in them.
pub open spec fn elements_for_scene(source: VertexDeclaration) -> Seq<TransformedVertexElement> {
    match transformed(source.elements@, has_tangent(source.elements@), source.elements@.len()) {
        Ok((elements, _)) => elements,
        Err(_) => Seq::empty(),
    }
}

/// The elements of each declaration in the terms of the scene.
pub open spec fn scene_elements(sources: Seq<VertexDeclaration>) -> Seq<Seq<TransformedVertexElement>> {
    Seq::new(sources.len(), |k: int| elements_for_scene(sources[k]))
}

/// Puts every vertex declaration in the terms of the scene. One that
/// cannot be put in them becomes a declaration without elements, which
/// no part can be drawn with.
pub fn declarations_for_scene(sources: &[VertexDeclaration]) -> (decls: Vec<TransformedVertexDeclaration>)
    ensures
        elements_of(decls@) == scene_elements(sources@),
{
    let mut decls: Vec<TransformedVertexDeclaration> = Vec::new();
    let mut i: usize = 0;
    while i < sources.len()
        invariant
            i <= sources@.len(),
            decls@.len() == i,
            forall|k: int| 0 <= k < i ==> (#[trigger] decls@[k]).elements@ == elements_for_scene(sources@[k]),
        decreases sources@.len() - i,
    {
        let decl = match TransformedVertexDeclaration::from_declaration(&sources[i]) {
            Ok(decl) => decl,
            Err(_) => TransformedVertexDeclaration { elements: Vec::new() },
        };
        let ghost before = decls@;
        decls.push(decl);
        assert forall|k: int| 0 <= k < i + 1 implies (#[trigger] decls@[k]).elements@ == elements_for_scene(
            sources@[k],
        ) by {
            if k < i {
                assert(decls@[k] == before[k]);
            }
        }
        i = i + 1;
    }
    assert(elements_of(decls@) =~= scene_elements(sources@));
    decls
}

/// Why the declaration that a part names cannot be put in the terms of
/// the scene, or `None` where it can or the part names none that is
/// there.
pub open spec fn named_error(decls: Seq<VertexDeclaration>, part: MeshPart) -> Option<ExportError> {
    if part.vertex_decl_index < decls.len() {
        let elements = decls[part.vertex_decl_index as int].elements@;
        match transformed(elements, has_tangent(elements), elements.len()) {
            Err(e) => Some(e),
            Ok(_) => None,
        }
    } else {
        None
    }
}

/// Whether every declaration that a part of a mesh names can be put in
/// the terms of the scene.
pub open spec fn named_are_sound(meshes: Seq<Mesh>, decls: Seq<VertexDeclaration>) -> bool {
    forall|m: int, i: int|
        0 <= m < meshes.len() && 0 <= i < meshes[m].parts@.len() ==> named_error(
            decls,
            #[trigger] meshes[m].parts@[i],
        ) is None
}

/// Checks that every declaration that a part of a mesh names can be put
/// in the terms of the scene. A declaration that no part names is not
/// looked at.
pub fn check_named(meshes: &[Mesh], decls: &[VertexDeclaration]) -> (res: Result<(), ExportError>)
    ensures
        res matches Err(e) ==> e !is UnknownChannelTarget,
        res is Ok == named_are_sound(meshes@, decls@),
        res matches Err(e) ==> exists|m: int, i: int|
            0 <= m < meshes@.len() && 0 <= i < meshes@[m].parts@.len() && named_error(
                decls@,
                #[trigger] meshes@[m].parts@[i],
            ) == Some(e),
{
    let mut m: usize = 0;
    while m < meshes.len()
        invariant
            m <= meshes@.len(),
            forall|a: int, i: int|
                0 <= a < m && 0 <= i < meshes@[a].parts@.len() ==> named_error(
                    decls@,
                    #[trigger] meshes@[a].parts@[i],
                ) is None,
        decreases meshes@.len() - m,
    {
        let mesh = &meshes[m];
        let mut i: usize = 0;
        while i < mesh.parts.len()
            invariant
                i <= mesh.parts@.len(),
                m < meshes@.len(),
                *mesh == meshes@[m as int],
                forall|k: int| 0 <= k < i ==> named_error(decls@, #[trigger] mesh.parts@[k]) is None,
            decreases mesh.parts@.len() - i,
        {
            let index = mesh.parts[i].vertex_decl_index as usize;
            if index < decls.len() {
                match TransformedVertexDeclaration::from_declaration(&decls[index]) {
                    Ok(_) => {},
                    Err(e) => {
                        assert(named_error(decls@, meshes@[m as int].parts@[i as int]) == Some(e));
                        return Err(e);
                    },
                }
            }
            i = i + 1;
        }
        m = m + 1;
    }
    Ok(())
}

/// Declarations that match their sources hold the elements of the
/// sources in the terms of the scene.
pub proof fn lemma_elements_match(sources: Seq<VertexDeclaration>, decls: Seq<TransformedVertexDeclaration>)
    requires
        declarations_match(sources, decls),
    ensures
        elements_of(decls) == scene_elements(sources),
{
    assert forall|k: int| 0 <= k < sources.len() implies elements_of(decls)[k] == scene_elements(sources)[k] by {
        assert(declaration_matches(sources[k], decls[k]));
    }
    assert(elements_of(decls) =~= scene_elements(sources));
}

/// Whether a node that draws a mesh is bound to the skin at `skin`.
pub open spec fn has_skin(node: Node, skin: usize) -> bool {
    node.mesh is Some ==> node.skin == Some(skin)
}

/// Whether some children of the node at `parent`, one behind the other,
/// draw the parts of a mesh in their order.
pub open spec fn mesh_drawn(
    scene: &Scene,
    parent: int,
    decls: Seq<Seq<TransformedVertexElement>>,
    materials: Seq<Option<usize>>,
    parts: Seq<MeshPart>,
    data: Source,
) -> bool {
    exists|start: int| parts_from(scene, parent, start, decls, materials, parts, data)
}

/// Children that draw the parts of a mesh in a document draw them in
/// every document that extends it.
pub proof fn lemma_mesh_drawn_later(
    before: &Scene,
    after: &Scene,
    parent: int,
    decls: Seq<Seq<TransformedVertexElement>>,
    materials: Seq<Option<usize>>,
    parts: Seq<MeshPart>,
    data: Source,
)
    requires
        mesh_drawn(before, parent, decls, materials, parts, data),
        before.extends(after),
    ensures
        mesh_drawn(after, parent, decls, materials, parts, data),
{
    let start = choose|start: int| parts_from(before, parent, start, decls, materials, parts, data);
    lemma_parts_from_later(before, after, parent, start, decls, materials, parts, data);
}

/// Whether the bone that a mesh belongs to is one of `bones` bones:
/// references count from 1.
pub open spec fn bone_ref_in(mesh: Mesh, bones: int) -> bool {
    1 <= mesh.parent_bone_ref <= bones
}

/// Whether each of the first `m` meshes stands below the node of the bone
/// that it belongs to.
pub open spec fn below_bones(meshes: Seq<Mesh>, parents: Seq<usize>, bones: Seq<usize>, m: int) -> bool {
    forall|i: int|
        0 <= i < m ==> bone_ref_in(#[trigger] meshes[i], bones.len() as int) && parents[i] == bones[meshes[
            i
        ].parent_bone_ref - 1]
}

/// What the parts of mesh `m` read of it, where the buffer holds the
/// meshes.
pub open spec fn mesh_source(meshes: Seq<Mesh>, buffer: FullBuffer, m: int) -> Source {
    source_of(meshes[m], buffer.vertices@[m].offset, buffer.indices@[m].offset)
}

/// Why the first `k` meshes cannot be added to a document: why the first
/// of them that cannot be cannot. `None` where all can.
pub open spec fn meshes_refusal(
    buffer_length: int,
    material_count: int,
    decls: Seq<Seq<TransformedVertexElement>>,
    materials: Seq<Option<usize>>,
    meshes: Seq<Mesh>,
    buffer: FullBuffer,
    bones: Option<Seq<usize>>,
    k: nat,
) -> Option<ExportError>
    decreases k,
{
    if k == 0 {
        None
    } else {
        match meshes_refusal(buffer_length, material_count, decls, materials, meshes, buffer, bones, (k - 1) as nat) {
            Some(e) => Some(e),
            None => mesh_refusal(
                buffer_length,
                material_count,
                decls,
                materials,
                meshes[k - 1].parts@,
                mesh_source(meshes, buffer, k - 1),
                meshes[k - 1].parent_bone_ref,
                bones,
            ),
        }
    }
}

/// Once a mesh has been refused, all have been.
pub proof fn lemma_meshes_refusal_stays(
    buffer_length: int,
    material_count: int,
    decls: Seq<Seq<TransformedVertexElement>>,
    materials: Seq<Option<usize>>,
    meshes: Seq<Mesh>,
    buffer: FullBuffer,
    bones: Option<Seq<usize>>,
    k: nat,
    n: nat,
)
    requires
        k <= n,
        meshes_refusal(buffer_length, material_count, decls, materials, meshes, buffer, bones, k) is Some,
    ensures
        meshes_refusal(buffer_length, material_count, decls, materials, meshes, buffer, bones, n) == meshes_refusal(
            buffer_length,
            material_count,
            decls,
            materials,
            meshes,
            buffer,
            bones,
            k,
        ),
    decreases n - k,
{
    if k < n {
        lemma_meshes_refusal_stays(
            buffer_length,
            material_count,
            decls,
            materials,
            meshes,
            buffer,
            bones,
            k,
            (n - 1) as nat,
        );
    }
}

/// Whether mesh `m` can be added to a document.
pub open spec fn mesh_fits(
    buffer_length: int,
    material_count: int,
    decls: Seq<Seq<TransformedVertexElement>>,
    materials: Seq<Option<usize>>,
    meshes: Seq<Mesh>,
    buffer: FullBuffer,
    bones: Option<Seq<usize>>,
    m: int,
) -> bool {
    mesh_refusal(
        buffer_length,
        material_count,
        decls,
        materials,
        meshes[m].parts@,
        mesh_source(meshes, buffer, m),
        meshes[m].parent_bone_ref,
        bones,
    ) is None
}

/// The meshes can be added where each of them can.
pub proof fn lemma_meshes_refusal_none(
    buffer_length: int,
    material_count: int,
    decls: Seq<Seq<TransformedVertexElement>>,
    materials: Seq<Option<usize>>,
    meshes: Seq<Mesh>,
    buffer: FullBuffer,
    bones: Option<Seq<usize>>,
    k: nat,
)
    ensures
        meshes_refusal(buffer_length, material_count, decls, materials, meshes, buffer, bones, k) is None
            <==> forall|m: int|
            0 <= m < k ==> #[trigger] mesh_fits(
                buffer_length,
                material_count,
                decls,
                materials,
                meshes,
                buffer,
                bones,
                m,
            ),
    decreases k,
{
    if k > 0 {
        lemma_meshes_refusal_none(
            buffer_length,
            material_count,
            decls,
            materials,
            meshes,
            buffer,
            bones,
            (k - 1) as nat,
        );
        if meshes_refusal(buffer_length, material_count, decls, materials, meshes, buffer, bones, k) is None {
            assert forall|m: int| 0 <= m < k implies #[trigger] mesh_fits(
                buffer_length,
                material_count,
                decls,
                materials,
                meshes,
                buffer,
                bones,
                m,
            ) by {}
        } else {
            if meshes_refusal(
                buffer_length,
                material_count,
                decls,
                materials,
                meshes,
                buffer,
                bones,
                (k - 1) as nat,
            ) is None {
                assert(!mesh_fits(buffer_length, material_count, decls, materials, meshes, buffer, bones, k - 1));
            }
        }
    }
}

/// What the parts of a mesh read of it where its vertices are
/// `vertices`, whatever buffer it lies in.
pub open spec fn bare_source(mesh: Mesh, vertices: Seq<u8>) -> Source {
    Source {
        vertices,
        index_length: mesh.index_buffer.data@.len(),
        is_16_bit: mesh.index_buffer.is_16_bit,
        vertex_offset: 0,
        index_offset: 0,
    }
}

/// Whether nothing is wrong with part `i` of a mesh whose vertices are
/// `vertices`, where the declarations are those of `decls` in the terms
/// of the scene and the materials are those of the pool.
pub open spec fn part_sound(
    pool: Seq<Content>,
    decls: Seq<VertexDeclaration>,
    mesh: Mesh,
    vertices: Seq<u8>,
    i: int,
) -> bool {
    part_flaw(
        materials_before(pool, pool.len()) as int,
        scene_elements(decls),
        material_places(pool),
        mesh.parts@[i],
        bare_source(mesh, vertices),
    ) is None
}

/// A mesh that lies within the buffer can be added where nothing is wrong
/// with any of its parts and it can stand below the node of its bone.
pub proof fn lemma_mesh_fits(
    pool: Seq<Content>,
    decls: Seq<VertexDeclaration>,
    mesh: Mesh,
    buffer_length: int,
    meshes: Seq<Mesh>,
    buffer: FullBuffer,
    bones: Option<Seq<usize>>,
    m: int,
)
    requires
        0 <= m < meshes.len(),
        same_but_vertices(mesh, meshes[m]),
        source_within(buffer_length, mesh_source(meshes, buffer, m)),
    ensures
        mesh_fits(
            buffer_length,
            materials_before(pool, pool.len()) as int,
            scene_elements(decls),
            material_places(pool),
            meshes,
            buffer,
            bones,
            m,
        ) <==> parent_refusal(mesh.parent_bone_ref, bones) is None && forall|i: int|
            0 <= i < mesh.parts@.len() ==> #[trigger] part_sound(pool, decls, mesh, meshes[m].vertex_buffer.data@, i),
{
    let count = materials_before(pool, pool.len()) as int;
    let elements = scene_elements(decls);
    let materials = material_places(pool);
    let data = mesh_source(meshes, buffer, m);
    let bare = bare_source(mesh, meshes[m].vertex_buffer.data@);
    let parts = mesh.parts@;
    lemma_parts_refusal_none(buffer_length, count, elements, materials, parts, data, parts.len());
    assert forall|i: int| 0 <= i < parts.len() implies (part_refusal(
        buffer_length,
        count,
        elements,
        materials,
        #[trigger] parts[i],
        data,
    ) is None <==> part_sound(pool, decls, mesh, meshes[m].vertex_buffer.data@, i)) by {
        lemma_refusal_is_flaw(buffer_length, count, elements, materials, parts[i], data, bare);
    }
    if parts_refusal(buffer_length, count, elements, materials, parts, data, parts.len()) is None {
        assert forall|i: int| 0 <= i < parts.len() implies #[trigger] part_sound(
            pool,
            decls,
            mesh,
            meshes[m].vertex_buffer.data@,
            i,
        ) by {
            assert(part_refusal(buffer_length, count, elements, materials, parts[i], data) is None);
        }
    }
    if forall|i: int|
        0 <= i < parts.len() ==> #[trigger] part_sound(pool, decls, mesh, meshes[m].vertex_buffer.data@, i) {
        assert forall|i: int| 0 <= i < parts.len() implies part_refusal(
            buffer_length,
            count,
            elements,
            materials,
            #[trigger] parts[i],
            data,
        ) is None by {
            assert(part_sound(pool, decls, mesh, meshes[m].vertex_buffer.data@, i));
        }
    }
}

/// Adds the nodes of the parts of every mesh and returns the nodes that
/// they stand below and the nodes of all parts. With bones a mesh stands
/// below the node of its bone, without them below a node of its own.
fn build_meshes(
    scene: &mut Scene,
    decls: &[TransformedVertexDeclaration],
    meshes: &[Mesh],
    buffer: &FullBuffer,
    materials: &[Option<usize>],
    bones: Option<&[usize]>,
) -> (res: Result<(Vec<usize>, Vec<usize>), ExportError>)
    requires
        old(scene).wf(),
        buffer.vertices@.len() == meshes@.len(),
        buffer.indices@.len() == meshes@.len(),
        bones matches Some(b) ==> forall|i: int| 0 <= i < b@.len() ==> #[trigger] b@[i] < old(scene).nodes@.len(),
    ensures
        res matches Err(e) ==> e !is UnknownChannelTarget,
        res matches Err(e) ==> meshes_refusal(
            old(scene).buffer_length as int,
            old(scene).materials@.len() as int,
            elements_of(decls@),
            materials@,
            meshes@,
            *buffer,
            places_of(bones),
            meshes@.len(),
        ) == Some(e),
        res matches Ok((parents, parts)) ==> {
            &&& meshes_refusal(
                old(scene).buffer_length as int,
                old(scene).materials@.len() as int,
                elements_of(decls@),
                materials@,
                meshes@,
                *buffer,
                places_of(bones),
                meshes@.len(),
            ) is None
            &&& forall|i: int|
                old(scene).nodes@.len() <= i < final(scene).nodes@.len() ==> (#[trigger] final(scene).nodes@[i]).name
                    is None
            &&& final(scene).wf()
            &&& old(scene).extends(final(scene))
            &&& old(scene).keeps_rest(final(scene))
            &&& parents@.len() == meshes@.len()
            &&& forall|i: int| 0 <= i < parents@.len() ==> #[trigger] parents@[i] < final(scene).nodes@.len()
            &&& forall|i: int| 0 <= i < parts@.len() ==> #[trigger] parts@[i] < final(scene).nodes@.len()
            &&& forall|i: int|
                0 <= i < meshes@.len() ==> mesh_drawn(
                    final(scene),
                    #[trigger] parents@[i] as int,
                    elements_of(decls@),
                    materials@,
                    meshes@[i].parts@,
                    mesh_source(meshes@, *buffer, i),
                )
            &&& bones is None ==> forall|i: int|
                0 <= i < meshes@.len() ==> parts_from(
                    final(scene),
                    #[trigger] parents@[i] as int,
                    0,
                    elements_of(decls@),
                    materials@,
                    meshes@[i].parts@,
                    mesh_source(meshes@, *buffer, i),
                )
            &&& bones matches Some(b) ==> below_bones(meshes@, parents@, b@, meshes@.len() as int)
        },
{
    let ghost start = *scene;
    proof {
        lemma_extends_refl(&start);
    }
    let mut parents: Vec<usize> = Vec::new();
    let mut all: Vec<usize> = Vec::new();
    let mut m: usize = 0;
    while m < meshes.len()
        invariant
            m <= meshes@.len(),
            scene.wf(),
            start.extends(scene),
            start.keeps_rest(scene),
            start == *old(scene),
            start.nodes@.len() <= scene.nodes@.len(),
            buffer.vertices@.len() == meshes@.len(),
            buffer.indices@.len() == meshes@.len(),
            bones matches Some(b) ==> forall|i: int| 0 <= i < b@.len() ==> #[trigger] b@[i] < start.nodes@.len(),
            meshes_refusal(
                start.buffer_length as int,
                start.materials@.len() as int,
                elements_of(decls@),
                materials@,
                meshes@,
                *buffer,
                places_of(bones),
                m as nat,
            ) is None,
            forall|i: int| start.nodes@.len() <= i < scene.nodes@.len() ==> (#[trigger] scene.nodes@[i]).name is None,
            parents@.len() == m,
            forall|i: int| 0 <= i < parents@.len() ==> #[trigger] parents@[i] < scene.nodes@.len(),
            forall|i: int| 0 <= i < all@.len() ==> #[trigger] all@[i] < scene.nodes@.len(),
            forall|i: int|
                0 <= i < m ==> mesh_drawn(
                    scene,
                    #[trigger] parents@[i] as int,
                    elements_of(decls@),
                    materials@,
                    meshes@[i].parts@,
                    mesh_source(meshes@, *buffer, i),
                ),
            bones is None ==> forall|i: int|
                0 <= i < m ==> parts_from(
                    scene,
                    #[trigger] parents@[i] as int,
                    0,
                    elements_of(decls@),
                    materials@,
                    meshes@[i].parts@,
                    mesh_source(meshes@, *buffer, i),
                ),
            bones matches Some(b) ==> below_bones(meshes@, parents@, b@, m as int),
        decreases meshes@.len() - m,
    {
        let data = MeshData {
            mesh: &meshes[m],
            vertex_offset: buffer.vertices[m].offset,
            index_offset: buffer.indices[m].offset,
        };
        let ghost before = *scene;
        let ghost p0 = parents@;
        let ghost a0 = all@;
        let (parent, parts) = match build_mesh_parts(scene, decls, &data, materials, bones) {
            Ok(pair) => pair,
            Err(e) => {
                proof {
                    assert(data.source() == mesh_source(meshes@, *buffer, m as int));
                    lemma_meshes_refusal_stays(
                        start.buffer_length as int,
                        start.materials@.len() as int,
                        elements_of(decls@),
                        materials@,
                        meshes@,
                        *buffer,
                        places_of(bones),
                        (m + 1) as nat,
                        meshes@.len(),
                    );
                }
                return Err(e);
            },
        };
        parents.push(parent);
        let mut i: usize = 0;
        while i < parts.len()
            invariant
                i <= parts@.len(),
                forall|k: int| 0 <= k < parts@.len() ==> #[trigger] parts@[k] < scene.nodes@.len(),
                forall|k: int| 0 <= k < a0.len() ==> #[trigger] a0[k] < scene.nodes@.len(),
                all@ == a0 + parts@.subrange(0, i as int),
            decreases parts@.len() - i,
        {
            all.push(parts[i]);
            assert(all@ =~= a0 + parts@.subrange(0, i + 1));
            i = i + 1;
        }
        proof {
            lemma_extends_trans(&start, &before, scene);
            assert(data.source() == mesh_source(meshes@, *buffer, m as int));
            assert forall|i: int| start.nodes@.len() <= i < scene.nodes@.len() implies (#[trigger] scene.nodes@[
                i
            ]).name is None by {
                if i < before.nodes@.len() {
                    assert(before.nodes@[i].name is None);
                    assert(node_extends(before.nodes@[i], scene.nodes@[i]));
                }
            }
            assert forall|k: int| 0 <= k < parents@.len() implies #[trigger] parents@[k] < scene.nodes@.len() by {
                if k < m {
                    assert(parents@[k] == p0[k]);
                }
            }
            assert forall|k: int| 0 <= k < m + 1 implies mesh_drawn(
                scene,
                #[trigger] parents@[k] as int,
                elements_of(decls@),
                materials@,
                meshes@[k].parts@,
                mesh_source(meshes@, *buffer, k),
            ) by {
                if k < m {
                    assert(parents@[k] == p0[k]);
                    lemma_mesh_drawn_later(
                        &before,
                        scene,
                        p0[k] as int,
                        elements_of(decls@),
                        materials@,
                        meshes@[k].parts@,
                        mesh_source(meshes@, *buffer, k),
                    );
                }
            }
            if bones is None {
                assert forall|k: int| 0 <= k < m + 1 implies parts_from(
                    scene,
                    #[trigger] parents@[k] as int,
                    0,
                    elements_of(decls@),
                    materials@,
                    meshes@[k].parts@,
                    mesh_source(meshes@, *buffer, k),
                ) by {
                    if k < m {
                        assert(parents@[k] == p0[k]);
                        lemma_parts_from_later(
                            &before,
                            scene,
                            p0[k] as int,
                            0,
                            elements_of(decls@),
                            materials@,
                            meshes@[k].parts@,
                            mesh_source(meshes@, *buffer, k),
                        );
                    }
                }
            } else {
                let b = bones->0;
                assert(parents@[m as int] == parent);
                assert(data.mesh.parent_bone_ref == meshes@[m as int].parent_bone_ref);
                assert(1 <= meshes@[m as int].parent_bone_ref <= b@.len());
                assert(parent == b@[meshes@[m as int].parent_bone_ref - 1]);
                assert(below_bones(meshes@, p0, b@, m as int));
                assert forall|k: int| 0 <= k < m + 1 implies bone_ref_in(#[trigger] meshes@[k], b@.len() as int)
                    && parents@[k] == b@[meshes@[k].parent_bone_ref - 1] by {
                    if k < m {
                        assert(parents@[k] == p0[k]);
                    }
                }
                assert(below_bones(meshes@, parents@, b@, m + 1));
            }
        }
        m = m + 1;
    }
    Ok((parents, all))
}

/// Whether a joint has the name of every channel of every clip.
pub open spec fn clips_name_joints(pool: Seq<Content>, order: Seq<usize>, clips: Seq<usize>) -> bool {
    forall|c: int, h: int|
        0 <= c < clips.len() && 0 <= h < clip_of(pool, clips[c])->0.channels@.len() ==> names_joint(
            pool,
            order,
            (#[trigger] clip_of(pool, clips[c])->0.channels@[h]).name@,
        )
}

/// Whether a skinned model can be exported but for the names of its
/// channels: its bones are a skeleton, the declarations that its parts
/// name can be put in the terms of the scene, it can be packed, and
/// nothing is wrong with any part of any mesh.
pub open spec fn skinned_sound(model: SkinnedModel, pool: Seq<Content>) -> bool {
    &&& skeleton_of(pool, model.shared_bone_refs@) matches Ok(order)
    &&& named_are_sound(model.model.meshes@, model.model.vertex_decls@)
    &&& packable(model.model.meshes@, pool, order, model.shared_animation_refs@)
    &&& forall|m: int, i: int|
        0 <= m < model.model.meshes@.len() && 0 <= i < model.model.meshes@[m].parts@.len() ==> #[trigger] part_sound(
            pool,
            model.model.vertex_decls@,
            model.model.meshes@[m],
            model.model.meshes@[m].vertex_buffer.data@,
            i,
        )
}

/// Whether a skinned model can be exported: its bones are a skeleton,
/// the declarations that its parts name can be put in the terms of the
/// scene, it can be packed, nothing is wrong with any part of any mesh,
/// and a joint has the name of every channel of every clip.
pub open spec fn skinned_exportable(model: SkinnedModel, pool: Seq<Content>) -> bool {
    &&& skeleton_of(pool, model.shared_bone_refs@) matches Ok(order)
    &&& named_are_sound(model.model.meshes@, model.model.vertex_decls@)
    &&& packable(model.model.meshes@, pool, order, model.shared_animation_refs@)
    &&& forall|m: int, i: int|
        0 <= m < model.model.meshes@.len() && 0 <= i < model.model.meshes@[m].parts@.len() ==> #[trigger] part_sound(
            pool,
            model.model.vertex_decls@,
            model.model.meshes@[m],
            model.model.meshes@[m].vertex_buffer.data@,
            i,
        )
    &&& clips_name_joints(pool, order, model.shared_animation_refs@)
}

impl SkinnedModel {
    /// Exports a skinned model: its meshes, its skeleton as a skin, and
    /// its animation clips. `shared_content` is the pool that the
    /// references of the model count from 1.
    ///
    /// The joints of the skin stand in the order of the walk over the
    /// skeleton from its root, and their inverse bind matrices lie in the
    /// buffer in the same order. The rotations of bones and keyframes are
    /// written as the pool holds them.
    pub fn to_scene(&self, shared_content: &[Content]) -> (res: Result<Export, ExportError>)
        ensures
            res is Ok == skinned_exportable(*self, shared_content@),
            res matches Ok(export) ==> {
                &&& export.scene.wf()
                &&& export.scene.buffer_length == export.buffer.data@.len()
                &&& skeleton_of(shared_content@, self.shared_bone_refs@) matches Ok(order)
                &&& export.buffer.packs(self.model.meshes@, shared_content@, order, self.shared_animation_refs@)
                &&& export.scene.skins@.len() == 1
                &&& export.scene.skins@[0].joints@.len() == self.shared_bone_refs@.len()
                &&& export.scene.skins@[0].inverse_bind_matrices < export.scene.accessors@.len()
                &&& export.scene.accessors@[export.scene.skins@[0].inverse_bind_matrices as int] == (Accessor {
                    view: export.scene.accessors@[export.scene.skins@[0].inverse_bind_matrices as int].view,
                    byte_offset: 0,
                    count: self.shared_bone_refs@.len() as usize,
                    component_type: ComponentType::Float,
                    element_type: ElementType::Mat4,
                    normalized: false,
                    extent: Extent::Unstated,
                })
                &&& export.scene.views@[export.scene.accessors@[export.scene.skins@[0].inverse_bind_matrices as int]
                    .view as int] == region_view(export.buffer.inverse_bind_matrices)
                &&& forall|k: int|
                    0 <= k < order.len() ==> (#[trigger] export.scene.skins@[0].joints@[k])
                        < export.scene.nodes@.len() && is_joint_node(
                        export.scene.nodes@[export.scene.skins@[0].joints@[k] as int],
                        bone_of(shared_content@[order[k] as int])->0,
                    ) && children_match(
                        order,
                        export.scene.skins@[0].joints@[0] as int,
                        export.scene.nodes@[export.scene.skins@[0].joints@[k] as int].children@,
                        bone_of(shared_content@[order[k] as int])->0.shared_child_refs@,
                    )
                &&& export.scene.animations@.len() == self.shared_animation_refs@.len()
                &&& forall|c: int|
                    0 <= c < self.shared_animation_refs@.len() ==> animation_of(
                        &export.scene,
                        #[trigger] export.scene.animations@[c],
                        export.buffer.animations@[c],
                        clip_of(shared_content@, self.shared_animation_refs@[c])->0,
                    )
                &&& materials_match(&export.scene, shared_content@)
                &&& export.scene.roots@.len() == self.model.meshes@.len() + 1
                &&& export.scene.roots@.last() == export.scene.skins@[0].skeleton
                &&& forall|n: int| 0 <= n < export.scene.nodes@.len() ==> has_skin(#[trigger] export.scene.nodes@[n], 0)
                &&& forall|m: int|
                    0 <= m < self.model.meshes@.len() ==> parts_from(
                        &export.scene,
                        #[trigger] export.scene.roots@[m] as int,
                        0,
                        scene_elements(self.model.vertex_decls@),
                        material_places(shared_content@),
                        self.model.meshes@[m].parts@,
                        mesh_source(self.model.meshes@, export.buffer, m),
                    )
            },
            skeleton_of(shared_content@, self.shared_bone_refs@) matches Err(e) ==> res matches Err(r) && r == e,
            (res matches Err(e) && e is UnknownChannelTarget) == (skinned_sound(*self, shared_content@)
                && !skinned_exportable(*self, shared_content@)),
            res matches Err(ExportError::UnknownChannelTarget { name }) ==> {
                &&& skeleton_of(shared_content@, self.shared_bone_refs@) matches Ok(order)
                &&& !names_joint(shared_content@, order, name@)
                &&& exists|c: int, h: int|
                    0 <= c < self.shared_animation_refs@.len() && 0 <= h < clip_of(
                        shared_content@,
                        self.shared_animation_refs@[c],
                    )->0.channels@.len() && name@ == #[trigger] channel_name(
                        shared_content@,
                        self.shared_animation_refs@,
                        c,
                        h,
                    )
            },
            res matches Err(ExportError::NoRootBone) ==> skeleton_of(shared_content@, self.shared_bone_refs@)
                == Err::<Seq<usize>, ExportError>(ExportError::NoRootBone),
            res matches Err(ExportError::MultipleRootBones) ==> skeleton_of(
                shared_content@,
                self.shared_bone_refs@,
            ) == Err::<Seq<usize>, ExportError>(ExportError::MultipleRootBones),
    {
        let order = match skeleton(shared_content, self.shared_bone_refs.as_slice()) {
            Ok(order) => order,
            Err(e) => {
                return Err(e);
            },
        };
        match check_named(self.model.meshes.as_slice(), self.model.vertex_decls.as_slice()) {
            Ok(()) => {},
            Err(e) => {
                return Err(refused(e));
            },
        }
        let decls = declarations_for_scene(self.model.vertex_decls.as_slice());
        let buffer = match build_buffer(
            self.model.meshes.as_slice(),
            shared_content,
            order.as_slice(),
            self.shared_animation_refs.as_slice(),
        ) {
            Ok(buffer) => buffer,
            Err(e) => {
                return Err(refused(e));
            },
        };
        let mut scene = Scene::new(buffer.data.len());
        let materials = build_materials(&mut scene, shared_content);
        let ghost s0 = scene;
        let ghost meshes = self.model.meshes@;
        proof {
            assert(materials@ =~= material_places(shared_content@));
            lemma_meshes_refusal_none(
                s0.buffer_length as int,
                s0.materials@.len() as int,
                elements_of(decls@),
                materials@,
                meshes,
                buffer,
                None,
                meshes.len(),
            );
            assert forall|m: int| 0 <= m < meshes.len() implies (#[trigger] mesh_fits(
                s0.buffer_length as int,
                s0.materials@.len() as int,
                elements_of(decls@),
                materials@,
                meshes,
                buffer,
                None,
                m,
            ) <==> forall|i: int|
                0 <= i < meshes[m].parts@.len() ==> #[trigger] part_sound(
                    shared_content@,
                    self.model.vertex_decls@,
                    meshes[m],
                    meshes[m].vertex_buffer.data@,
                    i,
                )) by {
                assert(holds(buffer.data@, buffer.vertices@[m], meshes[m].vertex_buffer.data@));
                assert(holds(
                    buffer.data@,
                    buffer.indices@[m],
                    reversed(meshes[m].index_buffer.data@, index_width(meshes[m].index_buffer.is_16_bit)),
                ));
                lemma_mesh_fits(
                    shared_content@,
                    self.model.vertex_decls@,
                    meshes[m],
                    s0.buffer_length as int,
                    meshes,
                    buffer,
                    None,
                    m,
                );
            }
        }
        let (parents, _) = match build_meshes(
            &mut scene,
            decls.as_slice(),
            self.model.meshes.as_slice(),
            &buffer,
            materials.as_slice(),
            None,
        ) {
            Ok(nodes) => nodes,
            Err(e) => {
                proof {
                    if skinned_exportable(*self, shared_content@) {
                        assert forall|m: int| 0 <= m < meshes.len() implies #[trigger] mesh_fits(
                            s0.buffer_length as int,
                            s0.materials@.len() as int,
                            elements_of(decls@),
                            materials@,
                            meshes,
                            buffer,
                            None,
                            m,
                        ) by {
                            assert forall|i: int| 0 <= i < meshes[m].parts@.len() implies #[trigger] part_sound(
                                shared_content@,
                                self.model.vertex_decls@,
                                meshes[m],
                                meshes[m].vertex_buffer.data@,
                                i,
                            ) by {}
                        }
                    }
                }
                return Err(refused(e));
            },
        };
        let ghost s1 = scene;
        proof {
            assert forall|m: int, i: int|
                0 <= m < meshes.len() && 0 <= i < meshes[m].parts@.len() implies #[trigger] part_sound(
                shared_content@,
                self.model.vertex_decls@,
                meshes[m],
                meshes[m].vertex_buffer.data@,
                i,
            ) by {
                assert(mesh_fits(
                    s0.buffer_length as int,
                    s0.materials@.len() as int,
                    elements_of(decls@),
                    materials@,
                    meshes,
                    buffer,
                    None,
                    m,
                ));
            }
            assert(holds(
                buffer.data@,
                buffer.inverse_bind_matrices,
                singles_bytes(matrix_singles(shared_content@, order@, order@.len())),
            ));
            lemma_skeleton_builds(
                shared_content@,
                self.shared_bone_refs@,
                order@,
                s1.buffer_length as int,
                buffer.inverse_bind_matrices,
            );
            lemma_same_lengths(&s0, &s1);
            assert forall|i: int|
                0 <= i < shared_content@.len() && (#[trigger] material_view(shared_content@[i]))
                    is Some implies is_material_of(
                s1.materials@[materials_before(shared_content@, i as nat) as int],
                shared_content@,
                i,
            ) by {
                assert(materials@[i] is Some);
            }
            assert(materials_match(&s1, shared_content@));
            assert(materials@ =~= material_places(shared_content@));
        }
        let (skin, root) = match build_skin(
            &mut scene,
            buffer.inverse_bind_matrices,
            order.as_slice(),
            shared_content,
        ) {
            Ok(places) => places,
            Err(e) => {
                return Err(refused(e));
            },
        };
        let ghost s2 = scene;
        let ghost base = s1.nodes@.len() as int;
        proof {
            assert(joints_behind(s2.nodes@, base, shared_content@, order@)) by {
                assert forall|i: int| 0 <= i < base implies (#[trigger] s2.nodes@[i]).name is None by {
                    assert(node_extends(s1.nodes@[i], s2.nodes@[i]));
                }
            }
            lemma_extends_refl(&s2);
            assert forall|k: int| s1.nodes@.len() <= k < s2.nodes@.len() implies (#[trigger] s2.nodes@[k]).mesh
                is None by {
                let j = k - s1.nodes@.len();
                assert(is_joint_node(s2.nodes@[s1.nodes@.len() + j], bone_of(shared_content@[order@[j] as int])->0));
            }
        }
        let count = scene.nodes.len();
        let mut i: usize = 0;
        while i < count
            invariant
                i <= count,
                count == s2.nodes@.len(),
                scene.wf(),
                s2.extends(&scene),
                skin < scene.skins@.len(),
                root < scene.nodes@.len(),
                scene.nodes@.len() == s2.nodes@.len(),
                scene.skins == s2.skins,
                scene.accessors == s2.accessors,
                scene.views == s2.views,
                forall|k: int| s1.nodes@.len() <= k < s2.nodes@.len() ==> #[trigger] scene.nodes@[k] == s2.nodes@[k],
                forall|k: int| s1.nodes@.len() <= k < s2.nodes@.len() ==> (#[trigger] s2.nodes@[k]).mesh is None,
                forall|k: int| 0 <= k < i ==> has_skin(#[trigger] scene.nodes@[k], skin),
                forall|k: int| 0 <= k < s1.nodes@.len() ==> (#[trigger] scene.nodes@[k]).name is None,
                scene.animations == s2.animations,
                scene.materials == s2.materials,
                scene.roots == s2.roots,
                scene.buffer_length == s2.buffer_length,
                s1.nodes@.len() <= s2.nodes@.len(),
            decreases count - i,
        {
            if scene.nodes[i].mesh.is_some() {
                let ghost before = scene;
                scene.set_skin(i, skin);
                proof {
                    lemma_extends_trans(&s2, &before, &scene);
                    assert forall|k: int| 0 <= k < s1.nodes@.len() implies (#[trigger] scene.nodes@[k]).name
                        is None by {
                        assert(before.nodes@[k].name is None);
                    }
                    assert forall|k: int| 0 <= k < i + 1 implies has_skin(#[trigger] scene.nodes@[k], skin) by {
                        if k < i {
                            assert(has_skin(before.nodes@[k], skin));
                        }
                    }
                }
            }
            i = i + 1;
        }
        let ghost s3 = scene;
        proof {
            lemma_extends_refl(&s3);
            assert(joints_behind(s3.nodes@, base, shared_content@, order@)) by {
                assert forall|k: int| 0 <= k < order@.len() implies is_joint_node(
                    #[trigger] s3.nodes@[base + k],
                    bone_of(shared_content@[order@[k] as int])->0,
                ) by {
                    assert(s3.nodes@[base + k] == s2.nodes@[base + k]);
                }
            }
        }
        let ghost refs = self.shared_animation_refs@;
        proof {
            assert forall|c: int| 0 <= c < refs.len() implies (clip_fits(
                s3.nodes@,
                s3.buffer_length as int,
                #[trigger] buffer.animations@[c],
                clip_of(shared_content@, refs[c])->0,
            ) <==> forall|h: int|
                0 <= h < clip_of(shared_content@, refs[c])->0.channels@.len() ==> names_joint(
                    shared_content@,
                    order@,
                    (#[trigger] clip_of(shared_content@, refs[c])->0.channels@[h]).name@,
                )) by {
                assert(clip_error(shared_content@, refs[c]) is None);
                assert(buffer.animations@[c].holds(buffer.data@, clip_of(shared_content@, refs[c])->0));
                lemma_clip_fits(
                    s3.nodes@,
                    base,
                    shared_content@,
                    order@,
                    buffer.data@,
                    buffer.animations@[c],
                    clip_of(shared_content@, refs[c])->0,
                );
            }
        }
        match build_animations(
            &mut scene,
            buffer.animations.as_slice(),
            shared_content,
            self.shared_animation_refs.as_slice(),
        ) {
            Ok(()) => {},
            Err(e) => {
                proof {
                    assert(buffer.animations@.len() == refs.len());
                    assert forall|c: int| 0 <= c < refs.len() implies clip_regions_fit(
                        s3.buffer_length as int,
                        #[trigger] buffer.animations@[c],
                        clip_of(shared_content@, refs[c])->0,
                    ) by {
                        lemma_held_regions_fit(
                            buffer.data@,
                            buffer.animations@[c],
                            clip_of(shared_content@, refs[c])->0,
                        );
                    }
                    assert(e is UnknownChannelTarget);
                    lemma_target_is_joint(s3.nodes@, base, shared_content@, order@, e->name@);
                    if clips_name_joints(shared_content@, order@, refs) {
                        assert forall|c: int| 0 <= c < refs.len() implies (#[trigger] clip_error(
                            shared_content@,
                            refs[c],
                        )) is None && clip_fits(
                            s3.nodes@,
                            s3.buffer_length as int,
                            buffer.animations@[c],
                            clip_of(shared_content@, refs[c])->0,
                        ) by {
                            assert(clips_name_joints(shared_content@, order@, refs));
                        }
                    }
                }
                return Err(refused(e));
            },
        }
        proof {
            assert forall|c: int, h: int|
                0 <= c < refs.len() && 0 <= h < clip_of(shared_content@, refs[c])->0.channels@.len()
                    implies names_joint(
                shared_content@,
                order@,
                (#[trigger] clip_of(shared_content@, refs[c])->0.channels@[h]).name@,
            ) by {
                assert(clip_error(shared_content@, refs[c]) is None);
                assert(clip_fits(
                    s3.nodes@,
                    s3.buffer_length as int,
                    buffer.animations@[c],
                    clip_of(shared_content@, refs[c])->0,
                ));
            }
            crate::export::animation::lemma_kept(&s3, &scene);
        }
        let ghost s4 = scene;
        proof {
            lemma_extends_refl(&s4);
        }
        let mut i: usize = 0;
        while i < parents.len()
            invariant
                i <= parents@.len(),
                scene.wf(),
                root < scene.nodes@.len(),
                scene.nodes == s4.nodes,
                scene.skins == s4.skins,
                scene.accessors == s4.accessors,
                scene.views == s4.views,
                s4.extends(&scene),
                s4.wf(),
                scene.animations == s4.animations,
                scene.materials == s4.materials,
                scene.buffer_length == s4.buffer_length,
                scene.roots@.len() == s4.roots@.len() + i,
                s4.roots@.len() == 0,
                forall|k: int| 0 <= k < i ==> #[trigger] scene.roots@[k] == parents@[k],
                forall|k: int| 0 <= k < parents@.len() ==> #[trigger] parents@[k] < s1.nodes@.len(),
                s1.nodes@.len() <= scene.nodes@.len(),
            decreases parents@.len() - i,
        {
            let ghost before = scene;
            scene.push_root(parents[i]);
            proof {
                lemma_extends_trans(&s4, &before, &scene);
            }
            i = i + 1;
        }
        let ghost s5 = scene;
        scene.push_root(root);
        proof {
            lemma_extends_trans(&s4, &s5, &scene);
            assert(scene.materials == s1.materials);
            lemma_extends_trans(&s1, &s2, &s3);
            lemma_extends_trans(&s1, &s3, &s4);
            lemma_extends_trans(&s1, &s4, &scene);
            assert forall|m: int| 0 <= m < self.model.meshes@.len() implies parts_from(
                &scene,
                #[trigger] scene.roots@[m] as int,
                0,
                scene_elements(self.model.vertex_decls@),
                material_places(shared_content@),
                self.model.meshes@[m].parts@,
                mesh_source(self.model.meshes@, buffer, m),
            ) by {
                assert(scene.roots@[m] == parents@[m]);
                lemma_parts_from_later(
                    &s1,
                    &scene,
                    parents@[m] as int,
                    0,
                    scene_elements(self.model.vertex_decls@),
                    material_places(shared_content@),
                    self.model.meshes@[m].parts@,
                    mesh_source(self.model.meshes@, buffer, m),
                );
            }
            assert(s2.accessors@[s1.accessors@.len() as int].view == s1.views@.len());
            assert(s2.views@[s1.views@.len() as int] == region_view(buffer.inverse_bind_matrices));
            assert(scene.views@[s1.views@.len() as int] == s2.views@[s1.views@.len() as int]);
            assert forall|c: int| 0 <= c < self.shared_animation_refs@.len() implies animation_of(
                &scene,
                #[trigger] scene.animations@[c],
                buffer.animations@[c],
                clip_of(shared_content@, self.shared_animation_refs@[c])->0,
            ) by {
                assert(s3.animations@.len() == 0);
                assert(animation_of(
                    &s4,
                    s4.animations@[s3.animations@.len() + c],
                    buffer.animations@[c],
                    clip_of(shared_content@, self.shared_animation_refs@[c])->0,
                ));
                lemma_animation_of_later(
                    &s4,
                    &scene,
                    s4.animations@[c],
                    buffer.animations@[c],
                    clip_of(shared_content@, self.shared_animation_refs@[c])->0,
                );
            }
        }
        Ok(Export { scene, buffer })
    }
}

/// Any error but that of a skeleton without its one root, which only the
/// walk over the skeleton may report.
fn refused(e: ExportError) -> (out: ExportError)
    ensures
        out == refusal_of(e),
        out !is NoRootBone,
        out !is MultipleRootBones,
{
    match e {
        ExportError::NoRootBone => ExportError::NotATree,
        ExportError::MultipleRootBones => ExportError::NotATree,
        other => other,
    }
}

/// The error that a later step of an export is reported with: the error
/// of the step itself, but for that of bones without their one root,
/// which a later step reports as bones that are no tree.
pub open spec fn refusal_of(e: ExportError) -> ExportError {
    match e {
        ExportError::NoRootBone => ExportError::NotATree,
        ExportError::MultipleRootBones => ExportError::NotATree,
        other => other,
    }
}

/// A document that extends another without more skins, materials or roots
/// than it has the same of each.
pub proof fn lemma_same_lengths(before: &Scene, after: &Scene)
    requires
        before.extends(after),
    ensures
        after.skins@.len() == before.skins@.len() ==> after.skins@ == before.skins@,
        after.roots@.len() == before.roots@.len() ==> after.roots@ == before.roots@,
        after.materials@.len() == before.materials@.len() ==> after.materials@ == before.materials@,
{
    if after.skins@.len() == before.skins@.len() {
        assert(after.skins@.subrange(0, before.skins@.len() as int) =~= after.skins@);
    }
    if after.roots@.len() == before.roots@.len() {
        assert(after.roots@.subrange(0, before.roots@.len() as int) =~= after.roots@);
    }
    if after.materials@.len() == before.materials@.len() {
        assert(after.materials@.subrange(0, before.materials@.len() as int) =~= after.materials@);
    }
}

/// Whether the materials of a document are those of the effects of the
/// pool, in the order of the pool.
pub open spec fn materials_match(scene: &Scene, pool: Seq<Content>) -> bool {
    &&& scene.materials@.len() == materials_before(pool, pool.len())
    &&& forall|i: int|
        0 <= i < pool.len() && (#[trigger] material_view(pool[i])) is Some ==> is_material_of(
            scene.materials@[materials_before(pool, i as nat) as int],
            pool,
            i,
        )
}

/// Whether the first nodes of a document are those of the bones, one for
/// one, and the first children of each are the nodes of the children of
/// its bone.
pub open spec fn bones_match(scene: &Scene, bones: Seq<Bone>, hierarchy: Seq<BoneHierarchy>) -> bool {
    &&& bones.len() <= scene.nodes@.len()
    &&& hierarchy.len() == bones.len()
    &&& forall|i: int|
        0 <= i < bones.len() ==> is_bone_node(#[trigger] scene.nodes@[i], bones[i])
            && hierarchy[i].children_refs@.len() <= scene.nodes@[i].children@.len() && bone_children(
            0,
            scene.nodes@[i].children@.subrange(0, hierarchy[i].children_refs@.len() as int),
            hierarchy[i].children_refs@,
        )
}

/// What the parts of mesh `m` of a model read of it: its vertices as the
/// scene holds them, and its indices.
pub open spec fn model_source(model: Model, handedness: Seq<Single>, buffer: FullBuffer, m: int) -> Source {
    Source {
        vertices: model_vertices(model.meshes@, model.vertex_decls@, handedness)->Ok_0[m],
        index_length: model.meshes@[m].index_buffer.data@.len(),
        is_16_bit: model.meshes@[m].index_buffer.is_16_bit,
        vertex_offset: buffer.vertices@[m].offset,
        index_offset: buffer.indices@[m].offset,
    }
}

/// Why a model cannot be exported, before its meshes are looked at part
/// by part: it cannot be made ready for the scene, the indices of a mesh
/// are no whole triangles, or its bones are refused. `None` where none
/// of these holds.
pub open spec fn model_refusal(model: Model, handedness: Seq<Single>) -> Option<ExportError> {
    match model_error(model, handedness) {
        Some(e) => Some(e),
        None => if !whole_meshes(model.meshes@, model.meshes@.len() as int) {
            Some(ExportError::MalformedIndexBuffer)
        } else {
            bones_refusal(model.bones@, model.bones_hierarchy@)
        },
    }
}

/// Whether a model can be exported: it can be made ready for the scene,
/// the indices of every mesh are whole triangles, its bones have one
/// root and children that are bones, every mesh belongs to a bone, and
/// nothing is wrong with any part of any mesh.
pub open spec fn model_exportable(model: Model, pool: Seq<Content>, handedness: Seq<Single>) -> bool {
    &&& model_error(model, handedness) is None
    &&& whole_meshes(model.meshes@, model.meshes@.len() as int)
    &&& bones_refusal(model.bones@, model.bones_hierarchy@) is None
    &&& forall|m: int|
        0 <= m < model.meshes@.len() ==> bone_ref_in(#[trigger] model.meshes@[m], model.bones@.len() as int)
    &&& forall|m: int, i: int|
        0 <= m < model.meshes@.len() && 0 <= i < model.meshes@[m].parts@.len() ==> #[trigger] part_sound(
            pool,
            model.vertex_decls@,
            model.meshes@[m],
            model_vertices(model.meshes@, model.vertex_decls@, handedness)->Ok_0[m],
            i,
        )
}

impl Model {
    /// Exports a model: its bones as nodes and its meshes below them.
    /// `handedness` holds the handedness of the tangent of every vertex
    /// that has one, in the order of `Model::tangent_frames`.
    ///
    /// The buffer holds the vertices of each mesh as the scene reads them
    /// and its indices with the winding of every triangle reversed. The
    /// one root of the scene is the node of the bone that has no parent.
    pub fn to_scene(&self, shared_content: &[Content], handedness: &[Single]) -> (res: Result<Export, ExportError>)
        ensures
            res is Ok == model_exportable(*self, shared_content@, handedness@),
            res matches Err(e) ==> e !is UnknownChannelTarget,
            model_refusal(*self, handedness@) matches Some(e) ==> res matches Err(r) && r == e,
            res matches Ok(export) ==> {
                &&& export.scene.wf()
                &&& export.scene.buffer_length == export.buffer.data@.len()
                &&& consecutive(export.buffer.regions@)
                &&& total_length(export.buffer.regions@) == export.buffer.data@.len()
                &&& export.buffer.vertices@.len() == self.meshes@.len()
                &&& export.buffer.indices@.len() == self.meshes@.len()
                &&& forall|m: int|
                    0 <= m < self.meshes@.len() ==> holds(
                        export.buffer.data@,
                        #[trigger] export.buffer.vertices@[m],
                        model_vertices(self.meshes@, self.vertex_decls@, handedness@)->Ok_0[m],
                    )
                &&& forall|m: int|
                    0 <= m < self.meshes@.len() ==> holds(
                        export.buffer.data@,
                        #[trigger] export.buffer.indices@[m],
                        reversed(
                            self.meshes@[m].index_buffer.data@,
                            index_width(self.meshes@[m].index_buffer.is_16_bit),
                        ),
                    )
                &&& export.scene.skins@.len() == 0
                &&& export.scene.animations@.len() == 0
                &&& materials_match(&export.scene, shared_content@)
                &&& bones_match(&export.scene, self.bones@, self.bones_hierarchy@)
                &&& export.scene.roots@.len() == 1
                &&& export.scene.roots@[0] < self.bones@.len()
                &&& self.bones_hierarchy@[export.scene.roots@[0] as int].parent_ref == 0
                &&& forall|m: int|
                    0 <= m < self.meshes@.len() ==> bone_ref_in(#[trigger] self.meshes@[m], self.bones@.len() as int)
                        && mesh_drawn(
                        &export.scene,
                        self.meshes@[m].parent_bone_ref - 1,
                        scene_elements(self.vertex_decls@),
                        material_places(shared_content@),
                        self.meshes@[m].parts@,
                        model_source(*self, handedness@, export.buffer, m),
                    )
            },
    {
        let transformed = TransformedModel::from_model(self, handedness)?;
        let none: Vec<usize> = Vec::new();
        let ghost vertices = model_vertices(self.meshes@, self.vertex_decls@, handedness@)->Ok_0;
        let buffer = match build_buffer(
            transformed.meshes.as_slice(),
            shared_content,
            none.as_slice(),
            none.as_slice(),
        ) {
            Ok(buffer) => buffer,
            Err(e) => {
                proof {
                    if whole_meshes(self.meshes@, self.meshes@.len() as int) {
                        assert forall|m: int| 0 <= m < transformed.meshes@.len() implies whole_triangles(
                            (#[trigger] transformed.meshes@[m]).index_buffer.data@,
                            index_width(transformed.meshes@[m].index_buffer.is_16_bit),
                        ) by {
                            assert(same_but_vertices(self.meshes@[m], transformed.meshes@[m]));
                        }
                    }
                }
                return Err(e);
            },
        };
        proof {
            assert forall|m: int| 0 <= m < self.meshes@.len() implies whole_triangles(
                (#[trigger] self.meshes@[m]).index_buffer.data@,
                index_width(self.meshes@[m].index_buffer.is_16_bit),
            ) by {
                assert(same_but_vertices(self.meshes@[m], transformed.meshes@[m]));
                assert(whole_triangles(
                    transformed.meshes@[m].index_buffer.data@,
                    index_width(transformed.meshes@[m].index_buffer.is_16_bit),
                ));
            }
        }
        let mut scene = Scene::new(buffer.data.len());
        let materials = build_materials(&mut scene, shared_content);
        let ghost s0 = scene;
        let (root, bones) = build_bones(&mut scene, self.bones.as_slice(), self.bones_hierarchy.as_slice())?;
        let ghost s1 = scene;
        proof {
            assert(materials@ =~= material_places(shared_content@));
            lemma_elements_match(self.vertex_decls@, transformed.vertex_decls@);
            lemma_meshes_refusal_none(
                s1.buffer_length as int,
                s1.materials@.len() as int,
                elements_of(transformed.vertex_decls@),
                materials@,
                transformed.meshes@,
                buffer,
                Some(bones@),
                transformed.meshes@.len(),
            );
            assert forall|m: int| 0 <= m < self.meshes@.len() implies (#[trigger] mesh_fits(
                s1.buffer_length as int,
                s1.materials@.len() as int,
                elements_of(transformed.vertex_decls@),
                materials@,
                transformed.meshes@,
                buffer,
                Some(bones@),
                m,
            ) <==> bone_ref_in(self.meshes@[m], self.bones@.len() as int) && forall|i: int|
                0 <= i < self.meshes@[m].parts@.len() ==> #[trigger] part_sound(
                    shared_content@,
                    self.vertex_decls@,
                    self.meshes@[m],
                    vertices[m],
                    i,
                )) by {
                assert(same_but_vertices(self.meshes@[m], transformed.meshes@[m]));
                assert(holds(buffer.data@, buffer.vertices@[m], transformed.meshes@[m].vertex_buffer.data@));
                assert(holds(
                    buffer.data@,
                    buffer.indices@[m],
                    reversed(
                        transformed.meshes@[m].index_buffer.data@,
                        index_width(transformed.meshes@[m].index_buffer.is_16_bit),
                    ),
                ));
                lemma_mesh_fits(
                    shared_content@,
                    self.vertex_decls@,
                    self.meshes@[m],
                    s1.buffer_length as int,
                    transformed.meshes@,
                    buffer,
                    Some(bones@),
                    m,
                );
            }
        }
        let (parents, _) = match build_meshes(
            &mut scene,
            transformed.vertex_decls.as_slice(),
            transformed.meshes.as_slice(),
            &buffer,
            materials.as_slice(),
            Some(bones.as_slice()),
        ) {
            Ok(pair) => pair,
            Err(e) => {
                proof {
                    if model_exportable(*self, shared_content@, handedness@) {
                        assert forall|m: int| 0 <= m < self.meshes@.len() implies #[trigger] mesh_fits(
                            s1.buffer_length as int,
                            s1.materials@.len() as int,
                            elements_of(transformed.vertex_decls@),
                            materials@,
                            transformed.meshes@,
                            buffer,
                            Some(bones@),
                            m,
                        ) by {
                            assert(bone_ref_in(self.meshes@[m], self.bones@.len() as int));
                            assert forall|i: int| 0 <= i < self.meshes@[m].parts@.len() implies #[trigger] part_sound(
                                shared_content@,
                                self.vertex_decls@,
                                self.meshes@[m],
                                vertices[m],
                                i,
                            ) by {}
                        }
                    }
                }
                return Err(e);
            },
        };
        let ghost s2 = scene;
        scene.push_root(root);
        proof {
            assert forall|m: int, i: int|
                0 <= m < self.meshes@.len() && 0 <= i < self.meshes@[m].parts@.len() implies #[trigger] part_sound(
                shared_content@,
                self.vertex_decls@,
                self.meshes@[m],
                vertices[m],
                i,
            ) by {
                assert(mesh_fits(
                    s1.buffer_length as int,
                    s1.materials@.len() as int,
                    elements_of(transformed.vertex_decls@),
                    materials@,
                    transformed.meshes@,
                    buffer,
                    Some(bones@),
                    m,
                ));
            }
            assert forall|m: int| 0 <= m < self.meshes@.len() implies bone_ref_in(
                #[trigger] self.meshes@[m],
                self.bones@.len() as int,
            ) by {
                assert(mesh_fits(
                    s1.buffer_length as int,
                    s1.materials@.len() as int,
                    elements_of(transformed.vertex_decls@),
                    materials@,
                    transformed.meshes@,
                    buffer,
                    Some(bones@),
                    m,
                ));
            }
            lemma_extends_trans(&s0, &s1, &s2);
            lemma_same_lengths(&s0, &s2);
            assert(scene.materials == s0.materials);
            assert(materials@ =~= material_places(shared_content@));
            lemma_elements_match(self.vertex_decls@, transformed.vertex_decls@);
            assert forall|m: int| 0 <= m < self.meshes@.len() implies bone_ref_in(
                #[trigger] self.meshes@[m],
                self.bones@.len() as int,
            ) && mesh_drawn(
                &scene,
                self.meshes@[m].parent_bone_ref - 1,
                scene_elements(self.vertex_decls@),
                material_places(shared_content@),
                self.meshes@[m].parts@,
                model_source(*self, handedness@, buffer, m),
            ) by {
                assert(same_but_vertices(self.meshes@[m], transformed.meshes@[m]));
                assert(bone_ref_in(transformed.meshes@[m], bones@.len() as int));
                assert(mesh_source(transformed.meshes@, buffer, m) == model_source(*self, handedness@, buffer, m));
                assert(parents@[m] == self.meshes@[m].parent_bone_ref - 1);
                lemma_mesh_drawn_later(
                    &s2,
                    &scene,
                    parents@[m] as int,
                    scene_elements(self.vertex_decls@),
                    material_places(shared_content@),
                    self.meshes@[m].parts@,
                    model_source(*self, handedness@, buffer, m),
                );
            }
            assert forall|i: int|
                0 <= i < shared_content@.len() && (#[trigger] material_view(shared_content@[i]))
                    is Some implies is_material_of(
                s0.materials@[materials_before(shared_content@, i as nat) as int],
                shared_content@,
                i,
            ) by {
                assert(materials@[i] is Some);
            }
            assert forall|i: int| 0 <= i < self.bones@.len() implies is_bone_node(
                #[trigger] scene.nodes@[i],
                self.bones@[i],
            ) && self.bones_hierarchy@[i].children_refs@.len() <= scene.nodes@[i].children@.len()
                && bone_children(
                0,
                scene.nodes@[i].children@.subrange(0, self.bones_hierarchy@[i].children_refs@.len() as int),
                self.bones_hierarchy@[i].children_refs@,
            ) by {
                assert(is_bone_node(s1.nodes@[0 + i], self.bones@[i]));
                assert(bone_children(0, s1.nodes@[0 + i].children@, self.bones_hierarchy@[i].children_refs@));
            }
            assert forall|m: int| 0 <= m < self.meshes@.len() implies holds(
                buffer.data@,
                #[trigger] buffer.indices@[m],
                reversed(self.meshes@[m].index_buffer.data@, index_width(self.meshes@[m].index_buffer.is_16_bit)),
            ) by {
                assert(same_but_vertices(self.meshes@[m], transformed.meshes@[m]));
            }
            assert forall|m: int| 0 <= m < self.meshes@.len() implies holds(
                buffer.data@,
                #[trigger] buffer.vertices@[m],
                model_vertices(self.meshes@, self.vertex_decls@, handedness@)->Ok_0[m],
            ) by {
                assert(same_but_vertices(self.meshes@[m], transformed.meshes@[m]));
            }
        }
        Ok(Export { scene, buffer })
    }
}

} // verus!
