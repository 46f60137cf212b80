//! The bones of a model in the scene, and the nodes of the parts of its
//! meshes below them.
use vstd::prelude::*;
use crate::content::model::{Bone, BoneHierarchy, MeshPart};
use crate::export::mesh::{
    build_mesh_part, draws, elements_of, grown, lemma_draws_later, part_refusal, parts_from, MeshData, Source,
};
use crate::export::transformed_model::TransformedVertexElement;
use crate::export::scene::{
    lemma_extends_refl, lemma_extends_trans, lemma_prefix_refl, node_extends, Node, Scene, Transform,
};
use crate::export::transformed_model::TransformedVertexDeclaration;
use crate::export::ExportError;
use crate::single::{transpose, Matrix4, Single, ONE_BITS};

verus! {

/// Whether a number is zero, of either sign.
pub open spec fn is_zero(s: Single) -> bool {
    s.bits % 0x8000_0000 == 0
}

/// Whether the sixteen numbers are those of the identity: one on the
/// diagonal, zero everywhere else.
pub open spec fn is_identity(m: Seq<Single>) -> bool {
    forall|i: int|
        0 <= i < 16 ==> if i % 5 == 0 {
            (#[trigger] m[i]).bits == ONE_BITS
        } else {
            is_zero(m[i])
        }
}

impl Matrix4 {
    /// Whether the matrix is the identity.
    pub fn is_identity(&self) -> (b: bool)
        ensures
            b == is_identity(self.cols@),
    {
        let mut i: usize = 0;
        while i < 16
            invariant
                i <= 16,
                forall|k: int|
                    0 <= k < i ==> if k % 5 == 0 {
                        (#[trigger] self.cols@[k]).bits == ONE_BITS
                    } else {
                        is_zero(self.cols@[k])
                    },
            decreases 16 - i,
        {
            let bits = self.cols[i].bits;
            if i % 5 == 0 {
                if bits != ONE_BITS {
                    return false;
                }
            } else {
                if bits % 0x8000_0000 != 0 {
                    return false;
                }
            }
            i = i + 1;
        }
        true
    }
}

/// Whether `t` is the transform of the node of `bone`: none for the
/// identity, else the matrix of the bone with rows and columns exchanged,
/// which is how the scene reads it.
pub open spec fn is_bone_transform(t: Transform, bone: Bone) -> bool {
    if is_identity(bone.transform.cols@) {
        t == Transform::Identity
    } else {
        t matches Transform::Matrix(m) && m.cols@ == transpose(bone.transform.cols@)
    }
}

/// The number of bones whose parent is 0 among the first `k`.
pub open spec fn root_count(hierarchy: Seq<BoneHierarchy>, k: nat) -> nat
    decreases k,
{
    if k == 0 {
        0
    } else {
        root_count(hierarchy, (k - 1) as nat) + if hierarchy[k - 1].parent_ref == 0 {
            1nat
        } else {
            0nat
        }
    }
}

/// Whether every reference to a child is to a bone of the model:
/// references count from 1.
pub open spec fn children_in_range(hierarchy: Seq<BoneHierarchy>, bones: int) -> bool {
    forall|i: int, j: int|
        0 <= i < hierarchy.len() && 0 <= j < hierarchy[i].children_refs@.len() ==> 1 <= (
        #[trigger] hierarchy[i].children_refs@[j]) <= bones
}

/// Whether `node` is the node of `bone`.
pub open spec fn is_bone_node(node: Node, bone: Bone) -> bool {
    &&& node.name matches Some(name)
    &&& name@ == bone.name@
    &&& is_bone_transform(node.transform, bone)
    &&& node.mesh is None
    &&& node.skin is None
}

/// Whether `children` are the nodes of the bones that `refs` refer to, one
/// for one: the bones stand from `base` on, and references count from 1.
pub open spec fn bone_children(base: int, children: Seq<usize>, refs: Seq<u32>) -> bool {
    &&& children.len() == refs.len()
    &&& forall|j: int| 0 <= j < children.len() ==> #[trigger] children[j] == base + refs[j] - 1
}

/// What `build_bones` has added to `before` to make `after`.
pub open spec fn bones_added(before: &Scene, after: &Scene, bones: Seq<Bone>, hierarchy: Seq<BoneHierarchy>) -> bool {
    let base = before.nodes@.len() as int;
    &&& hierarchy.len() == bones.len()
    &&& children_in_range(hierarchy, bones.len() as int)
    &&& root_count(hierarchy, hierarchy.len()) == 1
    &&& before.same_but_nodes(after)
    &&& after.nodes@.len() == base + bones.len()
    &&& forall|i: int|
        0 <= i < bones.len() ==> is_bone_node(#[trigger] after.nodes@[base + i], bones[i]) && bone_children(
            base,
            after.nodes@[base + i].children@,
            hierarchy[i].children_refs@,
        )
}

/// Why the first `k` of `refs` are not all references to one of `bones`
/// bones: the first of them that is not. `None` where all are.
pub open spec fn refs_refusal(refs: Seq<u32>, bones: int, k: nat) -> Option<ExportError>
    decreases k,
{
    if k == 0 {
        None
    } else {
        match refs_refusal(refs, bones, (k - 1) as nat) {
            Some(e) => Some(e),
            None => if refs[k - 1] == 0 || refs[k - 1] > bones {
                Some(ExportError::BoneOutOfRange { index: refs[k - 1] })
            } else {
                None
            },
        }
    }
}

/// Why the children of the first `k` bones are not all bones of the
/// model: the first reference that is to none. `None` where all are.
pub open spec fn children_refusal(hierarchy: Seq<BoneHierarchy>, bones: int, k: nat) -> Option<ExportError>
    decreases k,
{
    if k == 0 {
        None
    } else {
        match children_refusal(hierarchy, bones, (k - 1) as nat) {
            Some(e) => Some(e),
            None => refs_refusal(hierarchy[k - 1].children_refs@, bones, hierarchy[k - 1].children_refs@.len()),
        }
    }
}

/// Once a reference has been refused, all have been.
pub proof fn lemma_refs_refusal_stays(refs: Seq<u32>, bones: int, k: nat, n: nat)
    requires
        k <= n,
        refs_refusal(refs, bones, k) is Some,
    ensures
        refs_refusal(refs, bones, n) == refs_refusal(refs, bones, k),
    decreases n - k,
{
    if k < n {
        lemma_refs_refusal_stays(refs, bones, k, (n - 1) as nat);
    }
}

/// Once the children of a bone have been refused, those of all have
/// been.
pub proof fn lemma_children_refusal_stays(hierarchy: Seq<BoneHierarchy>, bones: int, k: nat, n: nat)
    requires
        k <= n,
        children_refusal(hierarchy, bones, k) is Some,
    ensures
        children_refusal(hierarchy, bones, n) == children_refusal(hierarchy, bones, k),
    decreases n - k,
{
    if k < n {
        lemma_children_refusal_stays(hierarchy, bones, k, (n - 1) as nat);
    }
}

/// Why the bones of a model cannot be added to a document, or `None`
/// where they can: there is not one entry of the hierarchy for each bone,
/// a child is no bone of the model, or there is not exactly one bone
/// whose parent is 0.
pub open spec fn bones_refusal(bones: Seq<Bone>, hierarchy: Seq<BoneHierarchy>) -> Option<ExportError> {
    if hierarchy.len() != bones.len() {
        Some(ExportError::BoneOutOfRange { index: 0 })
    } else {
        match children_refusal(hierarchy, bones.len() as int, hierarchy.len()) {
            Some(e) => Some(e),
            None => if root_count(hierarchy, hierarchy.len()) == 0 {
                Some(ExportError::NoRootBone)
            } else if root_count(hierarchy, hierarchy.len()) > 1 {
                Some(ExportError::MultipleRootBones)
            } else {
                None
            },
        }
    }
}

/// Adds a node for each bone of a model, and below each node the nodes of
/// the children of its bone. The one bone whose parent is 0 is the root;
/// bones with no root or with more than one are refused. Returns the
/// place of the node of the root and the places of the nodes of all
/// bones, in the order of the bones.
pub fn build_bones(scene: &mut Scene, bones: &[Bone], hierarchy: &[BoneHierarchy]) -> (res: Result<
    (usize, Vec<usize>),
    ExportError,
>)
    requires
        old(scene).wf(),
    ensures
        res matches Err(e) ==> e !is UnknownChannelTarget,
        res matches Err(e) ==> bones_refusal(bones@, hierarchy@) == Some(e) && *final(scene) == *old(scene),
        res matches Ok((root, nodes)) ==> {
            &&& bones_refusal(bones@, hierarchy@) is None
            &&& final(scene).wf()
            &&& old(scene).extends(final(scene))
            &&& bones_added(old(scene), final(scene), bones@, hierarchy@)
            &&& nodes@.len() == bones@.len()
            &&& forall|i: int| 0 <= i < nodes@.len() ==> #[trigger] nodes@[i] == old(scene).nodes@.len() + i
            &&& old(scene).nodes@.len() <= root < final(scene).nodes@.len()
            &&& hierarchy@[root - old(scene).nodes@.len()].parent_ref == 0
        },
{
    let n = bones.len();
    if hierarchy.len() != n {
        return Err(ExportError::BoneOutOfRange { index: 0 });
    }
    let base = scene.nodes.len();
    let mut count: usize = 0;
    let mut root: usize = 0;
    let mut i: usize = 0;
    while i < n
        invariant
            i <= n,
            n == hierarchy@.len(),
            count == root_count(hierarchy@, i as nat),
            count <= i,
            count > 0 ==> root < i && hierarchy@[root as int].parent_ref == 0,
            children_refusal(hierarchy@, n as int, i as nat) is None,
            n == bones@.len(),
            *scene == *old(scene),
            forall|a: int, b: int|
                0 <= a < i && 0 <= b < hierarchy@[a].children_refs@.len() ==> 1 <= (
                #[trigger] hierarchy@[a].children_refs@[b]) <= n,
        decreases n - i,
    {
        let entry = &hierarchy[i];
        let mut j: usize = 0;
        while j < entry.children_refs.len()
            invariant
                j <= entry.children_refs@.len(),
                i < n,
                n == hierarchy@.len(),
                *entry == hierarchy@[i as int],
                children_refusal(hierarchy@, n as int, i as nat) is None,
                n == bones@.len(),
                *scene == *old(scene),
                refs_refusal(entry.children_refs@, n as int, j as nat) is None,
                forall|b: int| 0 <= b < j ==> 1 <= #[trigger] entry.children_refs@[b] <= n,
            decreases entry.children_refs@.len() - j,
        {
            let child = entry.children_refs[j];
            if child == 0 || child as usize > n {
                proof {
                    assert(refs_refusal(entry.children_refs@, n as int, (j + 1) as nat) == Some(
                        ExportError::BoneOutOfRange { index: child },
                    ));
                    lemma_refs_refusal_stays(
                        entry.children_refs@,
                        n as int,
                        (j + 1) as nat,
                        entry.children_refs@.len(),
                    );
                    assert(children_refusal(hierarchy@, n as int, (i + 1) as nat) == Some(
                        ExportError::BoneOutOfRange { index: child },
                    ));
                    lemma_children_refusal_stays(hierarchy@, n as int, (i + 1) as nat, n as nat);
                }
                return Err(ExportError::BoneOutOfRange { index: child });
            }
            j = j + 1;
        }
        if entry.parent_ref == 0 {
            root = i;
            count = count + 1;
        }
        i = i + 1;
    }
    if count == 0 {
        return Err(ExportError::NoRootBone);
    }
    if count > 1 {
        return Err(ExportError::MultipleRootBones);
    }
    let ghost start = *scene;
    proof {
        lemma_extends_refl(&start);
    }
    let mut nodes: Vec<usize> = Vec::new();
    let mut i: usize = 0;
    while i < n
        invariant
            i <= n,
            n == bones@.len(),
            base == start.nodes@.len(),
            scene.wf(),
            start.extends(scene),
            start.same_but_nodes(scene),
            scene.nodes@.len() == base + i,
            nodes@.len() == i,
            forall|k: int| 0 <= k < i ==> #[trigger] nodes@[k] == base + k,
            forall|k: int|
                0 <= k < i ==> is_bone_node(#[trigger] scene.nodes@[base + k], bones@[k]) && scene.nodes@[base
                    + k].children@.len() == 0,
        decreases n - i,
    {
        let bone = &bones[i];
        let transform = if bone.transform.is_identity() {
            Transform::Identity
        } else {
            Transform::Matrix(bone.transform.transposed())
        };
        let ghost before = *scene;
        let place = scene.push_node(
            Node { name: Some(bone.name.clone()), transform, children: Vec::new(), mesh: None, skin: None },
        );
        nodes.push(place);
        proof {
            lemma_extends_trans(&start, &before, scene);
            assert forall|k: int| 0 <= k < i + 1 implies is_bone_node(
                #[trigger] scene.nodes@[base + k],
                bones@[k],
            ) && scene.nodes@[base + k].children@.len() == 0 by {
                if k < i {
                    assert(scene.nodes@[base + k] == before.nodes@[base + k]);
                }
            }
        }
        i = i + 1;
    }
    let mut i: usize = 0;
    while i < n
        invariant
            i <= n,
            n == bones@.len(),
            n == hierarchy@.len(),
            base == start.nodes@.len(),
            children_in_range(hierarchy@, n as int),
            nodes@.len() == n,
            forall|k: int| 0 <= k < n ==> #[trigger] nodes@[k] == base + k,
            scene.wf(),
            start.extends(scene),
            start.same_but_nodes(scene),
            scene.nodes@.len() == base + n,
            forall|k: int| 0 <= k < n ==> is_bone_node(#[trigger] scene.nodes@[base + k], bones@[k]),
            forall|k: int| i <= k < n ==> (#[trigger] scene.nodes@[base + k]).children@.len() == 0,
            forall|k: int|
                0 <= k < i ==> bone_children(
                    base as int,
                    (#[trigger] scene.nodes@[base + k]).children@,
                    hierarchy@[k].children_refs@,
                ),
        decreases n - i,
    {
        let entry = &hierarchy[i];
        let ghost refs = entry.children_refs@;
        let mut j: usize = 0;
        while j < entry.children_refs.len()
            invariant
                j <= refs.len(),
                refs == entry.children_refs@,
                refs == hierarchy@[i as int].children_refs@,
                i < n,
                n == bones@.len(),
                n == hierarchy@.len(),
                base == start.nodes@.len(),
                    children_in_range(hierarchy@, n as int),
                nodes@.len() == n,
                forall|k: int| 0 <= k < n ==> #[trigger] nodes@[k] == base + k,
                scene.wf(),
                start.extends(scene),
                start.same_but_nodes(scene),
                scene.nodes@.len() == base + n,
                forall|k: int| 0 <= k < n ==> is_bone_node(#[trigger] scene.nodes@[base + k], bones@[k]),
                forall|k: int| i < k < n ==> (#[trigger] scene.nodes@[base + k]).children@.len() == 0,
                forall|k: int|
                    0 <= k < i ==> bone_children(
                        base as int,
                        (#[trigger] scene.nodes@[base + k]).children@,
                        hierarchy@[k].children_refs@,
                    ),
                bone_children(base as int, scene.nodes@[base + i].children@, refs.subrange(0, j as int)),
            decreases refs.len() - j,
        {
            let child = entry.children_refs[j];
            assert(1 <= hierarchy@[i as int].children_refs@[j as int] <= n);
            let ghost before = *scene;
            scene.add_child(nodes[i], nodes[child as usize - 1]);
            proof {
                lemma_extends_trans(&start, &before, scene);
                let now = scene.nodes@[base + i].children@;
                let was = before.nodes@[base + i].children@;
                assert(refs.subrange(0, j + 1) =~= refs.subrange(0, j as int).push(child));
                assert forall|k: int| 0 <= k < now.len() implies #[trigger] now[k] == base + refs.subrange(
                    0,
                    j + 1,
                )[k] - 1 by {
                    if k < was.len() {
                        assert(now[k] == was[k]);
                    }
                }
                assert forall|k: int| 0 <= k < n implies is_bone_node(
                    #[trigger] scene.nodes@[base + k],
                    bones@[k],
                ) by {
                    assert(is_bone_node(before.nodes@[base + k], bones@[k]));
                }
                assert forall|k: int| 0 <= k < i implies bone_children(
                    base as int,
                    (#[trigger] scene.nodes@[base + k]).children@,
                    hierarchy@[k].children_refs@,
                ) by {
                    assert(scene.nodes@[base + k] == before.nodes@[base + k]);
                }
            }
            j = j + 1;
        }
        proof {
            assert(refs.subrange(0, refs.len() as int) =~= refs);
        }
        i = i + 1;
    }
    Ok((nodes[root], nodes))
}

/// A document that has grown extends what it was.
pub proof fn lemma_grown_extends(before: &Scene, after: &Scene)
    requires
        grown(before, after),
    ensures
        before.extends(after),
{
    lemma_prefix_refl(before.materials@);
    lemma_prefix_refl(before.skins@);
    lemma_prefix_refl(before.animations@);
    lemma_prefix_refl(before.roots@);
    assert forall|i: int| 0 <= i < before.nodes@.len() implies node_extends(
        before.nodes@[i],
        #[trigger] after.nodes@[i],
    ) by {
        assert(after.nodes@.subrange(0, before.nodes@.len() as int)[i] == before.nodes@[i]);
        lemma_prefix_refl(before.nodes@[i].children@);
    }
}

/// What `build_mesh_parts` has made: a node for each part of the mesh, and
/// the node that they stand below.
pub open spec fn parts_added(before: &Scene, after: &Scene, parent: usize, parts: Seq<usize>, count: int) -> bool {
    &&& parts.len() == count
    &&& parent < after.nodes@.len()
    &&& forall|i: int|
        0 <= i < parts.len() ==> before.nodes@.len() <= #[trigger] parts[i] < after.nodes@.len()
            && after.nodes@[parts[i] as int].mesh is Some
    &&& parts.len() <= after.nodes@[parent as int].children@.len()
    &&& after.nodes@[parent as int].children@.subrange(
        after.nodes@[parent as int].children@.len() - parts.len(),
        after.nodes@[parent as int].children@.len() as int,
    ) == parts
}

/// Why the first `k` parts of a mesh cannot be added to a document: why
/// the first of them that cannot be cannot. `None` where all can.
pub open spec fn parts_refusal(
    buffer_length: int,
    material_count: int,
    decls: Seq<Seq<TransformedVertexElement>>,
    materials: Seq<Option<usize>>,
    parts: Seq<MeshPart>,
    data: Source,
    k: nat,
) -> Option<ExportError>
    decreases k,
{
    if k == 0 {
        None
    } else {
        match parts_refusal(buffer_length, material_count, decls, materials, parts, data, (k - 1) as nat) {
            Some(e) => Some(e),
            None => part_refusal(buffer_length, material_count, decls, materials, parts[k - 1], data),
        }
    }
}

/// Once a part has been refused, the mesh has been.
pub proof fn lemma_parts_refusal_stays(
    buffer_length: int,
    material_count: int,
    decls: Seq<Seq<TransformedVertexElement>>,
    materials: Seq<Option<usize>>,
    parts: Seq<MeshPart>,
    data: Source,
    k: nat,
    n: nat,
)
    requires
        k <= n,
        parts_refusal(buffer_length, material_count, decls, materials, parts, data, k) is Some,
    ensures
        parts_refusal(buffer_length, material_count, decls, materials, parts, data, n) == parts_refusal(
            buffer_length,
            material_count,
            decls,
            materials,
            parts,
            data,
            k,
        ),
    decreases n - k,
{
    if k < n {
        lemma_parts_refusal_stays(buffer_length, material_count, decls, materials, parts, data, k, (n - 1) as nat);
    }
}

/// The parts of a mesh can be added where each of them can.
pub proof fn lemma_parts_refusal_none(
    buffer_length: int,
    material_count: int,
    decls: Seq<Seq<TransformedVertexElement>>,
    materials: Seq<Option<usize>>,
    parts: Seq<MeshPart>,
    data: Source,
    k: nat,
)
    ensures
        parts_refusal(buffer_length, material_count, decls, materials, parts, data, k) is None <==> forall|i: int|
            0 <= i < k ==> part_refusal(buffer_length, material_count, decls, materials, #[trigger] parts[i], data)
                is None,
    decreases k,
{
    if k > 0 {
        lemma_parts_refusal_none(buffer_length, material_count, decls, materials, parts, data, (k - 1) as nat);
        if parts_refusal(buffer_length, material_count, decls, materials, parts, data, k) is None {
            assert forall|i: int| 0 <= i < k implies part_refusal(
                buffer_length,
                material_count,
                decls,
                materials,
                #[trigger] parts[i],
                data,
            ) is None by {}
        }
    }
}

/// The places of the nodes of the bones, where there are bones.
pub open spec fn places_of(bones: Option<&[usize]>) -> Option<Seq<usize>> {
    match bones {
        Some(b) => Some(b@),
        None => None,
    }
}

/// Why a mesh whose bone is the one that `bone_ref` refers to cannot
/// stand below the node of its bone, or `None` where it can or there are
/// no bones: the reference is to no bone. References count from 1.
pub open spec fn parent_refusal(bone_ref: u32, bones: Option<Seq<usize>>) -> Option<ExportError> {
    match bones {
        Some(b) => if bone_ref == 0 || bone_ref > b.len() {
            Some(ExportError::BoneOutOfRange { index: bone_ref })
        } else {
            None
        },
        None => None,
    }
}

/// Why a mesh cannot be added to a document: a part cannot be added, or
/// the mesh cannot stand below the node of its bone. `None` where it
/// can.
pub open spec fn mesh_refusal(
    buffer_length: int,
    material_count: int,
    decls: Seq<Seq<TransformedVertexElement>>,
    materials: Seq<Option<usize>>,
    parts: Seq<MeshPart>,
    data: Source,
    bone_ref: u32,
    bones: Option<Seq<usize>>,
) -> Option<ExportError> {
    match parts_refusal(buffer_length, material_count, decls, materials, parts, data, parts.len()) {
        Some(e) => Some(e),
        None => parent_refusal(bone_ref, bones),
    }
}

/// Adds the nodes of the parts of one mesh, and puts them below the node
/// of the bone that the mesh belongs to or, where no bones are given,
/// below a node of their own. The places of the nodes of the bones must
/// be places of nodes of the document. Returns the place of that node and
/// the places of the nodes of the parts.
pub fn build_mesh_parts(
    scene: &mut Scene,
    decls: &[TransformedVertexDeclaration],
    data: &MeshData,
    materials: &[Option<usize>],
    bones: Option<&[usize]>,
) -> (res: Result<(usize, Vec<usize>), ExportError>)
    requires
        old(scene).wf(),
        bones matches Some(b) ==> forall|i: int| 0 <= i < b@.len() ==> #[trigger] b@[i] < old(scene).nodes@.len(),
    ensures
        res is Err ==> old(scene).extends(final(scene)) && old(scene).keeps_rest(final(scene)),
        res matches Err(e) ==> e !is UnknownChannelTarget,
        res matches Err(e) ==> mesh_refusal(
            old(scene).buffer_length as int,
            old(scene).materials@.len() as int,
            elements_of(decls@),
            materials@,
            data.mesh.parts@,
            data.source(),
            data.mesh.parent_bone_ref,
            places_of(bones),
        ) == Some(e),
        res matches Ok((parent, parts)) ==> {
            &&& mesh_refusal(
                old(scene).buffer_length as int,
                old(scene).materials@.len() as int,
                elements_of(decls@),
                materials@,
                data.mesh.parts@,
                data.source(),
                data.mesh.parent_bone_ref,
                places_of(bones),
            ) is None
            &&& final(scene).wf()
            &&& old(scene).extends(final(scene))
            &&& old(scene).keeps_rest(final(scene))
            &&& parts_added(old(scene), final(scene), parent, parts@, data.mesh.parts@.len() as int)
            &&& bones matches Some(b) ==> 1 <= data.mesh.parent_bone_ref <= b@.len() && parent == b@[
                data.mesh.parent_bone_ref - 1
            ]
            &&& bones is None ==> parent == final(scene).nodes@.len() - 1 && final(scene).nodes@[parent as int]
                .children@ == parts@
            &&& forall|i: int|
                old(scene).nodes@.len() <= i < final(scene).nodes@.len() ==> (#[trigger] final(scene).nodes@[i]).name
                    is None
            &&& parts_from(
                final(scene),
                parent as int,
                final(scene).nodes@[parent as int].children@.len() - data.mesh.parts@.len(),
                elements_of(decls@),
                materials@,
                data.mesh.parts@,
                data.source(),
            )
        },
{
    let ghost start = *scene;
    proof {
        lemma_extends_refl(&start);
    }
    let mut parts: Vec<usize> = Vec::new();
    let mut i: usize = 0;
    while i < data.mesh.parts.len()
        invariant
            i <= data.mesh.parts@.len(),
            scene.wf(),
            start.extends(scene),
            start.keeps_rest(scene),
            start.nodes@.len() <= scene.nodes@.len(),
            scene.nodes@.len() == start.nodes@.len() + i,
            start == *old(scene),
            forall|k: int| start.nodes@.len() <= k < scene.nodes@.len() ==> (#[trigger] scene.nodes@[k]).name is None,
            parts_refusal(
                start.buffer_length as int,
                start.materials@.len() as int,
                elements_of(decls@),
                materials@,
                data.mesh.parts@,
                data.source(),
                i as nat,
            ) is None,
            parts@.len() == i,
            forall|k: int|
                0 <= k < i ==> start.nodes@.len() <= #[trigger] parts@[k] < scene.nodes@.len()
                    && scene.nodes@[parts@[k] as int].mesh is Some,
            forall|k: int|
                0 <= k < i ==> draws(
                    scene,
                    parts@[k] as int,
                    elements_of(decls@),
                    materials@,
                    #[trigger] data.mesh.parts@[k],
                    data.source(),
                ),
        decreases data.mesh.parts@.len() - i,
    {
        let ghost before = *scene;
        let ghost had = parts@;
        let node = match build_mesh_part(scene, decls, data, &data.mesh.parts[i], materials) {
            Ok(node) => node,
            Err(e) => {
                proof {
                    lemma_parts_refusal_stays(
                        start.buffer_length as int,
                        start.materials@.len() as int,
                        elements_of(decls@),
                        materials@,
                        data.mesh.parts@,
                        data.source(),
                        (i + 1) as nat,
                        data.mesh.parts@.len(),
                    );
                }
                return Err(e);
            },
        };
        parts.push(node);
        proof {
            lemma_grown_extends(&before, scene);
            lemma_extends_trans(&start, &before, scene);
            assert forall|k: int| start.nodes@.len() <= k < scene.nodes@.len() implies (#[trigger] scene.nodes@[
                k
            ]).name is None by {
                if k < before.nodes@.len() {
                    assert(scene.nodes@.subrange(0, before.nodes@.len() as int)[k] == before.nodes@[k]);
                } else {
                    assert(scene.nodes@[k] == scene.nodes@.last());
                }
            }
            assert forall|k: int| 0 <= k < i + 1 implies draws(
                scene,
                parts@[k] as int,
                elements_of(decls@),
                materials@,
                #[trigger] data.mesh.parts@[k],
                data.source(),
            ) by {
                if k < i {
                    assert(parts@[k] == had[k]);
                    lemma_draws_later(
                        &before,
                        scene,
                        had[k] as int,
                        elements_of(decls@),
                        materials@,
                        data.mesh.parts@[k],
                        data.source(),
                    );
                }
            }
            assert forall|k: int| 0 <= k < i + 1 implies start.nodes@.len() <= #[trigger] parts@[k]
                < scene.nodes@.len() && scene.nodes@[parts@[k] as int].mesh is Some by {
                if k < i {
                    assert(scene.nodes@.subrange(0, before.nodes@.len() as int)[parts@[k] as int]
                        == before.nodes@[parts@[k] as int]);
                } else {
                    assert(scene.nodes@[node as int] == scene.nodes@.last());
                }
            }
        }
        i = i + 1;
    }
    match bones {
        Some(b) => {
            let r = data.mesh.parent_bone_ref;
            if r == 0 || r as usize > b.len() {
                return Err(ExportError::BoneOutOfRange { index: r });
            }
            let parent = b[r as usize - 1];
            let ghost filled = *scene;
            let ghost had = scene.nodes@[parent as int].children@;
            let mut i: usize = 0;
            while i < parts.len()
                invariant
                    i <= parts@.len(),
                    parent < scene.nodes@.len(),
                    scene.wf(),
                    start.extends(scene),
                    start.keeps_rest(scene),
                    scene.nodes@.len() == filled.nodes@.len(),
                    forall|k: int|
                        0 <= k < parts@.len() ==> start.nodes@.len() <= #[trigger] parts@[k] < scene.nodes@.len()
                            && scene.nodes@[parts@[k] as int].mesh is Some,
                    scene.nodes@[parent as int].children@ == had + parts@.subrange(0, i as int),
                    parts@.len() == data.mesh.parts@.len(),
                    forall|k: int|
                        start.nodes@.len() <= k < scene.nodes@.len() ==> (#[trigger] scene.nodes@[k]).name is None,
                    forall|k: int|
                        0 <= k < parts@.len() ==> draws(
                            scene,
                            parts@[k] as int,
                            elements_of(decls@),
                            materials@,
                            #[trigger] data.mesh.parts@[k],
                            data.source(),
                        ),
                decreases parts@.len() - i,
            {
                let ghost before = *scene;
                scene.add_child(parent, parts[i]);
                proof {
                    lemma_extends_trans(&start, &before, scene);
                    assert forall|k: int| start.nodes@.len() <= k < scene.nodes@.len() implies (
                    #[trigger] scene.nodes@[k]).name is None by {
                        assert(before.nodes@[k].name is None);
                        assert(node_extends(before.nodes@[k], scene.nodes@[k]));
                    }
                    assert forall|k: int| 0 <= k < parts@.len() implies draws(
                        scene,
                        parts@[k] as int,
                        elements_of(decls@),
                        materials@,
                        #[trigger] data.mesh.parts@[k],
                        data.source(),
                    ) by {
                        lemma_draws_later(
                            &before,
                            scene,
                            parts@[k] as int,
                            elements_of(decls@),
                            materials@,
                            data.mesh.parts@[k],
                            data.source(),
                        );
                    }
                    assert(parts@.subrange(0, i + 1) =~= parts@.subrange(0, i as int).push(parts@[i as int]));
                    assert(scene.nodes@[parent as int].children@ =~= had + parts@.subrange(0, i + 1));
                    assert forall|k: int| 0 <= k < parts@.len() implies start.nodes@.len() <= #[trigger] parts@[k]
                        < scene.nodes@.len() && scene.nodes@[parts@[k] as int].mesh is Some by {
                        assert(before.nodes@[parts@[k] as int].mesh is Some);
                    }
                }
                i = i + 1;
            }
            proof {
                let all = scene.nodes@[parent as int].children@;
                assert(parts@.subrange(0, parts@.len() as int) =~= parts@);
                assert(all.subrange(all.len() - parts@.len(), all.len() as int) =~= parts@);
                assert forall|k: int| 0 <= k < parts@.len() implies all[all.len() - parts@.len() + k]
                    == #[trigger] parts@[k] by {
                    assert(all.subrange(all.len() - parts@.len(), all.len() as int)[k] == parts@[k]);
                }
            }
            Ok((parent, parts))
        },
        None => {
            let ghost before = *scene;
            let children = parts.clone();
            assert(children@ =~= parts@) by {
                assert(children@.len() == parts@.len());
            }
            let parent = scene.push_node(
                Node { name: None, transform: Transform::Identity, children, mesh: None, skin: None },
            );
            proof {
                lemma_extends_trans(&start, &before, scene);
                assert(parts@.subrange(0, parts@.len() as int) =~= parts@);
                assert forall|k: int| 0 <= k < parts@.len() implies start.nodes@.len() <= #[trigger] parts@[k]
                    < scene.nodes@.len() && scene.nodes@[parts@[k] as int].mesh is Some by {
                    assert(scene.nodes@[parts@[k] as int] == before.nodes@[parts@[k] as int]);
                }
                assert forall|k: int| start.nodes@.len() <= k < scene.nodes@.len() implies (
                #[trigger] scene.nodes@[k]).name is None by {
                    if k < before.nodes@.len() {
                        assert(scene.nodes@[k] == before.nodes@[k]);
                    }
                }
                assert forall|k: int| 0 <= k < parts@.len() implies draws(
                    scene,
                    parts@[k] as int,
                    elements_of(decls@),
                    materials@,
                    #[trigger] data.mesh.parts@[k],
                    data.source(),
                ) by {
                    lemma_draws_later(
                        &before,
                        scene,
                        parts@[k] as int,
                        elements_of(decls@),
                        materials@,
                        data.mesh.parts@[k],
                        data.source(),
                    );
                }
            }
            Ok((parent, parts))
        },
    }
}

} // verus!
