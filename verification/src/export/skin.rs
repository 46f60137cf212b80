//! The skin of a skinned model: a node for each joint, in the order of the
//! walk over the skeleton, and the accessor of the inverse bind matrices.
use vstd::prelude::*;
use crate::content::skinned_model::SkinnedModelBone;
use crate::content::Content;
use crate::export::buffer::Region;
use crate::export::scene::{
    Accessor, BufferView, ComponentType, ElementType, Extent, Node, Scene, Skin, Transform,
};
use crate::export::skeleton::{
    bone_by_ref, bone_of, lemma_places_error_none, lemma_places_error_stays, places_error, ref_error, root_from,
    skeleton_of, walk, walk_children,
};
use crate::export::ExportError;

verus! {

/// Whether `node` is the node of `bone`: it has the name of the bone and
/// its translation, rotation and scale, and neither mesh nor skin.
pub open spec fn is_joint_node(node: Node, bone: SkinnedModelBone) -> bool {
    &&& node.name matches Some(name)
    &&& name@ == bone.name@
    &&& node.transform == (Transform::Decomposed {
        translation: bone.translation,
        rotation: bone.orientation,
        scale: bone.scale,
    })
    &&& node.mesh is None
    &&& node.skin is None
}

/// Whether `children` are the nodes of the bones that `refs` refer to, one
/// for one: the joints stand from `base` on in the order of `order`.
pub open spec fn children_match(order: Seq<usize>, base: int, children: Seq<usize>, refs: Seq<usize>) -> bool {
    &&& children.len() == refs.len()
    &&& forall|j: int|
        0 <= j < children.len() ==> base <= #[trigger] children[j] < base + order.len() && order[children[j]
            - base] + 1 == refs[j]
}

/// Whether every joint is a bone of the pool.
pub open spec fn joints_are_bones(pool: Seq<Content>, order: Seq<usize>) -> bool {
    forall|k: int| 0 <= k < order.len() ==> order[k] < pool.len() && bone_of(pool[#[trigger] order[k] as int]) is Some
}

/// What `build_skin` has added to `before` to make `after`.
pub open spec fn skin_added(
    before: &Scene,
    after: &Scene,
    region: Region,
    order: Seq<usize>,
    pool: Seq<Content>,
) -> bool {
    let base = before.nodes@.len() as int;
    &&& joints_are_bones(pool, order)
    &&& order.len() > 0
    &&& after.materials == before.materials
    &&& after.meshes == before.meshes
    &&& after.animations == before.animations
    &&& after.roots == before.roots
    &&& after.nodes@.len() == base + order.len()
    &&& before.views@.len() <= usize::MAX
    &&& after.views@ == before.views@.push(
        BufferView {
            byte_offset: region.offset,
            byte_length: region.length,
            byte_stride: None,
            target: None,
        },
    )
    &&& after.accessors@ == before.accessors@.push(
        Accessor {
            view: before.views@.len() as usize,
            byte_offset: 0,
            count: order.len() as usize,
            component_type: ComponentType::Float,
            element_type: ElementType::Mat4,
            normalized: false,
            extent: Extent::Unstated,
        },
    )
    &&& after.skins@.len() == before.skins@.len() + 1
    &&& after.skins@.last().skeleton == base
    &&& after.skins@.last().inverse_bind_matrices == before.accessors@.len()
    &&& after.skins@.last().joints@.len() == order.len()
    &&& forall|k: int| 0 <= k < order.len() ==> #[trigger] after.skins@.last().joints@[k] == base + k
    &&& forall|k: int|
        0 <= k < order.len() ==> is_joint_node(#[trigger] after.nodes@[base + k], bone_of(pool[order[k] as int])->0)
            && children_match(
            order,
            base,
            after.nodes@[base + k].children@,
            bone_of(pool[order[k] as int])->0.shared_child_refs@,
        )
}

/// The reference to child `j` of joint `k`.
pub open spec fn child_ref(pool: Seq<Content>, order: Seq<usize>, k: int, j: int) -> usize {
    bone_of(pool[order[k] as int])->0.shared_child_refs@[j]
}

/// Whether every child of every joint is a joint: references count from
/// 1, the places in `order` from 0.
pub open spec fn children_are_joints(pool: Seq<Content>, order: Seq<usize>) -> bool {
    forall|k: int, j: int|
        0 <= k < order.len() && 0 <= j < bone_of(pool[order[k] as int])->0.shared_child_refs@.len() ==> 1 <= (
        #[trigger] child_ref(pool, order, k, j)) && order.contains((child_ref(pool, order, k, j) - 1) as usize)
}

/// Whether `longer` starts with `shorter`.
pub open spec fn begins(shorter: Seq<usize>, longer: Seq<usize>) -> bool {
    shorter.len() <= longer.len() && forall|j: int| 0 <= j < shorter.len() ==> longer[j] == #[trigger] shorter[j]
}

/// Whether the entry at `j` of a walk is a bone of the pool whose
/// children are all entries of the walk.
pub open spec fn entry_walked(pool: Seq<Content>, order: Seq<usize>, j: int) -> bool {
    &&& order[j] < usize::MAX
    &&& ref_error(pool, (order[j] + 1) as usize) is None
    &&& forall|c: int|
        0 <= c < bone_of(pool[order[j] as int])->0.shared_child_refs@.len() ==> 1 <= (#[trigger] child_ref(
            pool,
            order,
            j,
            c,
        )) && order.contains((child_ref(pool, order, j, c) - 1) as usize)
}

/// An entry that is walked in a walk is walked in every walk that starts
/// with it.
pub proof fn lemma_entry_walked_later(pool: Seq<Content>, before: Seq<usize>, after: Seq<usize>, j: int)
    requires
        begins(before, after),
        0 <= j < before.len(),
        entry_walked(pool, before, j),
    ensures
        entry_walked(pool, after, j),
{
    assert(after[j] == before[j]);
    assert forall|c: int| 0 <= c < bone_of(pool[after[j] as int])->0.shared_child_refs@.len() implies 1 <= (
    #[trigger] child_ref(pool, after, j, c)) && after.contains((child_ref(pool, after, j, c) - 1) as usize) by {
        let r = child_ref(pool, before, j, c);
        assert(child_ref(pool, after, j, c) == r);
        assert(before.contains((r - 1) as usize));
        let i = choose|i: int| 0 <= i < before.len() && before[i] == (r - 1) as usize;
        assert(after[i] == before[i]);
    }
}

/// A walk that succeeds goes on from what was walked before, starts
/// with the bone it was asked for, and every bone that it adds is a bone
/// of the pool whose children it holds.
pub proof fn lemma_walk_closed(pool: Seq<Content>, at: usize, fuel: nat, acc: Seq<usize>)
    requires
        walk(pool, at, fuel, acc) is Ok,
    ensures
        begins(acc, walk(pool, at, fuel, acc)->Ok_0),
        walk(pool, at, fuel, acc)->Ok_0.len() > acc.len(),
        walk(pool, at, fuel, acc)->Ok_0[acc.len() as int] == at,
        forall|j: int|
            acc.len() <= j < walk(pool, at, fuel, acc)->Ok_0.len() ==> #[trigger] entry_walked(
                pool,
                walk(pool, at, fuel, acc)->Ok_0,
                j,
            ),
    decreases fuel, 0nat, 0nat,
{
    let children = bone_of(pool[at as int])->0.shared_child_refs@;
    let res = walk(pool, at, fuel, acc)->Ok_0;
    let start = acc.push(at);
    lemma_children_closed(pool, children, 0, (fuel - 1) as nat, start);
    assert(res[acc.len() as int] == start[acc.len() as int]);
    assert forall|j: int| 0 <= j < acc.len() implies res[j] == #[trigger] acc[j] by {
        assert(res[j] == start[j]);
    }
    assert forall|j: int| acc.len() <= j < res.len() implies #[trigger] entry_walked(pool, res, j) by {
        if j == acc.len() {
            assert forall|c: int| 0 <= c < children.len() implies 1 <= (#[trigger] child_ref(pool, res, j, c))
                && res.contains((child_ref(pool, res, j, c) - 1) as usize) by {
                assert(child_ref(pool, res, j, c) == children[c]);
            }
        }
    }
}

/// The walks from the children of a bone, from the child at `from` on:
/// they go on from what was walked before, every bone that they add is
/// a bone of the pool whose children they hold, and they hold each of
/// these children.
pub proof fn lemma_children_closed(pool: Seq<Content>, children: Seq<usize>, from: int, fuel: nat, acc: Seq<usize>)
    requires
        walk_children(pool, children, from, fuel, acc) is Ok,
        0 <= from,
    ensures
        begins(acc, walk_children(pool, children, from, fuel, acc)->Ok_0),
        forall|j: int|
            acc.len() <= j < walk_children(pool, children, from, fuel, acc)->Ok_0.len() ==> #[trigger] entry_walked(
                pool,
                walk_children(pool, children, from, fuel, acc)->Ok_0,
                j,
            ),
        forall|c: int|
            from <= c < children.len() ==> 1 <= #[trigger] children[c] && walk_children(
                pool,
                children,
                from,
                fuel,
                acc,
            )->Ok_0.contains((children[c] - 1) as usize),
    decreases fuel, 1nat, children.len() - from,
{
    let res = walk_children(pool, children, from, fuel, acc)->Ok_0;
    if from < children.len() {
        let at = (children[from] - 1) as usize;
        let next = walk(pool, at, fuel, acc)->Ok_0;
        lemma_walk_closed(pool, at, fuel, acc);
        lemma_children_closed(pool, children, from + 1, fuel, next);
        assert forall|j: int| 0 <= j < acc.len() implies res[j] == #[trigger] acc[j] by {
            assert(next[j] == acc[j]);
            assert(res[j] == next[j]);
        }
        assert forall|j: int| acc.len() <= j < res.len() implies #[trigger] entry_walked(pool, res, j) by {
            if j < next.len() {
                assert(entry_walked(pool, next, j));
                lemma_entry_walked_later(pool, next, res, j);
            }
        }
        assert forall|c: int| from <= c < children.len() implies 1 <= #[trigger] children[c] && res.contains(
            (children[c] - 1) as usize,
        ) by {
            if c == from {
                assert(next[acc.len() as int] == at);
                assert(res[acc.len() as int] == next[acc.len() as int]);
            }
        }
    }
}

/// The joints of a skeleton can be added to every document whose buffer
/// holds their matrices: the walk over a skeleton gives joints that are
/// bones of the pool, and the children of each are among them.
pub proof fn lemma_skeleton_builds(
    pool: Seq<Content>,
    refs: Seq<usize>,
    order: Seq<usize>,
    buffer_length: int,
    region: Region,
)
    requires
        skeleton_of(pool, refs) == Ok::<Seq<usize>, ExportError>(order),
        region.offset + region.length <= buffer_length,
    ensures
        skin_refusal(buffer_length, region, order, pool) is None,
{
    let root = (refs[root_from(pool, refs, 0)] - 1) as usize;
    lemma_walk_closed(pool, root, pool.len(), Seq::empty());
    assert forall|j: int| 0 <= j < order.len() implies order[j] < usize::MAX && (#[trigger] ref_error(
        pool,
        (order[j] + 1) as usize,
    )) is None by {
        assert(entry_walked(pool, order, j));
    }
    lemma_places_error_none(pool, order, order.len());
    assert forall|k: int, j: int|
        0 <= k < order.len() && 0 <= j < bone_of(
            pool[order[k] as int],
        )->0.shared_child_refs@.len() implies 1 <= (#[trigger] child_ref(pool, order, k, j)) && order.contains(
        (child_ref(pool, order, k, j) - 1) as usize,
    ) by {
        assert(entry_walked(pool, order, k));
    }
}

/// Why the joints of a skeleton cannot be added to a document over a
/// buffer of `buffer_length` bytes, or `None` where they can: there is no
/// joint, the matrices lie past the buffer, a joint is no bone of the
/// pool, or a child of a joint is no joint.
pub open spec fn skin_refusal(buffer_length: int, region: Region, order: Seq<usize>, pool: Seq<Content>) -> Option<
    ExportError,
> {
    if order.len() == 0 {
        Some(ExportError::NoRootBone)
    } else if region.offset + region.length > buffer_length {
        Some(ExportError::PartOutOfRange)
    } else {
        match places_error(pool, order, order.len()) {
            Some(e) => Some(e),
            None => if children_are_joints(pool, order) {
                None
            } else {
                Some(ExportError::NotATree)
            },
        }
    }
}

/// The bone of joint `k`.
fn joint_at<'a>(pool: &'a [Content], order: &[usize], k: usize) -> (bone: &'a SkinnedModelBone)
    requires
        joints_are_bones(pool@, order@),
        k < order@.len(),
    ensures
        Some(*bone) == bone_of(pool@[order@[k as int] as int]),
{
    match &pool[order[k]] {
        Content::SkinnedModelBone(bone) => bone,
        _ => vstd::pervasive::unreached(),
    }
}

/// Adds the joints of a skeleton and its skin. `order` holds the joints as
/// places of the pool, counted from 0, in the order of the walk, and
/// `region` is where their inverse bind matrices lie in the buffer. The
/// first joint is the root. Returns the places of the skin and of the node
/// of the root.
pub fn build_skin(scene: &mut Scene, region: Region, order: &[usize], pool: &[Content]) -> (res: Result<
    (usize, usize),
    ExportError,
>)
    requires
        old(scene).wf(),
    ensures
        res matches Err(e) ==> skin_refusal(old(scene).buffer_length as int, region, order@, pool@) == Some(e),
        res is Err ==> *final(scene) == *old(scene),
        res matches Ok((skin, root)) ==> {
            &&& skin_refusal(old(scene).buffer_length as int, region, order@, pool@) is None
            &&& final(scene).wf()
            &&& old(scene).extends(final(scene))
            &&& skin == old(scene).skins@.len()
            &&& root == old(scene).nodes@.len()
            &&& skin_added(old(scene), final(scene), region, order@, pool@)
        },
{
    let n = order.len();
    if n == 0 {
        return Err(ExportError::NoRootBone);
    }
    if region.offset > scene.buffer_length || region.length > scene.buffer_length - region.offset {
        return Err(ExportError::PartOutOfRange);
    }
    let base = scene.nodes.len();
    let mut place: Vec<usize> = Vec::new();
    let mut x: usize = 0;
    while x < pool.len()
        invariant
            x <= pool@.len(),
            place@.len() == x,
            forall|y: int| 0 <= y < x ==> place@[y] == usize::MAX,
        decreases pool@.len() - x,
    {
        place.push(usize::MAX);
        x = x + 1;
    }
    let mut k: usize = 0;
    while k < n
        invariant
            k <= n,
            n == order@.len(),
            place@.len() == pool@.len(),
            n > 0,
            *scene == *old(scene),
            region.offset + region.length <= scene.buffer_length,
            places_error(pool@, order@, k as nat) is None,
            forall|j: int|
                0 <= j < k ==> order@[j] < pool@.len() && bone_of(pool@[#[trigger] order@[j] as int]) is Some,
            forall|y: int|
                0 <= y < place@.len() && #[trigger] place@[y] != usize::MAX ==> place@[y] < n
                    && order@[place@[y] as int] == y,
            forall|i: int| 0 <= i < k ==> place@[#[trigger] order@[i] as int] != usize::MAX,
        decreases n - k,
    {
        if order[k] >= usize::MAX {
            proof {
                lemma_places_error_stays(pool@, order@, (k + 1) as nat, n as nat);
            }
            return Err(ExportError::SharedIndexOutOfRange { index: order[k] });
        }
        match bone_by_ref(pool, order[k] + 1) {
            Ok(_) => {},
            Err(e) => {
                proof {
                    lemma_places_error_stays(pool@, order@, (k + 1) as nat, n as nat);
                }
                return Err(e);
            },
        }
        place.set(order[k], k);
        k = k + 1;
    }
    let mut k: usize = 0;
    while k < n
        invariant
            k <= n,
            n == order@.len(),
            n > 0,
            *scene == *old(scene),
            region.offset + region.length <= scene.buffer_length,
            places_error(pool@, order@, n as nat) is None,
            joints_are_bones(pool@, order@),
            place@.len() == pool@.len(),
            forall|y: int|
                0 <= y < place@.len() && #[trigger] place@[y] != usize::MAX ==> place@[y] < n
                    && order@[place@[y] as int] == y,
            forall|i: int| 0 <= i < n ==> place@[#[trigger] order@[i] as int] != usize::MAX,
            forall|a: int, c: int|
                0 <= a < k && 0 <= c < bone_of(pool@[order@[a] as int])->0.shared_child_refs@.len() ==> 1 <= (
                #[trigger] child_ref(pool@, order@, a, c)) && order@.contains(
                    (child_ref(pool@, order@, a, c) - 1) as usize,
                ),
        decreases n - k,
    {
        let bone = joint_at(pool, order, k);
        let mut j: usize = 0;
        while j < bone.shared_child_refs.len()
            invariant
                j <= bone.shared_child_refs@.len(),
                k < n,
                n == order@.len(),
                n > 0,
                *scene == *old(scene),
                region.offset + region.length <= scene.buffer_length,
                places_error(pool@, order@, n as nat) is None,
                joints_are_bones(pool@, order@),
                Some(*bone) == bone_of(pool@[order@[k as int] as int]),
                place@.len() == pool@.len(),
                forall|y: int|
                    0 <= y < place@.len() && #[trigger] place@[y] != usize::MAX ==> place@[y] < n
                        && order@[place@[y] as int] == y,
                forall|i: int| 0 <= i < n ==> place@[#[trigger] order@[i] as int] != usize::MAX,
                forall|c: int|
                    0 <= c < j ==> 1 <= (#[trigger] child_ref(pool@, order@, k as int, c)) && order@.contains(
                        (child_ref(pool@, order@, k as int, c) - 1) as usize,
                    ),
            decreases bone.shared_child_refs@.len() - j,
        {
            let child = bone.shared_child_refs[j];
            if child == 0 || child > pool.len() {
                proof {
                    let c = child_ref(pool@, order@, k as int, j as int);
                    assert(c == child);
                    if c >= 1 && order@.contains((c - 1) as usize) {
                        let i = choose|i: int| 0 <= i < order@.len() && order@[i] == (c - 1) as usize;
                        assert(order@[i] < pool@.len());
                    }
                    assert(!children_are_joints(pool@, order@));
                }
                return Err(ExportError::NotATree);
            }
            let at = place[child - 1];
            if at == usize::MAX {
                proof {
                    let c = child_ref(pool@, order@, k as int, j as int);
                    assert(c == child);
                    if order@.contains((c - 1) as usize) {
                        let i = choose|i: int| 0 <= i < order@.len() && order@[i] == (c - 1) as usize;
                        assert(place@[order@[i] as int] != usize::MAX);
                    }
                    assert(!children_are_joints(pool@, order@));
                }
                return Err(ExportError::NotATree);
            }
            proof {
                assert(child_ref(pool@, order@, k as int, j as int) == child);
                assert(order@[at as int] == (child - 1) as usize);
            }
            j = j + 1;
        }
        k = k + 1;
    }
    assert(children_are_joints(pool@, order@));
    let ghost start = *scene;
    proof {
        crate::export::scene::lemma_extends_refl(&start);
    }
    let mut made: Vec<usize> = Vec::new();
    let mut k: usize = 0;
    while k < n
        invariant
            k <= n,
            n == order@.len(),
            base == start.nodes@.len(),
            joints_are_bones(pool@, order@),
            scene.wf(),
            start.extends(scene),
            start.same_but_nodes(scene),
            scene.nodes@.len() == base + k,
            made@.len() == k,
            forall|j: int| 0 <= j < k ==> #[trigger] made@[j] == base + j,
            forall|j: int|
                0 <= j < k ==> is_joint_node(#[trigger] scene.nodes@[base + j], bone_of(pool@[order@[j] as int])->0)
                    && scene.nodes@[base + j].children@.len() == 0,
        decreases n - k,
    {
        let bone = joint_at(pool, order, k);
        let ghost before = *scene;
        let at = scene.push_node(
            Node {
                name: Some(bone.name.clone()),
                transform: Transform::Decomposed {
                    translation: bone.translation,
                    rotation: bone.orientation,
                    scale: bone.scale,
                },
                children: Vec::new(),
                mesh: None,
                skin: None,
            },
        );
        made.push(at);
        proof {
            crate::export::scene::lemma_extends_trans(&start, &before, scene);
            assert forall|j: int| 0 <= j < k + 1 implies is_joint_node(
                #[trigger] scene.nodes@[base + j],
                bone_of(pool@[order@[j] as int])->0,
            ) && scene.nodes@[base + j].children@.len() == 0 by {
                if j < k {
                    assert(scene.nodes@[base + j] == before.nodes@[base + j]);
                }
            }
        }
        k = k + 1;
    }
    let mut k: usize = 0;
    while k < n
        invariant
            k <= n,
            n == order@.len(),
            n > 0,
            base == start.nodes@.len(),
            joints_are_bones(pool@, order@),
            children_are_joints(pool@, order@),
            places_error(pool@, order@, n as nat) is None,
            region.offset + region.length <= start.buffer_length,
            start.buffer_length == old(scene).buffer_length,
            made@.len() == n,
            forall|j: int| 0 <= j < n ==> #[trigger] made@[j] == base + j,
            place@.len() == pool@.len(),
            forall|y: int|
                0 <= y < place@.len() && #[trigger] place@[y] != usize::MAX ==> place@[y] < n
                    && order@[place@[y] as int] == y,
            forall|i: int| 0 <= i < n ==> place@[#[trigger] order@[i] as int] != usize::MAX,
            scene.wf(),
            start.extends(scene),
            start.same_but_nodes(scene),
            scene.nodes@.len() == base + n,
            forall|j: int|
                0 <= j < n ==> is_joint_node(#[trigger] scene.nodes@[base + j], bone_of(pool@[order@[j] as int])->0),
            forall|j: int| k <= j < n ==> (#[trigger] scene.nodes@[base + j]).children@.len() == 0,
            forall|j: int|
                0 <= j < k ==> children_match(
                    order@,
                    base as int,
                    (#[trigger] scene.nodes@[base + j]).children@,
                    bone_of(pool@[order@[j] as int])->0.shared_child_refs@,
                ),
        decreases n - k,
    {
        let bone = joint_at(pool, order, k);
        let ghost refs = bone.shared_child_refs@;
        let mut j: usize = 0;
        while j < bone.shared_child_refs.len()
            invariant
                j <= refs.len(),
                refs == bone.shared_child_refs@,
                k < n,
                n == order@.len(),
                base == start.nodes@.len(),
                joints_are_bones(pool@, order@),
                children_are_joints(pool@, order@),
                places_error(pool@, order@, n as nat) is None,
                region.offset + region.length <= start.buffer_length,
                start.buffer_length == old(scene).buffer_length,
                n > 0,
                made@.len() == n,
                forall|i: int| 0 <= i < n ==> #[trigger] made@[i] == base + i,
                Some(*bone) == bone_of(pool@[order@[k as int] as int]),
                place@.len() == pool@.len(),
                forall|y: int|
                    0 <= y < place@.len() && #[trigger] place@[y] != usize::MAX ==> place@[y] < n
                        && order@[place@[y] as int] == y,
                forall|i: int| 0 <= i < n ==> place@[#[trigger] order@[i] as int] != usize::MAX,
                scene.wf(),
                start.extends(scene),
                start.same_but_nodes(scene),
                scene.nodes@.len() == base + n,
                forall|i: int|
                    0 <= i < n ==> is_joint_node(
                        #[trigger] scene.nodes@[base + i],
                        bone_of(pool@[order@[i] as int])->0,
                    ),
                forall|i: int| k < i < n ==> (#[trigger] scene.nodes@[base + i]).children@.len() == 0,
                forall|i: int|
                    0 <= i < k ==> children_match(
                        order@,
                        base as int,
                        (#[trigger] scene.nodes@[base + i]).children@,
                        bone_of(pool@[order@[i] as int])->0.shared_child_refs@,
                    ),
                children_match(
                    order@,
                    base as int,
                    scene.nodes@[base + k].children@,
                    refs.subrange(0, j as int),
                ),
            decreases refs.len() - j,
        {
            let child = bone.shared_child_refs[j];
            proof {
                let c = child_ref(pool@, order@, k as int, j as int);
                assert(c == child);
                let i = choose|i: int| 0 <= i < order@.len() && order@[i] == (c - 1) as usize;
                assert(order@[i] < pool@.len());
                assert(place@[order@[i] as int] != usize::MAX);
            }
            let at = place[child - 1];
            let ghost before = *scene;
            scene.add_child(made[k], made[at]);
            proof {
                crate::export::scene::lemma_extends_trans(&start, &before, scene);
                let now = scene.nodes@[base + k].children@;
                let was = before.nodes@[base + k].children@;
                assert(refs.subrange(0, j + 1) =~= refs.subrange(0, j as int).push(child));
                assert forall|i: int| 0 <= i < now.len() implies base <= #[trigger] now[i] < base + order@.len()
                    && order@[now[i] - base] + 1 == refs.subrange(0, j + 1)[i] by {
                    if i < was.len() {
                        assert(now[i] == was[i]);
                    }
                }
                assert forall|i: int| 0 <= i < n implies is_joint_node(
                    #[trigger] scene.nodes@[base + i],
                    bone_of(pool@[order@[i] as int])->0,
                ) by {
                    assert(is_joint_node(before.nodes@[base + i], bone_of(pool@[order@[i] as int])->0));
                }
                assert forall|i: int| 0 <= i < k implies children_match(
                    order@,
                    base as int,
                    (#[trigger] scene.nodes@[base + i]).children@,
                    bone_of(pool@[order@[i] as int])->0.shared_child_refs@,
                ) by {
                    assert(scene.nodes@[base + i] == before.nodes@[base + i]);
                }
            }
            j = j + 1;
        }
        proof {
            assert(refs.subrange(0, refs.len() as int) =~= refs);
        }
        k = k + 1;
    }
    let ghost nodes_done = *scene;
    let view = scene.push_view(
        BufferView { byte_offset: region.offset, byte_length: region.length, byte_stride: None, target: None },
    );
    let accessor = scene.push_accessor(
        Accessor {
            view,
            byte_offset: 0,
            count: n,
            component_type: ComponentType::Float,
            element_type: ElementType::Mat4,
            normalized: false,
            extent: Extent::Unstated,
        },
    );
    let ghost before_skin = *scene;
    let root = made[0];
    let skin = scene.push_skin(Skin { skeleton: root, joints: made, inverse_bind_matrices: accessor });
    proof {
        crate::export::scene::lemma_extends_trans(&nodes_done, &before_skin, scene);
        crate::export::scene::lemma_extends_trans(&start, &nodes_done, scene);
    }
    Ok((skin, root))
}

} // verus!
