//! The skeleton of a skinned model: the walk over its bones from the root,
//! which gives the joints their order.
use vstd::prelude::*;
use crate::content::skinned_model::SkinnedModelBone;
use crate::content::Content;
use crate::export::ExportError;

verus! {

/// The bone that content is, if it is one.
pub open spec fn bone_of(c: Content) -> Option<SkinnedModelBone> {
    match c {
        Content::SkinnedModelBone(b) => Some(b),
        _ => None,
    }
}

/// What is wrong with `r` as a reference to a bone of the pool, where
/// something is: references count from 1, and the entry must be a bone.
pub open spec fn ref_error(pool: Seq<Content>, r: usize) -> Option<ExportError> {
    if r == 0 || r > pool.len() {
        Some(ExportError::SharedIndexOutOfRange { index: r })
    } else if bone_of(pool[r - 1]) is None {
        Some(ExportError::UnexpectedShared { index: r })
    } else {
        None
    }
}

/// The first error among the first `k` references, where there is one.
pub open spec fn refs_error(pool: Seq<Content>, refs: Seq<usize>, k: nat) -> Option<ExportError>
    decreases k,
{
    if k == 0 {
        None
    } else {
        match refs_error(pool, refs, (k - 1) as nat) {
            Some(e) => Some(e),
            None => ref_error(pool, refs[k - 1]),
        }
    }
}

/// What is wrong with the first `k` places as places of bones of the
/// pool, where something is: what is wrong with the first of them with
/// which something is, as a reference. Places count from 0, references
/// from 1.
pub open spec fn places_error(pool: Seq<Content>, places: Seq<usize>, k: nat) -> Option<ExportError>
    decreases k,
{
    if k == 0 {
        None
    } else {
        match places_error(pool, places, (k - 1) as nat) {
            Some(e) => Some(e),
            None => if places[k - 1] >= usize::MAX {
                Some(ExportError::SharedIndexOutOfRange { index: places[k - 1] })
            } else {
                ref_error(pool, (places[k - 1] + 1) as usize)
            },
        }
    }
}

/// Once a place has been refused, all have been.
pub proof fn lemma_places_error_stays(pool: Seq<Content>, places: Seq<usize>, k: nat, n: nat)
    requires
        k <= n,
        places_error(pool, places, k) is Some,
    ensures
        places_error(pool, places, n) == places_error(pool, places, k),
    decreases n - k,
{
    if k < n {
        lemma_places_error_stays(pool, places, k, (n - 1) as nat);
    }
}

/// Nothing is wrong with places just where nothing is wrong with each
/// of them.
pub proof fn lemma_places_error_none(pool: Seq<Content>, places: Seq<usize>, k: nat)
    requires
        k <= places.len(),
    ensures
        places_error(pool, places, k) is None <==> forall|j: int|
            0 <= j < k ==> places[j] < usize::MAX && (#[trigger] ref_error(pool, (places[j] + 1) as usize)) is None,
    decreases k,
{
    if k > 0 {
        lemma_places_error_none(pool, places, (k - 1) as nat);
        if places_error(pool, places, k) is None {
            assert forall|j: int| 0 <= j < k implies places[j] < usize::MAX && (#[trigger] ref_error(
                pool,
                (places[j] + 1) as usize,
            )) is None by {}
        } else if places_error(pool, places, (k - 1) as nat) is None {
            if places[k - 1] < usize::MAX {
                assert(ref_error(pool, (places[k - 1] + 1) as usize) is Some);
            }
        }
    }
}

/// Whether the bone behind `r` is a root: its parent is 0.
pub open spec fn is_root(pool: Seq<Content>, r: usize) -> bool {
    ref_error(pool, r) is None && bone_of(pool[r - 1])->0.shared_parent_ref == 0
}

/// The number of roots among the first `k` references.
pub open spec fn roots(pool: Seq<Content>, refs: Seq<usize>, k: nat) -> nat
    decreases k,
{
    if k == 0 {
        0
    } else {
        roots(pool, refs, (k - 1) as nat) + if is_root(pool, refs[k - 1]) {
            1nat
        } else {
            0nat
        }
    }
}

/// The place of the first root among the references at or behind `from`,
/// or their number where there is none.
pub open spec fn root_from(pool: Seq<Content>, refs: Seq<usize>, from: int) -> int
    decreases refs.len() - from,
{
    if from < 0 || from >= refs.len() {
        refs.len() as int
    } else if is_root(pool, refs[from]) {
        from
    } else {
        root_from(pool, refs, from + 1)
    }
}

/// The walk from the bone at place `at` of the pool, counted from 0: the
/// bone itself, then the walk from each of its children, in their order.
/// `acc` holds the places walked before. The walk fails at what is no
/// bone, and where it would reach more bones than the pool has entries,
/// or deeper than `fuel`.
pub open spec fn walk(pool: Seq<Content>, at: usize, fuel: nat, acc: Seq<usize>) -> Result<
    Seq<usize>,
    ExportError,
>
    decreases fuel, 0nat, 0nat,
{
    if at >= usize::MAX {
        Err(ExportError::NotATree)
    } else {
        match ref_error(pool, (at + 1) as usize) {
            Some(e) => Err(e),
            None => if fuel == 0 || acc.len() >= pool.len() {
                Err(ExportError::NotATree)
            } else {
                walk_children(
                    pool,
                    bone_of(pool[at as int])->0.shared_child_refs@,
                    0,
                    (fuel - 1) as nat,
                    acc.push(at),
                )
            },
        }
    }
}

/// The walks from the children at or behind `from`, one after the other.
pub open spec fn walk_children(
    pool: Seq<Content>,
    children: Seq<usize>,
    from: int,
    fuel: nat,
    acc: Seq<usize>,
) -> Result<Seq<usize>, ExportError>
    decreases fuel, 1nat, children.len() - from,
{
    if from < 0 || from >= children.len() {
        Ok(acc)
    } else if children[from] == 0 {
        Err(ExportError::SharedIndexOutOfRange { index: 0 })
    } else {
        match walk(pool, (children[from] - 1) as usize, fuel, acc) {
            Err(e) => Err(e),
            Ok(next) => walk_children(pool, children, from + 1, fuel, next),
        }
    }
}

/// Whether `order` holds every bone of `refs` once and nothing else: the
/// places in `order` count from 0, the references from 1.
pub open spec fn spans(order: Seq<usize>, refs: Seq<usize>) -> bool {
    &&& order.len() == refs.len()
    &&& order.no_duplicates()
    &&& forall|i: int| 0 <= i < refs.len() ==> refs[i] >= 1 && order.contains((#[trigger] refs[i] - 1) as usize)
}

/// The joints of a skeleton in their order, as places of the pool counted
/// from 0, or why the bones are no skeleton. The references must all be to
/// bones; exactly one bone must be a root; and the walk from the root must
/// reach every bone once.
pub open spec fn skeleton_of(pool: Seq<Content>, refs: Seq<usize>) -> Result<Seq<usize>, ExportError> {
    match refs_error(pool, refs, refs.len()) {
        Some(e) => Err(e),
        None => if roots(pool, refs, refs.len()) == 0 {
            Err(ExportError::NoRootBone)
        } else if roots(pool, refs, refs.len()) > 1 {
            Err(ExportError::MultipleRootBones)
        } else {
            match walk(pool, (refs[root_from(pool, refs, 0)] - 1) as usize, pool.len(), Seq::empty()) {
                Err(e) => Err(e),
                Ok(order) => if spans(order, refs) {
                    Ok(order)
                } else {
                    Err(ExportError::NotATree)
                },
            }
        },
    }
}

/// A walk over a valid skeleton visits every bone exactly once and finds
/// exactly one root: the joints are as many as the bones, none of them
/// stands twice, and every bone is among them. Bones with no root or with
/// more than one are refused.
pub proof fn lemma_skeleton_visits_once(pool: Seq<Content>, refs: Seq<usize>)
    ensures
        skeleton_of(pool, refs) matches Ok(order) ==> {
            &&& roots(pool, refs, refs.len()) == 1
            &&& order.len() == refs.len()
            &&& order.no_duplicates()
            &&& forall|i: int|
                0 <= i < refs.len() ==> refs[i] >= 1 && order.contains((#[trigger] refs[i] - 1) as usize)
        },
        roots(pool, refs, refs.len()) != 1 ==> skeleton_of(pool, refs) is Err,
{
}

/// Looks up the bone behind a reference.
pub fn bone_by_ref(pool: &[Content], r: usize) -> (res: Result<&SkinnedModelBone, ExportError>)
    ensures
        match res {
            Ok(bone) => ref_error(pool@, r) is None && Some(*bone) == bone_of(pool@[r - 1]),
            Err(e) => ref_error(pool@, r) == Some(e),
        },
{
    if r == 0 || r > pool.len() {
        return Err(ExportError::SharedIndexOutOfRange { index: r });
    }
    match &pool[r - 1] {
        Content::SkinnedModelBone(bone) => Ok(bone),
        _ => Err(ExportError::UnexpectedShared { index: r }),
    }
}

/// Walks the bones from the one at place `at`, and appends the places it
/// visits to `order`.
pub fn walk_from(pool: &[Content], at: usize, fuel: usize, order: &mut Vec<usize>) -> (res: Result<
    (),
    ExportError,
>)
    ensures
        res matches Err(e) ==> e !is UnknownChannelTarget,
        match res {
            Ok(()) => walk(pool@, at, fuel as nat, old(order)@) == Ok::<Seq<usize>, ExportError>(
                final(order)@,
            ),
            Err(e) => walk(pool@, at, fuel as nat, old(order)@) == Err::<Seq<usize>, ExportError>(e),
        },
    decreases fuel,
{
    if at >= usize::MAX {
        return Err(ExportError::NotATree);
    }
    let bone = bone_by_ref(pool, at + 1)?;
    if fuel == 0 || order.len() >= pool.len() {
        return Err(ExportError::NotATree);
    }
    order.push(at);
    let ghost start = order@;
    let ghost children = bone.shared_child_refs@;
    let ghost whole = walk(pool@, at, fuel as nat, old(order)@);
    assert(whole == walk_children(pool@, children, 0, (fuel - 1) as nat, start));
    let mut i: usize = 0;
    while i < bone.shared_child_refs.len()
        invariant
            i <= children.len(),
            children == bone.shared_child_refs@,
            fuel > 0,
            whole == walk(pool@, at, fuel as nat, old(order)@),
            whole == walk_children(pool@, children, i as int, (fuel - 1) as nat, order@),
        decreases children.len() - i,
    {
        let child = bone.shared_child_refs[i];
        if child == 0 {
            return Err(ExportError::SharedIndexOutOfRange { index: 0 });
        }
        walk_from(pool, child - 1, fuel - 1, order)?;
        i = i + 1;
    }
    Ok(())
}

/// Finds the order of the joints of a skeleton: the walk from its one
/// root, which must reach every bone once.
pub fn skeleton(pool: &[Content], refs: &[usize]) -> (res: Result<Vec<usize>, ExportError>)
    ensures
        res matches Err(e) ==> e !is UnknownChannelTarget,
        match res {
            Ok(order) => skeleton_of(pool@, refs@) == Ok::<Seq<usize>, ExportError>(order@),
            Err(e) => skeleton_of(pool@, refs@) == Err::<Seq<usize>, ExportError>(e),
        },
{
    let mut count: usize = 0;
    let mut root: usize = 0;
    let mut i: usize = 0;
    while i < refs.len()
        invariant
            i <= refs@.len(),
            refs_error(pool@, refs@, i as nat) is None,
            count == roots(pool@, refs@, i as nat),
            count <= i,
            count == 0 ==> root_from(pool@, refs@, 0) == root_from(pool@, refs@, i as int),
            count > 0 ==> root < i && root == root_from(pool@, refs@, 0) && is_root(
                pool@,
                refs@[root as int],
            ),
        decreases refs@.len() - i,
    {
        match bone_by_ref(pool, refs[i]) {
            Ok(bone) => {
                if bone.shared_parent_ref == 0 {
                    if count == 0 {
                        root = i;
                    }
                    count = count + 1;
                }
            },
            Err(e) => {
                proof {
                    lemma_refs_error_stays(pool@, refs@, (i + 1) as nat, refs@.len());
                }
                return Err(e);
            },
        }
        i = i + 1;
    }
    if count == 0 {
        return Err(ExportError::NoRootBone);
    }
    if count > 1 {
        return Err(ExportError::MultipleRootBones);
    }
    let mut order: Vec<usize> = Vec::new();
    walk_from(pool, refs[root] - 1, pool.len(), &mut order)?;
    let ghost verdict: Result<Seq<usize>, ExportError> = if spans(order@, refs@) {
        Ok(order@)
    } else {
        Err(ExportError::NotATree)
    };
    assert(skeleton_of(pool@, refs@) == verdict);
    if order.len() != refs.len() {
        return Err(ExportError::NotATree);
    }
    assert forall|a: int| 0 <= a < order@.len() implies order@[a] < pool@.len() by {
        lemma_walked_in_pool(pool@, (refs@[root as int] - 1) as usize, pool@.len(), Seq::empty(), a);
    }
    let mut seen: Vec<bool> = Vec::new();
    let mut k: usize = 0;
    while k < pool.len()
        invariant
            k <= pool@.len(),
            seen@.len() == k,
            forall|j: int| 0 <= j < k ==> !seen@[j],
        decreases pool@.len() - k,
    {
        seen.push(false);
        k = k + 1;
    }
    let mut k: usize = 0;
    while k < order.len()
        invariant
            k <= order@.len(),
            seen@.len() == pool@.len(),
            skeleton_of(pool@, refs@) == verdict,
            verdict == (if spans(order@, refs@) {
                Ok::<Seq<usize>, ExportError>(order@)
            } else {
                Err::<Seq<usize>, ExportError>(ExportError::NotATree)
            }),
            forall|a: int| 0 <= a < order@.len() ==> order@[a] < pool@.len(),
            forall|a: int, b: int| 0 <= a < b < k ==> order@[a] != order@[b],
            forall|a: int| 0 <= a < k ==> seen@[order@[a] as int],
            forall|x: int|
                0 <= x < seen@.len() && #[trigger] seen@[x] ==> exists|a: int| 0 <= a < k && order@[a] == x,
        decreases order@.len() - k,
    {
        let at = order[k];
        if seen[at] {
            proof {
                let a = choose|a: int| 0 <= a < k && order@[a] == at;
                assert(order@[a] == order@[k as int] && a != k);
            }
            return Err(ExportError::NotATree);
        }
        seen.set(at, true);
        k = k + 1;
    }
    assert(order@.no_duplicates());
    let mut i: usize = 0;
    while i < refs.len()
        invariant
            i <= refs@.len(),
            order@.len() == refs@.len(),
            order@.no_duplicates(),
            seen@.len() == pool@.len(),
            skeleton_of(pool@, refs@) == verdict,
            verdict == (if spans(order@, refs@) {
                Ok::<Seq<usize>, ExportError>(order@)
            } else {
                Err::<Seq<usize>, ExportError>(ExportError::NotATree)
            }),
            refs_error(pool@, refs@, refs@.len()) is None,
            forall|a: int| 0 <= a < order@.len() ==> order@[a] < pool@.len() && seen@[order@[a] as int],
            forall|x: int|
                0 <= x < seen@.len() && #[trigger] seen@[x] ==> exists|a: int|
                    0 <= a < order@.len() && order@[a] == x,
            forall|j: int| 0 <= j < i ==> refs@[j] >= 1 && order@.contains((#[trigger] refs@[j] - 1) as usize),
        decreases refs@.len() - i,
    {
        proof {
            lemma_refs_valid(pool@, refs@, refs@.len(), i as int);
        }
        let at = refs[i] - 1;
        if !seen[at] {
            assert(!order@.contains(at)) by {
                if order@.contains(at) {
                    let a = choose|a: int| 0 <= a < order@.len() && order@[a] == at;
                    assert(seen@[order@[a] as int]);
                }
            }
            return Err(ExportError::NotATree);
        }
        proof {
            let a = choose|a: int| 0 <= a < order@.len() && order@[a] == at as int;
            assert(order@[a] == at);
        }
        i = i + 1;
    }
    Ok(order)
}

/// The first error among some references is the first among more of them.
pub proof fn lemma_refs_error_stays(pool: Seq<Content>, refs: Seq<usize>, k: nat, n: nat)
    requires
        k <= n,
        refs_error(pool, refs, k) is Some,
    ensures
        refs_error(pool, refs, n) == refs_error(pool, refs, k),
    decreases n - k,
{
    if k < n {
        lemma_refs_error_stays(pool, refs, k, (n - 1) as nat);
    }
}

/// Where no reference among the first `k` is in error, none of them is.
pub proof fn lemma_refs_valid(pool: Seq<Content>, refs: Seq<usize>, k: nat, i: int)
    requires
        0 <= i < k,
        refs_error(pool, refs, k) is None,
    ensures
        ref_error(pool, refs[i]) is None,
    decreases k,
{
    if i < k - 1 {
        lemma_refs_valid(pool, refs, (k - 1) as nat, i);
    }
}

/// A walk visits places of the pool only.
pub proof fn lemma_walked_in_pool(pool: Seq<Content>, at: usize, fuel: nat, acc: Seq<usize>, k: int)
    requires
        walk(pool, at, fuel, acc) is Ok,
        forall|j: int| 0 <= j < acc.len() ==> acc[j] < pool.len(),
        0 <= k < walk(pool, at, fuel, acc)->Ok_0.len(),
    ensures
        walk(pool, at, fuel, acc)->Ok_0[k] < pool.len(),
    decreases fuel, 0nat, 0nat,
{
    let children = bone_of(pool[at as int])->0.shared_child_refs@;
    lemma_children_in_pool(pool, children, 0, (fuel - 1) as nat, acc.push(at), k);
}

pub proof fn lemma_children_in_pool(
    pool: Seq<Content>,
    children: Seq<usize>,
    from: int,
    fuel: nat,
    acc: Seq<usize>,
    k: int,
)
    requires
        walk_children(pool, children, from, fuel, acc) is Ok,
        forall|j: int| 0 <= j < acc.len() ==> acc[j] < pool.len(),
        0 <= k < walk_children(pool, children, from, fuel, acc)->Ok_0.len(),
    ensures
        walk_children(pool, children, from, fuel, acc)->Ok_0[k] < pool.len(),
    decreases fuel, 1nat, children.len() - from,
{
    if 0 <= from < children.len() {
        let next = walk(pool, (children[from] - 1) as usize, fuel, acc)->Ok_0;
        assert forall|j: int| 0 <= j < next.len() implies next[j] < pool.len() by {
            lemma_walked_in_pool(pool, (children[from] - 1) as usize, fuel, acc, j);
        }
        lemma_children_in_pool(pool, children, from + 1, fuel, next, k);
    }
}

} // verus!
