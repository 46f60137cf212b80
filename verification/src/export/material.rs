//! The materials of an export: one for each effect of the shared pool.
use vstd::prelude::*;
use vstd::string::StringExecFns;
use crate::content::color::Color;
use crate::content::Content;
use crate::export::scene::{Material, Scene};

verus! {

/// What is added to the identifier of a texture to make its path.
pub const TEXTURE_SUFFIX: &'static str = ".texture2d.png";

/// The path of the texture with this identifier.
pub open spec fn texture_path(id: Seq<char>) -> Seq<char> {
    id + TEXTURE_SUFFIX@
}

/// The colour and the path of the texture of the material that content
/// becomes, or `None` for content that is no effect of a material.
pub open spec fn material_view(c: Content) -> Option<(Option<Color>, Option<Seq<char>>)> {
    match c {
        Content::RenderDeferredEffect(e) => Some(
            (Some(e.material_0.diffuse_color), Some(texture_path(e.material_0.diffuse_texture@))),
        ),
        Content::AdditiveEffect(e) => Some(
            (
                Some(e.color_tint),
                if e.texture_enabled {
                    Some(texture_path(e.texture@))
                } else {
                    None
                },
            ),
        ),
        Content::BasicEffect(e) => Some((Some(e.diffuse_color), Some(texture_path(e.texture@)))),
        Content::SkinnedModelBasicEffect(e) => Some(
            (
                Some(e.diffuse_color),
                match e.map_0_diffuse {
                    Some(path) => Some(texture_path(path@)),
                    None => None,
                },
            ),
        ),
        _ => None,
    }
}

/// The number of materials that the first `k` entries of the pool become.
pub open spec fn materials_before(pool: Seq<Content>, k: nat) -> nat
    decreases k,
{
    if k == 0 {
        0
    } else {
        materials_before(pool, (k - 1) as nat) + if material_view(pool[k - 1]) is Some {
            1nat
        } else {
            0nat
        }
    }
}

/// Whether `m` is the material of the pool entry at `source`.
pub open spec fn is_material_of(m: Material, pool: Seq<Content>, source: int) -> bool {
    &&& m.source == source
    &&& material_view(pool[source]) matches Some((color, texture))
    &&& m.color == color
    &&& match (m.texture, texture) {
        (Some(path), Some(expected)) => path@ == expected,
        (None, None) => true,
        _ => false,
    }
}

/// The path of the texture with this identifier.
fn path_of(id: &String) -> (path: String)
    ensures
        path@ == texture_path(id@),
{
    let mut path = id.clone();
    path.append(TEXTURE_SUFFIX);
    path
}

/// The material that content becomes, if it is an effect.
fn material_for(content: &Content, source: usize) -> (m: Option<Material>)
    ensures
        match m {
            Some(m) => material_view(*content) matches Some((color, texture)) && m.source == source && m.color
                == color && match (m.texture, texture) {
                (Some(path), Some(expected)) => path@ == expected,
                (None, None) => true,
                _ => false,
            },
            None => material_view(*content) is None,
        },
{
    match content {
        Content::RenderDeferredEffect(e) => Some(
            Material {
                source,
                color: Some(e.material_0.diffuse_color),
                texture: Some(path_of(&e.material_0.diffuse_texture)),
            },
        ),
        Content::AdditiveEffect(e) => {
            let texture = if e.texture_enabled {
                Some(path_of(&e.texture))
            } else {
                None
            };
            Some(Material { source, color: Some(e.color_tint), texture })
        },
        Content::BasicEffect(e) => Some(
            Material { source, color: Some(e.diffuse_color), texture: Some(path_of(&e.texture)) },
        ),
        Content::SkinnedModelBasicEffect(e) => {
            let texture = match &e.map_0_diffuse {
                Some(path) => Some(path_of(path)),
                None => None,
            };
            Some(Material { source, color: Some(e.diffuse_color), texture })
        },
        _ => None,
    }
}

/// For each entry of the pool the place of its material in a document
/// that holds the materials of the pool and no others, or `None` for an
/// entry that is no effect.
pub open spec fn material_places(pool: Seq<Content>) -> Seq<Option<usize>> {
    Seq::new(
        pool.len(),
        |i: int|
            if material_view(pool[i]) is Some {
                Some(materials_before(pool, i as nat) as usize)
            } else {
                None
            },
    )
}

/// Adds one material for each effect of the pool, in the order of the
/// pool, and returns for each entry of the pool the place of its
/// material, or `None` for an entry that is no effect.
pub fn build_materials(scene: &mut Scene, pool: &[Content]) -> (materials: Vec<Option<usize>>)
    requires
        old(scene).wf(),
    ensures
        final(scene).wf(),
        old(scene).same_but_materials(final(scene)),
        materials@.len() == pool@.len(),
        final(scene).materials@.len() == old(scene).materials@.len() + materials_before(pool@, pool@.len()),
        forall|i: int|
            0 <= i < old(scene).materials@.len() ==> final(scene).materials@[i] == old(scene).materials@[i],
        forall|i: int|
            0 <= i < pool@.len() ==> #[trigger] materials@[i] == (if material_view(pool@[i]) is Some {
                Some((old(scene).materials@.len() + materials_before(pool@, i as nat)) as usize)
            } else {
                None
            }),
        forall|i: int|
            0 <= i < pool@.len() && material_view(pool@[i]) is Some ==> is_material_of(
                final(scene).materials@[(old(scene).materials@.len() + materials_before(pool@, i as nat)) as int],
                pool@,
                i,
            ) && (#[trigger] materials@[i]) is Some,
{
    let mut materials: Vec<Option<usize>> = Vec::new();
    let ghost base = scene.materials@.len();
    let mut i: usize = 0;
    while i < pool.len()
        invariant
            i <= pool@.len(),
            scene.wf(),
            old(scene).same_but_materials(scene),
            base == old(scene).materials@.len(),
            materials@.len() == i,
            scene.materials@.len() == base + materials_before(pool@, i as nat),
            forall|k: int| 0 <= k < base ==> scene.materials@[k] == old(scene).materials@[k],
            forall|k: int|
                0 <= k < i ==> #[trigger] materials@[k] == (if material_view(pool@[k]) is Some {
                    Some((base + materials_before(pool@, k as nat)) as usize)
                } else {
                    None
                }),
            forall|k: int|
                0 <= k < i && material_view(pool@[k]) is Some ==> is_material_of(
                    scene.materials@[(base + materials_before(pool@, k as nat)) as int],
                    pool@,
                    k,
                ) && (#[trigger] materials@[k]) is Some,
        decreases pool@.len() - i,
    {
        proof {
            lemma_materials_before_grows(pool@, i as nat);
        }
        match material_for(&pool[i], i) {
            Some(m) => {
                let ghost before = scene.materials@;
                let place = scene.push_material(m);
                materials.push(Some(place));
                proof {
                    assert forall|k: int| 0 <= k < i + 1 && material_view(pool@[k]) is Some implies is_material_of(
                        scene.materials@[(base + materials_before(pool@, k as nat)) as int],
                        pool@,
                        k,
                    ) && (#[trigger] materials@[k]) is Some by {
                        lemma_materials_before_bound(pool@, k as nat, i as nat);
                        if k < i {
                            lemma_materials_before_strict(pool@, k as nat, i as nat);
                            assert(scene.materials@[(base + materials_before(pool@, k as nat)) as int]
                                == before[(base + materials_before(pool@, k as nat)) as int]);
                        }
                    }
                }
            },
            None => {
                materials.push(None);
            },
        }
        i = i + 1;
    }
    materials
}

/// Entries that come later have no fewer materials before them.
pub proof fn lemma_materials_before_bound(pool: Seq<Content>, k: nat, n: nat)
    requires
        k <= n,
    ensures
        materials_before(pool, k) <= materials_before(pool, n),
    decreases n - k,
{
    if k < n {
        lemma_materials_before_bound(pool, k, (n - 1) as nat);
    }
}

/// An effect has fewer materials before it than any entry behind it.
pub proof fn lemma_materials_before_strict(pool: Seq<Content>, k: nat, n: nat)
    requires
        k < n,
        material_view(pool[k as int]) is Some,
    ensures
        materials_before(pool, k) < materials_before(pool, n),
{
    lemma_materials_before_bound(pool, k + 1, n);
}

/// There are no more materials than entries.
pub proof fn lemma_materials_before_grows(pool: Seq<Content>, k: nat)
    ensures
        materials_before(pool, k) <= k,
    decreases k,
{
    if k > 0 {
        lemma_materials_before_grows(pool, (k - 1) as nat);
    }
}

} // verus!
