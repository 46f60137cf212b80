//! The animations of a skinned model in the scene: for each channel of a
//! clip the accessors of its keyframes, and a sampler and a channel for
//! each of translation, rotation and scale.
use vstd::prelude::*;
use crate::content::skinned_model::{AnimationChannel, SkinnedModelAnimationClip, SkinnedModelAnimationKeyframe};
use crate::content::Content;
use crate::export::bounds::greater;
use crate::export::buffer::Region;
use crate::export::pack::{clip_by_ref, clip_error, clip_of, ChannelRegions, ClipRegions};
use crate::export::scene::{
    lemma_extends_refl, lemma_extends_trans, Accessor, Animation, BufferView, Channel, ComponentType,
    ElementType, Extent, Node, Property, Sampler, Scene,
};
use crate::export::skeleton::bone_of;
use crate::export::skin::is_joint_node;
use crate::export::ExportError;
use crate::reader::same;
use crate::single::{Single, ZERO_BITS};

verus! {

/// The latest time among the first `k` keyframes, and zero where that is
/// later.
pub open spec fn latest(keyframes: Seq<SkinnedModelAnimationKeyframe>, k: nat) -> Single
    decreases k,
{
    if k == 0 {
        Single { bits: ZERO_BITS }
    } else {
        greater(latest(keyframes, (k - 1) as nat), keyframes[k - 1].time)
    }
}

/// Whether a node has this name.
pub open spec fn is_named(node: Node, name: Seq<char>) -> bool {
    node.name matches Some(n) && n@ == name
}

/// The place of the first node named `name` at or behind `from`, or the
/// number of nodes where there is none.
pub open spec fn node_named(nodes: Seq<Node>, name: Seq<char>, from: int) -> int
    decreases nodes.len() - from,
{
    if from < 0 || from >= nodes.len() {
        nodes.len() as int
    } else if is_named(nodes[from], name) {
        from
    } else {
        node_named(nodes, name, from + 1)
    }
}

/// Finds the first node of a name.
pub fn find_node(scene: &Scene, name: &str) -> (at: Option<usize>)
    ensures
        match at {
            Some(i) => i == node_named(scene.nodes@, name@, 0) && i < scene.nodes@.len(),
            None => node_named(scene.nodes@, name@, 0) == scene.nodes@.len(),
        },
{
    let mut i: usize = 0;
    while i < scene.nodes.len()
        invariant
            i <= scene.nodes@.len(),
            node_named(scene.nodes@, name@, 0) == node_named(scene.nodes@, name@, i as int),
        decreases scene.nodes@.len() - i,
    {
        match &scene.nodes[i].name {
            Some(n) => {
                if same(n.as_str(), name) {
                    return Some(i);
                }
            },
            None => {},
        }
        i = i + 1;
    }
    None
}

/// The latest time of the keyframes of a channel, and zero where that is
/// later.
pub fn latest_time(keyframes: &Vec<SkinnedModelAnimationKeyframe>) -> (t: Single)
    ensures
        t == latest(keyframes@, keyframes@.len()),
{
    let mut t = Single { bits: ZERO_BITS };
    let mut i: usize = 0;
    while i < keyframes.len()
        invariant
            i <= keyframes@.len(),
            t == latest(keyframes@, i as nat),
        decreases keyframes@.len() - i,
    {
        t = t.max(keyframes[i].time);
        i = i + 1;
    }
    t
}

/// The accessor over a region of values of keyframes, in the view at
/// `view`.
pub open spec fn values_accessor(view: usize, region: Region, shape: ElementType, extent: Extent) -> Accessor {
    Accessor {
        view,
        byte_offset: 0,
        count: region.count,
        component_type: ComponentType::Float,
        element_type: shape,
        normalized: false,
        extent,
    }
}

/// The view over a region.
pub open spec fn region_view(region: Region) -> BufferView {
    BufferView { byte_offset: region.offset, byte_length: region.length, byte_stride: None, target: None }
}

/// Whether a region lies within a buffer of `buffer_length` bytes.
pub open spec fn region_fits(region: Region, buffer_length: int) -> bool {
    region.offset + region.length <= buffer_length
}

/// Whether a channel can be added to a document with these nodes over a
/// buffer of `buffer_length` bytes: a node has its name, and its regions
/// lie within the buffer.
pub open spec fn channel_fits(
    nodes: Seq<Node>,
    buffer_length: int,
    regions: ChannelRegions,
    channel: AnimationChannel,
) -> bool {
    &&& node_named(nodes, channel.name@, 0) < nodes.len()
    &&& region_fits(regions.timestamps, buffer_length)
    &&& region_fits(regions.translations, buffer_length)
    &&& region_fits(regions.rotations, buffer_length)
    &&& region_fits(regions.scales, buffer_length)
}

/// Whether there are regions for each channel of a clip, and all of them
/// lie within a buffer of `buffer_length` bytes.
pub open spec fn clip_regions_fit(buffer_length: int, regions: ClipRegions, clip: SkinnedModelAnimationClip) -> bool {
    &&& regions.channels@.len() == clip.channels@.len()
    &&& forall|h: int|
        0 <= h < clip.channels@.len() ==> {
            &&& region_fits((#[trigger] regions.channels@[h]).timestamps, buffer_length)
            &&& region_fits(regions.channels@[h].translations, buffer_length)
            &&& region_fits(regions.channels@[h].rotations, buffer_length)
            &&& region_fits(regions.channels@[h].scales, buffer_length)
        }
}

/// The name of channel `h` of the clip that reference `c` refers to.
pub open spec fn channel_name(pool: Seq<Content>, clips: Seq<usize>, c: int, h: int) -> Seq<char> {
    clip_of(pool, clips[c])->0.channels@[h].name@
}

/// Whether the animation of a clip can be added to a document with these
/// nodes over a buffer of `buffer_length` bytes: there are regions for
/// each of its channels, and each channel can be added.
pub open spec fn clip_fits(
    nodes: Seq<Node>,
    buffer_length: int,
    regions: ClipRegions,
    clip: SkinnedModelAnimationClip,
) -> bool {
    &&& regions.channels@.len() == clip.channels@.len()
    &&& forall|h: int|
        0 <= h < clip.channels@.len() ==> channel_fits(
            nodes,
            buffer_length,
            #[trigger] regions.channels@[h],
            clip.channels@[h],
        )
}

/// Adds the view and the accessor of one region of keyframes and returns
/// the place of the accessor.
fn add_values(scene: &mut Scene, region: Region, shape: ElementType, extent: Extent) -> (res: Result<
    usize,
    ExportError,
>)
    requires
        old(scene).wf(),
    ensures
        res matches Ok(accessor) ==> {
            &&& final(scene).wf()
            &&& old(scene).extends(final(scene))
            &&& old(scene).nodes == final(scene).nodes
            &&& old(scene).keeps_rest(final(scene))
            &&& accessor == old(scene).accessors@.len()
            &&& old(scene).views@.len() <= usize::MAX
            &&& final(scene).views@ == old(scene).views@.push(region_view(region))
            &&& final(scene).accessors@ == old(scene).accessors@.push(
                values_accessor(old(scene).views@.len() as usize, region, shape, extent),
            )
        },
        res matches Err(e) ==> *final(scene) == *old(scene) && e == ExportError::PartOutOfRange,
        res is Ok == region_fits(region, old(scene).buffer_length as int),
{
    if region.offset > scene.buffer_length || region.length > scene.buffer_length - region.offset {
        return Err(ExportError::PartOutOfRange);
    }
    let ghost start = *scene;
    let view = scene.push_view(
        BufferView { byte_offset: region.offset, byte_length: region.length, byte_stride: None, target: None },
    );
    let ghost mid = *scene;
    let accessor = scene.push_accessor(
        Accessor {
            view,
            byte_offset: 0,
            count: region.count,
            component_type: ComponentType::Float,
            element_type: shape,
            normalized: false,
            extent,
        },
    );
    proof {
        lemma_extends_trans(&start, &mid, scene);
    }
    Ok(accessor)
}

/// Whether the three samplers and the three channels from `at` on are
/// those of `channel`: translation, rotation and scale, each with its own
/// values and all with the same times, and all for the first node of the
/// name of the channel.
pub open spec fn channel_added(
    scene: &Scene,
    samplers: Seq<Sampler>,
    channels: Seq<Channel>,
    at: int,
    regions: ChannelRegions,
    channel: AnimationChannel,
) -> bool {
    let times = samplers[at].input as int;
    let node = node_named(scene.nodes@, channel.name@, 0);
    &&& at + 3 <= samplers.len()
    &&& at + 3 <= channels.len()
    &&& 0 <= node < scene.nodes@.len()
    &&& samplers[at + 1].input == times
    &&& samplers[at + 2].input == times
    &&& times < scene.accessors@.len()
    &&& samplers[at].output < scene.accessors@.len()
    &&& samplers[at + 1].output < scene.accessors@.len()
    &&& samplers[at + 2].output < scene.accessors@.len()
    &&& scene.accessors@[times].view < scene.views@.len()
    &&& scene.views@[scene.accessors@[times].view as int] == region_view(regions.timestamps)
    &&& scene.accessors@[times] == values_accessor(
        scene.accessors@[times].view,
        regions.timestamps,
        ElementType::Scalar,
        Extent::Times {
            min: Single { bits: ZERO_BITS },
            max: latest(channel.keyframes@, channel.keyframes@.len()),
        },
    )
    &&& scene.accessors@[samplers[at].output as int].view < scene.views@.len()
    &&& scene.accessors@[samplers[at + 1].output as int].view < scene.views@.len()
    &&& scene.accessors@[samplers[at + 2].output as int].view < scene.views@.len()
    &&& scene.views@[scene.accessors@[samplers[at].output as int].view as int] == region_view(regions.translations)
    &&& scene.views@[scene.accessors@[samplers[at + 1].output as int].view as int] == region_view(regions.rotations)
    &&& scene.views@[scene.accessors@[samplers[at + 2].output as int].view as int] == region_view(regions.scales)
    &&& scene.accessors@[samplers[at].output as int] == values_accessor(
        scene.accessors@[samplers[at].output as int].view,
        regions.translations,
        ElementType::Vec3,
        Extent::Unstated,
    )
    &&& scene.accessors@[samplers[at + 1].output as int] == values_accessor(
        scene.accessors@[samplers[at + 1].output as int].view,
        regions.rotations,
        ElementType::Vec4,
        Extent::Unstated,
    )
    &&& scene.accessors@[samplers[at + 2].output as int] == values_accessor(
        scene.accessors@[samplers[at + 2].output as int].view,
        regions.scales,
        ElementType::Vec3,
        Extent::Unstated,
    )
    &&& channels[at] == Channel { sampler: at as usize, node: node as usize, path: Property::Translation }
    &&& channels[at + 1] == Channel { sampler: (at + 1) as usize, node: node as usize, path: Property::Rotation }
    &&& channels[at + 2] == Channel { sampler: (at + 2) as usize, node: node as usize, path: Property::Scale }
}

/// What is true of a channel in a document is true of it in every
/// document that extends it without new nodes.
pub proof fn lemma_channel_added_later(
    before: &Scene,
    after: &Scene,
    samplers: Seq<Sampler>,
    channels: Seq<Channel>,
    at: int,
    regions: ChannelRegions,
    channel: AnimationChannel,
    more_samplers: Seq<Sampler>,
    more_channels: Seq<Channel>,
)
    requires
        channel_added(before, samplers, channels, at, regions, channel),
        before.extends(after),
        before.nodes == after.nodes,
        before.wf(),
        0 <= at,
    ensures
        channel_added(after, samplers + more_samplers, channels + more_channels, at, regions, channel),
{
    let s = samplers + more_samplers;
    let c = channels + more_channels;
    assert(s[at] == samplers[at] && s[at + 1] == samplers[at + 1] && s[at + 2] == samplers[at + 2]);
    assert(c[at] == channels[at] && c[at + 1] == channels[at + 1] && c[at + 2] == channels[at + 2]);
    let acc = before.accessors@;
    assert forall|i: int| 0 <= i < acc.len() implies after.accessors@[i] == acc[i] by {
        assert(after.accessors@.subrange(0, acc.len() as int)[i] == acc[i]);
    }
    let v = before.accessors@[samplers[at].input as int].view as int;
    assert(after.views@.subrange(0, before.views@.len() as int)[v] == before.views@[v]);
    let v0 = before.accessors@[samplers[at].output as int].view as int;
    let v1 = before.accessors@[samplers[at + 1].output as int].view as int;
    let v2 = before.accessors@[samplers[at + 2].output as int].view as int;
    assert(after.views@.subrange(0, before.views@.len() as int)[v0] == before.views@[v0]);
    assert(after.views@.subrange(0, before.views@.len() as int)[v1] == before.views@[v1]);
    assert(after.views@.subrange(0, before.views@.len() as int)[v2] == before.views@[v2]);
}

/// What was in a document stands in its place in every document that
/// extends it.
pub proof fn lemma_kept(before: &Scene, after: &Scene)
    requires
        before.extends(after),
    ensures
        forall|i: int| 0 <= i < before.views@.len() ==> #[trigger] after.views@[i] == before.views@[i],
        forall|i: int| 0 <= i < before.accessors@.len() ==> #[trigger] after.accessors@[i] == before.accessors@[i],
{
    assert forall|i: int| 0 <= i < before.views@.len() implies #[trigger] after.views@[i] == before.views@[i] by {
        assert(after.views@.subrange(0, before.views@.len() as int)[i] == before.views@[i]);
    }
    assert forall|i: int| 0 <= i < before.accessors@.len() implies #[trigger] after.accessors@[i]
        == before.accessors@[i] by {
        assert(after.accessors@.subrange(0, before.accessors@.len() as int)[i] == before.accessors@[i]);
    }
}

/// Adds the accessors of one channel to the scene, and its three samplers
/// and three channels to those of its animation.
fn add_channel(
    scene: &mut Scene,
    regions: &ChannelRegions,
    channel: &AnimationChannel,
    samplers: &mut Vec<Sampler>,
    channels: &mut Vec<Channel>,
) -> (res: Result<(), ExportError>)
    requires
        old(scene).wf(),
        old(samplers)@.len() == old(channels)@.len(),
    ensures
        res is Ok == channel_fits(old(scene).nodes@, old(scene).buffer_length as int, *regions, *channel),
        res matches Err(e) ==> e is UnknownChannelTarget || e == ExportError::PartOutOfRange,
        res is Ok ==> {
            &&& final(scene).wf()
            &&& old(scene).extends(final(scene))
            &&& old(scene).nodes == final(scene).nodes
            &&& old(scene).keeps_rest(final(scene))
            &&& exists|more: Seq<Sampler>| #[trigger] (old(samplers)@ + more) == final(samplers)@ && more.len() == 3
            &&& exists|more: Seq<Channel>| #[trigger] (old(channels)@ + more) == final(channels)@ && more.len() == 3
            &&& channel_added(
                final(scene),
                final(samplers)@,
                final(channels)@,
                old(samplers)@.len() as int,
                *regions,
                *channel,
            )
            &&& forall|i: int|
                old(samplers)@.len() <= i < final(samplers)@.len() ==> (#[trigger] final(samplers)@[i]).input
                    < final(scene).accessors@.len() && final(samplers)@[i].output < final(scene).accessors@.len()
        },
        res matches Err(ExportError::UnknownChannelTarget { name }) ==> name@ == channel.name@ && node_named(
            old(scene).nodes@,
            channel.name@,
            0,
        ) == old(scene).nodes@.len(),
{
    let node = match find_node(scene, channel.name.as_str()) {
        Some(node) => node,
        None => {
            return Err(ExportError::UnknownChannelTarget { name: channel.name.clone() });
        },
    };
    let ghost s0 = *scene;
    let latest = latest_time(&channel.keyframes);
    let times = add_values(
        scene,
        regions.timestamps,
        ElementType::Scalar,
        Extent::Times { min: Single { bits: ZERO_BITS }, max: latest },
    )?;
    let ghost s1 = *scene;
    let translations = add_values(scene, regions.translations, ElementType::Vec3, Extent::Unstated)?;
    let ghost s2 = *scene;
    let rotations = add_values(scene, regions.rotations, ElementType::Vec4, Extent::Unstated)?;
    let ghost s3 = *scene;
    let scales = add_values(scene, regions.scales, ElementType::Vec3, Extent::Unstated)?;
    proof {
        lemma_extends_trans(&s0, &s1, &s2);
        lemma_extends_trans(&s0, &s2, &s3);
        lemma_extends_trans(&s0, &s3, scene);
        lemma_extends_trans(&s1, &s2, &s3);
        lemma_extends_trans(&s1, &s3, scene);
        lemma_extends_trans(&s2, &s3, scene);
        lemma_kept(&s1, scene);
        lemma_kept(&s2, scene);
        lemma_kept(&s3, scene);
        assert(scene.views@[s0.views@.len() as int] == region_view(regions.timestamps));
        assert(scene.views@[s1.views@.len() as int] == region_view(regions.translations));
        assert(scene.views@[s2.views@.len() as int] == region_view(regions.rotations));
        assert(scene.views@[s3.views@.len() as int] == region_view(regions.scales));
        assert(scene.accessors@[times as int] == s1.accessors@[times as int]);
        assert(scene.accessors@[translations as int] == s2.accessors@[translations as int]);
        assert(scene.accessors@[rotations as int] == s3.accessors@[rotations as int]);
    }
    let ghost old_samplers = samplers@;
    let ghost old_channels = channels@;
    samplers.push(Sampler { input: times, output: translations });
    samplers.push(Sampler { input: times, output: rotations });
    samplers.push(Sampler { input: times, output: scales });
    let at = samplers.len() - 3;
    channels.push(Channel { sampler: at, node, path: Property::Translation });
    channels.push(Channel { sampler: at + 1, node, path: Property::Rotation });
    channels.push(Channel { sampler: at + 2, node, path: Property::Scale });
    proof {
        let more_s = seq![
            Sampler { input: times, output: translations },
            Sampler { input: times, output: rotations },
            Sampler { input: times, output: scales },
        ];
        let more_c = seq![
            Channel { sampler: at, node, path: Property::Translation },
            Channel { sampler: (at + 1) as usize, node, path: Property::Rotation },
            Channel { sampler: (at + 2) as usize, node, path: Property::Scale },
        ];
        assert(old_samplers + more_s =~= samplers@);
        assert(old_channels + more_c =~= channels@);
    }
    Ok(())
}

/// Whether `animation` is that of `clip`: it has the name of the clip,
/// and three samplers and three channels for each channel of the clip, in
/// the order of its channels.
pub open spec fn animation_of(
    scene: &Scene,
    animation: Animation,
    regions: ClipRegions,
    clip: SkinnedModelAnimationClip,
) -> bool {
    &&& animation.name@ == clip.name@
    &&& regions.channels@.len() == clip.channels@.len()
    &&& animation.samplers@.len() == 3 * clip.channels@.len()
    &&& animation.channels@.len() == 3 * clip.channels@.len()
    &&& forall|h: int|
        0 <= h < clip.channels@.len() ==> channel_added(
            scene,
            animation.samplers@,
            animation.channels@,
            3 * h,
            #[trigger] regions.channels@[h],
            clip.channels@[h],
        )
}

/// Whether a region lies within the buffer of a document.
fn fits(scene: &Scene, region: Region) -> (yes: bool)
    ensures
        yes == region_fits(region, scene.buffer_length as int),
{
    region.offset <= scene.buffer_length && region.length <= scene.buffer_length - region.offset
}

/// Whether the animation of a clip can be added to a document, and why
/// not where it cannot: a channel has no node to move, or there are no
/// regions for each channel, or a region lies past the buffer.
pub fn check_clip(scene: &Scene, regions: &ClipRegions, clip: &SkinnedModelAnimationClip) -> (res: Result<
    (),
    ExportError,
>)
    ensures
        res is Ok == clip_fits(scene.nodes@, scene.buffer_length as int, *regions, *clip),
        res matches Err(e) ==> e is UnknownChannelTarget || e == ExportError::PartOutOfRange,
        res matches Err(e) ==> (e == ExportError::PartOutOfRange ==> !clip_regions_fit(
            scene.buffer_length as int,
            *regions,
            *clip,
        )),
        res matches Err(ExportError::UnknownChannelTarget { name }) ==> exists|h: int|
            0 <= h < clip.channels@.len() && name@ == (#[trigger] clip.channels@[h]).name@ && node_named(
                scene.nodes@,
                name@,
                0,
            ) == scene.nodes@.len(),
{
    let n = clip.channels.len();
    if regions.channels.len() != n {
        return Err(ExportError::PartOutOfRange);
    }
    let mut h: usize = 0;
    while h < n
        invariant
            h <= n,
            n == clip.channels@.len(),
            n == regions.channels@.len(),
            forall|k: int|
                0 <= k < h ==> channel_fits(
                    scene.nodes@,
                    scene.buffer_length as int,
                    #[trigger] regions.channels@[k],
                    clip.channels@[k],
                ),
        decreases n - h,
    {
        let channel = &clip.channels[h];
        let places = &regions.channels[h];
        if find_node(scene, channel.name.as_str()).is_none() {
            assert(!channel_fits(scene.nodes@, scene.buffer_length as int, regions.channels@[h as int], *channel));
            return Err(ExportError::UnknownChannelTarget { name: channel.name.clone() });
        }
        if !fits(scene, places.timestamps) || !fits(scene, places.translations) || !fits(scene, places.rotations)
            || !fits(scene, places.scales) {
            assert(!channel_fits(scene.nodes@, scene.buffer_length as int, regions.channels@[h as int], *channel));
            return Err(ExportError::PartOutOfRange);
        }
        h = h + 1;
    }
    Ok(())
}

/// Adds the animation of one clip and returns its place.
pub fn build_animation(scene: &mut Scene, regions: &ClipRegions, clip: &SkinnedModelAnimationClip) -> (res:
    Result<usize, ExportError>)
    requires
        old(scene).wf(),
    ensures
        res is Ok == clip_fits(old(scene).nodes@, old(scene).buffer_length as int, *regions, *clip),
        res matches Err(e) ==> e is UnknownChannelTarget || e == ExportError::PartOutOfRange,
        res is Err ==> *final(scene) == *old(scene),
        res matches Ok(place) ==> {
            &&& final(scene).wf()
            &&& old(scene).extends(final(scene))
            &&& old(scene).nodes == final(scene).nodes
            &&& old(scene).materials == final(scene).materials
            &&& old(scene).skins == final(scene).skins
            &&& old(scene).roots == final(scene).roots
            &&& place == old(scene).animations@.len()
            &&& final(scene).animations@.len() == place + 1
            &&& animation_of(final(scene), final(scene).animations@[place as int], *regions, *clip)
        },
        res matches Err(ExportError::UnknownChannelTarget { name }) ==> exists|h: int|
            0 <= h < clip.channels@.len() && name@ == (#[trigger] clip.channels@[h]).name@ && node_named(
                old(scene).nodes@,
                name@,
                0,
            ) == old(scene).nodes@.len(),
{
    let n = clip.channels.len();
    match check_clip(scene, regions, clip) {
        Ok(()) => {},
        Err(e) => {
            return Err(e);
        },
    }
    let ghost start = *scene;
    proof {
        lemma_extends_refl(&start);
    }
    let mut samplers: Vec<Sampler> = Vec::new();
    let mut channels: Vec<Channel> = Vec::new();
    let mut h: usize = 0;
    while h < n
        invariant
            h <= n,
            n == clip.channels@.len(),
            n == regions.channels@.len(),
            scene.wf(),
            start == *old(scene),
            start.extends(scene),
            start.nodes == scene.nodes,
            clip_fits(start.nodes@, start.buffer_length as int, *regions, *clip),
            forall|k: int|
                0 <= k < h ==> channel_fits(
                    start.nodes@,
                    start.buffer_length as int,
                    #[trigger] regions.channels@[k],
                    clip.channels@[k],
                ),
            start.nodes == old(scene).nodes,
            old(scene).keeps_rest(scene),
            samplers@.len() == 3 * h,
            channels@.len() == 3 * h,
            forall|i: int|
                0 <= i < samplers@.len() ==> (#[trigger] samplers@[i]).input < scene.accessors@.len()
                    && samplers@[i].output < scene.accessors@.len(),
            forall|i: int|
                0 <= i < channels@.len() ==> (#[trigger] channels@[i]).sampler < 3 * h && channels@[i].node
                    < scene.nodes@.len(),
            forall|k: int|
                0 <= k < h ==> channel_added(
                    scene,
                    samplers@,
                    channels@,
                    3 * k,
                    #[trigger] regions.channels@[k],
                    clip.channels@[k],
                ),
        decreases n - h,
    {
        let ghost before = *scene;
        let ghost s0 = samplers@;
        let ghost c0 = channels@;
        match add_channel(scene, &regions.channels[h], &clip.channels[h], &mut samplers, &mut channels) {
            Ok(()) => {},
            Err(e) => {
                proof {
                    assert(channel_fits(
                        start.nodes@,
                        start.buffer_length as int,
                        regions.channels@[h as int],
                        clip.channels@[h as int],
                    ));
                }
                return Err(e);
            },
        }
        proof {
            lemma_extends_trans(&start, &before, scene);
            let more_s = choose|more: Seq<Sampler>| #[trigger] (s0 + more) == samplers@ && more.len() == 3;
            let more_c = choose|more: Seq<Channel>| #[trigger] (c0 + more) == channels@ && more.len() == 3;
            assert forall|k: int| 0 <= k < h + 1 implies channel_added(
                scene,
                samplers@,
                channels@,
                3 * k,
                #[trigger] regions.channels@[k],
                clip.channels@[k],
            ) by {
                if k < h {
                    lemma_channel_added_later(
                        &before,
                        scene,
                        s0,
                        c0,
                        3 * k,
                        regions.channels@[k],
                        clip.channels@[k],
                        more_s,
                        more_c,
                    );
                }
            }
            assert forall|i: int| 0 <= i < samplers@.len() implies (#[trigger] samplers@[i]).input
                < scene.accessors@.len() && samplers@[i].output < scene.accessors@.len() by {
                if i < s0.len() {
                    assert(samplers@[i] == s0[i]);
                }
            }
            assert(channel_added(
                scene,
                samplers@,
                channels@,
                3 * h,
                regions.channels@[h as int],
                clip.channels@[h as int],
            ));
            assert forall|i: int| 0 <= i < channels@.len() implies (#[trigger] channels@[i]).sampler < 3 * (h
                + 1) && channels@[i].node < scene.nodes@.len() by {
                if i < c0.len() {
                    assert(channels@[i] == c0[i]);
                } else {
                    assert(i == 3 * h || i == 3 * h + 1 || i == 3 * h + 2);
                }
            }
        }
        h = h + 1;
    }
    let ghost before = *scene;
    let ghost fs = samplers@;
    let ghost fc = channels@;
    let place = scene.push_animation(Animation { name: clip.name.clone(), channels, samplers });
    proof {
        lemma_extends_trans(&start, &before, scene);
        let a = scene.animations@[place as int];
        assert(a.samplers@ == fs && a.channels@ == fc);
        assert forall|k: int| 0 <= k < clip.channels@.len() implies channel_added(
            scene,
            a.samplers@,
            a.channels@,
            3 * k,
            #[trigger] regions.channels@[k],
            clip.channels@[k],
        ) by {
            lemma_channel_added_later(
                &before,
                scene,
                a.samplers@,
                a.channels@,
                3 * k,
                regions.channels@[k],
                clip.channels@[k],
                Seq::empty(),
                Seq::empty(),
            );
            assert(a.samplers@ + Seq::<Sampler>::empty() =~= a.samplers@);
            assert(a.channels@ + Seq::<Channel>::empty() =~= a.channels@);
        }
    }
    Ok(place)
}

/// Whether the animations of the clips can be added to a document with
/// these nodes over a buffer of `buffer_length` bytes: there are regions
/// for each clip, every reference is to a clip of the pool, and the
/// animation of each clip can be added.
pub open spec fn clips_fit(
    nodes: Seq<Node>,
    buffer_length: int,
    regions: Seq<ClipRegions>,
    pool: Seq<Content>,
    clips: Seq<usize>,
) -> bool {
    &&& regions.len() == clips.len()
    &&& forall|c: int|
        0 <= c < clips.len() ==> (#[trigger] clip_error(pool, clips[c])) is None && clip_fits(
            nodes,
            buffer_length,
            regions[c],
            clip_of(pool, clips[c])->0,
        )
}

/// Adds the animation of each clip that `clips` refers to, in their
/// order. `regions` holds for each clip where its keyframes lie in the
/// buffer.
pub fn build_animations(scene: &mut Scene, regions: &[ClipRegions], pool: &[Content], clips: &[usize]) -> (res:
    Result<(), ExportError>)
    requires
        old(scene).wf(),
    ensures
        res is Ok == clips_fit(old(scene).nodes@, old(scene).buffer_length as int, regions@, pool@, clips@),
        res is Err ==> *final(scene) == *old(scene),
        res matches Err(e) ==> e is UnknownChannelTarget || e == ExportError::PartOutOfRange || exists|c: int|
            0 <= c < clips@.len() && #[trigger] clip_error(pool@, clips@[c]) == Some(e),
        res matches Err(ExportError::UnknownChannelTarget { name }) ==> exists|c: int, h: int|
            0 <= c < clips@.len() && clip_error(pool@, clips@[c]) is None && 0 <= h < clip_of(
                pool@,
                clips@[c],
            )->0.channels@.len() && name@ == #[trigger] channel_name(pool@, clips@, c, h) && node_named(
                old(scene).nodes@,
                name@,
                0,
            ) == old(scene).nodes@.len(),
        res matches Err(e) ==> (e == ExportError::PartOutOfRange ==> regions@.len() != clips@.len() || exists|c: int|
            0 <= c < clips@.len() && (#[trigger] clip_error(pool@, clips@[c])) is None && !clip_regions_fit(
                old(scene).buffer_length as int,
                regions@[c],
                clip_of(pool@, clips@[c])->0,
            )),
        res is Ok ==> {
            &&& final(scene).wf()
            &&& old(scene).extends(final(scene))
            &&& old(scene).nodes == final(scene).nodes
            &&& old(scene).materials == final(scene).materials
            &&& old(scene).skins == final(scene).skins
            &&& old(scene).roots == final(scene).roots
            &&& final(scene).animations@.len() == old(scene).animations@.len() + clips@.len()
            &&& forall|c: int|
                0 <= c < clips@.len() ==> animation_of(
                    final(scene),
                    #[trigger] final(scene).animations@[old(scene).animations@.len() + c],
                    regions@[c],
                    clip_of(pool@, clips@[c])->0,
                )
        },
{
    if regions.len() != clips.len() {
        return Err(ExportError::PartOutOfRange);
    }
    let mut c: usize = 0;
    while c < clips.len()
        invariant
            c <= clips@.len(),
            regions@.len() == clips@.len(),
            *scene == *old(scene),
            forall|k: int|
                0 <= k < c ==> (#[trigger] clip_error(pool@, clips@[k])) is None && clip_fits(
                    scene.nodes@,
                    scene.buffer_length as int,
                    regions@[k],
                    clip_of(pool@, clips@[k])->0,
                ),
        decreases clips@.len() - c,
    {
        let clip = match clip_by_ref(pool, clips[c]) {
            Ok(clip) => clip,
            Err(e) => {
                assert(clip_error(pool@, clips@[c as int]) == Some(e));
                return Err(e);
            },
        };
        match check_clip(scene, &regions[c], clip) {
            Ok(()) => {},
            Err(e) => {
                proof {
                    assert(clip_error(pool@, clips@[c as int]) is None);
                    if e is UnknownChannelTarget {
                        let h = choose|h: int|
                            0 <= h < clip.channels@.len() && e->name@ == (#[trigger] clip.channels@[h]).name@
                                && node_named(scene.nodes@, e->name@, 0) == scene.nodes@.len();
                        assert(e->name@ == channel_name(pool@, clips@, c as int, h));
                    }
                }
                return Err(e);
            },
        }
        c = c + 1;
    }
    let ghost start = *scene;
    let ghost first = start.animations@.len() as int;
    proof {
        lemma_extends_refl(&start);
    }
    c = 0;
    while c < clips.len()
        invariant
            c <= clips@.len(),
            regions@.len() == clips@.len(),
            start == *old(scene),
            first == start.animations@.len(),
            scene.wf(),
            start.extends(scene),
            scene.nodes == start.nodes,
            scene.materials == start.materials,
            scene.skins == start.skins,
            scene.roots == start.roots,
            scene.animations@.len() == first + c,
            scene.buffer_length == start.buffer_length,
            clips_fit(start.nodes@, start.buffer_length as int, regions@, pool@, clips@),
            forall|k: int|
                0 <= k < c ==> animation_of(
                    scene,
                    #[trigger] scene.animations@[first + k],
                    regions@[k],
                    clip_of(pool@, clips@[k])->0,
                ),
        decreases clips@.len() - c,
    {
        assert(clip_error(pool@, clips@[c as int]) is None);
        let clip = match clip_by_ref(pool, clips[c]) {
            Ok(clip) => clip,
            Err(e) => {
                return Err(e);
            },
        };
        let ghost before = *scene;
        match build_animation(scene, &regions[c], clip) {
            Ok(_) => {},
            Err(e) => {
                return Err(e);
            },
        }
        proof {
            lemma_extends_trans(&start, &before, scene);
            assert forall|k: int| 0 <= k < c + 1 implies animation_of(
                scene,
                #[trigger] scene.animations@[first + k],
                regions@[k],
                clip_of(pool@, clips@[k])->0,
            ) by {
                if k < c {
                    assert(scene.animations@.subrange(0, before.animations@.len() as int)[first + k]
                        == before.animations@[first + k]);
                    lemma_animation_of_later(
                        &before,
                        scene,
                        before.animations@[first + k],
                        regions@[k],
                        clip_of(pool@, clips@[k])->0,
                    );
                }
            }
        }
        c = c + 1;
    }
    Ok(())
}

/// What is true of an animation in a document is true of it in every
/// document that extends it without new nodes.
pub proof fn lemma_animation_of_later(
    before: &Scene,
    after: &Scene,
    animation: Animation,
    regions: ClipRegions,
    clip: SkinnedModelAnimationClip,
)
    requires
        animation_of(before, animation, regions, clip),
        before.extends(after),
        before.nodes == after.nodes,
        before.wf(),
    ensures
        animation_of(after, animation, regions, clip),
{
    assert forall|h: int| 0 <= h < clip.channels@.len() implies channel_added(
        after,
        animation.samplers@,
        animation.channels@,
        3 * h,
        #[trigger] regions.channels@[h],
        clip.channels@[h],
    ) by {
        lemma_channel_added_later(
            before,
            after,
            animation.samplers@,
            animation.channels@,
            3 * h,
            regions.channels@[h],
            clip.channels@[h],
            Seq::empty(),
            Seq::empty(),
        );
        assert(animation.samplers@ + Seq::<Sampler>::empty() =~= animation.samplers@);
        assert(animation.channels@ + Seq::<Channel>::empty() =~= animation.channels@);
    }
}

/// The first node of a name is a node of that name, and none before it
/// is.
pub proof fn lemma_node_named(nodes: Seq<Node>, name: Seq<char>, from: int)
    requires
        0 <= from <= nodes.len(),
    ensures
        from <= node_named(nodes, name, from) <= nodes.len(),
        node_named(nodes, name, from) < nodes.len() ==> is_named(nodes[node_named(nodes, name, from)], name),
        forall|i: int| from <= i < node_named(nodes, name, from) ==> !is_named(#[trigger] nodes[i], name),
    decreases nodes.len() - from,
{
    if from < nodes.len() && !is_named(nodes[from], name) {
        lemma_node_named(nodes, name, from + 1);
    }
}

/// The name of joint `k`.
pub open spec fn joint_name(pool: Seq<Content>, order: Seq<usize>, k: int) -> Seq<char> {
    bone_of(pool[order[k] as int])->0.name@
}

/// Whether a joint has this name.
pub open spec fn names_joint(pool: Seq<Content>, order: Seq<usize>, name: Seq<char>) -> bool {
    exists|k: int| 0 <= k < order.len() && #[trigger] joint_name(pool, order, k) == name
}

/// Whether the nodes are `base` nodes without a name and behind them the
/// nodes of the joints, in their order.
pub open spec fn joints_behind(nodes: Seq<Node>, base: int, pool: Seq<Content>, order: Seq<usize>) -> bool {
    &&& 0 <= base
    &&& nodes.len() == base + order.len()
    &&& forall|i: int| 0 <= i < base ==> (#[trigger] nodes[i]).name is None
    &&& forall|k: int|
        0 <= k < order.len() ==> is_joint_node(#[trigger] nodes[base + k], bone_of(pool[order[k] as int])->0)
}

/// Where only the nodes of the joints have names, a channel has a node to
/// move just where a joint has its name.
pub proof fn lemma_target_is_joint(
    nodes: Seq<Node>,
    base: int,
    pool: Seq<Content>,
    order: Seq<usize>,
    name: Seq<char>,
)
    requires
        joints_behind(nodes, base, pool, order),
    ensures
        node_named(nodes, name, 0) < nodes.len() <==> names_joint(pool, order, name),
{
    lemma_node_named(nodes, name, 0);
    let at = node_named(nodes, name, 0);
    if at < nodes.len() {
        assert(is_named(nodes[at], name));
        if at < base {
            assert(nodes[at].name is None);
        } else {
            let k = at - base;
            assert(is_joint_node(nodes[base + k], bone_of(pool[order[k] as int])->0));
            assert(joint_name(pool, order, k) == name);
        }
    }
    if names_joint(pool, order, name) {
        let k = choose|k: int| 0 <= k < order.len() && #[trigger] joint_name(pool, order, k) == name;
        assert(is_joint_node(nodes[base + k], bone_of(pool[order[k] as int])->0));
        assert(is_named(nodes[base + k], name));
    }
}

/// Regions that hold the channels of a clip lie within the buffer, and
/// there are regions for each channel.
pub proof fn lemma_held_regions_fit(data: Seq<u8>, regions: ClipRegions, clip: SkinnedModelAnimationClip)
    requires
        regions.holds(data, clip),
    ensures
        clip_regions_fit(data.len() as int, regions, clip),
{
    reveal(ClipRegions::holds);
    assert forall|h: int| 0 <= h < clip.channels@.len() implies {
        &&& region_fits((#[trigger] regions.channels@[h]).timestamps, data.len() as int)
        &&& region_fits(regions.channels@[h].translations, data.len() as int)
        &&& region_fits(regions.channels@[h].rotations, data.len() as int)
        &&& region_fits(regions.channels@[h].scales, data.len() as int)
    } by {
        reveal(ChannelRegions::holds);
        assert(regions.channels@[h].holds(data, clip.channels@[h]));
    }
}

/// Where only the nodes of the joints have names and the regions of a
/// clip hold its channels, the animation of the clip can be added just
/// where a joint has the name of each of its channels.
pub proof fn lemma_clip_fits(
    nodes: Seq<Node>,
    base: int,
    pool: Seq<Content>,
    order: Seq<usize>,
    data: Seq<u8>,
    regions: ClipRegions,
    clip: SkinnedModelAnimationClip,
)
    requires
        joints_behind(nodes, base, pool, order),
        regions.holds(data, clip),
    ensures
        clip_fits(nodes, data.len() as int, regions, clip) <==> forall|h: int|
            0 <= h < clip.channels@.len() ==> names_joint(pool, order, (#[trigger] clip.channels@[h]).name@),
{
    reveal(ClipRegions::holds);
    assert forall|h: int| 0 <= h < clip.channels@.len() implies (channel_fits(
        nodes,
        data.len() as int,
        #[trigger] regions.channels@[h],
        clip.channels@[h],
    ) <==> names_joint(pool, order, clip.channels@[h].name@)) by {
        reveal(ChannelRegions::holds);
        assert(regions.channels@[h].holds(data, clip.channels@[h]));
        lemma_target_is_joint(nodes, base, pool, order, clip.channels@[h].name@);
    }
    if clip_fits(nodes, data.len() as int, regions, clip) {
        assert forall|h: int| 0 <= h < clip.channels@.len() implies names_joint(
            pool,
            order,
            (#[trigger] clip.channels@[h]).name@,
        ) by {
            assert(channel_fits(nodes, data.len() as int, regions.channels@[h], clip.channels@[h]));
        }
    }
    if forall|h: int|
        0 <= h < clip.channels@.len() ==> names_joint(pool, order, (#[trigger] clip.channels@[h]).name@) {
        assert forall|h: int| 0 <= h < clip.channels@.len() implies channel_fits(
            nodes,
            data.len() as int,
            #[trigger] regions.channels@[h],
            clip.channels@[h],
        ) by {
            assert(names_joint(pool, order, clip.channels@[h].name@));
        }
    }
}

} // verus!
