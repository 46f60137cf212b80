//! Skinned models: bones of the shared pool and animation clips.
use vstd::prelude::*;
use crate::decode::{Decode, counted, read_counted};
use crate::error::{DecodeError};
use crate::reader::{Cursor, follows, Reader};
use crate::single::{Matrix4, Quaternion, Single};
use crate::content::model::{Model, ModelView};
use crate::content::vector3::Vector3;
use crate::reader::same;

verus! {

broadcast use {crate::reader::group_failed, crate::decode::group_failed_items};

/// A model with a skeleton and animations. The references count the
/// entries of the shared pool from 1.
#[derive(Clone, PartialEq, Eq, Debug)]
pub struct SkinnedModel {
    pub model: Model,
    pub shared_bone_refs: Vec<usize>,
    pub shared_animation_refs: Vec<usize>,
}

/// `SkinnedModel` as the format states it.
pub struct SkinnedModelView {
    pub model: ModelView,
    pub shared_bone_refs: Seq<usize>,
    pub shared_animation_refs: Seq<usize>,
}

impl DeepView for SkinnedModel {
    type V = SkinnedModelView;

    open spec fn deep_view(&self) -> SkinnedModelView {
        SkinnedModelView {
            model: self.model.deep_view(),
            shared_bone_refs: self.shared_bone_refs.deep_view(),
            shared_animation_refs: self.shared_animation_refs.deep_view(),
        }
    }
}

/// A bone of a skeleton. Parent and children are references into the
/// shared pool, counted from 1; a parent of 0 marks the root.
#[derive(Clone, PartialEq, Eq, Debug)]
pub struct SkinnedModelBone {
    pub index: u16,
    pub name: String,
    pub translation: Vector3,
    pub orientation: Quaternion,
    pub scale: Vector3,
    pub inverse_bind_pose_transform: Matrix4,
    pub shared_parent_ref: usize,
    pub shared_child_refs: Vec<usize>,
}

/// `SkinnedModelBone` as the format states it.
pub struct SkinnedModelBoneView {
    pub index: u16,
    pub name: Seq<char>,
    pub translation: Vector3,
    pub orientation: Quaternion,
    pub scale: Vector3,
    pub inverse_bind_pose_transform: Seq<Single>,
    pub shared_parent_ref: usize,
    pub shared_child_refs: Seq<usize>,
}

impl DeepView for SkinnedModelBone {
    type V = SkinnedModelBoneView;

    open spec fn deep_view(&self) -> SkinnedModelBoneView {
        SkinnedModelBoneView {
            index: self.index,
            name: self.name.deep_view(),
            translation: self.translation,
            orientation: self.orientation,
            scale: self.scale,
            inverse_bind_pose_transform: self.inverse_bind_pose_transform.deep_view(),
            shared_parent_ref: self.shared_parent_ref,
            shared_child_refs: self.shared_child_refs.deep_view(),
        }
    }
}

impl SkinnedModelBone {
    /// The fields on the wire, one behind the other.
    #[verifier::opaque]
    pub open spec fn fields(c: Cursor) -> (SkinnedModelBoneView, Cursor) {
        let (index, c1) = c.u16();
        let (name, c2) = c1.string();
        let (translation, c3) = Vector3::layout(c2);
        let (orientation, c4) = Quaternion::layout(c3);
        let (scale, c5) = Vector3::layout(c4);
        let (inverse_bind_pose_transform, c6) = Matrix4::layout(c5);
        let (shared_parent_ref, c7) = c6.index();
        let (shared_child_refs, c8) = counted::<usize>(c7);
        (SkinnedModelBoneView {
            index,
            name,
            translation,
            orientation,
            scale,
            inverse_bind_pose_transform,
            shared_parent_ref,
            shared_child_refs,
        }, c8)
    }

    /// The value at `c`: nothing from a failed cursor.
    pub open spec fn layout(c: Cursor) -> (SkinnedModelBoneView, Cursor) {
        if c.err is Some {
            (arbitrary(), c)
        } else {
            Self::fields(c)
        }
    }

    /// Reads one `SkinnedModelBone`.
    pub fn read(reader: &mut Reader) -> (res: Result<Self, DecodeError>)
        ensures
            follows(res, final(reader)@, Self::layout(old(reader)@)),
    {
        proof {
            reveal(SkinnedModelBone::fields);
        }
        let index = reader.read_u16()?;
        let name = reader.read_7bit_length_string()?;
        let translation = Vector3::read(reader)?;
        let orientation = Quaternion::read(reader)?;
        let scale = Vector3::read(reader)?;
        let inverse_bind_pose_transform = Matrix4::read(reader)?;
        let shared_parent_ref = reader.read_index()?;
        let shared_child_refs = read_counted::<usize>(reader)?;
        Ok(SkinnedModelBone {
            index,
            name,
            translation,
            orientation,
            scale,
            inverse_bind_pose_transform,
            shared_parent_ref,
            shared_child_refs,
        })
    }
}

impl Decode for SkinnedModelBone {
    open spec fn wire(c: Cursor) -> (SkinnedModelBoneView, Cursor) {
        SkinnedModelBone::layout(c)
    }

    proof fn lemma_wire_failed(c: Cursor) {
    }

    fn decode(r: &mut Reader) -> (res: Result<Self, DecodeError>) {
        SkinnedModelBone::read(r)
    }
}

/// The pose of a bone at a keyframe.
#[derive(Clone, Copy, PartialEq, Eq, Structural, Debug)]
pub struct SkinnedModelPose {
    pub translation: Vector3,
    pub orientation: Quaternion,
    pub scale: Vector3,
}

impl DeepView for SkinnedModelPose {
    type V = SkinnedModelPose;

    open spec fn deep_view(&self) -> SkinnedModelPose {
        *self
    }
}

impl SkinnedModelPose {
    /// The fields on the wire, one behind the other.
    #[verifier::opaque]
    pub open spec fn fields(c: Cursor) -> (SkinnedModelPose, Cursor) {
        let (translation, c1) = Vector3::layout(c);
        let (orientation, c2) = Quaternion::layout(c1);
        let (scale, c3) = Vector3::layout(c2);
        (SkinnedModelPose { translation, orientation, scale }, c3)
    }

    /// The value at `c`: nothing from a failed cursor.
    pub open spec fn layout(c: Cursor) -> (SkinnedModelPose, Cursor) {
        if c.err is Some {
            (arbitrary(), c)
        } else {
            Self::fields(c)
        }
    }

    /// Reads one `SkinnedModelPose`.
    pub fn read(reader: &mut Reader) -> (res: Result<Self, DecodeError>)
        ensures
            follows(res, final(reader)@, Self::layout(old(reader)@)),
    {
        proof {
            reveal(SkinnedModelPose::fields);
        }
        let translation = Vector3::read(reader)?;
        let orientation = Quaternion::read(reader)?;
        let scale = Vector3::read(reader)?;
        Ok(SkinnedModelPose { translation, orientation, scale })
    }
}

impl Decode for SkinnedModelPose {
    open spec fn wire(c: Cursor) -> (SkinnedModelPose, Cursor) {
        SkinnedModelPose::layout(c)
    }

    proof fn lemma_wire_failed(c: Cursor) {
    }

    fn decode(r: &mut Reader) -> (res: Result<Self, DecodeError>) {
        SkinnedModelPose::read(r)
    }
}

/// A pose at a time.
#[derive(Clone, Copy, PartialEq, Eq, Structural, Debug)]
pub struct SkinnedModelAnimationKeyframe {
    pub time: Single,
    pub pose: SkinnedModelPose,
}

impl DeepView for SkinnedModelAnimationKeyframe {
    type V = SkinnedModelAnimationKeyframe;

    open spec fn deep_view(&self) -> SkinnedModelAnimationKeyframe {
        *self
    }
}

impl SkinnedModelAnimationKeyframe {
    /// The fields on the wire, one behind the other.
    #[verifier::opaque]
    pub open spec fn fields(c: Cursor) -> (SkinnedModelAnimationKeyframe, Cursor) {
        let (time, c1) = Single::layout(c);
        let (pose, c2) = SkinnedModelPose::layout(c1);
        (SkinnedModelAnimationKeyframe { time, pose }, c2)
    }

    /// The value at `c`: nothing from a failed cursor.
    pub open spec fn layout(c: Cursor) -> (SkinnedModelAnimationKeyframe, Cursor) {
        if c.err is Some {
            (arbitrary(), c)
        } else {
            Self::fields(c)
        }
    }

    /// Reads one `SkinnedModelAnimationKeyframe`.
    pub fn read(reader: &mut Reader) -> (res: Result<Self, DecodeError>)
        ensures
            follows(res, final(reader)@, Self::layout(old(reader)@)),
    {
        proof {
            reveal(SkinnedModelAnimationKeyframe::fields);
        }
        let time = Single::read(reader)?;
        let pose = SkinnedModelPose::read(reader)?;
        Ok(SkinnedModelAnimationKeyframe { time, pose })
    }
}

impl Decode for SkinnedModelAnimationKeyframe {
    open spec fn wire(c: Cursor) -> (SkinnedModelAnimationKeyframe, Cursor) {
        SkinnedModelAnimationKeyframe::layout(c)
    }

    proof fn lemma_wire_failed(c: Cursor) {
    }

    fn decode(r: &mut Reader) -> (res: Result<Self, DecodeError>) {
        SkinnedModelAnimationKeyframe::read(r)
    }
}

/// The keyframes of one bone, under the name of the bone.
#[derive(Clone, PartialEq, Eq, Debug)]
pub struct AnimationChannel {
    pub name: String,
    pub keyframes: Vec<SkinnedModelAnimationKeyframe>,
}

/// `AnimationChannel` as the format states it.
pub struct AnimationChannelView {
    pub name: Seq<char>,
    pub keyframes: Seq<SkinnedModelAnimationKeyframe>,
}

impl DeepView for AnimationChannel {
    type V = AnimationChannelView;

    open spec fn deep_view(&self) -> AnimationChannelView {
        AnimationChannelView {
            name: self.name.deep_view(),
            keyframes: self.keyframes.deep_view(),
        }
    }
}

impl AnimationChannel {
    /// The fields on the wire, one behind the other.
    #[verifier::opaque]
    pub open spec fn fields(c: Cursor) -> (AnimationChannelView, Cursor) {
        let (name, c1) = c.string();
        let (keyframes, c2) = counted::<SkinnedModelAnimationKeyframe>(c1);
        (AnimationChannelView { name, keyframes }, c2)
    }

    /// The value at `c`: nothing from a failed cursor.
    pub open spec fn layout(c: Cursor) -> (AnimationChannelView, Cursor) {
        if c.err is Some {
            (arbitrary(), c)
        } else {
            Self::fields(c)
        }
    }

    /// Reads one `AnimationChannel`.
    pub fn read(reader: &mut Reader) -> (res: Result<Self, DecodeError>)
        ensures
            follows(res, final(reader)@, Self::layout(old(reader)@)),
    {
        proof {
            reveal(AnimationChannel::fields);
        }
        let name = reader.read_7bit_length_string()?;
        let keyframes = read_counted::<SkinnedModelAnimationKeyframe>(reader)?;
        Ok(AnimationChannel { name, keyframes })
    }
}

impl Decode for AnimationChannel {
    open spec fn wire(c: Cursor) -> (AnimationChannelView, Cursor) {
        AnimationChannel::layout(c)
    }

    proof fn lemma_wire_failed(c: Cursor) {
    }

    fn decode(r: &mut Reader) -> (res: Result<Self, DecodeError>) {
        AnimationChannel::read(r)
    }
}

/// An animation clip: its name, its length in time, and its channels, each
/// under the name of the bone it moves. No two channels have one name.
#[derive(Clone, PartialEq, Eq, Debug)]
pub struct SkinnedModelAnimationClip {
    pub name: String,
    pub duration: Single,
    pub channels: Vec<AnimationChannel>,
}

/// `SkinnedModelAnimationClip` as the format states it.
pub struct SkinnedModelAnimationClipView {
    pub name: Seq<char>,
    pub duration: Single,
    pub channels: Seq<AnimationChannelView>,
}

impl DeepView for SkinnedModelAnimationClip {
    type V = SkinnedModelAnimationClipView;

    open spec fn deep_view(&self) -> SkinnedModelAnimationClipView {
        SkinnedModelAnimationClipView {
            name: self.name.deep_view(),
            duration: self.duration,
            channels: self.channels.deep_view(),
        }
    }
}

/// The place of the first channel named `name` at or behind `from`, or the
/// number of channels where there is none.
pub open spec fn channel_from(channels: Seq<AnimationChannelView>, name: Seq<char>, from: int) -> int
    decreases channels.len() - from,
{
    if from < 0 || from >= channels.len() {
        channels.len() as int
    } else if channels[from].name == name {
        from
    } else {
        channel_from(channels, name, from + 1)
    }
}

/// `channels` with `channel` in it: in the place of the channel of its
/// name, or at the end where no channel has its name.
pub open spec fn with_channel(channels: Seq<AnimationChannelView>, channel: AnimationChannelView) -> Seq<
    AnimationChannelView,
> {
    let at = channel_from(channels, channel.name, 0);
    if at < channels.len() {
        channels.update(at, channel)
    } else {
        channels.push(channel)
    }
}

/// The channels of a clip as they stand on the wire, each put in its turn:
/// of two channels with one name the later one stays, in the place of the
/// earlier.
pub open spec fn merged(wire: Seq<AnimationChannelView>) -> Seq<AnimationChannelView>
    decreases wire.len(),
{
    if wire.len() == 0 {
        Seq::empty()
    } else {
        with_channel(merged(wire.drop_last()), wire.last())
    }
}

/// No two channels have one name.
pub open spec fn distinct_names(channels: Seq<AnimationChannelView>) -> bool {
    forall|i: int, j: int|
        0 <= i < j < channels.len() ==> (#[trigger] channels[i]).name != (#[trigger] channels[j]).name
}

/// Where `channel_from` points, the name stands, and nowhere before.
pub proof fn lemma_channel_from(channels: Seq<AnimationChannelView>, name: Seq<char>, from: int)
    requires
        0 <= from,
    ensures
        from <= channel_from(channels, name, from) || channel_from(channels, name, from) == channels.len(),
        channel_from(channels, name, from) <= channels.len(),
        channel_from(channels, name, from) < channels.len() ==> channels[channel_from(
            channels,
            name,
            from,
        )].name == name,
        forall|i: int| from <= i < channel_from(channels, name, from) ==> (#[trigger] channels[i]).name != name,
    decreases channels.len() - from,
{
    if from < channels.len() && channels[from].name != name {
        lemma_channel_from(channels, name, from + 1);
    }
}

/// Putting a channel keeps the names distinct.
pub proof fn lemma_with_channel_distinct(channels: Seq<AnimationChannelView>, channel: AnimationChannelView)
    requires
        distinct_names(channels),
    ensures
        distinct_names(with_channel(channels, channel)),
{
    lemma_channel_from(channels, channel.name, 0);
    let at = channel_from(channels, channel.name, 0);
    let next = with_channel(channels, channel);
    assert forall|i: int, j: int| 0 <= i < j < next.len() implies (#[trigger] next[i]).name != (
    #[trigger] next[j]).name by {
        if at < channels.len() {
            if i != at && j != at {
                assert(channels[i].name != channels[j].name);
            } else if i == at {
                assert(channels[at].name != channels[j].name);
            } else {
                assert(channels[i].name != channels[at].name);
            }
        } else {
            if j < channels.len() {
                assert(channels[i].name != channels[j].name);
            } else {
                assert(channels[i].name != channel.name);
            }
        }
    }
}

/// The channels of a clip never hold one name twice.
pub proof fn lemma_merged_distinct(wire: Seq<AnimationChannelView>)
    ensures
        distinct_names(merged(wire)),
    decreases wire.len(),
{
    if wire.len() > 0 {
        lemma_merged_distinct(wire.drop_last());
        lemma_with_channel_distinct(merged(wire.drop_last()), wire.last());
    }
}

/// Puts `channel` among `channels`, in the place of the channel of its
/// name if there is one.
pub fn insert_channel(channels: &mut Vec<AnimationChannel>, channel: AnimationChannel)
    ensures
        final(channels).deep_view() == with_channel(old(channels).deep_view(), channel.deep_view()),
{
    let ghost before = channels.deep_view();
    let ghost name = channel.name@;
    let mut at: usize = 0;
    while at < channels.len() && !same(channels[at].name.as_str(), channel.name.as_str())
        invariant
            at <= channels@.len(),
            channels@ == old(channels)@,
            before == channels.deep_view(),
            name == channel.name@,
            channel_from(before, name, 0) == channel_from(before, name, at as int),
        decreases channels@.len() - at,
    {
        assert(before[at as int].name == channels@[at as int].name@);
        at = at + 1;
    }
    let ghost item = channel.deep_view();
    if at < channels.len() {
        assert(before[at as int].name == channels@[at as int].name@);
        channels.set(at, channel);
        assert(channels.deep_view() =~= before.update(at as int, item));
    } else {
        channels.push(channel);
        assert(channels.deep_view() =~= before.push(item));
    }
}

impl SkinnedModelAnimationClip {
    /// The fields on the wire, one behind the other. The channels stand
    /// behind their count.
    #[verifier::opaque]
    pub open spec fn fields(c: Cursor) -> (SkinnedModelAnimationClipView, Cursor) {
        let (name, c1) = c.string();
        let (duration, c2) = Single::layout(c1);
        let (wire, c3) = counted::<AnimationChannel>(c2);
        (SkinnedModelAnimationClipView { name, duration, channels: merged(wire) }, c3)
    }

    /// The value at `c`: nothing from a failed cursor.
    pub open spec fn layout(c: Cursor) -> (SkinnedModelAnimationClipView, Cursor) {
        if c.err is Some {
            (arbitrary(), c)
        } else {
            Self::fields(c)
        }
    }

    /// Reads one `SkinnedModelAnimationClip`.
    pub fn read(reader: &mut Reader) -> (res: Result<Self, DecodeError>)
        ensures
            follows(res, final(reader)@, Self::layout(old(reader)@)),
            res matches Ok(clip) ==> distinct_names(clip.channels.deep_view()),
    {
        proof {
            reveal(SkinnedModelAnimationClip::fields);
        }
        let name = reader.read_7bit_length_string()?;
        let duration = Single::read(reader)?;
        let mut wire = read_counted::<AnimationChannel>(reader)?;
        let ghost all = wire.deep_view();
        let mut reversed: Vec<AnimationChannel> = Vec::new();
        while wire.len() > 0
            invariant
                wire@.len() + reversed@.len() == all.len(),
                forall|i: int| 0 <= i < wire@.len() ==> (#[trigger] wire@[i]).deep_view() == all[i],
                forall|i: int|
                    0 <= i < reversed@.len() ==> (#[trigger] reversed@[i]).deep_view() == all[all.len() - 1
                        - i],
            decreases wire@.len(),
        {
            let last = wire.pop().unwrap();
            reversed.push(last);
        }
        let mut channels: Vec<AnimationChannel> = Vec::new();
        assert(channels.deep_view() =~= merged(all.take(0)));
        while reversed.len() > 0
            invariant
                reversed@.len() <= all.len(),
                forall|i: int|
                    0 <= i < reversed@.len() ==> (#[trigger] reversed@[i]).deep_view() == all[all.len() - 1
                        - i],
                channels.deep_view() == merged(all.take(all.len() - reversed@.len())),
            decreases reversed@.len(),
        {
            let ghost done = all.len() - reversed@.len();
            let next = reversed.pop().unwrap();
            assert(next.deep_view() == all[done]);
            assert(all.take(done + 1).drop_last() =~= all.take(done));
            insert_channel(&mut channels, next);
        }
        proof {
            assert(all.take(all.len() as int) =~= all);
            lemma_merged_distinct(all);
        }
        Ok(SkinnedModelAnimationClip { name, duration, channels })
    }
}

} // verus!
