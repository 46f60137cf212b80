//! Packing the buffer of an export: vertices and indices of every mesh,
//! the inverse bind matrices of the joints, and the keyframes of every
//! channel of every animation clip.
use vstd::prelude::*;
use crate::content::model::Mesh;
use crate::content::skinned_model::{AnimationChannel, SkinnedModelAnimationClip, SkinnedModelAnimationKeyframe};
use crate::content::vector3::Vector3;
use crate::content::Content;
use crate::export::buffer::{
    index_width, reverse_winding, reversed, total_length, consecutive, Packer, Region, RegionKind,
};
use crate::export::skeleton::{
    bone_by_ref, bone_of, lemma_places_error_none, lemma_places_error_stays, places_error, ref_error,
};
use crate::export::ExportError;
use crate::single::{transpose, Quaternion, Single};
use crate::wire::{le_bytes4, push_le_u32};

verus! {

/// The bytes of some numbers, four for each, least significant first.
pub open spec fn singles_bytes(values: Seq<Single>) -> Seq<u8>
    decreases values.len(),
{
    if values.len() == 0 {
        Seq::empty()
    } else {
        singles_bytes(values.drop_last()) + le_bytes4(values.last().bits as nat)
    }
}

/// The numbers of a vector.
pub open spec fn vector_singles(v: Vector3) -> Seq<Single> {
    seq![v.x, v.y, v.z]
}

/// The numbers of a quaternion.
pub open spec fn quaternion_singles(q: Quaternion) -> Seq<Single> {
    seq![q.x, q.y, q.z, q.w]
}

/// The numbers of the first `k` keyframes that a region of `kind` holds:
/// the time, or the three of the translation, the four of the rotation,
/// the three of the scale.
pub open spec fn keyframe_singles(keyframes: Seq<SkinnedModelAnimationKeyframe>, kind: RegionKind, k: nat) -> Seq<
    Single,
>
    decreases k,
{
    if k == 0 {
        Seq::empty()
    } else {
        let f = keyframes[k - 1];
        keyframe_singles(keyframes, kind, (k - 1) as nat) + (match kind {
            RegionKind::Timestamps => seq![f.time],
            RegionKind::Translations => vector_singles(f.pose.translation),
            RegionKind::Rotations => quaternion_singles(f.pose.orientation),
            _ => vector_singles(f.pose.scale),
        })
    }
}

/// The numbers of the inverse bind matrices of the first `k` joints, each
/// matrix row after row. The joints are places of the pool, counted from
/// 0.
pub open spec fn matrix_singles(pool: Seq<Content>, joints: Seq<usize>, k: nat) -> Seq<Single>
    decreases k,
{
    if k == 0 {
        Seq::empty()
    } else {
        matrix_singles(pool, joints, (k - 1) as nat) + transpose(
            bone_of(pool[joints[k - 1] as int])->0.inverse_bind_pose_transform.cols@,
        )
    }
}

/// Whether `region` lies within `data` and holds `bytes`.
pub open spec fn holds(data: Seq<u8>, region: Region, bytes: Seq<u8>) -> bool {
    &&& region.offset + region.length <= data.len()
    &&& region.length == bytes.len()
    &&& data.subrange(region.offset as int, region.offset + region.length) == bytes
}

/// The regions of one channel of a clip.
#[derive(Debug, Clone, Copy, PartialEq, Eq, Structural)]
pub struct ChannelRegions {
    pub timestamps: Region,
    pub translations: Region,
    pub rotations: Region,
    pub scales: Region,
}

/// The regions of one clip: those of its channels, in their order.
#[derive(Debug, Clone, PartialEq, Eq)]
pub struct ClipRegions {
    pub channels: Vec<ChannelRegions>,
}

/// The packed buffer of an export and the record of what lies where.
#[derive(Debug, Clone, PartialEq, Eq)]
pub struct FullBuffer {
    pub data: Vec<u8>,
    /// Every region, in the order in which it was written.
    pub regions: Vec<Region>,
    /// The vertices of each mesh.
    pub vertices: Vec<Region>,
    /// The indices of each mesh, their winding reversed.
    pub indices: Vec<Region>,
    /// The inverse bind matrices, one for each joint.
    pub inverse_bind_matrices: Region,
    /// The keyframes of each referenced clip.
    pub animations: Vec<ClipRegions>,
}

/// The clip behind a reference into the pool, counted from 1.
pub open spec fn clip_of(pool: Seq<Content>, r: usize) -> Option<SkinnedModelAnimationClip> {
    if r == 0 || r > pool.len() {
        None
    } else {
        match pool[r - 1] {
            Content::SkinnedModelAnimationClip(clip) => Some(clip),
            _ => None,
        }
    }
}

/// What is wrong with `r` as a reference to a clip of the pool, where
/// something is.
pub open spec fn clip_error(pool: Seq<Content>, r: usize) -> Option<ExportError> {
    if r == 0 || r > pool.len() {
        Some(ExportError::SharedIndexOutOfRange { index: r })
    } else if clip_of(pool, r) is None {
        Some(ExportError::UnexpectedShared { index: r })
    } else {
        None
    }
}

impl ChannelRegions {
    /// Whether the four regions hold the keyframes of `channel`.
    #[verifier::opaque]
    pub open spec fn holds(self, data: Seq<u8>, channel: AnimationChannel) -> bool {
        let frames = channel.keyframes@;
        let n = frames.len();
        &&& self.timestamps.kind == RegionKind::Timestamps
        &&& self.translations.kind == RegionKind::Translations
        &&& self.rotations.kind == RegionKind::Rotations
        &&& self.scales.kind == RegionKind::Scales
        &&& self.timestamps.count == n
        &&& self.translations.count == n
        &&& self.rotations.count == n
        &&& self.scales.count == n
        &&& holds(data, self.timestamps, singles_bytes(keyframe_singles(frames, RegionKind::Timestamps, n)))
        &&& holds(data, self.translations, singles_bytes(keyframe_singles(frames, RegionKind::Translations, n)))
        &&& holds(data, self.rotations, singles_bytes(keyframe_singles(frames, RegionKind::Rotations, n)))
        &&& holds(data, self.scales, singles_bytes(keyframe_singles(frames, RegionKind::Scales, n)))
    }
}

impl ClipRegions {
    /// Whether the regions hold the channels of `clip`, one for one.
    #[verifier::opaque]
    pub open spec fn holds(self, data: Seq<u8>, clip: SkinnedModelAnimationClip) -> bool {
        &&& self.channels@.len() == clip.channels@.len()
        &&& forall|h: int|
            0 <= h < self.channels@.len() ==> (#[trigger] self.channels@[h]).holds(data, clip.channels@[h])
    }
}

/// The regions of a channel in the order in which they are written:
/// the times, the translations, the rotations and the scales.
pub open spec fn channel_sequence(regions: ChannelRegions) -> Seq<Region> {
    seq![regions.timestamps, regions.translations, regions.rotations, regions.scales]
}

/// The regions of the first `k` channels of a clip, one channel behind
/// the other.
pub open spec fn clip_sequence(channels: Seq<ChannelRegions>, k: nat) -> Seq<Region>
    decreases k,
{
    if k == 0 {
        Seq::empty()
    } else {
        clip_sequence(channels, (k - 1) as nat) + channel_sequence(channels[k - 1])
    }
}

/// The regions of the first `k` clips, one clip behind the other.
pub open spec fn clips_sequence(clips: Seq<ClipRegions>, k: nat) -> Seq<Region>
    decreases k,
{
    if k == 0 {
        Seq::empty()
    } else {
        clips_sequence(clips, (k - 1) as nat) + clip_sequence(clips[k - 1].channels@, clips[k - 1].channels@.len())
    }
}

/// The regions of the first `k` meshes: for each mesh its vertices and
/// then its indices.
pub open spec fn mesh_sequence(vertices: Seq<Region>, indices: Seq<Region>, k: nat) -> Seq<Region>
    decreases k,
{
    if k == 0 {
        Seq::empty()
    } else {
        mesh_sequence(vertices, indices, (k - 1) as nat).push(vertices[k - 1]).push(indices[k - 1])
    }
}

/// The regions of the first channels of a clip are what they are
/// whatever channels follow.
pub proof fn lemma_clip_sequence_pushed(channels: Seq<ChannelRegions>, more: ChannelRegions, k: nat)
    requires
        k <= channels.len(),
    ensures
        clip_sequence(channels.push(more), k) == clip_sequence(channels, k),
    decreases k,
{
    if k > 0 {
        lemma_clip_sequence_pushed(channels, more, (k - 1) as nat);
    }
}

/// The regions of the first clips are what they are whatever clips
/// follow.
pub proof fn lemma_clips_sequence_pushed(clips: Seq<ClipRegions>, more: ClipRegions, k: nat)
    requires
        k <= clips.len(),
    ensures
        clips_sequence(clips.push(more), k) == clips_sequence(clips, k),
    decreases k,
{
    if k > 0 {
        lemma_clips_sequence_pushed(clips, more, (k - 1) as nat);
    }
}

/// The regions of the first meshes are what they are whatever meshes
/// follow.
pub proof fn lemma_mesh_sequence_pushed(vertices: Seq<Region>, indices: Seq<Region>, v: Region, i: Region, k: nat)
    requires
        k <= vertices.len(),
        k <= indices.len(),
    ensures
        mesh_sequence(vertices.push(v), indices.push(i), k) == mesh_sequence(vertices, indices, k),
    decreases k,
{
    if k > 0 {
        lemma_mesh_sequence_pushed(vertices, indices, v, i, (k - 1) as nat);
    }
}

impl FullBuffer {
    /// The named regions in the order in which they are written: those
    /// of the meshes, the inverse bind matrices, and those of the clips.
    pub open spec fn named(&self) -> Seq<Region> {
        mesh_sequence(self.vertices@, self.indices@, self.vertices@.len()).push(self.inverse_bind_matrices)
            + clips_sequence(self.animations@, self.animations@.len())
    }

    /// Whether the record is true of the buffer: the regions lie one
    /// behind the other and fill it, they are the named regions in their
    /// order, and each named region holds what it is named for.
    pub open spec fn packs(
        &self,
        meshes: Seq<Mesh>,
        pool: Seq<Content>,
        joints: Seq<usize>,
        clips: Seq<usize>,
    ) -> bool {
        &&& consecutive(self.regions@)
        &&& total_length(self.regions@) == self.data@.len()
        &&& self.regions@ == self.named()
        &&& self.vertices@.len() == meshes.len()
        &&& self.indices@.len() == meshes.len()
        &&& forall|m: int|
            0 <= m < meshes.len() ==> (#[trigger] self.vertices@[m]).kind == RegionKind::Vertices && holds(
                self.data@,
                self.vertices@[m],
                meshes[m].vertex_buffer.data@,
            )
        &&& forall|m: int|
            0 <= m < meshes.len() ==> (#[trigger] self.indices@[m]).kind == RegionKind::Indices && holds(
                self.data@,
                self.indices@[m],
                reversed(meshes[m].index_buffer.data@, index_width(meshes[m].index_buffer.is_16_bit)),
            )
        &&& self.inverse_bind_matrices.kind == RegionKind::InverseBindMatrices
        &&& self.inverse_bind_matrices.count == joints.len()
        &&& holds(
            self.data@,
            self.inverse_bind_matrices,
            singles_bytes(matrix_singles(pool, joints, joints.len())),
        )
        &&& self.animations@.len() == clips.len()
        &&& forall|c: int| 0 <= c < clips.len() ==> (#[trigger] clip_error(pool, clips[c])) is None
        &&& forall|c: int|
            0 <= c < clips.len() ==> (#[trigger] self.animations@[c]).holds(
                self.data@,
                clip_of(pool, clips[c])->0,
            )
    }
}

/// The region that was appended last holds what was appended.
pub proof fn lemma_holds_appended(data: Seq<u8>, bytes: Seq<u8>, region: Region)
    requires
        region.offset == data.len(),
        region.length == bytes.len(),
    ensures
        holds(data + bytes, region, bytes),
{
    assert((data + bytes).subrange(region.offset as int, region.offset + region.length) =~= bytes);
}

/// Appends the four bytes of each of `values` to `out`.
pub fn push_singles(out: &mut Vec<u8>, values: &[Single])
    ensures
        final(out)@ == old(out)@ + singles_bytes(values@),
{
    let ghost start = out@;
    let mut i: usize = 0;
    assert(values@.take(0) =~= Seq::<Single>::empty());
    assert(out@ =~= start + singles_bytes(values@.take(0)));
    while i < values.len()
        invariant
            i <= values@.len(),
            start == old(out)@,
            out@ == start + singles_bytes(values@.take(i as int)),
        decreases values@.len() - i,
    {
        let ghost before = out@;
        push_le_u32(out, values[i].bits);
        proof {
            assert(values@.take(i + 1).drop_last() =~= values@.take(i as int));
            assert(out@ =~= start + singles_bytes(values@.take(i + 1)));
        }
        i = i + 1;
    }
    assert(values@.take(values@.len() as int) =~= values@);
}

/// The bytes of a run of numbers are those of its parts, one behind the
/// other.
pub proof fn lemma_singles_concat(a: Seq<Single>, b: Seq<Single>)
    ensures
        singles_bytes(a + b) == singles_bytes(a) + singles_bytes(b),
    decreases b.len(),
{
    if b.len() == 0 {
        assert(a + b =~= a);
        assert(singles_bytes(a) + singles_bytes(b) =~= singles_bytes(a));
    } else {
        lemma_singles_concat(a, b.drop_last());
        assert((a + b).drop_last() =~= a + b.drop_last());
        assert(singles_bytes(a) + (singles_bytes(b.drop_last()) + le_bytes4(b.last().bits as nat))
            =~= (singles_bytes(a) + singles_bytes(b.drop_last())) + le_bytes4(b.last().bits as nat));
    }
}

/// The bytes of one kind of value of every keyframe.
fn keyframe_bytes(keyframes: &Vec<SkinnedModelAnimationKeyframe>, kind: RegionKind) -> (bytes: Vec<u8>)
    ensures
        bytes@ == singles_bytes(keyframe_singles(keyframes@, kind, keyframes@.len())),
{
    let mut bytes: Vec<u8> = Vec::new();
    let mut i: usize = 0;
    while i < keyframes.len()
        invariant
            i <= keyframes@.len(),
            bytes@ == singles_bytes(keyframe_singles(keyframes@, kind, i as nat)),
        decreases keyframes@.len() - i,
    {
        let f = &keyframes[i];
        let ghost done = keyframe_singles(keyframes@, kind, i as nat);
        match kind {
            RegionKind::Timestamps => {
                let values = [f.time];
                assert(values@ =~= seq![f.time]);
                push_singles(&mut bytes, values.as_slice());
                proof {
                    lemma_singles_concat(done, seq![f.time]);
                }
            },
            RegionKind::Translations => {
                let v = f.pose.translation;
                let values = [v.x, v.y, v.z];
                assert(values@ =~= vector_singles(v));
                push_singles(&mut bytes, values.as_slice());
                proof {
                    lemma_singles_concat(done, vector_singles(v));
                }
            },
            RegionKind::Rotations => {
                let q = f.pose.orientation;
                let values = [q.x, q.y, q.z, q.w];
                assert(values@ =~= quaternion_singles(q));
                push_singles(&mut bytes, values.as_slice());
                proof {
                    lemma_singles_concat(done, quaternion_singles(q));
                }
            },
            _ => {
                let v = f.pose.scale;
                let values = [v.x, v.y, v.z];
                assert(values@ =~= vector_singles(v));
                push_singles(&mut bytes, values.as_slice());
                proof {
                    lemma_singles_concat(done, vector_singles(v));
                }
            },
        }
        i = i + 1;
    }
    bytes
}

/// The bytes of the inverse bind matrices of the joints, each matrix row
/// after row.
fn matrix_bytes(pool: &[Content], joints: &[usize]) -> (res: Result<Vec<u8>, ExportError>)
    ensures
        res matches Err(e) ==> e !is UnknownChannelTarget,
        match res {
            Ok(bytes) => bytes@ == singles_bytes(matrix_singles(pool@, joints@, joints@.len())) && places_error(
                pool@,
                joints@,
                joints@.len(),
            ) is None,
            Err(e) => places_error(pool@, joints@, joints@.len()) == Some(e),
        },
{
    let mut bytes: Vec<u8> = Vec::new();
    let mut i: usize = 0;
    while i < joints.len()
        invariant
            i <= joints@.len(),
            bytes@ == singles_bytes(matrix_singles(pool@, joints@, i as nat)),
            places_error(pool@, joints@, i as nat) is None,
            forall|j: int|
                0 <= j < i ==> joints@[j] < pool@.len() && bone_of(pool@[#[trigger] joints@[j] as int]) is Some,
        decreases joints@.len() - i,
    {
        if joints[i] >= usize::MAX {
            proof {
                lemma_places_error_stays(pool@, joints@, (i + 1) as nat, joints@.len());
            }
            return Err(ExportError::SharedIndexOutOfRange { index: joints[i] });
        }
        let bone = match bone_by_ref(pool, joints[i] + 1) {
            Ok(bone) => bone,
            Err(e) => {
                proof {
                    lemma_places_error_stays(pool@, joints@, (i + 1) as nat, joints@.len());
                }
                return Err(e);
            },
        };
        let rows = bone.inverse_bind_pose_transform.transposed();
        let ghost done = matrix_singles(pool@, joints@, i as nat);
        push_singles(&mut bytes, rows.cols.as_slice());
        proof {
            lemma_singles_concat(done, rows.cols@);
        }
        i = i + 1;
    }
    Ok(bytes)
}

/// Whether `longer` starts with `shorter`.
pub open spec fn starts_with(longer: Seq<u8>, shorter: Seq<u8>) -> bool {
    shorter.len() <= longer.len() && longer.subrange(0, shorter.len() as int) == shorter
}

/// What a region holds, it holds in every buffer that starts with the
/// buffer.
pub proof fn lemma_holds_in_longer(data: Seq<u8>, longer: Seq<u8>, region: Region, bytes: Seq<u8>)
    requires
        holds(data, region, bytes),
        starts_with(longer, data),
    ensures
        holds(longer, region, bytes),
{
    assert(longer.subrange(region.offset as int, region.offset + region.length) =~= longer.subrange(
        0,
        data.len() as int,
    ).subrange(region.offset as int, region.offset + region.length));
}

pub proof fn lemma_channel_holds_in_longer(
    data: Seq<u8>,
    longer: Seq<u8>,
    regions: ChannelRegions,
    channel: AnimationChannel,
)
    requires
        regions.holds(data, channel),
        starts_with(longer, data),
    ensures
        regions.holds(longer, channel),
{
    reveal(ChannelRegions::holds);
    let frames = channel.keyframes@;
    let n = frames.len();
    lemma_holds_in_longer(
        data,
        longer,
        regions.timestamps,
        singles_bytes(keyframe_singles(frames, RegionKind::Timestamps, n)),
    );
    lemma_holds_in_longer(
        data,
        longer,
        regions.translations,
        singles_bytes(keyframe_singles(frames, RegionKind::Translations, n)),
    );
    lemma_holds_in_longer(
        data,
        longer,
        regions.rotations,
        singles_bytes(keyframe_singles(frames, RegionKind::Rotations, n)),
    );
    lemma_holds_in_longer(
        data,
        longer,
        regions.scales,
        singles_bytes(keyframe_singles(frames, RegionKind::Scales, n)),
    );
}

pub proof fn lemma_clip_holds_in_longer(
    data: Seq<u8>,
    longer: Seq<u8>,
    regions: ClipRegions,
    clip: SkinnedModelAnimationClip,
)
    requires
        regions.holds(data, clip),
        starts_with(longer, data),
    ensures
        regions.holds(longer, clip),
{
    reveal(ClipRegions::holds);
    assert forall|h: int| 0 <= h < regions.channels@.len() implies (#[trigger] regions.channels@[h]).holds(
        longer,
        clip.channels@[h],
    ) by {
        lemma_channel_holds_in_longer(data, longer, regions.channels@[h], clip.channels@[h]);
    }
}

/// A buffer that starts with another starts with what that one starts
/// with.
pub proof fn lemma_starts_with_chain(a: Seq<u8>, b: Seq<u8>, c: Seq<u8>)
    requires
        starts_with(b, a),
        starts_with(c, b),
    ensures
        starts_with(c, a),
{
    assert(c.subrange(0, a.len() as int) =~= c.subrange(0, b.len() as int).subrange(0, a.len() as int));
}

/// Appends one region and says what it holds.
fn pack_region(packer: &mut Packer, kind: RegionKind, bytes: &[u8], count: usize) -> (region: Region)
    requires
        old(packer).wf(),
    ensures
        final(packer).wf(),
        starts_with(final(packer).data@, old(packer).data@),
        holds(final(packer).data@, region, bytes@),
        region.kind == kind,
        region.count == count,
        final(packer).regions@ == old(packer).regions@.push(region),
{
    let ghost before = packer.data@;
    let offset = packer.append(kind, bytes, count);
    let region = Region { kind, offset, length: bytes.len(), count };
    proof {
        lemma_holds_appended(before, bytes@, region);
        assert((before + bytes@).subrange(0, before.len() as int) =~= before);
    }
    region
}

/// Packs the keyframes of one channel: the times, then the translations,
/// the rotations and the scales.
fn pack_channel(packer: &mut Packer, channel: &AnimationChannel) -> (regions: ChannelRegions)
    requires
        old(packer).wf(),
    ensures
        final(packer).wf(),
        starts_with(final(packer).data@, old(packer).data@),
        regions.holds(final(packer).data@, *channel),
        final(packer).regions@ == old(packer).regions@ + channel_sequence(regions),
{
    proof {
        reveal(ChannelRegions::holds);
    }
    let n = channel.keyframes.len();
    let ghost frames = channel.keyframes@;
    let ghost r0 = packer.regions@;
    let ghost d0 = packer.data@;
    let bytes = keyframe_bytes(&channel.keyframes, RegionKind::Timestamps);
    let timestamps = pack_region(packer, RegionKind::Timestamps, bytes.as_slice(), n);
    let ghost d1 = packer.data@;
    let bytes = keyframe_bytes(&channel.keyframes, RegionKind::Translations);
    let translations = pack_region(packer, RegionKind::Translations, bytes.as_slice(), n);
    let ghost d2 = packer.data@;
    let bytes = keyframe_bytes(&channel.keyframes, RegionKind::Rotations);
    let rotations = pack_region(packer, RegionKind::Rotations, bytes.as_slice(), n);
    let ghost d3 = packer.data@;
    let bytes = keyframe_bytes(&channel.keyframes, RegionKind::Scales);
    let scales = pack_region(packer, RegionKind::Scales, bytes.as_slice(), n);
    let ghost d4 = packer.data@;
    proof {
        assert(packer.regions@ =~= r0 + seq![timestamps, translations, rotations, scales]);
        lemma_starts_with_chain(d0, d1, d2);
        lemma_starts_with_chain(d0, d2, d3);
        lemma_starts_with_chain(d0, d3, d4);
        lemma_starts_with_chain(d1, d2, d3);
        lemma_starts_with_chain(d1, d3, d4);
        lemma_starts_with_chain(d2, d3, d4);
        lemma_holds_in_longer(
            d1,
            d4,
            timestamps,
            singles_bytes(keyframe_singles(frames, RegionKind::Timestamps, frames.len())),
        );
        lemma_holds_in_longer(
            d2,
            d4,
            translations,
            singles_bytes(keyframe_singles(frames, RegionKind::Translations, frames.len())),
        );
        lemma_holds_in_longer(
            d3,
            d4,
            rotations,
            singles_bytes(keyframe_singles(frames, RegionKind::Rotations, frames.len())),
        );
    }
    ChannelRegions { timestamps, translations, rotations, scales }
}

/// Packs the channels of one clip, in their order.
fn pack_clip(packer: &mut Packer, clip: &SkinnedModelAnimationClip) -> (regions: ClipRegions)
    requires
        old(packer).wf(),
    ensures
        final(packer).wf(),
        starts_with(final(packer).data@, old(packer).data@),
        regions.holds(final(packer).data@, *clip),
        final(packer).regions@ == old(packer).regions@ + clip_sequence(regions.channels@, regions.channels@.len()),
{
    proof {
        reveal(ClipRegions::holds);
    }
    let mut channels: Vec<ChannelRegions> = Vec::new();
    let mut h: usize = 0;
    assert(packer.data@.subrange(0, packer.data@.len() as int) =~= packer.data@);
    assert(packer.regions@ =~= packer.regions@ + clip_sequence(channels@, 0));
    while h < clip.channels.len()
        invariant
            h <= clip.channels@.len(),
            packer.wf(),
            starts_with(packer.data@, old(packer).data@),
            channels@.len() == h,
            packer.regions@ == old(packer).regions@ + clip_sequence(channels@, h as nat),
            forall|k: int| 0 <= k < h ==> (#[trigger] channels@[k]).holds(packer.data@, clip.channels@[k]),
        decreases clip.channels@.len() - h,
    {
        let ghost before = packer.data@;
        let ghost done = channels@;
        let ghost had = packer.regions@;
        let regions = pack_channel(packer, &clip.channels[h]);
        channels.push(regions);
        proof {
            lemma_clip_sequence_pushed(done, regions, h as nat);
            assert(packer.regions@ =~= old(packer).regions@ + clip_sequence(channels@, (h + 1) as nat));
            lemma_starts_with_chain(old(packer).data@, before, packer.data@);
            assert forall|k: int| 0 <= k < h + 1 implies (#[trigger] channels@[k]).holds(
                packer.data@,
                clip.channels@[k],
            ) by {
                if k < h {
                    assert(channels@[k] == done[k]);
                    lemma_channel_holds_in_longer(before, packer.data@, done[k], clip.channels@[k]);
                }
            }
        }
        h = h + 1;
    }
    ClipRegions { channels }
}

/// What is wrong with the first `k` references as references to clips
/// of the pool, where something is: what is wrong with the first of them
/// with which something is.
pub open spec fn clips_error(pool: Seq<Content>, clips: Seq<usize>, k: nat) -> Option<ExportError>
    decreases k,
{
    if k == 0 {
        None
    } else {
        match clips_error(pool, clips, (k - 1) as nat) {
            Some(e) => Some(e),
            None => clip_error(pool, clips[k - 1]),
        }
    }
}

/// Once a reference has been refused, all have been.
pub proof fn lemma_clips_error_stays(pool: Seq<Content>, clips: Seq<usize>, k: nat, n: nat)
    requires
        k <= n,
        clips_error(pool, clips, k) is Some,
    ensures
        clips_error(pool, clips, n) == clips_error(pool, clips, k),
    decreases n - k,
{
    if k < n {
        lemma_clips_error_stays(pool, clips, k, (n - 1) as nat);
    }
}

/// Why a model cannot be packed, or `None` where it can: the indices of
/// a mesh are no whole triangles, a joint is no bone of the pool, or a
/// reference to a clip is to no clip of the pool.
pub open spec fn pack_error(
    meshes: Seq<Mesh>,
    pool: Seq<Content>,
    joints: Seq<usize>,
    clips: Seq<usize>,
) -> Option<ExportError> {
    if !whole_meshes(meshes, meshes.len() as int) {
        Some(ExportError::MalformedIndexBuffer)
    } else {
        match places_error(pool, joints, joints.len()) {
            Some(e) => Some(e),
            None => clips_error(pool, clips, clips.len()),
        }
    }
}

/// Whether a model can be packed: the indices of every mesh are whole
/// triangles, every joint is a bone of the pool, and every reference to a
/// clip is to a clip of the pool.
pub open spec fn packable(meshes: Seq<Mesh>, pool: Seq<Content>, joints: Seq<usize>, clips: Seq<usize>) -> bool {
    &&& whole_meshes(meshes, meshes.len() as int)
    &&& forall|j: int|
        0 <= j < joints.len() ==> joints[j] < usize::MAX && (#[trigger] ref_error(
            pool,
            (joints[j] + 1) as usize,
        )) is None
    &&& forall|c: int| 0 <= c < clips.len() ==> (#[trigger] clip_error(pool, clips[c])) is None
}

/// Looks up the clip behind a reference.
pub fn clip_by_ref(pool: &[Content], r: usize) -> (res: Result<&SkinnedModelAnimationClip, ExportError>)
    ensures
        match res {
            Ok(clip) => clip_error(pool@, r) is None && Some(*clip) == clip_of(pool@, r),
            Err(e) => clip_error(pool@, r) == Some(e),
        },
{
    if r == 0 || r > pool.len() {
        return Err(ExportError::SharedIndexOutOfRange { index: r });
    }
    match &pool[r - 1] {
        Content::SkinnedModelAnimationClip(clip) => Ok(clip),
        _ => Err(ExportError::UnexpectedShared { index: r }),
    }
}

/// Whether the regions hold the vertices and the indices of the first
/// `k` meshes, the indices with their winding reversed.
#[verifier::opaque]
pub open spec fn meshes_hold(
    data: Seq<u8>,
    vertices: Seq<Region>,
    indices: Seq<Region>,
    meshes: Seq<Mesh>,
    k: int,
) -> bool {
    &&& k <= vertices.len()
    &&& k <= indices.len()
    &&& k <= meshes.len()
    &&& forall|m: int|
        0 <= m < k ==> (#[trigger] vertices[m]).kind == RegionKind::Vertices && holds(
            data,
            vertices[m],
            meshes[m].vertex_buffer.data@,
        )
    &&& forall|m: int|
        0 <= m < k ==> (#[trigger] indices[m]).kind == RegionKind::Indices && holds(
            data,
            indices[m],
            reversed(meshes[m].index_buffer.data@, index_width(meshes[m].index_buffer.is_16_bit)),
        )
}

/// Whether the regions hold the keyframes of the first `k` clips.
#[verifier::opaque]
pub open spec fn clips_hold(
    data: Seq<u8>,
    animations: Seq<ClipRegions>,
    pool: Seq<Content>,
    clips: Seq<usize>,
    k: int,
) -> bool {
    &&& k <= animations.len()
    &&& k <= clips.len()
    &&& forall|c: int| 0 <= c < k ==> (#[trigger] clip_error(pool, clips[c])) is None
    &&& forall|c: int| 0 <= c < k ==> (#[trigger] animations[c]).holds(data, clip_of(pool, clips[c])->0)
}

pub proof fn lemma_meshes_hold_in_longer(
    data: Seq<u8>,
    longer: Seq<u8>,
    vertices: Seq<Region>,
    indices: Seq<Region>,
    meshes: Seq<Mesh>,
    k: int,
)
    requires
        meshes_hold(data, vertices, indices, meshes, k),
        starts_with(longer, data),
    ensures
        meshes_hold(longer, vertices, indices, meshes, k),
{
    reveal(meshes_hold);
    assert forall|m: int| 0 <= m < k implies (#[trigger] vertices[m]).kind == RegionKind::Vertices && holds(
        longer,
        vertices[m],
        meshes[m].vertex_buffer.data@,
    ) by {
        lemma_holds_in_longer(data, longer, vertices[m], meshes[m].vertex_buffer.data@);
    }
    assert forall|m: int| 0 <= m < k implies (#[trigger] indices[m]).kind == RegionKind::Indices && holds(
        longer,
        indices[m],
        reversed(meshes[m].index_buffer.data@, index_width(meshes[m].index_buffer.is_16_bit)),
    ) by {
        lemma_holds_in_longer(
            data,
            longer,
            indices[m],
            reversed(meshes[m].index_buffer.data@, index_width(meshes[m].index_buffer.is_16_bit)),
        );
    }
}

pub proof fn lemma_clips_hold_in_longer(
    data: Seq<u8>,
    longer: Seq<u8>,
    animations: Seq<ClipRegions>,
    pool: Seq<Content>,
    clips: Seq<usize>,
    k: int,
)
    requires
        clips_hold(data, animations, pool, clips, k),
        starts_with(longer, data),
    ensures
        clips_hold(longer, animations, pool, clips, k),
{
    reveal(clips_hold);
    assert forall|c: int| 0 <= c < k implies (#[trigger] animations[c]).holds(
        longer,
        clip_of(pool, clips[c])->0,
    ) by {
        lemma_clip_holds_in_longer(data, longer, animations[c], clip_of(pool, clips[c])->0);
    }
}

/// Whether the indices of every mesh are whole triangles.
pub open spec fn whole_meshes(meshes: Seq<Mesh>, k: int) -> bool {
    forall|m: int|
        0 <= m < k ==> crate::export::buffer::whole_triangles(
            (#[trigger] meshes[m]).index_buffer.data@,
            index_width(meshes[m].index_buffer.is_16_bit),
        )
}

/// Packs the vertices and the indices of every mesh.
fn pack_meshes(packer: &mut Packer, meshes: &[Mesh]) -> (res: Result<(Vec<Region>, Vec<Region>), ExportError>)
    requires
        old(packer).wf(),
    ensures
        res is Ok == whole_meshes(meshes@, meshes@.len() as int),
        res matches Err(e) ==> e == ExportError::MalformedIndexBuffer,
        res matches Ok((vertices, indices)) ==> {
            &&& final(packer).wf()
            &&& starts_with(final(packer).data@, old(packer).data@)
            &&& vertices@.len() == meshes@.len()
            &&& indices@.len() == meshes@.len()
            &&& meshes_hold(final(packer).data@, vertices@, indices@, meshes@, meshes@.len() as int)
            &&& final(packer).regions@ == old(packer).regions@ + mesh_sequence(vertices@, indices@, meshes@.len())
        },
{
    let mut vertices: Vec<Region> = Vec::new();
    let mut indices: Vec<Region> = Vec::new();
    let mut m: usize = 0;
    proof {
        reveal(meshes_hold);
        assert(packer.data@.subrange(0, packer.data@.len() as int) =~= packer.data@);
        assert(packer.regions@ =~= packer.regions@ + mesh_sequence(vertices@, indices@, 0));
    }
    while m < meshes.len()
        invariant
            m <= meshes@.len(),
            packer.wf(),
            starts_with(packer.data@, old(packer).data@),
            vertices@.len() == m,
            indices@.len() == m,
            packer.regions@ == old(packer).regions@ + mesh_sequence(vertices@, indices@, m as nat),
            whole_meshes(meshes@, m as int),
            meshes_hold(packer.data@, vertices@, indices@, meshes@, m as int),
        decreases meshes@.len() - m,
    {
        let mesh = &meshes[m];
        let flipped = match reverse_winding(&mesh.index_buffer) {
            Ok(flipped) => flipped,
            Err(e) => {
                return Err(e);
            },
        };
        let ghost d0 = packer.data@;
        let ghost v0 = vertices@;
        let ghost i0 = indices@;
        let v = pack_region(
            packer,
            RegionKind::Vertices,
            mesh.vertex_buffer.data.as_slice(),
            mesh.vertex_buffer.data.len(),
        );
        let ghost d1 = packer.data@;
        let width: usize = if mesh.index_buffer.is_16_bit {
            2
        } else {
            4
        };
        let i = pack_region(packer, RegionKind::Indices, flipped.data.as_slice(), flipped.data.len() / width);
        vertices.push(v);
        indices.push(i);
        proof {
            lemma_mesh_sequence_pushed(v0, i0, v, i, m as nat);
            assert(packer.regions@ =~= old(packer).regions@ + mesh_sequence(vertices@, indices@, (m + 1) as nat));
            let d2 = packer.data@;
            lemma_starts_with_chain(d0, d1, d2);
            lemma_starts_with_chain(old(packer).data@, d0, d2);
            lemma_holds_in_longer(d1, d2, v, mesh.vertex_buffer.data@);
            lemma_meshes_hold_in_longer(d0, d2, v0, i0, meshes@, m as int);
            reveal(meshes_hold);
            assert forall|k: int| 0 <= k < m + 1 implies (#[trigger] vertices@[k]).kind == RegionKind::Vertices
                && holds(d2, vertices@[k], meshes@[k].vertex_buffer.data@) by {
                if k < m {
                    assert(vertices@[k] == v0[k]);
                }
            }
            assert forall|k: int| 0 <= k < m + 1 implies (#[trigger] indices@[k]).kind == RegionKind::Indices
                && holds(
                d2,
                indices@[k],
                reversed(meshes@[k].index_buffer.data@, index_width(meshes@[k].index_buffer.is_16_bit)),
            ) by {
                if k < m {
                    assert(indices@[k] == i0[k]);
                }
            }
        }
        m = m + 1;
    }
    Ok((vertices, indices))
}

/// Packs the keyframes of every referenced clip.
fn pack_clips(packer: &mut Packer, pool: &[Content], clips: &[usize]) -> (res: Result<
    Vec<ClipRegions>,
    ExportError,
>)
    requires
        old(packer).wf(),
    ensures
        res matches Err(e) ==> e !is UnknownChannelTarget,
        res is Ok == (forall|c: int| 0 <= c < clips@.len() ==> (#[trigger] clip_error(pool@, clips@[c])) is None),
        res matches Err(e) ==> clips_error(pool@, clips@, clips@.len()) == Some(e),
        res matches Ok(animations) ==> {
            &&& final(packer).wf()
            &&& starts_with(final(packer).data@, old(packer).data@)
            &&& animations@.len() == clips@.len()
            &&& clips_hold(final(packer).data@, animations@, pool@, clips@, clips@.len() as int)
            &&& final(packer).regions@ == old(packer).regions@ + clips_sequence(animations@, animations@.len())
        },
{
    let mut animations: Vec<ClipRegions> = Vec::new();
    let mut c: usize = 0;
    proof {
        reveal(clips_hold);
        assert(packer.data@.subrange(0, packer.data@.len() as int) =~= packer.data@);
        assert(packer.regions@ =~= packer.regions@ + clips_sequence(animations@, 0));
    }
    while c < clips.len()
        invariant
            c <= clips@.len(),
            packer.wf(),
            starts_with(packer.data@, old(packer).data@),
            animations@.len() == c,
            packer.regions@ == old(packer).regions@ + clips_sequence(animations@, c as nat),
            clips_error(pool@, clips@, c as nat) is None,
            clips_hold(packer.data@, animations@, pool@, clips@, c as int),
        decreases clips@.len() - c,
    {
        let clip = match clip_by_ref(pool, clips[c]) {
            Ok(clip) => clip,
            Err(e) => {
                assert(clip_error(pool@, clips@[c as int]) is Some);
                proof {
                    lemma_clips_error_stays(pool@, clips@, (c + 1) as nat, clips@.len());
                }
                return Err(e);
            },
        };
        let ghost d0 = packer.data@;
        let ghost a0 = animations@;
        let regions = pack_clip(packer, clip);
        animations.push(regions);
        proof {
            lemma_clips_sequence_pushed(a0, regions, c as nat);
            assert(packer.regions@ =~= old(packer).regions@ + clips_sequence(animations@, (c + 1) as nat));
            let d1 = packer.data@;
            lemma_starts_with_chain(old(packer).data@, d0, d1);
            lemma_clips_hold_in_longer(d0, d1, a0, pool@, clips@, c as int);
            reveal(clips_hold);
            assert forall|k: int| 0 <= k < c + 1 implies (#[trigger] animations@[k]).holds(
                d1,
                clip_of(pool@, clips@[k])->0,
            ) by {
                if k < c {
                    assert(animations@[k] == a0[k]);
                } else {
                    assert(animations@[k] == regions);
                    assert(clip_of(pool@, clips@[k]) == Some(*clip));
                }
            }
        }
        c = c + 1;
    }
    proof {
        reveal(clips_hold);
    }
    Ok(animations)
}

/// Packs the buffer of an export. In this order it holds: for each mesh
/// its vertices and then its indices, their winding reversed; the inverse
/// bind matrices of the joints, in the order of the joints; and for each
/// referenced clip and each of its channels the times, the translations,
/// the rotations and the scales of its keyframes. The start and the
/// number of elements of every region are recorded as it is written, and
/// the regions fill the buffer: their lengths add up to its length.
pub fn build_buffer(meshes: &[Mesh], pool: &[Content], joints: &[usize], clips: &[usize]) -> (res: Result<
    FullBuffer,
    ExportError,
>)
    ensures
        res matches Err(e) ==> e !is UnknownChannelTarget,
        res is Ok == packable(meshes@, pool@, joints@, clips@),
        res matches Err(e) ==> pack_error(meshes@, pool@, joints@, clips@) == Some(e),
        res matches Ok(buffer) ==> buffer.packs(meshes@, pool@, joints@, clips@),
{
    let mut packer = Packer::new();
    let (vertices, indices) = match pack_meshes(&mut packer, meshes) {
        Ok(regions) => regions,
        Err(e) => {
            return Err(e);
        },
    };
    let matrices = match matrix_bytes(pool, joints) {
        Ok(bytes) => bytes,
        Err(e) => {
            proof {
                lemma_places_error_none(pool@, joints@, joints@.len());
            }
            return Err(e);
        },
    };
    proof {
        lemma_places_error_none(pool@, joints@, joints@.len());
    }
    let ghost d0 = packer.data@;
    let inverse_bind_matrices = pack_region(
        &mut packer,
        RegionKind::InverseBindMatrices,
        matrices.as_slice(),
        joints.len(),
    );
    let ghost d1 = packer.data@;
    let animations = match pack_clips(&mut packer, pool, clips) {
        Ok(animations) => animations,
        Err(e) => {
            return Err(e);
        },
    };
    proof {
        let d2 = packer.data@;
        lemma_starts_with_chain(d0, d1, d2);
        lemma_meshes_hold_in_longer(d0, d2, vertices@, indices@, meshes@, meshes@.len() as int);
        lemma_holds_in_longer(
            d1,
            d2,
            inverse_bind_matrices,
            singles_bytes(matrix_singles(pool@, joints@, joints@.len())),
        );
        reveal(meshes_hold);
        reveal(clips_hold);
    }
    Ok(
        FullBuffer {
            data: packer.data,
            regions: packer.regions,
            vertices,
            indices,
            inverse_bind_matrices,
            animations,
        },
    )
}

/// In a packed buffer the lengths of all recorded regions add up to the
/// length of the buffer.
pub proof fn lemma_packed_lengths(
    buffer: FullBuffer,
    meshes: Seq<Mesh>,
    pool: Seq<Content>,
    joints: Seq<usize>,
    clips: Seq<usize>,
)
    requires
        buffer.packs(meshes, pool, joints, clips),
    ensures
        total_length(buffer.regions@) == buffer.data@.len(),
{
}

/// The regions of the first `k` meshes are two for each mesh, its
/// vertices and then its indices.
pub proof fn lemma_mesh_sequence_at(vertices: Seq<Region>, indices: Seq<Region>, k: nat)
    ensures
        mesh_sequence(vertices, indices, k).len() == 2 * k,
        forall|i: int|
            0 <= i < k ==> mesh_sequence(vertices, indices, k)[2 * i] == #[trigger] vertices[i] && mesh_sequence(
                vertices,
                indices,
                k,
            )[2 * i + 1] == indices[i],
    decreases k,
{
    if k > 0 {
        lemma_mesh_sequence_at(vertices, indices, (k - 1) as nat);
    }
}

/// Of regions that lie one behind the other each starts where the one
/// before it ends.
pub proof fn lemma_next_offset(regions: Seq<Region>, j: int)
    requires
        consecutive(regions),
        0 <= j,
        j + 1 < regions.len(),
    ensures
        regions[j + 1].offset == regions[j].offset + regions[j].length,
{
    assert(regions.take(j + 1).drop_last() =~= regions.take(j));
    assert(regions.take(j + 1).last() == regions[j]);
}

/// Where the regions of a packed buffer start: the vertices of the first
/// mesh at 0, the indices of each mesh behind its vertices, the vertices
/// of the next mesh behind them, and the inverse bind matrices behind the
/// indices of the last mesh.
pub proof fn lemma_packed_offsets(
    buffer: FullBuffer,
    meshes: Seq<Mesh>,
    pool: Seq<Content>,
    joints: Seq<usize>,
    clips: Seq<usize>,
)
    requires
        buffer.packs(meshes, pool, joints, clips),
    ensures
        meshes.len() > 0 ==> buffer.vertices@[0].offset == 0,
        meshes.len() == 0 ==> buffer.inverse_bind_matrices.offset == 0,
        forall|i: int|
            0 <= i < meshes.len() ==> (#[trigger] buffer.indices@[i]).offset == buffer.vertices@[i].offset
                + buffer.vertices@[i].length,
        forall|i: int|
            0 <= i && i + 1 < meshes.len() ==> (#[trigger] buffer.vertices@[i + 1]).offset == buffer.indices@[i].offset
                + buffer.indices@[i].length,
        meshes.len() > 0 ==> buffer.inverse_bind_matrices.offset == buffer.indices@[meshes.len() - 1].offset
            + buffer.indices@[meshes.len() - 1].length,
{
    let m = meshes.len() as int;
    let regions = buffer.regions@;
    let first = mesh_sequence(buffer.vertices@, buffer.indices@, m as nat);
    lemma_mesh_sequence_at(buffer.vertices@, buffer.indices@, m as nat);
    assert(regions.len() >= 2 * m + 1);
    assert(regions[2 * m] == buffer.inverse_bind_matrices);
    assert forall|j: int| 0 <= j < 2 * m implies regions[j] == first[j] by {}
    assert(regions.take(0) =~= Seq::<Region>::empty());
    assert(regions[0].offset == 0);
    assert forall|i: int| 0 <= i < m implies (#[trigger] buffer.indices@[i]).offset == buffer.vertices@[i].offset
        + buffer.vertices@[i].length by {
        assert(first[2 * i] == buffer.vertices@[i]);
        lemma_next_offset(regions, 2 * i);
    }
    assert forall|i: int| 0 <= i && i + 1 < m implies (#[trigger] buffer.vertices@[i + 1]).offset
        == buffer.indices@[i].offset + buffer.indices@[i].length by {
        assert(first[2 * i] == buffer.vertices@[i]);
        assert(first[2 * (i + 1)] == buffer.vertices@[i + 1]);
        lemma_next_offset(regions, 2 * i + 1);
    }
    if m > 0 {
        assert(first[2 * 0int] == buffer.vertices@[0]);
        assert(first[2 * (m - 1)] == buffer.vertices@[m - 1]);
        lemma_next_offset(regions, 2 * m - 1);
    }
}

} // verus!
