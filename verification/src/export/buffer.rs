//! The packed buffer of an export: index data with its winding reversed,
//! and the regions that the buffer is made of.
use vstd::prelude::*;
use crate::content::model::IndexBuffer;
use crate::export::ExportError;

verus! {

/// `n` rounded up to a multiple of four.
pub open spec fn padded(n: int) -> int {
    (n + 3) / 4 * 4
}

/// Rounds `n` up to a multiple of four.
pub fn pad_to_multiple_of_four(n: usize) -> (p: usize)
    requires
        n + 3 <= usize::MAX,
    ensures
        p == padded(n as int),
        p % 4 == 0,
        n <= p < n + 4,
{
    (n + 3) / 4 * 4
}

/// The number of bytes of one index.
pub open spec fn index_width(is_16_bit: bool) -> int {
    if is_16_bit {
        2
    } else {
        4
    }
}

/// Where byte `i` of the reversed data comes from. In every whole triangle
/// of three indices, `width` bytes each, the second index and the third
/// change places. Bytes behind the last whole triangle stay.
pub open spec fn source(i: int, width: int, len: int) -> int {
    let triangle = 3 * width;
    if i >= len / triangle * triangle {
        i
    } else {
        let slot = i % triangle / width;
        if slot == 1 {
            i + width
        } else if slot == 2 {
            i - width
        } else {
            i
        }
    }
}

/// Index data with the winding of every triangle reversed.
pub open spec fn reversed(data: Seq<u8>, width: int) -> Seq<u8> {
    Seq::new(data.len(), |i: int| data[source(i, width, data.len() as int)])
}

/// Whether index data holds whole triangles only.
pub open spec fn whole_triangles(data: Seq<u8>, width: int) -> bool {
    (data.len() as int) % (3 * width) == 0
}

/// The source of a byte lies in the data, and is the byte's own place when
/// taken twice.
pub proof fn lemma_source(i: int, width: int, len: int)
    requires
        0 <= i < len,
        width == 2 || width == 4,
    ensures
        0 <= source(i, width, len) < len,
        source(source(i, width, len), width, len) == i,
{
    if width == 2 {
        assert(len / 6 * 6 <= len);
        let j = source(i, 2, len);
        if i < len / 6 * 6 {
            assert(i / 6 == j / 6);
        }
    } else {
        assert(len / 12 * 12 <= len);
        let j = source(i, 4, len);
        if i < len / 12 * 12 {
            assert(i / 12 == j / 12);
        }
    }
}

/// Reversing the winding twice gives the index data back, byte for byte.
pub proof fn lemma_reverse_twice(data: Seq<u8>, width: int)
    requires
        width == 2 || width == 4,
    ensures
        reversed(reversed(data, width), width) == data,
{
    let once = reversed(data, width);
    let twice = reversed(once, width);
    assert forall|i: int| 0 <= i < data.len() implies twice[i] == data[i] by {
        lemma_source(i, width, data.len() as int);
        lemma_source(source(i, width, data.len() as int), width, data.len() as int);
    }
    assert(twice =~= data);
}

/// Reverses the winding of every triangle: the second index and the third
/// change places. Data that holds no whole number of triangles is refused.
pub fn reverse_winding(indices: &IndexBuffer) -> (res: Result<IndexBuffer, ExportError>)
    ensures
        match res {
            Ok(out) => whole_triangles(indices.data@, index_width(indices.is_16_bit))
                && out.is_16_bit == indices.is_16_bit
                && out.data@ == reversed(indices.data@, index_width(indices.is_16_bit)),
            Err(e) => e == ExportError::MalformedIndexBuffer
                && !whole_triangles(indices.data@, index_width(indices.is_16_bit)),
        },
{
    let width: usize = if indices.is_16_bit {
        2
    } else {
        4
    };
    let len = indices.data.len();
    if len % (3 * width) != 0 {
        return Err(ExportError::MalformedIndexBuffer);
    }
    let mut data: Vec<u8> = Vec::new();
    let mut i: usize = 0;
    while i < len
        invariant
            i <= len,
            len == indices.data@.len(),
            (len as int) % (3 * width) == 0,
            width == index_width(indices.is_16_bit),
            data@.len() == i,
            forall|k: int| 0 <= k < i ==> data@[k] == indices.data@[source(k, width as int, len as int)],
        decreases len - i,
    {
        proof {
            lemma_source(i as int, width as int, len as int);
            if width == 2 {
                assert(len / 6 * 6 == len);
            } else {
                assert(len / 12 * 12 == len);
            }
        }
        let slot = i % (3 * width) / width;
        let from = if slot == 1 {
            i + width
        } else if slot == 2 {
            i - width
        } else {
            i
        };
        data.push(indices.data[from]);
        i = i + 1;
    }
    assert(data@ =~= reversed(indices.data@, width as int));
    Ok(IndexBuffer { is_16_bit: indices.is_16_bit, data })
}

/// What a region of the buffer holds.
#[derive(Debug, Clone, Copy, PartialEq, Eq, Structural)]
pub enum RegionKind {
    Vertices,
    Indices,
    InverseBindMatrices,
    Timestamps,
    Translations,
    Rotations,
    Scales,
}

/// A region of the buffer: where it starts, how many bytes it has, and how
/// many elements those bytes are.
#[derive(Debug, Clone, Copy, PartialEq, Eq, Structural)]
pub struct Region {
    pub kind: RegionKind,
    pub offset: usize,
    pub length: usize,
    pub count: usize,
}

/// The lengths of `regions` added up.
pub open spec fn total_length(regions: Seq<Region>) -> int
    decreases regions.len(),
{
    if regions.len() == 0 {
        0
    } else {
        total_length(regions.drop_last()) + regions.last().length
    }
}

/// Whether `regions` lie one behind the other from the start of a buffer:
/// each starts where the one before it ends.
pub open spec fn consecutive(regions: Seq<Region>) -> bool {
    forall|i: int| 0 <= i < regions.len() ==> (#[trigger] regions[i]).offset == total_length(regions.take(i))
}

/// A buffer that is being packed, with the record of its regions.
pub struct Packer {
    pub data: Vec<u8>,
    pub regions: Vec<Region>,
}

impl Packer {
    /// The regions lie one behind the other and fill the buffer.
    pub open spec fn wf(&self) -> bool {
        &&& consecutive(self.regions@)
        &&& total_length(self.regions@) == self.data@.len()
    }

    /// The bytes of the region with this index.
    pub open spec fn bytes_of(&self, index: int) -> Seq<u8> {
        self.data@.subrange(
            self.regions@[index].offset as int,
            self.regions@[index].offset + self.regions@[index].length,
        )
    }

    /// An empty buffer.
    pub fn new() -> (p: Self)
        ensures
            p.wf(),
            p.data@.len() == 0,
            p.regions@.len() == 0,
    {
        Packer { data: Vec::new(), regions: Vec::new() }
    }

    /// Appends `bytes` as one region of `count` elements and returns where
    /// it starts.
    pub fn append(&mut self, kind: RegionKind, bytes: &[u8], count: usize) -> (offset: usize)
        requires
            old(self).wf(),
        ensures
            final(self).wf(),
            offset == old(self).data@.len(),
            final(self).data@ == old(self).data@ + bytes@,
            final(self).regions@ == old(self).regions@.push(
                Region { kind, offset, length: bytes@.len() as usize, count },
            ),
            final(self).bytes_of(old(self).regions@.len() as int) == bytes@,
            forall|i: int|
                0 <= i < old(self).regions@.len() ==> #[trigger] final(self).bytes_of(i) == old(self).bytes_of(i),
    {
        let offset = self.data.len();
        let ghost before = self.regions@;
        let ghost start = *self;
        self.data.extend_from_slice(bytes);
        self.regions.push(Region { kind, offset, length: bytes.len(), count });
        proof {
            assert(self.bytes_of(before.len() as int) =~= bytes@);
            assert forall|i: int| 0 <= i < before.len() implies #[trigger] self.bytes_of(i) == start.bytes_of(i) by {
                lemma_regions_fill(start, i);
                assert(self.bytes_of(i) =~= start.bytes_of(i));
            }
            let after = self.regions@;
            assert(after.drop_last() =~= before);
            assert forall|i: int| 0 <= i < after.len() implies (#[trigger] after[i]).offset == total_length(
                after.take(i),
            ) by {
                if i < before.len() {
                    assert(after.take(i) =~= before.take(i));
                } else {
                    assert(after.take(i) =~= before);
                }
            }
        }
        offset
    }
}

/// In a packed buffer the lengths of all regions add up to the length of
/// the buffer, and every region lies within it.
pub proof fn lemma_regions_fill(p: Packer, index: int)
    requires
        p.wf(),
        0 <= index < p.regions@.len(),
    ensures
        total_length(p.regions@) == p.data@.len(),
        p.regions@[index].offset + p.regions@[index].length <= p.data@.len(),
{
    lemma_total_grows(p.regions@, index + 1);
    assert(p.regions@.take(index + 1).drop_last() =~= p.regions@.take(index));
}

/// The lengths of the first regions add up to no more than those of all.
pub proof fn lemma_total_grows(regions: Seq<Region>, k: int)
    requires
        0 <= k <= regions.len(),
    ensures
        0 <= total_length(regions.take(k)) <= total_length(regions),
    decreases regions.len() - k,
{
    if k == regions.len() {
        assert(regions.take(k) =~= regions);
        lemma_total_nonnegative(regions);
    } else {
        lemma_total_grows(regions, k + 1);
        lemma_total_nonnegative(regions.take(k));
        assert(regions.take(k + 1).drop_last() =~= regions.take(k));
    }
}

/// The lengths of regions add up to no less than nothing.
pub proof fn lemma_total_nonnegative(regions: Seq<Region>)
    ensures
        0 <= total_length(regions),
    decreases regions.len(),
{
    if regions.len() > 0 {
        lemma_total_nonnegative(regions.drop_last());
    }
}

} // verus!
