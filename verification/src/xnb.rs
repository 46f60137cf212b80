//! The container: its header, the frames of a compressed payload, and the
//! content graph behind them.
use vstd::prelude::*;
use vstd::string::StringExecFns;
use vstd::slice::{slice_subrange, slice_to_vec};
use crate::args::MAX_COMPRESSION_LEVEL;
use crate::codec::{zlib, zlib_bytes};
use crate::content::{lemma_content_failed, table, Content, ContentView, MAX_DEPTH};
use crate::decode::{group_failed_items, read_vec, repeat, Decode};
use crate::error::DecodeError;
use crate::reader::{follows, group_failed, Cursor, Reader};
use crate::wire::{be_nat, be_u16, le_nat, le_u32};

verus! {

broadcast use {group_failed, group_failed_items};

/// The platform that a container was built for.
#[derive(Debug, Clone, Copy, PartialEq, Eq, Structural)]
pub enum Platform {
    Windows,
    WindowsPhone,
    Xbox360,
}

/// The generation of the format. Only `XNA31` can be decoded.
#[derive(Debug, Clone, Copy, PartialEq, Eq, Structural)]
pub enum Version {
    XNA31,
    XNA40,
}

/// The envelope of a container.
#[derive(Debug, Clone, Copy, PartialEq, Eq, Structural)]
pub struct Header {
    pub platform: Platform,
    pub version: Version,
    pub hi_def: bool,
    pub compressed: bool,
    pub compressed_size: u32,
    /// Zero where the payload is not compressed.
    pub uncompressed_size: u32,
}

/// Why a stream is no container that can be decoded.
#[derive(Debug, Clone, Copy, PartialEq, Eq, Structural)]
pub enum HeaderError {
    /// The stream ended inside the header.
    Truncated,
    /// The first three bytes are not `XNB`: not a valid container.
    BadMagic,
    /// The platform byte is none of `w`, `m`, `x`.
    UnknownPlatform { byte: u8 },
    /// The version byte is neither 4 nor 5.
    UnknownVersion { byte: u8 },
    /// A version that the format knows and this decoder does not.
    UnsupportedVersion { version: Version },
}

/// A container: its header and its payload, compressed or not.
pub struct Xnb {
    header: Header,
    data: Vec<u8>,
}

/// A container as a value: the header and the bytes of the payload.
pub struct XnbView {
    pub header: Header,
    pub data: Seq<u8>,
}

impl View for Xnb {
    type V = XnbView;

    closed spec fn view(&self) -> XnbView {
        XnbView { header: self.header, data: self.data@ }
    }
}

/// The magic of a container: `XNB`.
pub open spec fn magic() -> Seq<u8> {
    seq![0x58u8, 0x4Eu8, 0x42u8]
}

/// The platform that a byte of the header names.
pub open spec fn platform_of(byte: u8) -> Option<Platform> {
    if byte == 0x77 {
        Some(Platform::Windows)
    } else if byte == 0x6D {
        Some(Platform::WindowsPhone)
    } else if byte == 0x78 {
        Some(Platform::Xbox360)
    } else {
        None
    }
}

/// The number of header bytes before the payload.
pub open spec fn header_len(compressed: bool) -> int {
    if compressed {
        14
    } else {
        10
    }
}

/// What a stream holds as a container. The fields are checked in the order
/// in which they stand: magic, platform, version, flags, sizes. The low bit
/// of the flags is `hi_def`, the top bit `compressed`; the uncompressed
/// size is there only in a compressed container.
pub open spec fn container(s: Seq<u8>) -> Result<XnbView, HeaderError> {
    if s.len() < 3 {
        Err(HeaderError::Truncated)
    } else if s.subrange(0, 3) != magic() {
        Err(HeaderError::BadMagic)
    } else if s.len() < 4 {
        Err(HeaderError::Truncated)
    } else if platform_of(s[3]) is None {
        Err(HeaderError::UnknownPlatform { byte: s[3] })
    } else if s.len() < 5 {
        Err(HeaderError::Truncated)
    } else if s[4] != 4 && s[4] != 5 {
        Err(HeaderError::UnknownVersion { byte: s[4] })
    } else if s[4] == 5 {
        Err(HeaderError::UnsupportedVersion { version: Version::XNA40 })
    } else if s.len() < header_len(s[5] >= 128) {
        Err(HeaderError::Truncated)
    } else {
        let compressed = s[5] >= 128;
        Ok(
            XnbView {
                header: Header {
                    platform: platform_of(s[3])->0,
                    version: Version::XNA31,
                    hi_def: s[5] % 2 == 1,
                    compressed,
                    compressed_size: le_nat(s, 6, 4) as u32,
                    uncompressed_size: if compressed {
                        le_nat(s, 10, 4) as u32
                    } else {
                        0
                    },
                },
                data: s.subrange(header_len(compressed), s.len() as int),
            },
        )
    }
}

/// One frame of a compressed payload, as its header lays it out.
pub struct Frame {
    /// The number of bytes that the frame decompresses to.
    pub frame_size: nat,
    /// Where the block of the frame starts in the payload.
    pub block_start: int,
    /// The number of bytes of the block.
    pub block_size: nat,
}

/// The largest frame, which a header without a frame size stands for.
pub const DEFAULT_FRAME_SIZE: u16 = 0x8000;

/// The header of the frame at `pos`, or `None` where the payload ends
/// inside it. A first byte of `0xFF` is a marker in front of two big-endian
/// 16-bit numbers, the frame size and the block size. Any other first byte
/// is the high byte of the block size, and the frame is of the largest
/// size.
pub open spec fn frame_at(s: Seq<u8>, pos: int) -> Option<Frame> {
    if s[pos] == 0xFF {
        if pos + 5 <= s.len() {
            Some(
                Frame {
                    frame_size: be_nat(s, pos + 1, 2),
                    block_start: pos + 5,
                    block_size: be_nat(s, pos + 3, 2),
                },
            )
        } else {
            None
        }
    } else {
        if pos + 2 <= s.len() {
            Some(
                Frame {
                    frame_size: DEFAULT_FRAME_SIZE as nat,
                    block_start: pos + 2,
                    block_size: be_nat(s, pos, 2),
                },
            )
        } else {
            None
        }
    }
}

/// The frames of a payload from `pos` on, or `None` where the payload ends
/// inside a header or a block. A frame or a block of size zero ends the
/// payload early.
pub open spec fn frames(s: Seq<u8>, pos: int) -> Option<Seq<Frame>>
    decreases s.len() - pos,
{
    if pos < 0 || pos >= s.len() {
        Some(Seq::empty())
    } else {
        match frame_at(s, pos) {
            None => None,
            Some(f) => if f.block_size == 0 || f.frame_size == 0 {
                Some(Seq::empty())
            } else if f.block_start + f.block_size > s.len() {
                None
            } else {
                match frames(s, f.block_start + f.block_size) {
                    None => None,
                    Some(rest) => Some(seq![f] + rest),
                }
            },
        }
    }
}

/// The number of bytes that a run of frames decompresses to.
pub open spec fn total_size(fs: Seq<Frame>) -> nat
    decreases fs.len(),
{
    if fs.len() == 0 {
        0
    } else {
        total_size(fs.drop_last()) + fs.last().frame_size
    }
}

/// Why a payload could not be decompressed.
#[derive(Debug, Clone, PartialEq, Eq)]
pub enum PayloadError {
    /// The payload ended inside the header or the block of a frame.
    Truncated,
    /// The decoder refused the block of the frame with this index.
    Corrupt { frame: usize, reason: String },
    /// The frames decompressed to another length than the header declares.
    SizeMismatch { declared: u32, actual: usize },
}

impl Xnb {
    pub fn header(&self) -> (h: &Header)
        ensures
            *h == self@.header,
    {
        &self.header
    }

    pub fn data(&self) -> (d: &[u8])
        ensures
            d@ == self@.data,
    {
        self.data.as_slice()
    }

    /// Parses the header of a container and keeps what follows it as the
    /// payload.
    pub fn parse(bytes: &[u8]) -> (res: Result<Xnb, HeaderError>)
        ensures
            match res {
                Ok(xnb) => container(bytes@) == Ok::<XnbView, HeaderError>(xnb@),
                Err(e) => container(bytes@) == Err::<XnbView, HeaderError>(e),
            },
    {
        let len = bytes.len();
        if len < 3 {
            return Err(HeaderError::Truncated);
        }
        if bytes[0] != 0x58 || bytes[1] != 0x4E || bytes[2] != 0x42 {
            assert(bytes@.subrange(0, 3) != magic()) by {
                if bytes@.subrange(0, 3) == magic() {
                    assert(bytes@.subrange(0, 3)[0] == magic()[0]);
                    assert(bytes@.subrange(0, 3)[1] == magic()[1]);
                    assert(bytes@.subrange(0, 3)[2] == magic()[2]);
                }
            }
            return Err(HeaderError::BadMagic);
        }
        assert(bytes@.subrange(0, 3) =~= magic());
        if len < 4 {
            return Err(HeaderError::Truncated);
        }
        let platform = if bytes[3] == 0x77 {
            Platform::Windows
        } else if bytes[3] == 0x6D {
            Platform::WindowsPhone
        } else if bytes[3] == 0x78 {
            Platform::Xbox360
        } else {
            return Err(HeaderError::UnknownPlatform { byte: bytes[3] });
        };
        if len < 5 {
            return Err(HeaderError::Truncated);
        }
        let version = bytes[4];
        if version != 4 && version != 5 {
            return Err(HeaderError::UnknownVersion { byte: version });
        }
        if version == 5 {
            return Err(HeaderError::UnsupportedVersion { version: Version::XNA40 });
        }
        if len < 10 {
            return Err(HeaderError::Truncated);
        }
        let flags = bytes[5];
        let hi_def = flags % 2 == 1;
        let compressed = flags >= 128;
        let compressed_size = le_u32(slice_subrange(bytes, 6, 10));
        proof {
            lemma_le_at(bytes@, 6);
        }
        let (uncompressed_size, start) = if compressed {
            if len < 14 {
                return Err(HeaderError::Truncated);
            }
            proof {
                lemma_le_at(bytes@, 10);
            }
            (le_u32(slice_subrange(bytes, 10, 14)), 14usize)
        } else {
            (0u32, 10usize)
        };
        let header = Header {
            platform,
            version: Version::XNA31,
            hi_def,
            compressed,
            compressed_size,
            uncompressed_size,
        };
        let data = slice_to_vec(slice_subrange(bytes, start, len));
        Ok(Xnb { header, data })
    }

    /// Reads the headers of the frames of the payload, in their order.
    /// The block of each lies within the payload. A payload that ends
    /// inside a header or a block is refused.
    pub fn frame_headers(&self) -> (res: Result<Vec<FrameHeader>, PayloadError>)
        ensures
            match res {
                Ok(headers) => frames(self@.data, 0) == Some(frames_of(headers@)) && forall|i: int|
                    0 <= i < headers@.len() ==> (#[trigger] headers@[i]).block_start + headers@[i].block_size
                        <= self@.data.len(),
                Err(e) => e == PayloadError::Truncated && frames(self@.data, 0) is None,
            },
    {
        let data = self.data.as_slice();
        let len = data.len();
        let mut headers: Vec<FrameHeader> = Vec::new();
        let mut pos: usize = 0;
        while pos < len
            invariant
                data@ == self@.data,
                len == data@.len(),
                pos <= len,
                frames(data@, 0) == match frames(data@, pos as int) {
                    None => None::<Seq<Frame>>,
                    Some(rest) => Some(frames_of(headers@) + rest),
                },
                forall|i: int|
                    0 <= i < headers@.len() ==> (#[trigger] headers@[i]).block_start + headers@[i].block_size
                        <= len,
            ensures
                frames(data@, 0) == Some(frames_of(headers@)),
                forall|i: int|
                    0 <= i < headers@.len() ==> (#[trigger] headers@[i]).block_start + headers@[i].block_size
                        <= len,
            decreases len - pos,
        {
            let header = match next_frame(data, pos) {
                Some(header) => header,
                None => {
                    return Err(PayloadError::Truncated);
                },
            };
            if header.block_size == 0 || header.frame_size == 0 {
                assert(frames_of(headers@) + Seq::<Frame>::empty() =~= frames_of(headers@));
                break ;
            }
            if len - header.block_start < header.block_size as usize {
                return Err(PayloadError::Truncated);
            }
            let ghost done = headers@;
            headers.push(header);
            proof {
                assert(frames_of(headers@) =~= frames_of(done).push(header@));
                match frames(data@, header.block_start + header.block_size) {
                    None => {},
                    Some(rest) => {
                        assert(frames_of(done) + (seq![header@] + rest) =~= frames_of(headers@) + rest);
                    },
                }
            }
            pos = header.block_start + header.block_size as usize;
        }
        proof {
            if pos >= len {
                assert(frames_of(headers@) + Seq::<Frame>::empty() =~= frames_of(headers@));
            }
        }
        Ok(headers)
    }

    /// Puts the decoded frames of the payload one behind the other and
    /// holds the result to the length that the header declares.
    /// `decoded` holds what the decoder made of the block of each frame,
    /// in the order of `frame_headers`. A frame that is missing, one too
    /// many and one of another length than its header asks for are
    /// reported as corrupt, with the index of the first such frame.
    pub fn assemble(&self, decoded: &[Vec<u8>]) -> (res: Result<Vec<u8>, PayloadError>)
        ensures
            match res {
                Ok(out) => {
                    &&& frames(self@.data, 0) matches Some(fs)
                    &&& decoded@.len() == fs.len()
                    &&& assembled(fs, decoded@, fs.len()) == Joined::Bytes(out@)
                    &&& out@.len() == total_size(fs)
                    &&& out@.len() == self@.header.uncompressed_size
                },
                Err(PayloadError::Truncated) => frames(self@.data, 0) is None,
                Err(PayloadError::Corrupt { frame, reason }) => {
                    &&& frames(self@.data, 0) matches Some(fs)
                    &&& reason@ == MISFIT@
                    &&& if assembled(fs, decoded@, fs.len()) is Bytes {
                        frame == fs.len() && decoded@.len() > fs.len()
                    } else {
                        assembled(fs, decoded@, fs.len()) == Joined::Misfit(frame as nat)
                    }
                },
                Err(PayloadError::SizeMismatch { declared, actual }) => {
                    &&& frames(self@.data, 0) matches Some(fs)
                    &&& decoded@.len() == fs.len()
                    &&& assembled(fs, decoded@, fs.len()) matches Joined::Bytes(out)
                    &&& actual == out.len()
                    &&& declared == self@.header.uncompressed_size
                    &&& declared != actual
                },
            },
    {
        let headers = match self.frame_headers() {
            Ok(headers) => headers,
            Err(e) => {
                return Err(e);
            },
        };
        let ghost fs = frames_of(headers@);
        let mut out: Vec<u8> = Vec::new();
        let mut i: usize = 0;
        while i < headers.len()
            invariant
                i <= headers@.len(),
                fs == frames_of(headers@),
                frames(self@.data, 0) == Some(fs),
                assembled(fs, decoded@, i as nat) == Joined::Bytes(out@),
            decreases headers@.len() - i,
        {
            assert(fs[i as int] == headers@[i as int]@);
            if i >= decoded.len() || decoded[i].len() != headers[i].frame_size as usize {
                proof {
                    assert(assembled(fs, decoded@, (i + 1) as nat) == Joined::Misfit(i as nat));
                    lemma_assembled_stays(fs, decoded@, (i + 1) as nat, fs.len());
                }
                return Err(PayloadError::Corrupt { frame: i, reason: String::from_str(MISFIT) });
            }
            let ghost before = out@;
            out.extend_from_slice(decoded[i].as_slice());
            assert(out@ == before + decoded@[i as int]@);
            i = i + 1;
        }
        if decoded.len() > headers.len() {
            return Err(PayloadError::Corrupt { frame: i, reason: String::from_str(MISFIT) });
        }
        proof {
            lemma_assembled_whole(fs, decoded@, fs.len());
            assert(fs.take(fs.len() as int) =~= fs);
        }
        hold_to_size(out, self.header.uncompressed_size)
    }
}

/// What is said of a decoded frame that does not fit its header.
pub const MISFIT: &'static str = "a frame is missing or not of the size of its header";

/// The frames that headers lay out.
pub open spec fn frames_of(headers: Seq<FrameHeader>) -> Seq<Frame> {
    Seq::new(headers.len(), |i: int| headers[i]@)
}

/// What the decoded frames of a payload make.
pub enum Joined {
    /// The frames, one behind the other.
    Bytes(Seq<u8>),
    /// The frame with this index is missing or not of the size that its
    /// header asks for.
    Misfit(nat),
}

/// The first `k` decoded frames, one behind the other, or the first of
/// them that is missing or not of the size that its header asks for.
pub open spec fn assembled(fs: Seq<Frame>, decoded: Seq<Vec<u8>>, k: nat) -> Joined
    decreases k,
{
    if k == 0 {
        Joined::Bytes(Seq::empty())
    } else {
        match assembled(fs, decoded, (k - 1) as nat) {
            Joined::Misfit(i) => Joined::Misfit(i),
            Joined::Bytes(out) => if k - 1 < decoded.len() && decoded[k - 1]@.len() == fs[k - 1].frame_size {
                Joined::Bytes(out + decoded[k - 1]@)
            } else {
                Joined::Misfit((k - 1) as nat)
            },
        }
    }
}

/// Once a frame does not fit, the payload does not.
pub proof fn lemma_assembled_stays(fs: Seq<Frame>, decoded: Seq<Vec<u8>>, k: nat, n: nat)
    requires
        k <= n,
        assembled(fs, decoded, k) is Misfit,
    ensures
        assembled(fs, decoded, n) == assembled(fs, decoded, k),
    decreases n - k,
{
    if k < n {
        lemma_assembled_stays(fs, decoded, k, (n - 1) as nat);
    }
}

/// Frames that all fit are as many as their headers at least, and make
/// as many bytes as the headers add up to.
pub proof fn lemma_assembled_whole(fs: Seq<Frame>, decoded: Seq<Vec<u8>>, k: nat)
    requires
        k <= fs.len(),
        assembled(fs, decoded, k) is Bytes,
    ensures
        k <= decoded.len(),
        assembled(fs, decoded, k)->Bytes_0.len() == total_size(fs.take(k as int)),
    decreases k,
{
    if k > 0 {
        lemma_assembled_whole(fs, decoded, (k - 1) as nat);
        assert(fs.take(k as int).drop_last() =~= fs.take(k - 1));
    } else {
        assert(fs.take(0) =~= Seq::<Frame>::empty());
    }
}

/// The header of a frame, as it was read.
#[derive(Debug, Clone, Copy, PartialEq, Eq)]
pub struct FrameHeader {
    pub frame_size: u16,
    pub block_start: usize,
    pub block_size: u16,
}

impl View for FrameHeader {
    type V = Frame;

    open spec fn view(&self) -> Frame {
        Frame {
            frame_size: self.frame_size as nat,
            block_start: self.block_start as int,
            block_size: self.block_size as nat,
        }
    }
}

/// Reads the header of the frame at `pos`, or `None` where the payload
/// ends inside it.
pub fn next_frame(data: &[u8], pos: usize) -> (res: Option<FrameHeader>)
    requires
        pos < data@.len(),
    ensures
        match res {
            Some(header) => frame_at(data@, pos as int) == Some(header@) && header.block_start <= data@.len(),
            None => frame_at(data@, pos as int) is None,
        },
{
    let len = data.len();
    if data[pos] == 0xFF {
        if len - pos < 5 {
            return None;
        }
        let frame_size = be_u16(slice_subrange(data, pos + 1, pos + 3));
        let block_size = be_u16(slice_subrange(data, pos + 3, pos + 5));
        proof {
            lemma_be_at(data@, pos + 1);
            lemma_be_at(data@, pos + 3);
        }
        Some(FrameHeader { frame_size, block_start: pos + 5, block_size })
    } else {
        if len - pos < 2 {
            return None;
        }
        let block_size = be_u16(slice_subrange(data, pos, pos + 2));
        proof {
            lemma_be_at(data@, pos as int);
        }
        Some(FrameHeader { frame_size: DEFAULT_FRAME_SIZE, block_start: pos + 2, block_size })
    }
}

/// Holds a decompressed payload to the length that its header declares.
pub fn hold_to_size(out: Vec<u8>, declared: u32) -> (res: Result<Vec<u8>, PayloadError>)
    ensures
        match res {
            Ok(held) => held@ == out@ && out@.len() == declared,
            Err(e) => {
                &&& out@.len() != declared
                &&& e matches PayloadError::SizeMismatch { declared: d, actual }
                &&& d == declared
                &&& actual == out@.len()
            },
        },
{
    if out.len() > u32::MAX as usize || out.len() as u32 != declared {
        return Err(PayloadError::SizeMismatch { declared, actual: out.len() });
    }
    Ok(out)
}

/// The little-endian number in a subrange is the one at its place in the
/// whole.
pub proof fn lemma_le_at(s: Seq<u8>, at: int)
    requires
        0 <= at,
        at + 4 <= s.len(),
    ensures
        le_nat(s.subrange(at, at + 4), 0, 4) == le_nat(s, at, 4),
        le_nat(s, at, 4) < 0x1_0000_0000,
{
    reveal_with_fuel(le_nat, 5);
}

/// The big-endian number in a subrange is the one at its place in the
/// whole.
pub proof fn lemma_be_at(s: Seq<u8>, at: int)
    requires
        0 <= at,
        at + 2 <= s.len(),
    ensures
        be_nat(s.subrange(at, at + 2), 0, 2) == be_nat(s, at, 2),
        be_nat(s, at, 2) < 0x1_0000,
{
    reveal_with_fuel(be_nat, 3);
}

/// An entry of the reader table: the qualified name of a decoder and the
/// version of its schema. The place of an entry, counted from 1, is the id
/// by which content names its decoder.
#[derive(Debug, Clone, PartialEq, Eq)]
pub struct TypeReader {
    pub name: String,
    pub version: i32,
}

/// `TypeReader` as the format states it.
pub struct TypeReaderView {
    pub name: Seq<char>,
    pub version: i32,
}

impl DeepView for TypeReader {
    type V = TypeReaderView;

    open spec fn deep_view(&self) -> TypeReaderView {
        TypeReaderView { name: self.name.deep_view(), version: self.version }
    }
}

impl TypeReader {
    /// The fields on the wire, one behind the other.
    #[verifier::opaque]
    pub open spec fn fields(c: Cursor) -> (TypeReaderView, Cursor) {
        let (name, c1) = c.string();
        let (version, c2) = c1.i32();
        (TypeReaderView { name, version }, c2)
    }

    /// The value at `c`: nothing from a failed cursor.
    pub open spec fn layout(c: Cursor) -> (TypeReaderView, Cursor) {
        if c.err is Some {
            (arbitrary(), c)
        } else {
            Self::fields(c)
        }
    }

    /// Reads one `TypeReader`.
    pub fn read(reader: &mut Reader) -> (res: Result<Self, DecodeError>)
        ensures
            follows(res, final(reader)@, Self::layout(old(reader)@)),
    {
        proof {
            reveal(TypeReader::fields);
        }
        let name = reader.read_7bit_length_string()?;
        let version = reader.read_i32()?;
        Ok(TypeReader { name, version })
    }
}

impl Decode for TypeReader {
    open spec fn wire(c: Cursor) -> (TypeReaderView, Cursor) {
        TypeReader::layout(c)
    }

    proof fn lemma_wire_failed(c: Cursor) {
    }

    fn decode(r: &mut Reader) -> (res: Result<Self, DecodeError>) {
        TypeReader::read(r)
    }
}

/// The content graph of a container: the reader table, the primary
/// content, and the pool of shared content that the rest refers to by
/// place, counted from 1.
#[derive(Debug, Clone, PartialEq, Eq)]
pub struct XnbContent {
    pub readers: Vec<TypeReader>,
    pub primary_content: Content,
    pub shared_content: Vec<Content>,
}

/// `XnbContent` as the format states it.
pub struct XnbContentView {
    pub readers: Seq<TypeReaderView>,
    pub primary_content: ContentView,
    pub shared_content: Seq<ContentView>,
}

impl DeepView for XnbContent {
    type V = XnbContentView;

    open spec fn deep_view(&self) -> XnbContentView {
        XnbContentView {
            readers: self.readers.deep_view(),
            primary_content: self.primary_content.deep_view(),
            shared_content: self.shared_content.deep_view(),
        }
    }
}

impl XnbContent {
    /// The content graph on the wire: the reader table behind its count,
    /// the count of the shared pool, the primary content, and then the
    /// shared pool. Both counts are compact integers.
    pub open spec fn layout(c: Cursor) -> (XnbContentView, Cursor) {
        let (reader_count, c1) = c.index();
        let (readers, c2) = repeat::<TypeReader>(c1, reader_count as nat);
        let (shared_count, c3) = c2.index();
        let (primary_content, c4) = Content::layout(c3, readers, MAX_DEPTH as nat);
        let (shared_content, c5) = Content::sequence(c4, readers, MAX_DEPTH as nat, shared_count as nat);
        (XnbContentView { readers, primary_content, shared_content }, c5)
    }

    /// Decodes the content graph of a payload that is not compressed any
    /// more. What the reader has left when this returns was not part of
    /// the graph.
    pub fn parse(reader: &mut Reader) -> (res: Result<XnbContent, DecodeError>)
        ensures
            follows(res, final(reader)@, Self::layout(old(reader)@)),
    {
        let reader_count = reader.read_index()?;
        let readers = read_vec::<TypeReader>(reader, reader_count)?;
        proof {
            assert(table(readers@) =~= readers.deep_view());
        }
        let ghost c3 = reader@.index().1;
        let shared_count = match reader.read_index() {
            Ok(n) => n,
            Err(e) => {
                proof {
                    lemma_content_failed(c3, table(readers@), MAX_DEPTH as nat);
                }
                return Err(e);
            },
        };
        let primary_content = Content::read(reader, readers.as_slice())?;
        let shared_content = Content::read_sequence(reader, readers.as_slice(), MAX_DEPTH, shared_count)?;
        Ok(XnbContent { readers, primary_content, shared_content })
    }
}

/// What the caller asks of an extraction.
#[derive(Debug, Clone, Copy, PartialEq, Eq, Structural)]
pub struct ExtractOptions {
    pub overwrite: bool,
    pub dump_raw: bool,
    pub msgpack: bool,
    pub compression_level: u8,
}

/// What an extraction saves beside the document of the content.
#[derive(Debug, Clone, Copy, PartialEq, Eq, Structural)]
pub enum Companion {
    /// The pixels of a texture as an image, under the extension `png`.
    Image,
    /// A model as a scene, under the extension `glb`.
    Scene,
}

/// The files that an extraction saves: the document of the content under
/// `extension`, and with it what `companion` says, under `beside`.
#[derive(Debug, Clone, PartialEq, Eq)]
pub struct Plan {
    pub extension: String,
    pub companion: Option<Companion>,
    pub beside: Option<String>,
}

/// The end of the extension of what is saved beside a document.
pub open spec fn companion_suffix(companion: Companion) -> Seq<char> {
    match companion {
        Companion::Image => ".png"@,
        Companion::Scene => ".glb"@,
    }
}

/// What is saved beside the document of content: an image of a texture,
/// a scene of a model and of a skinned model, and nothing of anything
/// else.
pub open spec fn companion_of(content: Content) -> Option<Companion> {
    match content {
        Content::Texture2D(_) => Some(Companion::Image),
        Content::Model(_) => Some(Companion::Scene),
        Content::SkinnedModel(_) => Some(Companion::Scene),
        _ => None,
    }
}

/// The end of the extension of a document: the name of its encoding.
pub open spec fn encoding_suffix(msgpack: bool) -> Seq<char> {
    if msgpack {
        ".msgpack"@
    } else {
        ".json"@
    }
}

/// Whether one of `names` is `name`.
pub open spec fn holds_name(names: Seq<String>, name: Seq<char>) -> bool {
    exists|i: int| 0 <= i < names.len() && (#[trigger] names[i])@ == name
}

/// The place of the extension of content among the candidates.
pub open spec fn place_of(content: Content) -> int {
    match content {
        Content::Null => 0,
        Content::String(_) => 0,
        Content::ExternalReference(_) => 1,
        Content::Item(_) => 2,
        Content::Character(_) => 3,
        Content::Texture2D(_) => 4,
        Content::Model(_) => 5,
        Content::SkinnedModel(_) => 6,
        Content::SkinnedModelBone(_) => 7,
        Content::SkinnedModelAnimationClip(_) => 8,
        Content::VertexDeclaration(_) => 9,
        Content::VertexBuffer(_) => 10,
        Content::IndexBuffer(_) => 11,
        Content::Effect(_) => 12,
        Content::BasicEffect(_) => 13,
        Content::SkinnedModelBasicEffect(_) => 14,
        Content::AdditiveEffect(_) => 15,
        Content::RenderDeferredEffect(_) => 16,
    }
}

/// The extension of what is saved beside the document of content that
/// is saved under `name`.
pub fn companion_extension(name: &str, companion: Companion) -> (extension: String)
    ensures
        extension@ == name@ + companion_suffix(companion),
{
    let mut extension = String::from_str(name);
    match companion {
        Companion::Image => extension.append(".png"),
        Companion::Scene => extension.append(".glb"),
    }
    extension
}

impl ExtractOptions {
    /// What an extraction of `content` saves, or `None` for no content,
    /// of which nothing is saved. The extension of the document is that
    /// of the content, a dot and the name of the encoding.
    pub fn plan(&self, content: &Content) -> (res: Option<Plan>)
        ensures
            match res {
                Some(plan) => {
                    &&& content.extension_name() matches Some(name)
                    &&& plan.extension@ == name + encoding_suffix(self.msgpack)
                    &&& plan.companion == companion_of(*content)
                    &&& match plan.companion {
                        Some(companion) => plan.beside matches Some(beside) && beside@ == name + companion_suffix(
                            companion,
                        ),
                        None => plan.beside is None,
                    }
                },
                None => content.extension_name() is None,
            },
    {
        let name = match content.extension() {
            Some(name) => name,
            None => {
                return None;
            },
        };
        let extension = self.document_extension(name);
        let companion = match content {
            Content::Texture2D(_) => Some(Companion::Image),
            Content::Model(_) => Some(Companion::Scene),
            Content::SkinnedModel(_) => Some(Companion::Scene),
            _ => None,
        };
        let beside = match companion {
            Some(companion) => Some(companion_extension(name, companion)),
            None => None,
        };
        Some(Plan { extension, companion, beside })
    }

    /// The extension of the document of content that is saved under
    /// `name`: the name, a dot and the name of the encoding.
    pub fn document_extension(&self, name: &str) -> (extension: String)
        ensures
            extension@ == name@ + encoding_suffix(self.msgpack),
    {
        let mut extension = String::from_str(name);
        if self.msgpack {
            extension.append(".msgpack");
        } else {
            extension.append(".json");
        }
        extension
    }

    /// Every extension under which an extraction may save a file: that
    /// of the document of each kind of content, and those of the image
    /// of a texture and of the scene of a model. Whether one of them is
    /// taken can be asked before anything is decoded.
    pub fn candidates(&self) -> (out: Vec<String>)
        ensures
            forall|content: Content|
                (#[trigger] content.extension_name()) is Some ==> holds_name(
                    out@,
                    content.extension_name()->0 + encoding_suffix(self.msgpack),
                ),
            forall|content: Content|
                (#[trigger] companion_of(content)) is Some ==> holds_name(
                    out@,
                    content.extension_name()->0 + companion_suffix(companion_of(content)->0),
                ),
    {
        let mut out: Vec<String> = Vec::new();
        out.push(self.document_extension("string"));
        out.push(self.document_extension("externalreference"));
        out.push(self.document_extension("item"));
        out.push(self.document_extension("character"));
        out.push(self.document_extension("texture2d"));
        out.push(self.document_extension("model"));
        out.push(self.document_extension("skinnedmodel"));
        out.push(self.document_extension("skinnedmodelbone"));
        out.push(self.document_extension("animationclip"));
        out.push(self.document_extension("vertexdecl"));
        out.push(self.document_extension("vertexbuffer"));
        out.push(self.document_extension("indexbuffer"));
        out.push(self.document_extension("effect"));
        out.push(self.document_extension("basiceffect"));
        out.push(self.document_extension("skinnedmodelbasiceffect"));
        out.push(self.document_extension("additiveeffect"));
        out.push(self.document_extension("renderdeferredeffect"));
        out.push(companion_extension("texture2d", Companion::Image));
        out.push(companion_extension("model", Companion::Scene));
        out.push(companion_extension("skinnedmodel", Companion::Scene));
        proof {
            let suffix = encoding_suffix(self.msgpack);
            assert forall|content: Content| (#[trigger] companion_of(content)) is Some implies holds_name(
                out@,
                content.extension_name()->0 + companion_suffix(companion_of(content)->0),
            ) by {
                match content {
                    Content::Texture2D(_) => {
                        assert(out@[17]@ == "texture2d"@ + ".png"@);
                    },
                    Content::Model(_) => {
                        assert(out@[18]@ == "model"@ + ".glb"@);
                    },
                    Content::SkinnedModel(_) => {
                        assert(out@[19]@ == "skinnedmodel"@ + ".glb"@);
                    },
                    _ => {},
                }
            }
            assert forall|content: Content| (#[trigger] content.extension_name()) is Some implies holds_name(
                out@,
                content.extension_name()->0 + suffix,
            ) by {
                let name = content.extension_name()->0;
                let at = place_of(content);
                assert(out@[at]@ == name + suffix);
            }
        }
        out
    }

    /// Whether a file may be written where one is `present` already or
    /// none is: a file that is there is left alone unless the caller
    /// asked for it to be overwritten.
    pub fn may_write(&self, present: bool) -> (allowed: bool)
        ensures
            allowed == (!present || self.overwrite),
    {
        !present || self.overwrite
    }

    /// The bytes of a document as they are saved: compressed with zlib at
    /// the level of the options, and as they are at level 0. A level is
    /// a number up to 9.
    pub fn packed(&self, bytes: Vec<u8>) -> (out: Vec<u8>)
        requires
            self.compression_level <= MAX_COMPRESSION_LEVEL,
        ensures
            out@ == if self.compression_level > 0 {
                zlib_bytes(bytes@, self.compression_level)
            } else {
                bytes@
            },
    {
        if self.compression_level > 0 {
            match zlib(bytes.as_slice(), self.compression_level) {
                Some(out) => out,
                None => bytes,
            }
        } else {
            bytes
        }
    }

    /// Whether the document is compressed before it is saved: at any
    /// level but 0.
    pub fn compresses(&self) -> (yes: bool)
        ensures
            yes == (self.compression_level > 0),
    {
        self.compression_level > 0
    }
}

} // verus!
