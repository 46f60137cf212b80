//! The binary container of an export: a header, the document as JSON, and
//! the packed buffer, written by the `gltf` crate.
use vstd::prelude::*;
use crate::export::buffer::padded;
use crate::export::ExportError;
use crate::wire::le_bytes4;

verus! {

/// What the `gltf` crate may refuse a container for.
#[verifier::external_type_specification]
#[verifier::external_body]
pub struct ExGltfError(gltf::Error);

/// `n` bytes of `byte`.
pub open spec fn filler(byte: u8, n: int) -> Seq<u8> {
    Seq::new(n as nat, |i: int| byte)
}

/// The length of the container of a document and a buffer: a header of 12
/// bytes, and for each of the two a chunk header of 8 bytes before its
/// bytes, which are padded to a multiple of four.
pub open spec fn container_length(json: int, bin: int) -> int {
    12 + 8 + padded(json) + 8 + padded(bin)
}

/// The container of a document and a buffer. Every number is four bytes,
/// least significant first. The header is the magic `glTF`, the version 2
/// and the length of the whole. The chunk of the document is its padded
/// length, the type `JSON`, and its bytes, padded with spaces. The chunk of
/// the buffer is its padded length, the type `BIN` with a zero byte, and
/// its bytes, padded with zeros.
pub open spec fn container_of(json: Seq<u8>, bin: Seq<u8>) -> Seq<u8> {
    seq![0x67u8, 0x6Cu8, 0x54u8, 0x46u8] + le_bytes4(2) + le_bytes4(
        container_length(json.len() as int, bin.len() as int) as nat,
    ) + le_bytes4(padded(json.len() as int) as nat) + seq![0x4Au8, 0x53u8, 0x4Fu8, 0x4Eu8] + json + filler(
        0x20,
        padded(json.len() as int) - json.len(),
    ) + le_bytes4(padded(bin.len() as int) as nat) + seq![0x42u8, 0x49u8, 0x4Eu8, 0x00u8] + bin + filler(
        0,
        padded(bin.len() as int) - bin.len(),
    )
}

/// `gltf::Glb::to_vec` on a container of a document and a buffer: the
/// bytes of the container, laid out as `container_of` says. It writes to
/// a vector, which takes every write, so it always hands the bytes out.
/// The length in the header that is handed in is not what is written:
/// the crate works the length out itself, and cuts it to 32 bits, which
/// is why a longer container is left out here.
#[verifier::external_body]
pub(crate) fn glb_to_vec(json: &[u8], bin: &[u8], length: u32) -> (res: Result<Vec<u8>, gltf::Error>)
    requires
        container_length(json@.len() as int, bin@.len() as int) <= u32::MAX,
    ensures
        res is Ok,
        res matches Ok(bytes) ==> bytes@ == container_of(json@, bin@),
{
    let glb = gltf::Glb {
        header: gltf::binary::Header { magic: *b"glTF", version: 2, length },
        json: std::borrow::Cow::Borrowed(json),
        bin: Some(std::borrow::Cow::Borrowed(bin)),
    };
    glb.to_vec()
}

/// Writes the container of an export: the document, as the bytes of its
/// JSON, and the packed buffer. Both are padded to a multiple of four here
/// and not before. A container of more bytes than 32 bits can count is
/// refused, and no other.
pub fn build_glb_bytes(json: &[u8], bin: &[u8]) -> (res: Result<Vec<u8>, ExportError>)
    ensures
        res is Ok == (container_length(json@.len() as int, bin@.len() as int) <= u32::MAX),
        match res {
            Ok(bytes) => bytes@ == container_of(json@, bin@),
            Err(e) => e == ExportError::TooLarge,
        },
{
    let limit: u64 = u32::MAX as u64;
    let json_len = json.len() as u64;
    let bin_len = bin.len() as u64;
    if json_len > limit || bin_len > limit {
        return Err(ExportError::TooLarge);
    }
    let total = 12 + 8 + (json_len + 3) / 4 * 4 + 8 + (bin_len + 3) / 4 * 4;
    if total > limit {
        return Err(ExportError::TooLarge);
    }
    match glb_to_vec(json, bin, total as u32) {
        Ok(bytes) => Ok(bytes),
        Err(_) => Err(ExportError::Container),
    }
}

} // verus!
