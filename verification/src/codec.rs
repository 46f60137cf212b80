//! Block-compressed pixels, PNG and zlib, through the `bcndecode`, `image`
//! and `flate2` crates.
use vstd::prelude::*;

verus! {

/// Why `bcndecode` refused a texture.
#[verifier::external_type_specification]
#[verifier::external_body]
pub struct ExBcnError(bcndecode::Error);

/// Why `image` refused to encode pixels.
#[verifier::external_type_specification]
#[verifier::external_body]
pub struct ExImageError(image::ImageError);

/// How the pixels of a texture are compressed.
#[derive(Debug, Clone, Copy, PartialEq, Eq, Structural)]
pub enum BlockEncoding {
    /// Four by four pixels in eight bytes, with one bit of alpha.
    Bc1,
    /// Four by four pixels in sixteen bytes, with interpolated alpha.
    Bc3,
}

/// The pixels that `bcndecode::decode` makes of block-compressed data, four
/// bytes a pixel in the order red, green, blue, alpha, or `None` where it
/// refuses the data.
pub uninterp spec fn bcn_pixels(data: Seq<u8>, width: nat, height: nat, encoding: BlockEncoding) -> Option<
    Seq<u8>,
>;

/// The PNG file that the encoder of `image` makes of pixels of four bytes
/// each, or `None` where it refuses them.
pub uninterp spec fn png_file(pixels: Seq<u8>, width: u32, height: u32) -> Option<Seq<u8>>;

/// `bcndecode::decode` to pixels of red, green, blue and alpha: the result
/// is `bcn_pixels` of the arguments, and pixels that it hands out are four
/// bytes for each pixel of the image. The size of the image in bytes must
/// be a number that the machine can count.
#[verifier::external_body]
pub(crate) fn bcn_decode(data: &[u8], width: usize, height: usize, encoding: BlockEncoding) -> (res: Result<
    Vec<u8>,
    bcndecode::Error,
>)
    requires
        4 * width * height <= usize::MAX,
    ensures
        match res {
            Ok(pixels) => bcn_pixels(data@, width as nat, height as nat, encoding) == Some(pixels@)
                && pixels@.len() == 4 * width * height,
            Err(_) => bcn_pixels(data@, width as nat, height as nat, encoding) is None,
        },
{
    let kind = match encoding {
        BlockEncoding::Bc1 => bcndecode::BcnEncoding::Bc1,
        BlockEncoding::Bc3 => bcndecode::BcnEncoding::Bc3,
    };
    bcndecode::decode(data, width, height, kind, bcndecode::BcnDecoderFormat::RGBA)
}

/// `image::ImageEncoder::write_image` of `image::codecs::png::PngEncoder`
/// over a vector, for pixels of red, green, blue and alpha of eight bits
/// each: the result is `png_file` of the arguments. The encoder panics on
/// pixels of another length than the size of the image asks for.
#[verifier::external_body]
pub(crate) fn png_encode(pixels: &[u8], width: u32, height: u32) -> (res: Result<Vec<u8>, image::ImageError>)
    requires
        pixels@.len() == 4 * width * height,
    ensures
        match res {
            Ok(file) => png_file(pixels@, width, height) == Some(file@),
            Err(_) => png_file(pixels@, width, height) is None,
        },
{
    let mut file = Vec::new();
    let encoder = image::codecs::png::PngEncoder::new(&mut file);
    match image::ImageEncoder::write_image(encoder, pixels, width, height, image::ExtendedColorType::Rgba8) {
        Ok(()) => Ok(file),
        Err(e) => Err(e),
    }
}

/// The zlib stream that the encoder of `flate2` makes of bytes at a
/// level of compression.
pub uninterp spec fn zlib_bytes(bytes: Seq<u8>, level: u8) -> Seq<u8>;

/// `flate2::write::ZlibEncoder` over a vector, at `flate2::Compression`
/// of `level`: all of `bytes` written and the stream finished. The
/// result is `zlib_bytes` of the arguments. It writes to a vector, which
/// takes every write, so it always hands the stream out. The encoder
/// knows no level above 10.
#[verifier::external_body]
pub(crate) fn zlib(bytes: &[u8], level: u8) -> (res: Option<Vec<u8>>)
    requires
        level <= 10,
    ensures
        res is Some,
        res matches Some(out) ==> out@ == zlib_bytes(bytes@, level),
{
    let mut encoder = flate2::write::ZlibEncoder::new(Vec::new(), flate2::Compression::new(u32::from(level)));
    std::io::Write::write_all(&mut encoder, bytes).ok()?;
    encoder.finish().ok()
}

} // verus!
