//! Two-dimensional textures and their conversion to PNG.
use vstd::prelude::*;
use crate::decode::{Decode, read_ucounted, ucounted};
use crate::error::{DecodeError};
use crate::reader::{Cursor, follows, Reader};
use crate::codec::{bcn_decode, bcn_pixels, png_encode, png_file, BlockEncoding};

verus! {

broadcast use {crate::reader::group_failed, crate::decode::group_failed_items};

/// A texture: its format, its size, and its mip levels, largest first.
#[derive(Clone, PartialEq, Eq, Debug)]
pub struct Texture2D {
    pub format: u32,
    pub width: u32,
    pub height: u32,
    pub mips: Vec<Vec<u8>>,
}

/// `Texture2D` as the format states it.
pub struct Texture2DView {
    pub format: u32,
    pub width: u32,
    pub height: u32,
    pub mips: Seq<Seq<u8>>,
}

impl DeepView for Texture2D {
    type V = Texture2DView;

    open spec fn deep_view(&self) -> Texture2DView {
        Texture2DView {
            format: self.format,
            width: self.width,
            height: self.height,
            mips: self.mips.deep_view(),
        }
    }
}

impl Texture2D {
    /// The fields on the wire, one behind the other.
    #[verifier::opaque]
    pub open spec fn fields(c: Cursor) -> (Texture2DView, Cursor) {
        let (format, c1) = c.u32();
        let (width, c2) = c1.u32();
        let (height, c3) = c2.u32();
        let (mips, c4) = ucounted::<Vec<u8>>(c3);
        (Texture2DView { format, width, height, mips }, c4)
    }

    /// The value at `c`: nothing from a failed cursor.
    pub open spec fn layout(c: Cursor) -> (Texture2DView, Cursor) {
        if c.err is Some {
            (arbitrary(), c)
        } else {
            Self::fields(c)
        }
    }

    /// Reads one `Texture2D`.
    pub fn read(reader: &mut Reader) -> (res: Result<Self, DecodeError>)
        ensures
            follows(res, final(reader)@, Self::layout(old(reader)@)),
    {
        proof {
            reveal(Texture2D::fields);
        }
        let format = reader.read_u32()?;
        let width = reader.read_u32()?;
        let height = reader.read_u32()?;
        let mips = read_ucounted::<Vec<u8>>(reader)?;
        Ok(Texture2D { format, width, height, mips })
    }
}

impl Decode for Texture2D {
    open spec fn wire(c: Cursor) -> (Texture2DView, Cursor) {
        Texture2D::layout(c)
    }

    proof fn lemma_wire_failed(c: Cursor) {
    }

    fn decode(r: &mut Reader) -> (res: Result<Self, DecodeError>) {
        Texture2D::read(r)
    }
}

/// The format of textures compressed as BC1.
pub const FORMAT_BC1: u32 = 0x1C;

/// The format of textures compressed as BC3.
pub const FORMAT_BC3: u32 = 0x20;

/// Why a texture could not be converted.
#[derive(Debug, Clone, Copy, PartialEq, Eq, Structural)]
pub enum TextureError {
    /// A format that is neither BC1 nor BC3.
    UnknownFormat { format: u32 },
    /// A texture without any mip level.
    NoMips,
    /// A texture of more bytes than the machine can count.
    TooLarge,
    /// Pixels that the decoder refused.
    Decode,
    /// Pixels that the encoder refused.
    Encode,
}

/// How a texture of this format is compressed.
pub open spec fn encoding_of(format: u32) -> Option<BlockEncoding> {
    if format == FORMAT_BC1 {
        Some(BlockEncoding::Bc1)
    } else if format == FORMAT_BC3 {
        Some(BlockEncoding::Bc3)
    } else {
        None
    }
}

/// The PNG file of a texture, or why there is none: what the encoder makes
/// of the pixels that the decoder makes of the largest mip level.
pub open spec fn png_of(texture: Texture2D) -> Result<Seq<u8>, TextureError> {
    match encoding_of(texture.format) {
        None => Err(TextureError::UnknownFormat { format: texture.format }),
        Some(encoding) => if texture.mips@.len() == 0 {
            Err(TextureError::NoMips)
        } else if 4 * texture.width * texture.height > usize::MAX {
            Err(TextureError::TooLarge)
        } else {
            match bcn_pixels(texture.mips@[0]@, texture.width as nat, texture.height as nat, encoding) {
                None => Err(TextureError::Decode),
                Some(pixels) => match png_file(pixels, texture.width, texture.height) {
                    None => Err(TextureError::Encode),
                    Some(file) => Ok(file),
                },
            }
        },
    }
}

impl Texture2D {
    /// How the texture is compressed, by its format.
    pub fn encoding(&self) -> (res: Result<BlockEncoding, TextureError>)
        ensures
            match res {
                Ok(encoding) => encoding_of(self.format) == Some(encoding),
                Err(e) => encoding_of(self.format) is None && e == (TextureError::UnknownFormat {
                    format: self.format,
                }),
            },
    {
        if self.format == FORMAT_BC1 {
            Ok(BlockEncoding::Bc1)
        } else if self.format == FORMAT_BC3 {
            Ok(BlockEncoding::Bc3)
        } else {
            Err(TextureError::UnknownFormat { format: self.format })
        }
    }

    /// Converts the largest mip level of the texture to a PNG file.
    pub fn to_png(&self) -> (res: Result<Vec<u8>, TextureError>)
        ensures
            match res {
                Ok(file) => png_of(*self) == Ok::<Seq<u8>, TextureError>(file@),
                Err(e) => png_of(*self) == Err::<Seq<u8>, TextureError>(e),
            },
    {
        let encoding = self.encoding()?;
        if self.mips.len() == 0 {
            return Err(TextureError::NoMips);
        }
        let width = self.width as u64;
        let height = self.height as u64;
        assert(width * height <= 0xFFFF_FFFF * 0xFFFF_FFFF) by (nonlinear_arith)
            requires
                0 <= width <= 0xFFFF_FFFF,
                0 <= height <= 0xFFFF_FFFF,
        ;
        let pixels = width * height;
        assert(4 * width * height == 4 * pixels) by (nonlinear_arith)
            requires
                pixels == width * height,
        ;
        if pixels > (usize::MAX / 4) as u64 {
            return Err(TextureError::TooLarge);
        }
        let decoded = match bcn_decode(
            self.mips[0].as_slice(),
            self.width as usize,
            self.height as usize,
            encoding,
        ) {
            Ok(decoded) => decoded,
            Err(_) => {
                return Err(TextureError::Decode);
            },
        };
        match png_encode(decoded.as_slice(), self.width, self.height) {
            Ok(file) => Ok(file),
            Err(_) => Err(TextureError::Encode),
        }
    }
}

} // verus!
