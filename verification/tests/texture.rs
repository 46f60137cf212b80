use xnb_tool::args::{check_level, compression_level_range};
use xnb_tool::codec::BlockEncoding;
use xnb_tool::content::texture::{Texture2D, TextureError};
use xnb_tool::content::Content;
use xnb_tool::xnb::{Companion, ExtractOptions, Plan};

#[test]
fn a_texture_of_one_block_becomes_a_png_file() {
    // One block of BC1: both colours white, every pixel of the first.
    let block = vec![0xFF, 0xFF, 0xFF, 0xFF, 0x00, 0x00, 0x00, 0x00];
    let texture = Texture2D { format: 0x1C, width: 4, height: 4, mips: vec![block] };
    assert_eq!(texture.encoding(), Ok(BlockEncoding::Bc1));
    let png = texture.to_png().unwrap();
    assert_eq!(&png[..8], &[0x89, b'P', b'N', b'G', 0x0D, 0x0A, 0x1A, 0x0A]);
    // The header of the image follows: four by four pixels.
    assert_eq!(&png[12..16], b"IHDR");
    assert_eq!(&png[16..24], &[0, 0, 0, 4, 0, 0, 0, 4]);
}

#[test]
fn a_texture_of_interpolated_alpha_becomes_a_png_file() {
    let block = vec![0xFF, 0xFF, 0, 0, 0, 0, 0, 0, 0xFF, 0xFF, 0xFF, 0xFF, 0x00, 0x00, 0x00, 0x00];
    let texture = Texture2D { format: 0x20, width: 4, height: 4, mips: vec![block] };
    assert_eq!(texture.encoding(), Ok(BlockEncoding::Bc3));
    let png = texture.to_png().unwrap();
    assert_eq!(&png[1..4], b"PNG");
}

#[test]
fn a_texture_of_an_unknown_format_is_refused() {
    let texture = Texture2D { format: 1, width: 4, height: 4, mips: vec![vec![0; 8]] };
    assert_eq!(texture.to_png(), Err(TextureError::UnknownFormat { format: 1 }));
    assert_eq!(texture.encoding(), Err(TextureError::UnknownFormat { format: 1 }));
}

#[test]
fn a_texture_without_mip_levels_is_refused() {
    let texture = Texture2D { format: 0x1C, width: 4, height: 4, mips: vec![] };
    assert_eq!(texture.to_png(), Err(TextureError::NoMips));
}

#[test]
fn a_texture_without_size_is_refused_by_the_decoder() {
    let texture = Texture2D { format: 0x1C, width: 0, height: 4, mips: vec![vec![0; 8]] };
    assert_eq!(texture.to_png(), Err(TextureError::Decode));
}

#[test]
fn a_texture_too_large_to_count_is_refused() {
    let texture = Texture2D { format: 0x1C, width: u32::MAX, height: u32::MAX, mips: vec![vec![0; 8]] };
    assert_eq!(texture.to_png(), Err(TextureError::TooLarge));
}

#[test]
fn a_compression_level_is_a_number_up_to_nine() {
    assert_eq!(compression_level_range("0"), Ok(0));
    assert_eq!(compression_level_range("9"), Ok(9));
    assert_eq!(compression_level_range("10"), Err("level must be between 0 and 9".to_string()));
    assert_eq!(compression_level_range("255"), Err("level must be between 0 and 9".to_string()));
    assert_eq!(compression_level_range("fast"), Err("invalid compression level: fast".to_string()));
    assert_eq!(compression_level_range("256"), Err("invalid compression level: 256".to_string()));
    assert_eq!(compression_level_range("-1"), Err("invalid compression level: -1".to_string()));
    assert_eq!(compression_level_range(""), Err("invalid compression level: ".to_string()));
    assert_eq!(compression_level_range("+7"), Ok(7));
    assert_eq!(compression_level_range("007"), Ok(7));
    assert_eq!(compression_level_range("+"), Err("invalid compression level: +".to_string()));
    assert_eq!(compression_level_range("++7"), Err("invalid compression level: ++7".to_string()));
    assert_eq!(compression_level_range(" 7"), Err("invalid compression level:  7".to_string()));
    assert_eq!(compression_level_range("7 "), Err("invalid compression level: 7 ".to_string()));
    assert_eq!(compression_level_range("0x7"), Err("invalid compression level: 0x7".to_string()));
    assert_eq!(compression_level_range("00000000000000000000009"), Ok(9));
    assert_eq!(
        compression_level_range("99999999999999999999999"),
        Err("invalid compression level: 99999999999999999999999".to_string())
    );
}

#[test]
fn a_level_is_checked_whatever_read_it() {
    assert_eq!(check_level(Some(3), "three"), Ok(3));
    assert_eq!(check_level(Some(10), "ten"), Err("level must be between 0 and 9".to_string()));
    assert_eq!(check_level(None, "x"), Err("invalid compression level: x".to_string()));
}

#[test]
fn the_options_of_an_extraction_are_plain_values() {
    let options = ExtractOptions { overwrite: true, dump_raw: false, msgpack: false, compression_level: 6 };
    let copy = options;
    assert_eq!(copy, options);
    assert_eq!(copy.compression_level, 6);
}

fn options(overwrite: bool, msgpack: bool, compression_level: u8) -> ExtractOptions {
    ExtractOptions { overwrite, dump_raw: false, msgpack, compression_level }
}

#[test]
fn an_extraction_saves_a_document_and_what_goes_with_it() {
    let texture = Content::Texture2D(Texture2D { format: 0x1C, width: 4, height: 4, mips: vec![vec![0; 8]] });
    assert_eq!(
        options(false, false, 0).plan(&texture),
        Some(Plan {
            extension: "texture2d.json".to_string(),
            companion: Some(Companion::Image),
            beside: Some("texture2d.png".to_string()),
        })
    );
    assert_eq!(
        options(false, true, 0).plan(&texture),
        Some(Plan {
            extension: "texture2d.msgpack".to_string(),
            companion: Some(Companion::Image),
            beside: Some("texture2d.png".to_string()),
        })
    );
    let text = Content::String("hello".to_string());
    assert_eq!(
        options(false, false, 0).plan(&text),
        Some(Plan { extension: "string.json".to_string(), companion: None, beside: None })
    );
    // Of no content nothing is saved.
    assert_eq!(options(false, false, 0).plan(&Content::Null), None);
}

#[test]
fn a_file_that_is_there_is_overwritten_only_on_request() {
    assert!(options(false, false, 0).may_write(false));
    assert!(!options(false, false, 0).may_write(true));
    assert!(options(true, false, 0).may_write(true));
    assert!(options(true, false, 0).may_write(false));
}

#[test]
fn a_document_is_compressed_at_any_level_but_zero() {
    assert!(!options(false, false, 0).compresses());
    assert!(options(false, false, 1).compresses());
    assert!(options(false, false, 9).compresses());
}

#[test]
fn every_file_of_an_extraction_is_among_the_candidates() {
    let json = options(false, false, 0).candidates();
    assert_eq!(json.len(), 20);
    assert!(json.contains(&"texture2d.json".to_string()));
    assert!(json.contains(&"skinnedmodel.json".to_string()));
    assert!(json.contains(&"animationclip.json".to_string()));
    assert!(json.contains(&"texture2d.png".to_string()));
    assert!(json.contains(&"model.glb".to_string()));
    assert!(json.contains(&"skinnedmodel.glb".to_string()));
    assert!(!json.contains(&"item.msgpack".to_string()));
    let packed = options(false, true, 0).candidates();
    assert!(packed.contains(&"item.msgpack".to_string()));
    assert!(packed.contains(&"renderdeferredeffect.msgpack".to_string()));
    let texture = Content::Texture2D(Texture2D { format: 0x1C, width: 4, height: 4, mips: vec![vec![0; 8]] });
    let plan = options(false, true, 0).plan(&texture).unwrap();
    assert!(packed.contains(&plan.extension));
    assert!(packed.contains(&plan.beside.unwrap()));
    assert_eq!(options(false, true, 0).document_extension("item"), "item.msgpack");
}

#[test]
fn a_document_is_saved_as_a_zlib_stream_at_any_level_but_zero() {
    let bytes: Vec<u8> = (0..200u32).map(|i| (i % 7) as u8).collect();
    assert_eq!(options(false, false, 0).packed(bytes.clone()), bytes);
    for level in [1u8, 6, 9] {
        let packed = options(false, false, level).packed(bytes.clone());
        assert_ne!(packed, bytes);
        // A zlib stream starts with the method and the window in one byte.
        assert_eq!(packed[0], 0x78);
        let mut unpacked = Vec::new();
        let mut decoder = flate2::write::ZlibDecoder::new(&mut unpacked);
        std::io::Write::write_all(&mut decoder, &packed).unwrap();
        decoder.finish().unwrap();
        assert_eq!(unpacked, bytes);
    }
}
