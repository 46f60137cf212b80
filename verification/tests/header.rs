use xnb_tool::xnb::{hold_to_size, next_frame, FrameHeader, HeaderError, PayloadError, Platform, Version, Xnb};

#[test]
fn parses_an_uncompressed_header() {
    let bytes = [b'X', b'N', b'B', b'w', 4, 0x01, 0x10, 0x00, 0x00, 0x00, 0xAA, 0xBB];
    let xnb = Xnb::parse(&bytes).unwrap();
    let header = xnb.header();
    assert_eq!(header.platform, Platform::Windows);
    assert_eq!(header.version, Version::XNA31);
    assert!(header.hi_def);
    assert!(!header.compressed);
    assert_eq!(header.compressed_size, 16);
    assert_eq!(header.uncompressed_size, 0);
    assert_eq!(xnb.data(), &[0xAA, 0xBB]);
}

#[test]
fn parses_a_compressed_header() {
    let bytes = [b'X', b'N', b'B', b'x', 4, 0x80, 0x78, 0x56, 0x34, 0x12, 0x04, 0x03, 0x02, 0x01, 0x55];
    let xnb = Xnb::parse(&bytes).unwrap();
    let header = xnb.header();
    assert_eq!(header.platform, Platform::Xbox360);
    assert!(!header.hi_def);
    assert!(header.compressed);
    assert_eq!(header.compressed_size, 0x1234_5678);
    assert_eq!(header.uncompressed_size, 0x0102_0304);
    assert_eq!(xnb.data(), &[0x55]);
}

#[test]
fn the_phone_platform_is_known() {
    let bytes = [b'X', b'N', b'B', b'm', 4, 0x00, 0, 0, 0, 0];
    assert_eq!(Xnb::parse(&bytes).unwrap().header().platform, Platform::WindowsPhone);
}

#[test]
fn corrupted_magic_is_not_a_container() {
    let bytes = [b'X', b'N', b'X', b'w', 4, 0x00, 0x10, 0x00, 0x00, 0x00];
    assert_eq!(Xnb::parse(&bytes).err(), Some(HeaderError::BadMagic));
}

#[test]
fn an_unknown_platform_is_refused() {
    let bytes = [b'X', b'N', b'B', b'q', 4, 0x00, 0, 0, 0, 0];
    assert_eq!(Xnb::parse(&bytes).err(), Some(HeaderError::UnknownPlatform { byte: b'q' }));
}

#[test]
fn an_unknown_version_is_refused() {
    let bytes = [b'X', b'N', b'B', b'w', 3, 0x00, 0, 0, 0, 0];
    assert_eq!(Xnb::parse(&bytes).err(), Some(HeaderError::UnknownVersion { byte: 3 }));
}

#[test]
fn the_later_version_is_known_and_not_supported() {
    let bytes = [b'X', b'N', b'B', b'w', 5, 0x00, 0, 0, 0, 0];
    assert_eq!(
        Xnb::parse(&bytes).err(),
        Some(HeaderError::UnsupportedVersion { version: Version::XNA40 })
    );
}

#[test]
fn a_header_cut_short_is_truncated() {
    assert_eq!(Xnb::parse(&[b'X', b'N']).err(), Some(HeaderError::Truncated));
    assert_eq!(Xnb::parse(&[b'X', b'N', b'B']).err(), Some(HeaderError::Truncated));
    assert_eq!(Xnb::parse(&[b'X', b'N', b'B', b'w', 4, 0, 1, 2, 3]).err(), Some(HeaderError::Truncated));
    let compressed = [b'X', b'N', b'B', b'w', 4, 0x80, 1, 2, 3, 4, 5, 6, 7];
    assert_eq!(Xnb::parse(&compressed).err(), Some(HeaderError::Truncated));
}

fn container(uncompressed_size: u32, payload: &[u8]) -> Xnb {
    let mut bytes = vec![b'X', b'N', b'B', b'w', 4, 0x80, 0, 0, 0, 0];
    bytes.extend_from_slice(&uncompressed_size.to_le_bytes());
    bytes.extend_from_slice(payload);
    Xnb::parse(&bytes).unwrap()
}

/// Decompresses a payload as a caller of the library does: the decoder
/// makes a frame of the block of each header, and the library puts the
/// frames together.
fn decompress(xnb: &Xnb) -> Result<Vec<u8>, PayloadError> {
    let headers = xnb.frame_headers()?;
    let mut decoder = lzxd::Lzxd::new(lzxd::WindowSize::KB64);
    let mut frames = Vec::new();
    for (frame, header) in headers.iter().enumerate() {
        let block = &xnb.data()[header.block_start..header.block_start + header.block_size as usize];
        match decoder.decompress_next(block, header.frame_size as usize) {
            Ok(bytes) => frames.push(bytes.to_vec()),
            Err(e) => return Err(PayloadError::Corrupt { frame, reason: e.to_string() }),
        }
    }
    xnb.assemble(&frames)
}

/// One LZX chunk that holds the three bytes `abc` uncompressed.
const ABC_CHUNK: [u8; 20] = [
    0x00, 0x30, 0x30, 0x00, 0x01, 0x00, 0x00, 0x00, 0x01, 0x00, 0x00, 0x00, 0x01, 0x00, 0x00, 0x00, b'a',
    b'b', b'c', 0x00,
];

#[test]
fn decompresses_a_frame_with_an_explicit_size() {
    let mut payload = vec![0xFF, 0x00, 0x03, 0x00, 0x14];
    payload.extend_from_slice(&ABC_CHUNK);
    let xnb = container(3, &payload);
    assert_eq!(decompress(&xnb).unwrap(), b"abc".to_vec());
}

#[test]
fn a_declared_size_that_is_not_met_is_reported() {
    let mut payload = vec![0xFF, 0x00, 0x03, 0x00, 0x14];
    payload.extend_from_slice(&ABC_CHUNK);
    let xnb = container(4, &payload);
    assert_eq!(decompress(&xnb).err(), Some(PayloadError::SizeMismatch { declared: 4, actual: 3 }));
}

#[test]
fn an_empty_payload_decompresses_to_nothing() {
    assert_eq!(decompress(&container(0, &[])).unwrap(), Vec::<u8>::new());
}

#[test]
fn a_block_of_size_zero_ends_the_payload() {
    // Without the marker the two bytes are the block size.
    assert_eq!(decompress(&container(0, &[0x00, 0x00, 0x12, 0x34])).unwrap(), Vec::<u8>::new());
    // With the marker a frame size of zero ends it as well.
    assert_eq!(decompress(&container(0, &[0xFF, 0x00, 0x00, 0x00, 0x05, 1, 2])).unwrap(), Vec::<u8>::new());
}

#[test]
fn a_frame_cut_short_is_truncated() {
    assert_eq!(decompress(&container(0, &[0xFF, 0x00, 0x03])).err(), Some(PayloadError::Truncated));
    assert_eq!(decompress(&container(0, &[0x01])).err(), Some(PayloadError::Truncated));
    // The block size is sixteen and only two bytes follow.
    assert_eq!(decompress(&container(0, &[0x00, 0x10, 0xAA, 0xBB])).err(), Some(PayloadError::Truncated));
}

#[test]
fn a_block_that_the_decoder_refuses_is_corrupt() {
    // A frame of the largest size from a block of one byte.
    let res = decompress(&container(0x8000, &[0x00, 0x01, 0x00]));
    match res {
        Err(PayloadError::Corrupt { frame, reason }) => {
            assert_eq!(frame, 0);
            assert!(!reason.is_empty());
        }
        other => panic!("{:?}", other),
    }
}

#[test]
fn a_payload_is_held_to_its_declared_size() {
    assert_eq!(hold_to_size(vec![1, 2, 3], 3), Ok(vec![1, 2, 3]));
    assert_eq!(hold_to_size(vec![1], 3), Err(PayloadError::SizeMismatch { declared: 3, actual: 1 }));
    assert_eq!(hold_to_size(Vec::new(), 0), Ok(Vec::new()));
}

#[test]
fn a_payload_without_frames_is_refused_only_for_its_size() {
    assert_eq!(
        decompress(&container(7, &[0x00, 0x00])).err(),
        Some(PayloadError::SizeMismatch { declared: 7, actual: 0 })
    );
}

#[test]
fn the_header_of_a_frame_is_read_with_or_without_its_marker() {
    // With the marker: the frame size, then the block size.
    let marked = [0xFF, 0x12, 0x34, 0x00, 0x07, 9, 9];
    assert_eq!(
        next_frame(&marked, 0),
        Some(FrameHeader { frame_size: 0x1234, block_start: 5, block_size: 7 })
    );
    // Without it the first byte is the high byte of the block size.
    let bare = [0xAA, 0x01, 0x02, 9];
    assert_eq!(
        next_frame(&bare, 1),
        Some(FrameHeader { frame_size: 0x8000, block_start: 3, block_size: 0x0102 })
    );
    // A header that the payload ends in.
    assert_eq!(next_frame(&marked[..4], 0), None);
    assert_eq!(next_frame(&bare, 3), None);
}

#[test]
fn the_headers_of_the_frames_are_read_in_their_order() {
    let mut payload = vec![0xFF, 0x00, 0x03, 0x00, 0x02, 7, 7];
    payload.extend_from_slice(&[0x00, 0x01, 9]);
    let xnb = container(0, &payload);
    assert_eq!(
        xnb.frame_headers(),
        Ok(vec![
            FrameHeader { frame_size: 3, block_start: 5, block_size: 2 },
            FrameHeader { frame_size: 0x8000, block_start: 9, block_size: 1 },
        ])
    );
    // A block of size zero ends the payload, whatever stands behind it.
    assert_eq!(container(0, &[0x00, 0x00, 0xFF]).frame_headers(), Ok(vec![]));
    assert_eq!(container(0, &[0x00, 0x05, 1]).frame_headers(), Err(PayloadError::Truncated));
}

#[test]
fn decoded_frames_are_put_together_where_they_fit_their_headers() {
    let payload = [0xFF, 0x00, 0x03, 0x00, 0x01, 7, 0xFF, 0x00, 0x02, 0x00, 0x01, 7];
    let xnb = container(5, &payload);
    assert_eq!(xnb.assemble(&[vec![1, 2, 3], vec![4, 5]]), Ok(vec![1, 2, 3, 4, 5]));
    let misfit = "a frame is missing or not of the size of its header".to_string();
    // A frame of another size, a frame that is missing, a frame too many.
    assert_eq!(
        xnb.assemble(&[vec![1, 2, 3], vec![4]]),
        Err(PayloadError::Corrupt { frame: 1, reason: misfit.clone() })
    );
    assert_eq!(xnb.assemble(&[vec![1, 2, 3]]), Err(PayloadError::Corrupt { frame: 1, reason: misfit.clone() }));
    assert_eq!(
        xnb.assemble(&[vec![1, 2, 3], vec![4, 5], vec![6]]),
        Err(PayloadError::Corrupt { frame: 2, reason: misfit })
    );
    assert_eq!(
        container(6, &payload).assemble(&[vec![1, 2, 3], vec![4, 5]]),
        Err(PayloadError::SizeMismatch { declared: 6, actual: 5 })
    );
    assert_eq!(container(5, &payload[..11]).assemble(&[vec![1, 2, 3]]), Err(PayloadError::Truncated));
}
