use xnb_tool::error::DecodeError;
use xnb_tool::reader::Reader;
use xnb_tool::varint::write_7bit_encoded_i32;

fn encode(value: i32) -> Vec<u8> {
    let mut out = Vec::new();
    write_7bit_encoded_i32(&mut out, value);
    out
}

fn decode(bytes: &[u8]) -> Result<(i32, usize), DecodeError> {
    let mut reader = Reader::new(bytes);
    let value = reader.read_7bit_encoded_i32()?;
    Ok((value, reader.pos))
}

#[test]
fn compact_integers_have_their_known_bytes() {
    assert_eq!(encode(0), vec![0x00]);
    assert_eq!(encode(1), vec![0x01]);
    assert_eq!(encode(127), vec![0x7F]);
    assert_eq!(encode(128), vec![0x80, 0x01]);
    assert_eq!(encode(300), vec![0xAC, 0x02]);
    assert_eq!(encode(16384), vec![0x80, 0x80, 0x01]);
    assert_eq!(encode(i32::MAX), vec![0xFF, 0xFF, 0xFF, 0xFF, 0x07]);
    assert_eq!(encode(-1), vec![0xFF, 0xFF, 0xFF, 0xFF, 0x0F]);
}

#[test]
fn compact_integers_come_back_as_they_went() {
    let mut values = vec![0, 1, 2, 126, 127, 128, 129, 255, 256, 16383, 16384, 2097151, 2097152];
    values.extend_from_slice(&[268435455, 268435456, i32::MAX - 1, i32::MAX, -1, -128, i32::MIN]);
    let mut seed: u32 = 12345;
    for _ in 0..2000 {
        seed = seed.wrapping_mul(1664525).wrapping_add(1013904223);
        values.push((seed >> 1) as i32);
    }
    for value in values {
        let bytes = encode(value);
        assert!(bytes.len() <= 5);
        assert_eq!(decode(&bytes), Ok((value, bytes.len())));
        // Whatever follows the integer is left alone.
        let mut longer = bytes.clone();
        longer.extend_from_slice(&[0xFF, 0x00]);
        assert_eq!(decode(&longer), Ok((value, bytes.len())));
    }
}

#[test]
fn a_compact_integer_of_six_bytes_is_refused() {
    assert_eq!(decode(&[0x80, 0x80, 0x80, 0x80, 0x80, 0x01]), Err(DecodeError::VarintTooLong));
}

#[test]
fn a_compact_integer_cut_short_is_refused() {
    assert_eq!(decode(&[0x80]), Err(DecodeError::UnexpectedEof));
    assert_eq!(decode(&[]), Err(DecodeError::UnexpectedEof));
}

#[test]
fn the_fifth_byte_of_a_compact_integer_gives_the_top_bits() {
    assert_eq!(decode(&[0x80, 0x80, 0x80, 0x80, 0x08]), Ok((i32::MIN, 5)));
    // Bits past the thirty-second fall away.
    assert_eq!(decode(&[0x81, 0x80, 0x80, 0x80, 0x70]), Ok((1, 5)));
}

#[test]
fn fixed_width_integers_are_little_endian() {
    let bytes = [0x34, 0x12, 0x78, 0x56, 0x34, 0x12, 0xFE, 0xFF, 0xFF, 0xFF, 0x07];
    let mut reader = Reader::new(&bytes);
    assert_eq!(reader.read_u16(), Ok(0x1234));
    assert_eq!(reader.read_u32(), Ok(0x1234_5678));
    assert_eq!(reader.read_i32(), Ok(-2));
    assert_eq!(reader.read_u8(), Ok(7));
    assert_eq!(reader.remaining(), 0);
    assert_eq!(reader.read_u8(), Err(DecodeError::UnexpectedEof));
}

#[test]
fn a_field_cut_short_is_refused() {
    assert_eq!(Reader::new(&[1, 2, 3]).read_u32(), Err(DecodeError::UnexpectedEof));
    assert_eq!(Reader::new(&[1]).read_u16(), Err(DecodeError::UnexpectedEof));
    assert_eq!(Reader::new(&[1, 2, 3]).read_i32(), Err(DecodeError::UnexpectedEof));
}

#[test]
fn any_byte_but_zero_is_true() {
    let bytes = [0, 1, 2, 255];
    let mut reader = Reader::new(&bytes);
    assert_eq!(reader.read_bool(), Ok(false));
    assert_eq!(reader.read_bool(), Ok(true));
    assert_eq!(reader.read_bool(), Ok(true));
    assert_eq!(reader.read_bool(), Ok(true));
}

#[test]
fn strings_take_each_byte_as_one_character() {
    let bytes = [5, b'h', b'e', b'l', b'l', b'o', 2, 0xE9, 0xFF, 0];
    let mut reader = Reader::new(&bytes);
    assert_eq!(reader.read_7bit_length_string(), Ok("hello".to_string()));
    assert_eq!(reader.read_7bit_length_string(), Ok("\u{e9}\u{ff}".to_string()));
    assert_eq!(reader.read_7bit_length_string(), Ok(String::new()));
    assert_eq!(reader.remaining(), 0);
}

#[test]
fn a_string_cut_short_is_refused() {
    assert_eq!(Reader::new(&[3, b'a', b'b']).read_7bit_length_string(), Err(DecodeError::UnexpectedEof));
}

#[test]
fn a_string_of_negative_length_is_refused() {
    let bytes = [0xFF, 0xFF, 0xFF, 0xFF, 0x0F];
    assert_eq!(
        Reader::new(&bytes).read_7bit_length_string(),
        Err(DecodeError::Negative { value: -1 })
    );
}

#[test]
fn a_negative_count_is_refused() {
    let bytes = [0xFE, 0xFF, 0xFF, 0xFF];
    assert_eq!(Reader::new(&bytes).read_count(), Err(DecodeError::Negative { value: -2 }));
    assert_eq!(Reader::new(&[3, 0, 0, 0]).read_count(), Ok(3));
}

#[test]
fn a_negative_reference_is_refused() {
    let bytes = [0xFF, 0xFF, 0xFF, 0xFF, 0x0F];
    assert_eq!(Reader::new(&bytes).read_index(), Err(DecodeError::Negative { value: -1 }));
    assert_eq!(Reader::new(&[0x81, 0x01]).read_index(), Ok(129));
}

#[test]
fn a_blob_stands_behind_its_length() {
    let bytes = [2, 0, 0, 0, 0xAA, 0xBB, 0xCC];
    let mut reader = Reader::new(&bytes);
    assert_eq!(reader.read_blob(), Ok(vec![0xAA, 0xBB]));
    assert_eq!(reader.pos, 6);
    assert_eq!(Reader::new(&[5, 0, 0, 0, 1]).read_blob(), Err(DecodeError::UnexpectedEof));
}

#[test]
fn taking_bytes_moves_the_reader() {
    let bytes = [1, 2, 3, 4];
    let mut reader = Reader::new(&bytes);
    assert_eq!(reader.take(3), Ok(&bytes[0..3]));
    assert_eq!(reader.remaining(), 1);
    assert_eq!(reader.take(2), Err(DecodeError::UnexpectedEof));
    assert_eq!(reader.take(0), Ok(&bytes[0..0]));
}
