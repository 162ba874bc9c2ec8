use ctm::{decode, from_vec, DecodeError, FormatVariant, CTM};

/// The full-layout scenario buffer: signature, zero title id, zero build
/// hash, epoch creation time, zero movie id, 32 ASCII spaces as author, zero
/// rerecords, and the given input count.
fn scenario_buffer(inputs: u64) -> Vec<u8> {
    let mut buffer: Vec<u8> = Vec::new();
    buffer.extend_from_slice(&[0x43, 0x54, 0x4D, 0x1B]);
    buffer.extend_from_slice(&[0u8; 8]);
    buffer.extend_from_slice(&[0u8; 20]);
    buffer.extend_from_slice(&0i64.to_le_bytes());
    buffer.extend_from_slice(&[0u8; 8]);
    buffer.extend_from_slice(&[0x20u8; 32]);
    buffer.extend_from_slice(&[0u8; 4]);
    buffer.extend_from_slice(&inputs.to_le_bytes());
    buffer
}

#[test]
fn end_to_end_scenario() {
    let header = from_vec(scenario_buffer(2340)).unwrap();
    assert_eq!(header.title_id, "0000000000000000");
    assert_eq!(header.git_hash, "0".repeat(40));
    assert_eq!(header.init_time, 0);
    assert_eq!(header.movie_id, 0);
    assert_eq!(header.author, " ".repeat(32));
    assert_eq!(header.rerecords, 0);
    assert_eq!(header.inputs, 2340);
    assert_eq!(header.frames, 598);
}

#[test]
fn every_field_read_at_its_offset() {
    let mut buffer: Vec<u8> = Vec::new();
    buffer.extend_from_slice(&[0x43, 0x54, 0x4D, 0x1B]);
    buffer.extend_from_slice(&[0x01, 0x02, 0x03, 0x04, 0x05, 0x06, 0x07, 0x08]);
    let hash: Vec<u8> = (0x10..0x24).collect();
    buffer.extend_from_slice(&hash);
    buffer.extend_from_slice(&1234567890i64.to_le_bytes());
    buffer.extend_from_slice(&0xDEADBEEFCAFEF00Du64.to_le_bytes());
    let mut author = b"movie author".to_vec();
    author.resize(32, b'.');
    buffer.extend_from_slice(&author);
    buffer.extend_from_slice(&77u32.to_le_bytes());
    buffer.extend_from_slice(&1000u64.to_le_bytes());
    assert_eq!(buffer.len(), 92);

    let header = decode(&buffer, FormatVariant::WithInputCount).unwrap();
    assert_eq!(header.title_id, "0807060504030201");
    assert_eq!(header.git_hash, "101112131415161718191a1b1c1d1e1f20212223");
    assert_eq!(header.init_time, 1234567890);
    assert_eq!(header.movie_id, 0xDEADBEEFCAFEF00D);
    assert_eq!(header.author, "movie author....................");
    assert_eq!(header.rerecords, 77);
    assert_eq!(header.inputs, 1000);
    assert_eq!(header.frames, 255);
}

#[test]
fn title_id_is_reversed_before_hex() {
    let mut buffer = scenario_buffer(0);
    buffer[4..12].copy_from_slice(&[0x01, 0x02, 0x03, 0x04, 0x05, 0x06, 0x07, 0x08]);
    let header = from_vec(buffer).unwrap();
    assert_eq!(header.title_id, "0807060504030201");
}

#[test]
fn corrupt_magic_is_rejected_everywhere() {
    let expected = [0x43u8, 0x54, 0x4D, 0x1B];
    for position in 0..4 {
        for value in 0..=255u8 {
            if value == expected[position] {
                continue;
            }
            let mut buffer = scenario_buffer(2340);
            buffer[position] = value;
            assert_eq!(
                from_vec(buffer).unwrap_err(),
                DecodeError::InvalidMagic,
                "byte {} set to {}",
                position,
                value
            );
        }
    }
}

#[test]
fn truncation_is_rejected_at_every_length() {
    let full = scenario_buffer(2340);
    for length in 0..92 {
        let truncated = full[..length].to_vec();
        assert_eq!(
            decode(&truncated, FormatVariant::WithInputCount).unwrap_err(),
            DecodeError::UnexpectedEnd,
            "length {}",
            length
        );
    }
    for length in 0..84 {
        let truncated = full[..length].to_vec();
        assert_eq!(
            decode(&truncated, FormatVariant::Reduced).unwrap_err(),
            DecodeError::UnexpectedEnd,
            "length {}",
            length
        );
    }
}

#[test]
fn reduced_layout_has_no_input_count() {
    let full = scenario_buffer(2340);
    let reduced = full[..84].to_vec();
    let header = decode(&reduced, FormatVariant::Reduced).unwrap();
    assert_eq!(header.inputs, 0);
    assert_eq!(header.frames, 0);
    // Trailing bytes beyond the reduced layout are ignored.
    let header = decode(&full, FormatVariant::Reduced).unwrap();
    assert_eq!(header.inputs, 0);
    assert_eq!(header.frames, 0);
}

#[test]
fn lone_continuation_byte_is_invalid_text() {
    for position in 48..80 {
        let mut buffer = scenario_buffer(2340);
        buffer[position] = 0x80;
        assert_eq!(
            from_vec(buffer).unwrap_err(),
            DecodeError::InvalidText,
            "author byte at {}",
            position
        );
    }
}

#[test]
fn multibyte_author_text_decodes() {
    let mut buffer = scenario_buffer(2340);
    let text = "café movie\u{1F3AE} padded to width!";
    let bytes = text.as_bytes();
    assert_eq!(bytes.len(), 32);
    buffer[48..80].copy_from_slice(bytes);
    let header = from_vec(buffer).unwrap();
    assert_eq!(header.author, text);
}

#[test]
fn out_of_range_timestamp_is_rejected() {
    let mut buffer = scenario_buffer(2340);
    buffer[32..40].copy_from_slice(&i64::MAX.to_le_bytes());
    assert_eq!(from_vec(buffer).unwrap_err(), DecodeError::InvalidTimestamp);

    let mut buffer = scenario_buffer(2340);
    buffer[32..40].copy_from_slice(&i64::MIN.to_le_bytes());
    assert_eq!(from_vec(buffer).unwrap_err(), DecodeError::InvalidTimestamp);
}

#[test]
fn timestamp_range_boundaries() {
    let max_valid: i64 = 8210266876799;
    let min_valid: i64 = -8334601228800;

    let mut buffer = scenario_buffer(2340);
    buffer[32..40].copy_from_slice(&max_valid.to_le_bytes());
    assert_eq!(from_vec(buffer).unwrap().init_time, max_valid);

    let mut buffer = scenario_buffer(2340);
    buffer[32..40].copy_from_slice(&(max_valid + 1).to_le_bytes());
    assert_eq!(from_vec(buffer).unwrap_err(), DecodeError::InvalidTimestamp);

    let mut buffer = scenario_buffer(2340);
    buffer[32..40].copy_from_slice(&min_valid.to_le_bytes());
    assert_eq!(from_vec(buffer).unwrap().init_time, min_valid);

    let mut buffer = scenario_buffer(2340);
    buffer[32..40].copy_from_slice(&(min_valid - 1).to_le_bytes());
    assert_eq!(from_vec(buffer).unwrap_err(), DecodeError::InvalidTimestamp);
}

#[test]
fn negative_timestamp_decodes() {
    let mut buffer = scenario_buffer(2340);
    buffer[32..40].copy_from_slice(&(-1i64).to_le_bytes());
    assert_eq!(from_vec(buffer).unwrap().init_time, -1);
}

#[test]
fn default_record_is_empty() {
    let header = CTM::default();
    assert_eq!(header.title_id, "");
    assert_eq!(header.git_hash, "");
    assert_eq!(header.init_time, 0);
    assert_eq!(header.movie_id, 0);
    assert_eq!(header.author, "");
    assert_eq!(header.rerecords, 0);
    assert_eq!(header.frames, 0);
    assert_eq!(header.inputs, 0);
}

#[test]
fn error_messages_name_the_fault() {
    assert_eq!(DecodeError::InvalidMagic.message(), "Invalid magic");
    assert_eq!(DecodeError::UnexpectedEnd.message(), "Unexpected end of buffer");
    assert_eq!(DecodeError::InvalidTimestamp.message(), "Timestamp out of range");
    assert_eq!(DecodeError::InvalidText.message(), "Author is not valid UTF-8");
}
