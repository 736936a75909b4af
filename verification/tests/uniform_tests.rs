use radar::uniform::{FrameUniform, UNIFORM_BYTES};

#[test]
fn encode_has_record_length() {
    let u = FrameUniform::new(1, 2, 3);
    assert_eq!(u.encode().len(), UNIFORM_BYTES);
}

#[test]
fn new_zeroes_the_padding_word() {
    let u = FrameUniform::new(7, 8, 9);
    assert_eq!(u.pad_bits, 0);
    assert_eq!(u.angle_bits, 7);
    assert_eq!(u.aspect_bits, 8);
    assert_eq!(u.radius_bits, 9);
}

#[test]
fn encode_is_little_endian_in_field_order() {
    let u = FrameUniform {
        angle_bits: 0x0403_0201,
        aspect_bits: 0x0807_0605,
        radius_bits: 0x0c0b_0a09,
        pad_bits: 0x100f_0e0d,
    };
    assert_eq!(
        u.encode(),
        vec![1, 2, 3, 4, 5, 6, 7, 8, 9, 10, 11, 12, 13, 14, 15, 16]
    );
}

#[test]
fn encode_matches_float_to_le_bytes() {
    let angle = 1.25f32;
    let aspect = 800.0f32 / 600.0f32;
    let radius = 0.9f32;
    let u = FrameUniform::new(angle.to_bits(), aspect.to_bits(), radius.to_bits());
    let bytes = u.encode();
    assert_eq!(&bytes[0..4], &angle.to_le_bytes());
    assert_eq!(&bytes[4..8], &aspect.to_le_bytes());
    assert_eq!(&bytes[8..12], &radius.to_le_bytes());
    assert_eq!(&bytes[12..16], &0f32.to_le_bytes());
}

#[test]
fn decode_inverts_encode() {
    let u = FrameUniform::new(0xdead_beef, 0x1234_5678, 0x9abc_def0);
    let bytes = u.encode();
    assert_eq!(FrameUniform::decode(&bytes), Some(u));
}

#[test]
fn decode_rejects_wrong_length() {
    assert_eq!(FrameUniform::decode(&[]), None);
    assert_eq!(FrameUniform::decode(&[0; 15]), None);
    assert_eq!(FrameUniform::decode(&[0; 17]), None);
}

#[test]
fn decode_reads_little_endian_words() {
    let bytes: Vec<u8> = (1..=16).collect();
    let u = FrameUniform::decode(&bytes).unwrap();
    assert_eq!(u.angle_bits, 0x0403_0201);
    assert_eq!(u.aspect_bits, 0x0807_0605);
    assert_eq!(u.radius_bits, 0x0c0b_0a09);
    assert_eq!(u.pad_bits, 0x100f_0e0d);
}
