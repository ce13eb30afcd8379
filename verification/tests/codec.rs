use wgpu_isosurface::codec::bytes_from_words;
use wgpu_isosurface::codec::words_from_bytes;

#[test]
fn words_decode_least_significant_byte_first() {
    let bytes = vec![0x78, 0x56, 0x34, 0x12];
    assert_eq!(words_from_bytes(&bytes), vec![0x12345678]);
}

#[test]
fn words_encode_least_significant_byte_first() {
    let words = vec![0x12345678u32, 0xFF000001];
    assert_eq!(
        bytes_from_words(&words),
        vec![0x78, 0x56, 0x34, 0x12, 0x01, 0x00, 0x00, 0xFF]
    );
}

#[test]
fn trailing_fragment_carries_no_element() {
    let bytes = vec![1, 0, 0, 0, 2, 0, 0];
    assert_eq!(words_from_bytes(&bytes), vec![1]);
}

#[test]
fn encode_then_decode_round_trips() {
    let words = vec![1u32, 2, 3, 4, 5, u32::MAX, 0, 0x8000_0000];
    assert_eq!(words_from_bytes(&bytes_from_words(&words)), words);
}

#[test]
fn encoding_matches_the_device_byte_order() {
    // The staging byte order is the device's native one; the codec must
    // agree with a raw in-memory cast of the same words.
    let words = vec![0x12345678u32, 0x0000_0001, 0xFFFF_FFFF, 7];
    let raw: &[u8] = bytemuck::cast_slice(&words);
    assert_eq!(bytes_from_words(&words), raw.to_vec());
    assert_eq!(words_from_bytes(&raw.to_vec()), words);
}

#[test]
fn empty_input_round_trips_empty() {
    let words: Vec<u32> = Vec::new();
    assert_eq!(bytes_from_words(&words), Vec::<u8>::new());
    assert_eq!(words_from_bytes(&Vec::new()), Vec::<u32>::new());
}
