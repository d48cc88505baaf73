use mansion::frame::{decode_header, encode_frame, HEADER_LEN};

#[test]
fn frame_layout_is_big_endian_id_length_payload() {
    let out = encode_frame(0x0102, &[0xAA, 0xBB]);
    assert_eq!(out, vec![0x01, 0x02, 0x00, 0x00, 0x00, 0x02, 0xAA, 0xBB]);
}

#[test]
fn frame_of_empty_payload_is_a_bare_header() {
    let out = encode_frame(0xFFFF, &[]);
    assert_eq!(out, vec![0xFF, 0xFF, 0, 0, 0, 0]);
    assert_eq!(out.len(), HEADER_LEN);
}

#[test]
fn header_of_a_frame_gives_back_id_and_length() {
    let payload: Vec<u8> = (0..300u32).map(|i| (i % 251) as u8).collect();
    let out = encode_frame(513, &payload);
    assert_eq!(decode_header(&out), Some((513, 300)));
    assert_eq!(&out[HEADER_LEN..], &payload[..]);
}

#[test]
fn header_reads_large_values() {
    let header = [0x12, 0x34, 0x89, 0xAB, 0xCD, 0xEF, 0x00];
    assert_eq!(decode_header(&header), Some((0x1234, 0x89AB_CDEF)));
}

#[test]
fn short_header_is_refused() {
    assert_eq!(decode_header(&[1, 2, 3, 4, 5]), None);
    assert_eq!(decode_header(&[]), None);
}
