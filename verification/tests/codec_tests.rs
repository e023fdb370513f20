use thruster_grpc::codec::{append_chunk, decode_frame, encode_frame, CodecError};

#[test]
fn encode_empty_payload_is_bare_header() {
    let framed = encode_frame(&[]).unwrap();
    assert_eq!(framed, vec![0u8, 0, 0, 0, 0]);
}

#[test]
fn encode_prepends_flag_and_length() {
    let framed = encode_frame(&[1u8, 2, 3]).unwrap();
    assert_eq!(framed.len(), 5 + 3);
    assert_eq!(framed, vec![0u8, 0, 0, 0, 3, 1, 2, 3]);
}

#[test]
fn encode_length_field_is_big_endian() {
    let payload = vec![9u8; 300];
    let framed = encode_frame(payload.as_slice()).unwrap();
    assert_eq!(framed.len(), 305);
    assert_eq!(framed[0], 0);
    assert_eq!(&framed[1..5], &[0, 0, 1, 44]);
    assert_eq!(&framed[5..], payload.as_slice());
}

#[test]
fn decode_of_encode_is_identity() {
    for payload in [
        vec![],
        vec![42u8],
        vec![0u8, 1, 2, 3, 4, 5, 6, 7, 8, 9],
        vec![0xFFu8; 1000],
    ] {
        let framed = encode_frame(payload.as_slice()).unwrap();
        let decoded = decode_frame(framed.as_slice()).unwrap();
        assert_eq!(decoded, payload);
    }
}

#[test]
fn decode_fails_on_fewer_than_five_octets() {
    assert_eq!(decode_frame(&[]), Err(CodecError::Truncated));
    assert_eq!(decode_frame(&[0]), Err(CodecError::Truncated));
    assert_eq!(decode_frame(&[0, 0, 0, 0]), Err(CodecError::Truncated));
}

#[test]
fn decode_takes_exactly_five_header_octets() {
    // The flag octet is not validated and the length field is not
    // cross-checked; the five header octets are skipped as they stand.
    assert_eq!(decode_frame(&[0xFF, 9, 9, 9, 9, 7, 7]), Ok(vec![7u8, 7]));
    assert_eq!(decode_frame(&[0, 0, 0, 0, 0]), Ok(vec![]));
}

#[test]
fn chunks_concatenate_in_arrival_order() {
    let mut acc: Vec<u8> = Vec::new();
    append_chunk(&mut acc, &[1, 2]);
    append_chunk(&mut acc, &[]);
    append_chunk(&mut acc, &[3]);
    append_chunk(&mut acc, &[4, 5, 6]);
    assert_eq!(acc, vec![1u8, 2, 3, 4, 5, 6]);
}
