use mac_window::drag_payload::{decode_custom_drag_payload, encode_custom_drag_payload};

#[test]
fn payload_starts_with_the_length_of_its_type() {
    assert_eq!(
        encode_custom_drag_payload("tab", &[9, 8]),
        [0, 0, 0, 3, b't', b'a', b'b', 9, 8]
    );
}

#[test]
fn decoding_undoes_encoding() {
    for (drag_type, data) in [
        ("tab", &[1u8, 2, 3][..]),
        ("", &[][..]),
        ("größe/日本", &[0, 255][..]),
        ("x", &[][..]),
    ] {
        let encoded = encode_custom_drag_payload(drag_type, data);
        assert_eq!(
            decode_custom_drag_payload(&encoded),
            Some((drag_type.to_string(), data.to_vec()))
        );
    }
}

#[test]
fn encoding_undoes_decoding() {
    let bytes = [0, 0, 0, 2, b'a', b'b', 7];
    let (drag_type, data) = decode_custom_drag_payload(&bytes).expect("a payload");
    assert_eq!(encode_custom_drag_payload(&drag_type, &data), bytes);
}

#[test]
fn long_type_names_use_more_length_bytes() {
    let drag_type = "n".repeat(70_000);
    let encoded = encode_custom_drag_payload(&drag_type, &[]);
    assert_eq!(&encoded[..4], [0, 1, 0x11, 0x70]);
    assert_eq!(decode_custom_drag_payload(&encoded), Some((drag_type, vec![])));
}

#[test]
fn broken_payloads_are_refused() {
    assert_eq!(decode_custom_drag_payload(&[]), None);
    assert_eq!(decode_custom_drag_payload(&[0, 0, 0]), None);
    assert_eq!(decode_custom_drag_payload(&[0, 0, 0, 2, b'a']), None);
    assert_eq!(decode_custom_drag_payload(&[255, 255, 255, 255, b'a']), None);
    assert_eq!(decode_custom_drag_payload(&[0, 0, 0, 1, 0xff, 1]), None);
}
