use wg_mtu_finder::codec::{
    decode_frame, decode_message, encode_frame, encode_message, u32_from_be, u32_to_be,
};
use wg_mtu_finder::messages::{Message, ProtocolError};

#[test]
fn round_trip_all_variants_through_frames() {
    let msgs = [
        Message::ServerReady,
        Message::PeerDone,
        Message::Finish,
        Message::MtuValue(0),
        Message::MtuValue(1420),
        Message::MtuValue(u32::MAX),
    ];
    for m in msgs {
        let frame = encode_frame(&m);
        assert_eq!(decode_frame(frame.as_slice()), Ok(m));
        let payload = encode_message(&m);
        assert_eq!(decode_message(payload.as_slice()), Ok(m));
    }
}

#[test]
fn payloads_match_their_json_form() {
    assert_eq!(
        encode_message(&Message::ServerReady),
        b"\"ServerReady\"".to_vec()
    );
    assert_eq!(encode_message(&Message::PeerDone), b"\"PeerDone\"".to_vec());
    assert_eq!(encode_message(&Message::Finish), b"\"Finish\"".to_vec());
    assert_eq!(
        encode_message(&Message::MtuValue(1420)),
        b"{\"MtuValue\":1420}".to_vec()
    );
}

#[test]
fn payloads_agree_with_a_json_serializer() {
    // The unit variants serialize as their quoted names.
    let name = serde_json::Value::String("ServerReady".to_string());
    assert_eq!(
        encode_message(&Message::ServerReady),
        serde_json::to_vec(&name).unwrap()
    );
    // The value-carrying variant serializes as a one-field object.
    let mut obj = serde_json::Map::new();
    obj.insert(
        "MtuValue".to_string(),
        serde_json::Value::Number(serde_json::Number::from(1420u32)),
    );
    assert_eq!(
        encode_message(&Message::MtuValue(1420)),
        serde_json::to_vec(&serde_json::Value::Object(obj)).unwrap()
    );
}

#[test]
fn frame_layout_is_length_prefixed() {
    let frame = encode_frame(&Message::Finish);
    assert_eq!(frame.len(), 4 + 8);
    assert_eq!(&frame[0..4], &[0, 0, 0, 8]);
    assert_eq!(&frame[4..], b"\"Finish\"");
}

#[test]
fn malformed_payloads_are_refused() {
    let bad: [&[u8]; 8] = [
        b"",
        b"\"Unknown\"",
        b"\"ServerReady",
        b"{\"MtuValue\":}",
        b"{\"MtuValue\":007}",
        b"{\"MtuValue\":4294967296}",
        b"{\"MtuValue\":12a4}",
        b"{\"MtuValue\":1420} ",
    ];
    for payload in bad {
        assert_eq!(decode_message(payload), Err(ProtocolError::Malformed));
    }
}

#[test]
fn short_frames_are_truncated() {
    assert_eq!(decode_frame(b""), Err(ProtocolError::Truncated));
    assert_eq!(decode_frame(&[0, 0, 0]), Err(ProtocolError::Truncated));
    // Declares eight payload bytes but carries three.
    assert_eq!(
        decode_frame(b"\x00\x00\x00\x08\"Fi"),
        Err(ProtocolError::Truncated)
    );
}

#[test]
fn overlong_frames_are_malformed() {
    // Declares eight payload bytes but carries nine.
    assert_eq!(
        decode_frame(b"\x00\x00\x00\x08\"Finish\"!"),
        Err(ProtocolError::Malformed)
    );
}

#[test]
fn big_endian_length_round_trips() {
    for n in [0u32, 1, 255, 256, 65536, 0x01020304, u32::MAX] {
        let b = u32_to_be(n);
        assert_eq!(b.len(), 4);
        assert_eq!(u32_from_be(b.as_slice()), n);
        assert_eq!(b, n.to_be_bytes().to_vec());
    }
}
