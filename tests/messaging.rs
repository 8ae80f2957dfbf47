use hole_transfer::{
    decode_frame, encode_frame, frame_length, incoming_from, subscribe_messages, IncomingMessage, SubscriberSlot,
    TransferError, WireMessage, MAX_MESSAGE_LEN,
};

#[test]
fn frame_is_big_endian_length_then_payload() {
    assert_eq!(encode_frame(b"hi"), Ok(vec![0, 0, 0, 2, b'h', b'i']));
    assert_eq!(encode_frame(b""), Ok(vec![0, 0, 0, 0]));
    let payload = vec![0xABu8; 0x0102];
    let framed = encode_frame(&payload).unwrap();
    assert_eq!(&framed[..4], &[0, 0, 1, 2]);
    assert_eq!(&framed[4..], payload.as_slice());
}

#[test]
fn oversized_payload_is_not_framed() {
    let payload = vec![0u8; MAX_MESSAGE_LEN + 1];
    assert_eq!(encode_frame(&payload), Err(TransferError::FramingError));
    assert!(encode_frame(&vec![0u8; MAX_MESSAGE_LEN]).is_ok());
}

#[test]
fn frame_round_trip() {
    let payload = br#"{"text":"hi","sender_ticket":"blobabc"}"#.to_vec();
    let framed = encode_frame(&payload).unwrap();
    assert_eq!(decode_frame(&framed), Ok(payload));
}

#[test]
fn frame_length_reads_big_endian() {
    assert_eq!(frame_length(&[0, 0, 0, 5]), Ok(5));
    assert_eq!(frame_length(&[0, 1, 0, 0]), Ok(65536));
    assert_eq!(frame_length(&[0, 0x10, 0, 0]), Ok(MAX_MESSAGE_LEN));
    assert_eq!(frame_length(&[0, 0x10, 0, 1]), Err(TransferError::FramingError));
    assert_eq!(frame_length(&[0xFF, 0xFF, 0xFF, 0xFF]), Err(TransferError::FramingError));
}

#[test]
fn short_reads_are_framing_errors() {
    assert_eq!(decode_frame(&[0, 0, 0]), Err(TransferError::FramingError));
    assert_eq!(decode_frame(&[0, 0, 0, 3, b'a', b'b']), Err(TransferError::FramingError));
}

#[test]
fn bytes_after_a_frame_are_ignored() {
    assert_eq!(decode_frame(&[0, 0, 0, 1, b'a', b'b']), Ok(vec![b'a']));
}

#[test]
fn incoming_message_carries_sender_and_ticket() {
    let wire = WireMessage::new("hi".to_string(), "TICKET:blobxyz".to_string());
    let msg = incoming_from("peer-id".to_string(), wire);
    assert_eq!(
        msg,
        IncomingMessage { from: "peer-id".to_string(), text: "hi".to_string(), ticket: "TICKET:blobxyz".to_string() }
    );
}

#[test]
fn second_subscription_is_refused() {
    let mut slot: SubscriberSlot<u32> = SubscriberSlot::new();
    assert!(!slot.is_subscribed());
    assert_eq!(subscribe_messages(&mut slot, 1), Ok(()));
    assert!(slot.is_subscribed());
    assert_eq!(subscribe_messages(&mut slot, 2), Err(TransferError::AlreadySubscribed));
    assert_eq!(slot.sink(), Some(&1));
}
