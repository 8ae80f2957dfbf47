use hole_transfer::{
    resolve_sequence, save_file_name, send_start, send_step, ContentId, ContentShape, SendAction, SendState,
    TransferError,
};

fn id(fill: u8) -> ContentId {
    ContentId { bytes: [fill; 32] }
}

#[test]
fn missing_file_is_reported_not_failed() {
    let (s, a) = send_start("/no/such/file.txt", false);
    assert_eq!(s, SendState::Done);
    assert_eq!(a, SendAction::Abort(TransferError::FileNotFound));
}

#[test]
fn send_imports_file_name_then_sequence() {
    let (s, a) = send_start("/data/pictures/照片.png", true);
    assert_eq!(s, SendState::ImportingPayload("照片.png".to_string()));
    assert_eq!(a, SendAction::ImportFile);
    let (s, a) = send_step(s, Some(id(2)));
    assert_eq!(a, SendAction::ImportBytes("照片.png".as_bytes().to_vec(), ContentShape::Single));
    let (s, a) = send_step(s, Some(id(1)));
    let mut expected = vec![1u8; 32];
    expected.extend_from_slice(&[2u8; 32]);
    assert_eq!(a, SendAction::ImportBytes(expected, ContentShape::Sequence));
    let (s, a) = send_step(s, Some(id(9)));
    assert_eq!(a, SendAction::Publish(id(9)));
    assert_eq!(s, SendState::Done);
}

#[test]
fn failed_import_fails_the_send() {
    let (s, _) = send_start("a.bin", true);
    let (s, a) = send_step(s, None);
    assert_eq!(a, SendAction::Fail(TransferError::ImportFailed));
    assert_eq!(s, SendState::Done);
    let (_, a) = send_step(s, Some(id(1)));
    assert_eq!(a, SendAction::Fail(TransferError::ImportFailed));
}

#[test]
fn what_is_sent_is_what_is_received() {
    let name = "Résumé – final.docx";
    let (s, _) = send_start(&format!("/home/u/{}", name), true);
    let (s, meta) = send_step(s, Some(id(4)));
    let meta_bytes = match meta {
        SendAction::ImportBytes(b, _) => b,
        other => panic!("unexpected {:?}", other),
    };
    let (_, seq) = send_step(s, Some(id(3)));
    let seq_bytes = match seq {
        SendAction::ImportBytes(b, _) => b,
        other => panic!("unexpected {:?}", other),
    };
    let (m, p) = resolve_sequence(seq_bytes).unwrap();
    assert_eq!((m, p), (id(3), id(4)));
    assert_eq!(save_file_name(&meta_bytes, &p), name);
}
