use hole_transfer::{
    address_ticket, bundle_sequence, decode_ticket, encode_ticket, label_ticket, resolve_sequence,
    ContentId, ContentShape, DownloadStage, TransferError,
};
use iroh::{EndpointAddr, SecretKey};

fn id(fill: u8) -> ContentId {
    ContentId { bytes: [fill; 32] }
}

fn addr() -> EndpointAddr {
    EndpointAddr::new(SecretKey::from_bytes(&[7u8; 32]).public())
}

#[test]
fn bundle_is_metadata_then_payload() {
    let bytes = bundle_sequence(id(1), id(2));
    assert_eq!(bytes.len(), 64);
    assert_eq!(&bytes[..32], &[1u8; 32]);
    assert_eq!(&bytes[32..], &[2u8; 32]);
}

#[test]
fn bundle_resolves_to_its_ids() {
    let bytes = bundle_sequence(id(3), id(4));
    assert_eq!(resolve_sequence(bytes), Ok((id(3), id(4))));
}

#[test]
fn longer_sequence_uses_first_two_entries() {
    let mut bytes = vec![5u8; 32];
    bytes.extend_from_slice(&[6u8; 32]);
    bytes.extend_from_slice(&[7u8; 32]);
    assert_eq!(resolve_sequence(bytes), Ok((id(5), id(6))));
}

#[test]
fn short_sequences_are_refused() {
    assert_eq!(resolve_sequence(Vec::new()), Err(TransferError::InvalidSequenceLength));
    assert_eq!(resolve_sequence(vec![1u8; 32]), Err(TransferError::InvalidSequenceLength));
}

#[test]
fn misaligned_sequence_is_a_failed_download() {
    assert_eq!(
        resolve_sequence(vec![1u8; 33]),
        Err(TransferError::DownloadFailed(DownloadStage::Sequence))
    );
    assert_eq!(
        resolve_sequence(vec![1u8; 65]),
        Err(TransferError::DownloadFailed(DownloadStage::Sequence))
    );
}

#[test]
fn ticket_round_trip_for_both_shapes() {
    for shape in [ContentShape::Single, ContentShape::Sequence] {
        let text = encode_ticket(&addr(), &id(9), shape);
        assert!(text.starts_with("blob"));
        let t = decode_ticket(&text).unwrap();
        assert_eq!(t.addr, addr());
        assert_eq!(t.id, id(9));
        assert_eq!(t.shape, shape);
    }
}

#[test]
fn labelled_ticket_decodes_the_same() {
    let text = encode_ticket(&addr(), &id(8), ContentShape::Sequence);
    let labelled = label_ticket(&text);
    assert_eq!(labelled, format!("TICKET:{}", text));
    let t = decode_ticket(&labelled).unwrap();
    assert_eq!(t.addr, addr());
    assert_eq!(t.id, id(8));
    assert_eq!(t.shape, ContentShape::Sequence);
}

#[test]
fn truncated_ticket_is_invalid() {
    let text = encode_ticket(&addr(), &id(2), ContentShape::Sequence);
    let cut = &text[..text.len() - 10];
    assert_eq!(decode_ticket(cut).unwrap_err(), TransferError::InvalidTicket);
}

#[test]
fn malformed_tickets_are_invalid() {
    assert_eq!(decode_ticket("").unwrap_err(), TransferError::InvalidTicket);
    assert_eq!(decode_ticket("TICKET:").unwrap_err(), TransferError::InvalidTicket);
    assert_eq!(decode_ticket("hello").unwrap_err(), TransferError::InvalidTicket);
    assert_eq!(decode_ticket("blob!!!!").unwrap_err(), TransferError::InvalidTicket);
}

#[test]
fn address_ticket_names_no_content() {
    let t = decode_ticket(&address_ticket(&addr())).unwrap();
    assert_eq!(t.addr, addr());
    assert_eq!(t.id, ContentId::zero());
    assert_eq!(t.shape, ContentShape::Single);
}
