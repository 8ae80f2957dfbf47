use vstd::prelude::*;
use iroh::EndpointAddr;
use crate::content::{ContentId, ContentShape};
use crate::error::TransferError;

verus! {

#[verifier::external_type_specification]
#[verifier::external_body]
pub struct ExEndpointAddr(iroh::EndpointAddr);

/// A peer's address together with the id and shape of the content it serves.
#[derive(Debug)]
pub struct Ticket {
    pub addr: EndpointAddr,
    pub id: ContentId,
    pub shape: ContentShape,
}

/// The id bytes, and whether the shape is a sequence, that
/// `BlobTicket::from_str` reads from a text, if it accepts it.
pub uninterp spec fn blob_ticket_fields(text: Seq<char>) -> Option<(Seq<u8>, bool)>;

/// Relies on str::strip_prefix: the rest of `s` after `prefix`, when `s`
/// starts with it.
#[verifier::external_body]
fn strip_prefix_of<'a>(s: &'a str, prefix: &str) -> (r: Option<&'a str>)
    ensures
        r is Some <==> prefix@.is_prefix_of(s@),
        r is Some ==> r->0@ == s@.subrange(prefix@.len() as int, s@.len() as int),
{
    s.strip_prefix(prefix)
}

/// Relies on iroh_blobs::ticket::BlobTicket::from_str, through its
/// `into_parts`: it accepts only texts that start with "blob", and its result
/// depends on the text alone.
#[verifier::external_body]
fn parse_blob_ticket(s: &str) -> (r: Option<(EndpointAddr, ContentId, ContentShape)>)
    ensures
        match r {
            Some((_, id, shape)) => blob_ticket_fields(s@) == Some((id@, shape == ContentShape::Sequence)),
            None => blob_ticket_fields(s@) is None,
        },
        !"blob"@.is_prefix_of(s@) ==> r is None,
{
    match s.parse::<iroh_blobs::ticket::BlobTicket>() {
        Ok(t) => {
            let (addr, hash, format) = t.into_parts();
            let shape = match format {
                iroh_blobs::BlobFormat::Raw => ContentShape::Single,
                iroh_blobs::BlobFormat::HashSeq => ContentShape::Sequence,
            };
            Some((addr, ContentId { bytes: *hash.as_bytes() }, shape))
        },
        Err(_) => None,
    }
}

/// Relies on iroh_blobs::ticket::BlobTicket::new and its `Display`: the text
/// is "blob" followed by base32 of the ticket's postcard bytes, which
/// `from_str` reads back to the same id and format.
#[verifier::external_body]
fn blob_ticket_text(addr: &EndpointAddr, id: &ContentId, shape: ContentShape) -> (r: String)
    ensures
        blob_ticket_fields(r@) == Some((id@, shape == ContentShape::Sequence)),
        "blob"@.is_prefix_of(r@),
{
    let format = match shape {
        ContentShape::Single => iroh_blobs::BlobFormat::Raw,
        ContentShape::Sequence => iroh_blobs::BlobFormat::HashSeq,
    };
    let hash = iroh_blobs::Hash::from_bytes(id.bytes);
    iroh_blobs::ticket::BlobTicket::new(addr.clone(), hash, format).to_string()
}

/// The label that may stand before a ticket's text.
pub open spec fn label() -> Seq<char> {
    "TICKET:"@
}

/// A ticket's text with the optional label taken off.
pub open spec fn ticket_body(s: Seq<char>) -> Seq<char> {
    if label().is_prefix_of(s) {
        s.subrange(label().len() as int, s.len() as int)
    } else {
        s
    }
}

pub open spec fn shape_of(is_sequence: bool) -> ContentShape {
    if is_sequence {
        ContentShape::Sequence
    } else {
        ContentShape::Single
    }
}

/// The id and shape that a ticket text decodes to, if it is valid.
pub open spec fn decode_spec(s: Seq<char>) -> Option<(Seq<u8>, ContentShape)> {
    match blob_ticket_fields(ticket_body(s)) {
        Some((id, is_sequence)) => Some((id, shape_of(is_sequence))),
        None => None,
    }
}

/// Decodes a ticket, with or without its label.
pub fn decode_ticket(s: &str) -> (r: Result<Ticket, TransferError>)
    ensures
        match decode_spec(s@) {
            Some((id, shape)) => r is Ok && r->Ok_0.id@ == id && r->Ok_0.shape == shape,
            None => r == Err::<Ticket, TransferError>(TransferError::InvalidTicket),
        },
{
    let body = match strip_prefix_of(s, "TICKET:") {
        Some(rest) => rest,
        None => s,
    };
    match parse_blob_ticket(body) {
        Some((addr, id, shape)) => Ok(Ticket { addr, id, shape }),
        None => Err(TransferError::InvalidTicket),
    }
}

/// The text of a ticket for content served by the peer at `addr`.
pub fn encode_ticket(addr: &EndpointAddr, id: &ContentId, shape: ContentShape) -> (r: String)
    ensures
        decode_spec(r@) == Some((id@, shape)),
        decode_spec(label() + r@) == Some((id@, shape)),
{
    let r = blob_ticket_text(addr, id, shape);
    proof {
        lemma_ticket_round_trip(r@, id@, shape);
    }
    r
}

/// The ticket text with its label in front, as a sender shows it.
pub fn label_ticket(text: &str) -> (r: String)
    ensures
        r@ == label() + text@,
{
    let mut r = String::new();
    r.append("TICKET:");
    r.append(text);
    r
}

/// The ticket that names a peer without content: the zero id, single shape.
pub fn address_ticket(addr: &EndpointAddr) -> (r: String)
    ensures
        decode_spec(r@) == Some((Seq::new(32, |i: int| 0u8), ContentShape::Single)),
{
    let zero = ContentId::zero();
    encode_ticket(addr, &zero, ContentShape::Single)
}

/// A ticket text made by the codec decodes to the id and shape it was made
/// from, with or without the label in front.
pub proof fn lemma_ticket_round_trip(text: Seq<char>, id: Seq<u8>, shape: ContentShape)
    requires
        blob_ticket_fields(text) == Some((id, shape == ContentShape::Sequence)),
        "blob"@.is_prefix_of(text),
    ensures
        decode_spec(text) == Some((id, shape)),
        decode_spec(label() + text) == Some((id, shape)),
{
    reveal_strlit("blob");
    reveal_strlit("TICKET:");
    assert(text.subrange(0, 4)[0] == text[0]);
    assert(text[0] == 'b');
    assert(!label().is_prefix_of(text)) by {
        if label().is_prefix_of(text) {
            assert(text.subrange(0, label().len() as int)[0] == text[0]);
            assert(text[0] == label()[0]);
        }
    }
    let labelled = label() + text;
    assert(label().is_prefix_of(labelled)) by {
        assert(labelled.subrange(0, label().len() as int) =~= label());
    }
    assert(labelled.subrange(label().len() as int, labelled.len() as int) =~= text);
}

} // verus!
