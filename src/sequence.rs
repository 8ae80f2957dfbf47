use vstd::prelude::*;
use crate::content::ContentId;
use crate::error::{DownloadStage, TransferError};
use crate::naming::{lemma_name_round_trip, save_name_of};
use vstd::utf8::encode_utf8;

verus! {

/// The `i`-th 32-byte entry of a serialized id list.
pub open spec fn entry(s: Seq<u8>, i: int) -> Seq<u8> {
    s.subrange(32 * i, 32 * i + 32)
}

/// What a bundle's sequence bytes resolve to: the metadata id and the
/// payload id, its first two entries.
pub open spec fn resolve_spec(s: Seq<u8>) -> Result<(Seq<u8>, Seq<u8>), TransferError> {
    if s.len() % 32 != 0 {
        Err(TransferError::DownloadFailed(DownloadStage::Sequence))
    } else if s.len() / 32 < 2 {
        Err(TransferError::InvalidSequenceLength)
    } else {
        Ok((entry(s, 0), entry(s, 1)))
    }
}

/// Relies on iroh_blobs::HashSeq::try_from and its iterator: bytes whose
/// length is a multiple of 32 are a list of ids, one per 32 bytes, in order;
/// other lengths are refused.
#[verifier::external_body]
fn hash_seq_entries(bytes: Vec<u8>) -> (r: Option<Vec<ContentId>>)
    ensures
        r is Some <==> bytes@.len() % 32 == 0,
        r is Some ==> r->0@.len() == bytes@.len() / 32,
        r is Some ==> forall|i: int| 0 <= i < r->0@.len() ==> #[trigger] r->0@[i]@ == entry(bytes@, i),
{
    let seq = iroh_blobs::hashseq::HashSeq::try_from(bytes::Bytes::from(bytes)).ok()?;
    Some(seq.into_iter().map(|h| ContentId { bytes: *h.as_bytes() }).collect())
}

/// Relies on iroh_blobs::HashSeq::from_iter: the bytes of a list of ids are
/// the ids' bytes one after the other.
#[verifier::external_body]
fn hash_seq_of_pair(first: ContentId, second: ContentId) -> (r: Vec<u8>)
    ensures
        r@ == first@ + second@,
{
    let seq = iroh_blobs::hashseq::HashSeq::from_iter([
        iroh_blobs::Hash::from_bytes(first.bytes),
        iroh_blobs::Hash::from_bytes(second.bytes),
    ]);
    seq.into_inner().to_vec()
}

/// The bytes of the sequence unit that bundles a metadata unit and a payload.
pub fn bundle_sequence(meta: ContentId, payload: ContentId) -> (r: Vec<u8>)
    ensures
        r@ == meta@ + payload@,
{
    hash_seq_of_pair(meta, payload)
}

/// Reads the sequence unit of a bundle: its metadata id and its payload id.
pub fn resolve_sequence(seq_bytes: Vec<u8>) -> (r: Result<(ContentId, ContentId), TransferError>)
    ensures
        match resolve_spec(seq_bytes@) {
            Ok((m, p)) => match r {
                Ok((a, b)) => a@ == m && b@ == p,
                Err(_) => false,
            },
            Err(e) => r == Err::<(ContentId, ContentId), TransferError>(e),
        },
{
    let ghost s = seq_bytes@;
    match hash_seq_entries(seq_bytes) {
        None => Err(TransferError::DownloadFailed(DownloadStage::Sequence)),
        Some(ids) => {
            if ids.len() < 2 {
                Err(TransferError::InvalidSequenceLength)
            } else {
                assert(ids@[0]@ == entry(s, 0));
                assert(ids@[1]@ == entry(s, 1));
                Ok((ids[0], ids[1]))
            }
        },
    }
}

/// A bundle resolves to the metadata id and the payload id it was built from.
pub proof fn lemma_bundle_round_trip(meta: Seq<u8>, payload: Seq<u8>)
    requires
        meta.len() == 32,
        payload.len() == 32,
    ensures
        resolve_spec(meta + payload) == Ok::<(Seq<u8>, Seq<u8>), TransferError>((meta, payload)),
{
    let s = meta + payload;
    assert(entry(s, 0) =~= meta);
    assert(entry(s, 1) =~= payload);
}

/// A well-formed sequence with fewer than two entries is refused with
/// `InvalidSequenceLength`.
pub proof fn lemma_short_sequence_rejected(s: Seq<u8>)
    requires
        s.len() % 32 == 0,
        s.len() < 64,
    ensures
        resolve_spec(s) == Err::<(Seq<u8>, Seq<u8>), TransferError>(TransferError::InvalidSequenceLength),
{
}

/// A file sent under a non-empty name comes back under that name: the bundle
/// built from its metadata and payload ids resolves to those ids, and the
/// metadata unit, the name's UTF-8 bytes, gives back the name.
pub proof fn lemma_file_round_trip(name: Seq<char>, meta: Seq<u8>, payload: Seq<u8>)
    requires
        name.len() > 0,
        meta.len() == 32,
        payload.len() == 32,
    ensures
        resolve_spec(meta + payload) == Ok::<(Seq<u8>, Seq<u8>), TransferError>((meta, payload)),
        save_name_of(encode_utf8(name), payload) == name,
{
    lemma_bundle_round_trip(meta, payload);
    lemma_name_round_trip(name, payload);
}

} // verus!
