use vstd::prelude::*;
use vstd::utf8::encode_utf8;
use crate::content::{ContentId, ContentShape};
use crate::error::TransferError;
use crate::naming::{metadata_bytes, sent_file_name, sent_name};
use crate::sequence::bundle_sequence;

verus! {

/// Where the building of a bundle stands between two imports.
#[derive(Debug, PartialEq, Eq)]
pub enum SendState {
    /// Importing the file; the name it travels under.
    ImportingPayload(String),
    /// Importing the metadata unit for the payload.
    ImportingMetadata(ContentId),
    /// Importing the sequence unit.
    ImportingSequence,
    Done,
}

/// What the caller does next.
#[derive(Debug, PartialEq, Eq)]
pub enum SendAction {
    /// Import the file itself, as a single unit.
    ImportFile,
    /// Import these bytes as a unit of the given shape.
    ImportBytes(Vec<u8>, ContentShape),
    /// Hand out a ticket for the sequence unit with this id.
    Publish(ContentId),
    /// Stop and tell the user; the operation itself does not fail.
    Abort(TransferError),
    /// The operation fails.
    Fail(TransferError),
}

/// The first step of sending the file at `path`; `exists` says whether it
/// is there.
pub fn send_start(path: &str, exists: bool) -> (r: (SendState, SendAction))
    ensures
        !exists ==> r.0 == SendState::Done && r.1 == SendAction::Abort(TransferError::FileNotFound),
        exists ==> r.1 == SendAction::ImportFile && match r.0 {
            SendState::ImportingPayload(n) => n@ == sent_name(path@),
            _ => false,
        },
{
    if !exists {
        (SendState::Done, SendAction::Abort(TransferError::FileNotFound))
    } else {
        (SendState::ImportingPayload(sent_file_name(path)), SendAction::ImportFile)
    }
}

/// The next step of building a bundle, from the id that the last import
/// gave, or `None` when it failed: the file, then its name as UTF-8, then
/// the sequence of the two ids, whose id is published.
pub fn send_step(state: SendState, imported: Option<ContentId>) -> (r: (SendState, SendAction))
    ensures
        state == SendState::Done ==> r.0 == SendState::Done && r.1 == SendAction::Fail(TransferError::ImportFailed),
        state != SendState::Done && imported is None ==> r.0 == SendState::Done && r.1 == SendAction::Fail(
            TransferError::ImportFailed,
        ),
        imported is Some ==> match state {
            SendState::ImportingPayload(name) => r.0 == SendState::ImportingMetadata(imported->0) && match r.1 {
                SendAction::ImportBytes(b, shape) => b@ == encode_utf8(name@) && shape == ContentShape::Single,
                _ => false,
            },
            SendState::ImportingMetadata(payload) => r.0 == SendState::ImportingSequence && match r.1 {
                SendAction::ImportBytes(b, shape) => b@ == imported->0@ + payload@ && shape == ContentShape::Sequence,
                _ => false,
            },
            SendState::ImportingSequence => r.0 == SendState::Done && r.1 == SendAction::Publish(imported->0),
            SendState::Done => true,
        },
{
    match state {
        SendState::Done => (SendState::Done, SendAction::Fail(TransferError::ImportFailed)),
        _ => match imported {
            None => (SendState::Done, SendAction::Fail(TransferError::ImportFailed)),
            Some(id) => match state {
                SendState::ImportingPayload(name) => {
                    let bytes = metadata_bytes(name.as_str());
                    (SendState::ImportingMetadata(id), SendAction::ImportBytes(bytes, ContentShape::Single))
                },
                SendState::ImportingMetadata(payload) => {
                    let bytes = bundle_sequence(id, payload);
                    (SendState::ImportingSequence, SendAction::ImportBytes(bytes, ContentShape::Sequence))
                },
                SendState::ImportingSequence => (SendState::Done, SendAction::Publish(id)),
                SendState::Done => (SendState::Done, SendAction::Fail(TransferError::ImportFailed)),
            },
        },
    }
}

} // verus!
