use vstd::prelude::*;
use crate::content::{ContentId, ContentShape};
use crate::error::{DownloadStage, TransferError};
use crate::naming::{legacy_file_name, received_name, save_file_name, save_name_of};
use crate::sequence::{resolve_sequence, resolve_spec};
use crate::signature::{extension_of, kind_of};

verus! {

/// Where a download stands between two actions.
#[derive(Debug, PartialEq, Eq)]
pub enum ReceiveState {
    /// Fetching the unit the ticket names.
    FetchingRoot(ContentId, ContentShape),
    /// Reading a fetched sequence unit.
    ReadingSequence(ContentId),
    /// Fetching the metadata unit (first id) of a bundle whose payload is the second.
    FetchingMetadata(ContentId, ContentId),
    /// Reading the metadata unit of a bundle.
    ReadingMetadata(ContentId, ContentId),
    /// Fetching the payload, to be saved under the name.
    FetchingPayload(ContentId, String),
    /// Reading the leading bytes of a single unit.
    ReadingHead(ContentId),
    /// Writing the content to disk.
    Saving,
    Done,
}

/// What the caller does next, and reports on with an `Outcome`.
#[derive(Debug, PartialEq, Eq)]
pub enum ReceiveAction {
    /// Fetch a unit from the peer.
    Fetch(ContentId, DownloadStage),
    /// Read a whole unit from the local store.
    ReadAll(ContentId),
    /// Read up to the first twelve bytes of a unit from the local store.
    ReadHead(ContentId),
    /// Write a unit to the download directory under a name.
    Save(ContentId, String),
    /// The file is saved.
    Finish,
    /// The download failed.
    Fail(TransferError),
}

/// How the last action went: whether it succeeded, and the bytes it read.
pub struct Outcome {
    pub ok: bool,
    pub data: Vec<u8>,
}

pub open spec fn root_stage(shape: ContentShape) -> DownloadStage {
    match shape {
        ContentShape::Sequence => DownloadStage::Sequence,
        ContentShape::Single => DownloadStage::Payload,
    }
}

/// The first state and action of a download of `id`, read with `shape`.
pub fn receive_start(id: ContentId, shape: ContentShape) -> (r: (ReceiveState, ReceiveAction))
    ensures
        r.0 == ReceiveState::FetchingRoot(id, shape),
        r.1 == ReceiveAction::Fetch(id, root_stage(shape)),
{
    let stage = match shape {
        ContentShape::Sequence => DownloadStage::Sequence,
        ContentShape::Single => DownloadStage::Payload,
    };
    (ReceiveState::FetchingRoot(id, shape), ReceiveAction::Fetch(id, stage))
}

/// The next state and action of a download, from the outcome of the last one.
/// A sequence is read into its metadata and payload ids; a failed metadata
/// fetch or read only loses the name; the payload is saved under the name it
/// carried, or under a name from its id and leading bytes; any other failure
/// ends the download without saving.
pub fn receive_step(state: ReceiveState, outcome: Outcome) -> (r: (ReceiveState, ReceiveAction))
    ensures
        match state {
            ReceiveState::FetchingRoot(id, shape) => if !outcome.ok {
                r.0 == ReceiveState::Done && r.1 == ReceiveAction::Fail(TransferError::DownloadFailed(root_stage(shape)))
            } else if shape == ContentShape::Sequence {
                r.0 == ReceiveState::ReadingSequence(id) && r.1 == ReceiveAction::ReadAll(id)
            } else {
                r.0 == ReceiveState::ReadingHead(id) && r.1 == ReceiveAction::ReadHead(id)
            },
            ReceiveState::ReadingSequence(_) => if !outcome.ok {
                r.0 == ReceiveState::Done && r.1 == ReceiveAction::Fail(TransferError::DownloadFailed(DownloadStage::Sequence))
            } else {
                match resolve_spec(outcome.data@) {
                    Ok((m, p)) => match r.0 {
                        ReceiveState::FetchingMetadata(a, b) => a@ == m && b@ == p && r.1 == ReceiveAction::Fetch(a, DownloadStage::Metadata),
                        _ => false,
                    },
                    Err(e) => r.0 == ReceiveState::Done && r.1 == ReceiveAction::Fail(e),
                }
            },
            ReceiveState::FetchingMetadata(m, p) => r.0 == ReceiveState::ReadingMetadata(m, p) && r.1 == ReceiveAction::ReadAll(m),
            ReceiveState::ReadingMetadata(_, p) => match r.0 {
                ReceiveState::FetchingPayload(q, name) => q == p && name@ == save_name_of(if outcome.ok { outcome.data@ } else { seq![] }, p@)
                    && r.1 == ReceiveAction::Fetch(p, DownloadStage::Payload),
                _ => false,
            },
            ReceiveState::FetchingPayload(p, name) => if !outcome.ok {
                r.0 == ReceiveState::Done && r.1 == ReceiveAction::Fail(TransferError::DownloadFailed(DownloadStage::Payload))
            } else {
                r.0 == ReceiveState::Saving && match r.1 {
                    ReceiveAction::Save(q, n) => q == p && n@ == name@,
                    _ => false,
                }
            },
            ReceiveState::ReadingHead(id) => if !outcome.ok {
                r.0 == ReceiveState::Done && r.1 == ReceiveAction::Fail(TransferError::DownloadFailed(DownloadStage::Payload))
            } else {
                r.0 == ReceiveState::Saving && match r.1 {
                    ReceiveAction::Save(q, n) => q == id && n@ == received_name(id@, extension_of(kind_of(outcome.data@))),
                    _ => false,
                }
            },
            ReceiveState::Saving => r.0 == ReceiveState::Done && if outcome.ok {
                r.1 == ReceiveAction::Finish
            } else {
                r.1 == ReceiveAction::Fail(TransferError::DownloadFailed(DownloadStage::Payload))
            },
            ReceiveState::Done => r.0 == ReceiveState::Done && r.1 == ReceiveAction::Finish,
        },
{
    match state {
        ReceiveState::FetchingRoot(id, shape) => {
            if !outcome.ok {
                let stage = match shape {
                    ContentShape::Sequence => DownloadStage::Sequence,
                    ContentShape::Single => DownloadStage::Payload,
                };
                (ReceiveState::Done, ReceiveAction::Fail(TransferError::DownloadFailed(stage)))
            } else {
                match shape {
                    ContentShape::Sequence => (ReceiveState::ReadingSequence(id), ReceiveAction::ReadAll(id)),
                    ContentShape::Single => (ReceiveState::ReadingHead(id), ReceiveAction::ReadHead(id)),
                }
            }
        },
        ReceiveState::ReadingSequence(_) => {
            if !outcome.ok {
                (ReceiveState::Done, ReceiveAction::Fail(TransferError::DownloadFailed(DownloadStage::Sequence)))
            } else {
                match resolve_sequence(outcome.data) {
                    Ok((m, p)) => (ReceiveState::FetchingMetadata(m, p), ReceiveAction::Fetch(m, DownloadStage::Metadata)),
                    Err(e) => (ReceiveState::Done, ReceiveAction::Fail(e)),
                }
            }
        },
        ReceiveState::FetchingMetadata(m, p) => (ReceiveState::ReadingMetadata(m, p), ReceiveAction::ReadAll(m)),
        ReceiveState::ReadingMetadata(_, p) => {
            let meta: Vec<u8> = if outcome.ok { outcome.data } else { Vec::new() };
            let name = save_file_name(meta.as_slice(), &p);
            (ReceiveState::FetchingPayload(p, name), ReceiveAction::Fetch(p, DownloadStage::Payload))
        },
        ReceiveState::FetchingPayload(p, name) => {
            if !outcome.ok {
                (ReceiveState::Done, ReceiveAction::Fail(TransferError::DownloadFailed(DownloadStage::Payload)))
            } else {
                (ReceiveState::Saving, ReceiveAction::Save(p, name))
            }
        },
        ReceiveState::ReadingHead(id) => {
            if !outcome.ok {
                (ReceiveState::Done, ReceiveAction::Fail(TransferError::DownloadFailed(DownloadStage::Payload)))
            } else {
                let name = legacy_file_name(&id, outcome.data.as_slice());
                (ReceiveState::Saving, ReceiveAction::Save(id, name))
            }
        },
        ReceiveState::Saving => {
            if outcome.ok {
                (ReceiveState::Done, ReceiveAction::Finish)
            } else {
                (ReceiveState::Done, ReceiveAction::Fail(TransferError::DownloadFailed(DownloadStage::Payload)))
            }
        },
        ReceiveState::Done => (ReceiveState::Done, ReceiveAction::Finish),
    }
}

} // verus!
