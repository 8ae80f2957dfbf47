use vstd::prelude::*;

verus! {

/// The step of a download that failed.
#[derive(Debug, Clone, Copy, PartialEq, Eq, Structural)]
pub enum DownloadStage {
    Sequence,
    Metadata,
    Payload,
}

/// Every way an operation of this library can fail.
#[derive(Debug, Clone, Copy, PartialEq, Eq, Structural)]
pub enum TransferError {
    FileNotFound,
    ImportFailed,
    InvalidTicket,
    ConnectionFailed,
    DownloadFailed(DownloadStage),
    InvalidSequenceLength,
    NodeNotInitialized,
    AlreadySubscribed,
    FramingError,
    MessageParseError,
}

} // verus!
