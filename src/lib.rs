//! Peer-to-peer file and message exchange: the content bundle format, ticket
//! handling, legacy type sniffing, the download steps and message framing,
//! with their contracts.

pub mod content;
pub mod error;
pub mod framing;
pub mod message;
pub mod naming;
pub mod receive;
pub mod send;
pub mod sequence;
pub mod signature;
pub mod ticket;

pub use content::{ContentId, ContentShape};
pub use error::{DownloadStage, TransferError};
pub use framing::{decode_frame, encode_frame, frame_length, MAX_MESSAGE_LEN};
pub use message::{incoming_from, subscribe_messages, IncomingMessage, SubscriberSlot, WireMessage};
pub use naming::{legacy_file_name, metadata_bytes, save_file_name, sent_file_name, temp_file_name};
pub use receive::{receive_start, receive_step, Outcome, ReceiveAction, ReceiveState};
pub use send::{send_start, send_step, SendAction, SendState};
pub use sequence::{bundle_sequence, resolve_sequence};
pub use signature::{detect_kind, FileKind};
pub use ticket::{address_ticket, decode_ticket, encode_ticket, label_ticket, Ticket};
