use vstd::prelude::*;
use crate::error::TransferError;

verus! {

/// A message as it is handed to the application.
#[derive(Debug, Clone, PartialEq, Eq)]
pub struct IncomingMessage {
    /// The identity of the peer that sent it.
    pub from: String,
    pub text: String,
    /// The sender's ticket, to reply with.
    pub ticket: String,
}

/// A message as it travels between peers.
#[derive(Debug, Clone, PartialEq, Eq)]
pub struct WireMessage {
    pub text: String,
    pub sender_ticket: String,
}

impl WireMessage {
    pub fn new(text: String, sender_ticket: String) -> (r: WireMessage)
        ensures
            r.text@ == text@,
            r.sender_ticket@ == sender_ticket@,
    {
        WireMessage { text, sender_ticket }
    }
}

/// The message delivered for a wire message that arrived from peer `from`.
pub fn incoming_from(from: String, wire: WireMessage) -> (r: IncomingMessage)
    ensures
        r.from@ == from@,
        r.text@ == wire.text@,
        r.ticket@ == wire.sender_ticket@,
{
    IncomingMessage { from, text: wire.text, ticket: wire.sender_ticket }
}

/// A place that holds at most one subscriber, set once and then kept.
pub struct SubscriberSlot<S> {
    sink: Option<S>,
}

impl<S> SubscriberSlot<S> {
    pub closed spec fn current(&self) -> Option<S> {
        self.sink
    }

    pub fn new() -> (r: SubscriberSlot<S>)
        ensures
            r.current() is None,
    {
        SubscriberSlot { sink: None }
    }

    pub fn is_subscribed(&self) -> (r: bool)
        ensures
            r == self.current() is Some,
    {
        self.sink.is_some()
    }

    /// The subscriber, if one was registered.
    pub fn sink(&self) -> (r: Option<&S>)
        ensures
            r == match self.current() {
                Some(s) => Some(&s),
                None => None::<&S>,
            },
    {
        match &self.sink {
            Some(s) => Some(s),
            None => None,
        }
    }
}

/// Registers the one subscriber for incoming messages; a second
/// registration fails and leaves the first in place.
pub fn subscribe_messages<S>(slot: &mut SubscriberSlot<S>, sink: S) -> (r: Result<(), TransferError>)
    ensures
        old(slot).current() is None ==> r is Ok && final(slot).current() == Some(sink),
        old(slot).current() is Some ==> r == Err::<(), TransferError>(TransferError::AlreadySubscribed)
            && final(slot).current() == old(slot).current(),
{
    if slot.sink.is_some() {
        Err(TransferError::AlreadySubscribed)
    } else {
        slot.sink = Some(sink);
        Ok(())
    }
}

} // verus!
