//! The event channel between the producers and the display consumer.
//!
//! The channel is a `crossbeam_channel` channel of events. Making it,
//! sending and receiving are the only calls made into it; what they do is
//! taken on trust from that crate and is not proved here.

use crate::display::{closed_text, display_runner, SmallDisplayError, SmallDisplayErrorView};
use crate::event::{InfoUpdate, InfoUpdateView};
use crate::status::{apply, StatusInfo};
use vstd::prelude::*;

verus! {

/// `crossbeam_channel::Sender`, taken as an opaque value.
#[verifier::external_type_specification]
#[verifier::external_body]
#[verifier::reject_recursive_types(T)]
pub struct ExSender<T>(crossbeam_channel::Sender<T>);

/// `crossbeam_channel::Receiver`, taken as an opaque value.
#[verifier::external_type_specification]
#[verifier::external_body]
#[verifier::reject_recursive_types(T)]
pub struct ExReceiver<T>(crossbeam_channel::Receiver<T>);

/// The sending side of the event channel; every producer holds a clone.
pub type InfoSender = crossbeam_channel::Sender<InfoUpdate>;

/// The receiving side of the event channel; the display consumer holds it.
pub type InfoReceiver = crossbeam_channel::Receiver<InfoUpdate>;

/// Why an event could not be published.
#[derive(Debug, PartialEq, Eq)]
pub enum PublishError {
    /// The receiver is gone. The event was not delivered and is handed back.
    Disconnected(InfoUpdate),
}

impl PublishError {
    /// The text that describes the error.
    pub fn to_string(&self) -> (text: String)
        ensures
            text@ == "sending on a disconnected channel"@,
    {
        "sending on a disconnected channel".to_owned()
    }

    /// The event that was not delivered.
    pub fn into_event(self) -> (event: InfoUpdate)
        ensures
            self == PublishError::Disconnected(event),
    {
        match self {
            PublishError::Disconnected(event) => event,
        }
    }
}

/// The capacity that the channel of a sender was made with: `None` for a
/// channel that holds any number of messages. This names what
/// `crossbeam_channel::Sender::capacity` returns; a channel keeps the
/// capacity it was made with.
pub uninterp spec fn sender_capacity(tx: InfoSender) -> Option<usize>;

/// Calls `crossbeam_channel::unbounded`, which makes a channel that holds
/// any number of messages. Trusted: the sender has no capacity limit.
#[verifier::external_body]
fn unbounded_events() -> (ends: (InfoSender, InfoReceiver))
    ensures
        sender_capacity(ends.0) is None,
{
    crossbeam_channel::unbounded()
}

/// Calls `crossbeam_channel::Sender::capacity`. Trusted: the result is the
/// capacity that the channel was made with.
#[verifier::external_body]
fn capacity_of(tx: &InfoSender) -> (capacity: Option<usize>)
    ensures
        capacity == sender_capacity(*tx),
{
    tx.capacity()
}

/// Calls `crossbeam_channel::Sender::send`, which blocks while a bounded
/// channel is full and never on an unbounded one. Trusted: the only failure
/// is a disconnected channel, and it hands the message back as it was.
#[verifier::external_body]
fn send_event(tx: &InfoSender, event: InfoUpdate) -> (r: Result<(), InfoUpdate>)
    ensures
        r matches Err(returned) ==> returned == event,
{
    match tx.send(event) {
        Ok(()) => Ok(()),
        Err(crossbeam_channel::SendError(returned)) => Err(returned),
    }
}

/// Calls `crossbeam_channel::Receiver::recv`, which blocks until a message
/// arrives or the channel is empty and every sender is gone. Trusted: nothing
/// is claimed of the result; `None` stands for the disconnected channel.
#[verifier::external_body]
fn recv_event(rx: &InfoReceiver) -> (r: Option<InfoUpdate>) {
    match rx.recv() {
        Ok(event) => Some(event),
        Err(crossbeam_channel::RecvError) => None,
    }
}

/// The event channel: its sending side, to be cloned for every producer,
/// and its receiving side for the one consumer. The channel is unbounded, so
/// that no event is dropped and no producer waits for the consumer.
pub fn event_channel() -> (ends: (InfoSender, InfoReceiver))
    ensures
        sender_capacity(ends.0) is None,
{
    unbounded_events()
}

/// Whether publishing through `tx` never waits for the consumer: whether
/// its channel is unbounded.
pub fn never_waits(tx: &InfoSender) -> (unbounded: bool)
    ensures
        unbounded == (sender_capacity(*tx) is None),
{
    capacity_of(tx).is_none()
}

/// What becomes of an attempt to send: done, or the error that hands the
/// event back.
pub open spec fn send_outcome(sent: Result<(), InfoUpdate>) -> Result<(), PublishError> {
    match sent {
        Ok(_) => Ok(()),
        Err(returned) => Err(PublishError::Disconnected(returned)),
    }
}

/// Turns what the channel said of an attempt to send into the result of
/// publishing.
pub fn sent_or_refused(sent: Result<(), InfoUpdate>) -> (r: Result<(), PublishError>)
    ensures
        r == send_outcome(sent),
{
    match sent {
        Ok(()) => Ok(()),
        Err(returned) => Err(PublishError::Disconnected(returned)),
    }
}

/// Publishes one event to the display consumer.
///
/// Whether the event is delivered depends on the receiver being alive, which
/// nothing here can know. The one failure is a receiver that is gone, and it
/// hands the event back unchanged.
pub fn publish(tx: &InfoSender, event: InfoUpdate) -> (r: Result<(), PublishError>)
    ensures
        r matches Err(e) ==> e == PublishError::Disconnected(event),
{
    sent_or_refused(send_event(tx, event))
}

/// Waits for the next event and applies it to the record, which is then to
/// be drawn afresh.
///
/// Which event arrives depends on the producers. Whatever it is, the record
/// afterwards is the record before with that one event applied. When the
/// channel is closed the record is unchanged and the error says so.
pub fn consume_next(rx: &InfoReceiver, status: &mut StatusInfo) -> (r: Result<
    (),
    SmallDisplayError,
>)
    ensures
        match r {
            Ok(_) => exists|e: InfoUpdateView| final(status)@ == apply(old(status)@, e),
            Err(err) => {
                &&& final(status)@ == old(status)@
                &&& err@ == SmallDisplayErrorView::Other(closed_text())
            },
        },
{
    let received = recv_event(rx);
    let ghost seen = received;
    let r = display_runner(status, received);
    proof {
        if let Some(e) = seen {
            assert(status@ == apply(old(status)@, e@));
        }
    }
    r
}

} // verus!
