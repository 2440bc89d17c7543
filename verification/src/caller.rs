//! The handle through which local callers emit notifications into a session.
//! It is the sending half of an unbounded channel; the session's driver holds
//! the receiving half and forwards what arrives to the daemon.

use vstd::prelude::*;
use crate::keyboard::{relay_step, relay_step_of, KeyRead, RelayStep};
use crate::protocol::Notification;

verus! {

/// `tokio::sync::mpsc::UnboundedSender`, the sending half of an unbounded
/// channel. Nothing is known of what is inside.
#[verifier::external_type_specification]
#[verifier::external_body]
#[verifier::reject_recursive_types(T)]
pub struct ExUnboundedSender<T>(tokio::sync::mpsc::UnboundedSender<T>);

/// `tokio::sync::mpsc::UnboundedReceiver`, the receiving half of an unbounded
/// channel. Nothing is known of what is inside.
#[verifier::external_type_specification]
#[verifier::external_body]
#[verifier::reject_recursive_types(T)]
pub struct ExUnboundedReceiver<T>(tokio::sync::mpsc::UnboundedReceiver<T>);

/// `tokio::sync::mpsc::error::SendError`, the error of a send on a closed
/// channel. Nothing is known of what is inside.
#[verifier::external_type_specification]
#[verifier::external_body]
#[verifier::reject_recursive_types(T)]
pub struct ExSendError<T>(tokio::sync::mpsc::error::SendError<T>);

/// `tokio::sync::mpsc::unbounded_channel` makes a new channel and returns its
/// two halves. Nothing is claimed of them.
pub assume_specification<T>[ tokio::sync::mpsc::unbounded_channel::<T> ]() -> (halves: (
    tokio::sync::mpsc::UnboundedSender<T>,
    tokio::sync::mpsc::UnboundedReceiver<T>,
))
;

/// `UnboundedSender::send` puts a message into the channel without waiting, or
/// fails when the receiving half is closed or gone. Which of the two happens
/// is up to the other side, so nothing is claimed of the result. (Should the
/// count of queued messages ever overflow `usize`, tokio aborts the process.)
pub assume_specification<T>[ tokio::sync::mpsc::UnboundedSender::<T>::send ](
    sender: &tokio::sync::mpsc::UnboundedSender<T>,
    message: T,
) -> (sent: Result<(), tokio::sync::mpsc::error::SendError<T>>)
;

/// The capability to emit notifications into a session.
#[derive(Debug)]
pub struct OutboundCaller {
    sender: tokio::sync::mpsc::UnboundedSender<Notification>,
}

/// Makes the channel between local callers and the driver of a session.
pub fn outbound_channel() -> (halves: (
    OutboundCaller,
    tokio::sync::mpsc::UnboundedReceiver<Notification>,
)) {
    let (sender, receiver) = tokio::sync::mpsc::unbounded_channel::<Notification>();
    (OutboundCaller::new(sender), receiver)
}

impl OutboundCaller {
    /// The sending half that the handle emits into.
    pub closed spec fn sender(&self) -> tokio::sync::mpsc::UnboundedSender<Notification> {
        self.sender
    }

    /// Makes the handle of a sending half: it emits into that half's channel.
    pub fn new(sender: tokio::sync::mpsc::UnboundedSender<Notification>) -> (caller: OutboundCaller)
        ensures
            caller.sender() == sender,
    {
        OutboundCaller { sender }
    }

    /// Emits a notification and expects no reply. A session that has ended
    /// takes nothing: the notification is dropped.
    pub fn notify(&self, notification: Notification) {
        let _ = self.sender.send(notification);
    }

    /// One turn of the keyboard relay: decides what the read calls for, emits
    /// the notification if it calls for one, and returns the decision. The
    /// relay goes on reading until the decision is [`RelayStep::Stop`].
    pub fn relay(&self, read: KeyRead) -> (step: RelayStep)
        ensures
            step == relay_step_of(read),
    {
        let step = relay_step(read);
        match step {
            RelayStep::Send(notification) => self.notify(notification),
            RelayStep::Ignore => {},
            RelayStep::Stop => {},
        }
        step
    }
}

} // verus!
