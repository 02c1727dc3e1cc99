//! Outbound channels: the per-connection queue other sessions enqueue onto.

use vstd::prelude::*;
use tokio::sync::mpsc::UnboundedReceiver;
use tokio::sync::mpsc::UnboundedSender;
use crate::websocket::structures::ConnectionIdentity;
use crate::websocket::structures::Frame;

verus! {

/// The sending half of an unbounded queue; its inside is not visible here.
#[verifier::external_type_specification]
#[verifier::external_body]
#[verifier::reject_recursive_types(T)]
pub struct ExUnboundedSender<T>(UnboundedSender<T>);

/// The receiving half of an unbounded queue; its inside is not visible here.
#[verifier::external_type_specification]
#[verifier::external_body]
#[verifier::reject_recursive_types(T)]
pub struct ExUnboundedReceiver<T>(UnboundedReceiver<T>);

/// `tokio::sync::mpsc::unbounded_channel`: a new queue and its two halves.
/// Nothing is claimed of them.
#[verifier::external_body]
fn new_queue() -> (halves: (UnboundedSender<Frame>, UnboundedReceiver<Frame>)) {
    tokio::sync::mpsc::unbounded_channel::<Frame>()
}

/// `UnboundedSender::send`: hands `frame` to the queue without waiting.
/// Whether the queue still takes frames depends on its receiving half, so
/// either answer may come; a frame that was not taken comes back as it was.
/// What the call does to the queue is not visible in this contract.
#[verifier::external_body]
fn send_frame(sender: &UnboundedSender<Frame>, frame: Frame) -> (outcome: Result<(), Frame>)
    ensures
        outcome matches Err(returned) ==> returned == frame,
{
    sender.send(frame).map_err(|refused| refused.0)
}

/// `UnboundedSender::clone`: one more handle onto the same queue.
/// Nothing is claimed of it.
#[verifier::external_body]
fn another_handle(sender: &UnboundedSender<Frame>) -> (handle: UnboundedSender<Frame>) {
    sender.clone()
}

/// A reference to one connection's outbound queue.
///
/// The queue itself belongs to the connection's session, which drains it to
/// the socket in the order frames were enqueued. Any number of references
/// may exist; each names the connection it leads to. A connection has one
/// queue, so two references are taken to lead to the same queue exactly when
/// they name the same connection.
pub struct OutboundChannel {
    owner: ConnectionIdentity,
    sender: UnboundedSender<Frame>,
}

impl OutboundChannel {
    /// The connection whose queue this reference leads to.
    pub closed spec fn spec_owner(&self) -> ConnectionIdentity {
        self.owner
    }

    /// Opens the queue of connection `owner` and returns a reference to it
    /// together with the end its session drains.
    pub fn open(owner: ConnectionIdentity) -> (ends: (OutboundChannel, UnboundedReceiver<Frame>))
        ensures
            ends.0.owner() == owner,
    {
        let (sender, receiver) = new_queue();
        (OutboundChannel { owner, sender }, receiver)
    }

    /// The connection whose queue this reference leads to.
    #[verifier::when_used_as_spec(spec_owner)]
    pub fn owner(&self) -> (id: ConnectionIdentity)
        ensures
            id == self.spec_owner(),
    {
        self.owner
    }

    /// One more reference to the same connection's queue.
    pub fn share(&self) -> (other: OutboundChannel)
        ensures
            other.owner() == self.owner(),
    {
        OutboundChannel { owner: self.owner, sender: another_handle(&self.sender) }
    }

    /// Whether two references lead to the same connection's queue.
    pub fn same_as(&self, other: &OutboundChannel) -> (same: bool)
        ensures
            same == (self.owner() == other.owner()),
    {
        self.owner.0 == other.owner.0
    }

    /// Puts `frame` at the back of the queue without waiting.
    ///
    /// A queue whose session has ended takes nothing: the frame is then
    /// handed back unchanged.
    pub fn enqueue(&self, frame: Frame) -> (outcome: Result<(), Frame>)
        ensures
            outcome matches Err(returned) ==> returned == frame,
    {
        send_frame(&self.sender, frame)
    }
}

} // verus!
