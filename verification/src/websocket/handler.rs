//! What a session does with each thing that happens to it: the rules for
//! inbound frames, the heartbeat, and the fan-out of a publisher's message.

use vstd::prelude::*;
use crate::websocket::channel::OutboundChannel;
use crate::websocket::hub::is_snapshot_of;
use crate::websocket::hub::SubscriberRegistry;
use crate::websocket::structures::ClientRole;
use crate::websocket::structures::ConnectionIdentity;
use crate::websocket::structures::Frame;
use crate::websocket::structures::FrameView;

verus! {

/// Seconds between two heartbeats on one connection.
pub const HEARTBEAT_INTERVAL_SECS: u64 = 5;

/// Why a session ends.
#[derive(Clone, Copy, Debug, PartialEq, Eq, Structural)]
pub enum TerminationCause {
    /// A subscriber sent text; subscribers only consume.
    ProtocolViolation,
    /// The peer sent a close frame.
    PeerClosed,
    /// Reading from or writing to the socket failed, or the stream ended.
    TransportFailure,
    /// The session's own queue no longer takes frames.
    ChannelClosed,
}

/// Whether an activity of a session goes on.
#[derive(Clone, Copy, Debug, PartialEq, Eq, Structural)]
pub enum Verdict {
    Continue,
    Terminate(TerminationCause),
}

/// One thing the reader of a session meets.
#[derive(Debug, PartialEq, Eq)]
pub enum InboundEvent {
    /// A frame arrived.
    Frame(Frame),
    /// Reading failed, or the stream has ended.
    Failure,
}

/// What the reader does about one inbound event.
#[derive(Debug, PartialEq, Eq)]
pub enum ReaderAction {
    /// Enqueue this frame on the session's own channel, and nowhere else.
    Reply(Frame),
    /// Fan this frame out to the subscribers registered right now.
    Broadcast(Frame),
    /// Nothing to do; the session stays as it is.
    Ignore,
    /// End this session, and only this one.
    Terminate(TerminationCause),
}

/// The routing rules of the reader, as a table.
///
/// A ping is answered with a pong of the same payload. Text from the
/// publisher is fanned out untouched; text from a subscriber ends that
/// subscriber's session. A close frame or a failed read ends the session.
/// Every other frame is ignored.
pub open spec fn reader_rule(role: ClientRole, event: InboundEvent) -> ReaderAction {
    match event {
        InboundEvent::Frame(Frame::Ping(payload)) => ReaderAction::Reply(Frame::Pong(payload)),
        InboundEvent::Frame(Frame::Text(text)) => match role {
            ClientRole::Sender => ReaderAction::Broadcast(Frame::Text(text)),
            ClientRole::Receiver => ReaderAction::Terminate(TerminationCause::ProtocolViolation),
        },
        InboundEvent::Frame(Frame::Close) => ReaderAction::Terminate(TerminationCause::PeerClosed),
        InboundEvent::Frame(Frame::Binary(_)) => ReaderAction::Ignore,
        InboundEvent::Frame(Frame::Pong(_)) => ReaderAction::Ignore,
        InboundEvent::Failure => ReaderAction::Terminate(TerminationCause::TransportFailure),
    }
}

/// Decides what the reader of a session with `role` does about `event`.
pub fn reader_action(role: ClientRole, event: InboundEvent) -> (action: ReaderAction)
    ensures
        action == reader_rule(role, event),
{
    match event {
        InboundEvent::Frame(Frame::Ping(payload)) => ReaderAction::Reply(Frame::Pong(payload)),
        InboundEvent::Frame(Frame::Text(text)) => match role {
            ClientRole::Sender => ReaderAction::Broadcast(Frame::Text(text)),
            ClientRole::Receiver => ReaderAction::Terminate(TerminationCause::ProtocolViolation),
        },
        InboundEvent::Frame(Frame::Close) => ReaderAction::Terminate(TerminationCause::PeerClosed),
        InboundEvent::Frame(Frame::Binary(_)) => ReaderAction::Ignore,
        InboundEvent::Frame(Frame::Pong(_)) => ReaderAction::Ignore,
        InboundEvent::Failure => ReaderAction::Terminate(TerminationCause::TransportFailure),
    }
}

/// The frame a heartbeat enqueues: a ping with nothing in it.
pub fn heartbeat_frame() -> (frame: Frame)
    ensures
        frame@ == FrameView::Ping(Seq::<u8>::empty()),
{
    Frame::Ping(Vec::new())
}

/// What follows from an attempt to enqueue on the session's own channel:
/// the activity goes on if the frame was taken, and the session ends if not.
pub fn after_enqueue(outcome: Result<(), Frame>) -> (verdict: Verdict)
    ensures
        verdict == if outcome is Ok {
            Verdict::Continue
        } else {
            Verdict::Terminate(TerminationCause::ChannelClosed)
        },
{
    match outcome {
        Ok(()) => Verdict::Continue,
        Err(_) => Verdict::Terminate(TerminationCause::ChannelClosed),
    }
}

/// What follows from an attempt to write a dequeued frame to the socket:
/// the writer goes on if the write succeeded, and the session ends if not.
pub fn after_write(written: bool) -> (verdict: Verdict)
    ensures
        verdict == if written {
            Verdict::Continue
        } else {
            Verdict::Terminate(TerminationCause::TransportFailure)
        },
{
    if written {
        Verdict::Continue
    } else {
        Verdict::Terminate(TerminationCause::TransportFailure)
    }
}

/// Enqueues one heartbeat on `channel`. The hub keeps no record of pongs:
/// only a queue that no longer takes frames ends the session.
pub fn send_heartbeat(channel: &OutboundChannel) -> (verdict: Verdict)
    ensures
        verdict == Verdict::Continue || verdict == Verdict::Terminate(
            TerminationCause::ChannelClosed,
        ),
{
    send_reply(channel, heartbeat_frame())
}

/// Enqueues `reply` on the session's own `channel`.
pub fn send_reply(channel: &OutboundChannel, reply: Frame) -> (verdict: Verdict)
    ensures
        verdict == Verdict::Continue || verdict == Verdict::Terminate(
            TerminationCause::ChannelClosed,
        ),
{
    after_enqueue(channel.enqueue(reply))
}

/// One attempt to hand a broadcast to one subscriber.
#[derive(Clone, Copy, Debug, PartialEq, Eq, Structural)]
pub struct Delivery {
    /// The subscriber the message was meant for.
    pub subscriber: ConnectionIdentity,
    /// Whether its queue took the message. A queue whose session has ended
    /// takes nothing; nobody retries.
    pub accepted: bool,
}

/// Whether `report` holds one attempt for each member of `audience`, and
/// none for anyone else.
pub open spec fn is_fan_out(report: Seq<Delivery>, audience: Set<ConnectionIdentity>) -> bool {
    &&& forall|i: int| 0 <= i < report.len() ==> audience.contains(#[trigger] report[i].subscriber)
    &&& forall|i: int, j: int|
        0 <= i < j < report.len() ==> #[trigger] report[i].subscriber
            != #[trigger] report[j].subscriber
    &&& forall|id: ConnectionIdentity| #[trigger]
        audience.contains(id) ==> exists|i: int|
            0 <= i < report.len() && #[trigger] report[i].subscriber == id
}

/// Enqueues a copy of `message` on every channel of `entries`, one after the
/// other, waiting for none of them, and reports each attempt in order.
pub fn deliver(entries: &Vec<(ConnectionIdentity, OutboundChannel)>, message: &Frame) -> (report:
    Vec<Delivery>)
    ensures
        report@.len() == entries@.len(),
        forall|i: int| 0 <= i < report@.len() ==> (#[trigger] report@[i]).subscriber == entries@[i].0,
{
    let mut report: Vec<Delivery> = Vec::new();
    let mut next: usize = 0;
    while next < entries.len()
        invariant
            next <= entries@.len(),
            report@.len() == next,
            forall|i: int| 0 <= i < report@.len() ==> (#[trigger] report@[i]).subscriber
                == entries@[i].0,
        decreases entries@.len() - next,
    {
        let outcome = entries[next].1.enqueue(message.clone());
        report.push(Delivery { subscriber: entries[next].0, accepted: outcome.is_ok() });
        next = next + 1;
    }
    report
}

/// Delivering to a snapshot of a registry is a fan-out to that registry as
/// it stood when the snapshot was taken, whatever was registered since.
pub proof fn lemma_delivery_to_snapshot_is_fan_out(
    entries: Seq<(ConnectionIdentity, OutboundChannel)>,
    registry: Map<ConnectionIdentity, OutboundChannel>,
    report: Seq<Delivery>,
)
    requires
        is_snapshot_of(entries, registry),
        report.len() == entries.len(),
        forall|i: int| 0 <= i < report.len() ==> (#[trigger] report[i]).subscriber == entries[i].0,
    ensures
        is_fan_out(report, registry.dom()),
{
    assert forall|id: ConnectionIdentity| #[trigger] registry.dom().contains(id) implies exists|
        i: int,
    | 0 <= i < report.len() && #[trigger] report[i].subscriber == id by {
        assert(registry.contains_key(id));
        let i = choose|i: int| 0 <= i < entries.len() && #[trigger] entries[i].0 == id;
        assert(report[i].subscriber == id);
    }
}

/// Fans `message` out to the subscribers registered at the moment of the
/// call: it copies the registry's entries first and only then enqueues, so a
/// subscriber that registers later is not part of this broadcast.
///
/// The registry stays borrowed until the last attempt is made. Where it
/// sits behind a lock, take [`SubscriberRegistry::snapshot`] under the lock
/// and call [`deliver`] after letting go, so that nothing is enqueued while
/// the lock is held.
pub fn send_message_to_all_clients(clients: &SubscriberRegistry, message: Frame) -> (report: Vec<
    Delivery,
>)
    ensures
        is_fan_out(report@, clients@.dom()),
        report@.len() == clients@.dom().len(),
{
    let connected_clients = clients.snapshot();
    let report = deliver(&connected_clients, &message);
    proof {
        lemma_delivery_to_snapshot_is_fan_out(connected_clients@, clients@, report@);
    }
    report
}

} // verus!
