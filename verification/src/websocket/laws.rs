//! What holds of the hub over any history of connects and disconnects.

use vstd::prelude::*;
use crate::websocket::channel::OutboundChannel;
use crate::websocket::handler::is_fan_out;
use crate::websocket::handler::reader_rule;
use crate::websocket::handler::Delivery;
use crate::websocket::handler::InboundEvent;
use crate::websocket::handler::ReaderAction;
use crate::websocket::hub::HubModel;
use crate::websocket::structures::ClientRole;
use crate::websocket::structures::ConnectionIdentity;
use crate::websocket::structures::Frame;

verus! {

/// One step in the history of a hub.
pub enum HubEvent {
    /// A connecting session with this identity and role asks to become
    /// active.
    Connect { id: ConnectionIdentity, role: ClientRole },
    /// The session with this identity ends and cleans up.
    Disconnect { id: ConnectionIdentity },
}

/// A hub together with the sessions that are live: active or closing, but
/// not yet cleaned up.
pub struct World {
    pub hub: HubModel,
    pub live: Map<ConnectionIdentity, ClientRole>,
}

impl World {
    /// Whether a session with identity `id` is live and has `role`.
    pub open spec fn has_live(self, id: ConnectionIdentity, role: ClientRole) -> bool {
        self.live.contains_key(id) && self.live[id] == role
    }
}

/// The world before anything happened.
pub open spec fn initial_world() -> World {
    World { hub: HubModel { publisher: None, subscribers: Set::empty() }, live: Map::empty() }
}

/// The world after `event`.
///
/// A connect that the hub admits makes the session live; a refused one
/// leaves no trace. A disconnect of a live session undoes its registration;
/// a disconnect of anything else changes nothing.
pub open spec fn step(world: World, event: HubEvent) -> World {
    match event {
        HubEvent::Connect { id, role } => if world.hub.admits(role) {
            World { hub: world.hub.connect(id, role), live: world.live.insert(id, role) }
        } else {
            world
        },
        HubEvent::Disconnect { id } => if world.live.contains_key(id) {
            World { hub: world.hub.disconnect(id, world.live[id]), live: world.live.remove(id) }
        } else {
            world
        },
    }
}

/// The world after all of `events`, in order, starting from nothing.
pub open spec fn run(events: Seq<HubEvent>) -> World
    decreases events.len(),
{
    if events.len() == 0 {
        initial_world()
    } else {
        step(run(events.drop_last()), events.last())
    }
}

/// Whether `event` respects that identities are unique: a connect never
/// comes with the identity of a session that is live.
pub open spec fn is_fresh(world: World, event: HubEvent) -> bool {
    event matches HubEvent::Connect { id, .. } ==> !world.live.contains_key(id)
}

/// Whether every connect in `events` comes with an identity that no live
/// session has at that moment.
pub open spec fn identities_are_unique(events: Seq<HubEvent>) -> bool {
    forall|n: int| 0 <= n < events.len() ==> is_fresh(#[trigger] run(events.take(n)), events[n])
}

/// Whether the hub says exactly what the live sessions say: the registry
/// holds the live subscribers and nobody else, and the slot holds the live
/// publisher, if there is one.
pub open spec fn hub_matches_sessions(world: World) -> bool {
    &&& forall|id: ConnectionIdentity|
        world.hub.subscribers.contains(id) <==> #[trigger] world.has_live(id, ClientRole::Receiver)
    &&& forall|id: ConnectionIdentity|
        world.hub.publisher == Some(id) <==> #[trigger] world.has_live(id, ClientRole::Sender)
}

/// One event keeps the hub in step with the live sessions.
pub proof fn lemma_step_keeps_hub_in_step(world: World, event: HubEvent)
    requires
        hub_matches_sessions(world),
        is_fresh(world, event),
    ensures
        hub_matches_sessions(step(world, event)),
{
    let after = step(world, event);
    assert forall|id: ConnectionIdentity|
        after.hub.subscribers.contains(id) <==> #[trigger] after.has_live(
            id,
            ClientRole::Receiver,
        ) by {
        assert(world.hub.subscribers.contains(id) <==> world.has_live(id, ClientRole::Receiver));
    }
    assert forall|id: ConnectionIdentity|
        after.hub.publisher == Some(id) <==> #[trigger] after.has_live(id, ClientRole::Sender) by {
        assert(world.hub.publisher == Some(id) <==> world.has_live(id, ClientRole::Sender));
        match event {
            HubEvent::Connect { id: joining, role } => {
                assert(world.hub.publisher == Some(joining) <==> world.has_live(
                    joining,
                    ClientRole::Sender,
                ));
            },
            HubEvent::Disconnect { id: leaving } => {
                assert(world.hub.publisher == Some(leaving) <==> world.has_live(
                    leaving,
                    ClientRole::Sender,
                ));
            },
        }
    }
}

/// After any history in which identities are unique, an identity is in the
/// registry if and only if a live subscriber session has it, and it holds
/// the slot if and only if a live publisher session has it: no entry is
/// stale and none is missing.
pub proof fn lemma_hub_tracks_live_sessions(events: Seq<HubEvent>)
    requires
        identities_are_unique(events),
    ensures
        hub_matches_sessions(run(events)),
    decreases events.len(),
{
    if events.len() > 0 {
        let before = events.drop_last();
        assert forall|n: int| 0 <= n < before.len() implies is_fresh(
            #[trigger] run(before.take(n)),
            before[n],
        ) by {
            assert(before.take(n) == events.take(n));
        }
        lemma_hub_tracks_live_sessions(before);
        assert(events.take(events.len() - 1) == before);
        lemma_step_keeps_hub_in_step(run(before), events.last());
    }
}

/// After any history in which identities are unique, at most one live
/// session is a publisher, however the connects and disconnects were
/// ordered; and a publisher that is live holds the slot.
pub proof fn lemma_single_publisher(
    events: Seq<HubEvent>,
    first: ConnectionIdentity,
    second: ConnectionIdentity,
)
    requires
        identities_are_unique(events),
        run(events).has_live(first, ClientRole::Sender),
        run(events).has_live(second, ClientRole::Sender),
    ensures
        first == second,
        run(events).hub.publisher == Some(first),
{
    lemma_hub_tracks_live_sessions(events);
}

/// A publisher that asks to connect while another one is live is refused,
/// and the world stays exactly as it was.
pub proof fn lemma_second_publisher_is_refused(events: Seq<HubEvent>, id: ConnectionIdentity)
    requires
        identities_are_unique(events),
        exists|holder: ConnectionIdentity| #[trigger]
            run(events).has_live(holder, ClientRole::Sender),
    ensures
        step(run(events), HubEvent::Connect { id, role: ClientRole::Sender }) == run(events),
{
    lemma_hub_tracks_live_sessions(events);
}

/// Once a session has ended, nothing of it is left in the hub: its identity
/// is neither registered nor does it hold the slot.
pub proof fn lemma_ended_session_is_gone(events: Seq<HubEvent>, id: ConnectionIdentity)
    requires
        identities_are_unique(events),
        events.len() > 0,
        events.last() == (HubEvent::Disconnect { id }),
    ensures
        !run(events).hub.subscribers.contains(id),
        run(events).hub.publisher != Some(id),
        !run(events).live.contains_key(id),
{
    lemma_hub_tracks_live_sessions(events);
    let after = run(events);
    assert(!after.has_live(id, ClientRole::Receiver));
    assert(!after.has_live(id, ClientRole::Sender));
}

/// A disconnect of a session that is not live changes nothing, so cleaning
/// up twice is the same as cleaning up once.
pub proof fn lemma_disconnect_is_idempotent(world: World, id: ConnectionIdentity)
    ensures
        step(step(world, HubEvent::Disconnect { id }), HubEvent::Disconnect { id }) == step(
            world,
            HubEvent::Disconnect { id },
        ),
{
}

/// Removing an identity that is not registered leaves the registry as it
/// was, and removing one twice is the same as removing it once.
pub proof fn lemma_unregister_is_idempotent(
    registry: Map<ConnectionIdentity, OutboundChannel>,
    id: ConnectionIdentity,
)
    ensures
        !registry.contains_key(id) ==> registry.remove(id) == registry,
        registry.remove(id).remove(id) == registry.remove(id),
{
    assert(!registry.contains_key(id) ==> registry.remove(id) =~= registry);
    assert(registry.remove(id).remove(id) =~= registry.remove(id));
}

/// Only text from the publisher is fanned out: whatever a subscriber sends,
/// and whatever else the publisher sends, reaches no other connection.
pub proof fn lemma_only_publisher_text_is_broadcast(role: ClientRole, event: InboundEvent)
    ensures
        reader_rule(role, event) is Broadcast <==> {
            &&& role == ClientRole::Sender
            &&& event matches InboundEvent::Frame(Frame::Text(_))
        },
        reader_rule(role, event) matches ReaderAction::Broadcast(message) ==> event
            == InboundEvent::Frame(message),
{
}

/// A broadcast reaches only who was registered when it was made: a
/// connection that registers afterwards has no part in its report, although
/// it is in the registry from then on.
pub proof fn lemma_late_subscriber_misses_broadcast(
    registry: Map<ConnectionIdentity, OutboundChannel>,
    report: Seq<Delivery>,
    late: ConnectionIdentity,
    channel: OutboundChannel,
)
    requires
        is_fan_out(report, registry.dom()),
        !registry.contains_key(late),
    ensures
        registry.insert(late, channel).contains_key(late),
        forall|i: int| 0 <= i < report.len() ==> (#[trigger] report[i]).subscriber != late,
{
}

} // verus!
