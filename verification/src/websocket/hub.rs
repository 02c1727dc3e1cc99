//! The state shared by all sessions: the publisher slot and the registry.

use vstd::prelude::*;
use vstd::relations::injective_on;
use vstd::set_lib::lemma_map_size;
use vstd::std_specs::iter::IteratorSpec;
use std::collections::HashMap;
use crate::websocket::channel::OutboundChannel;
use crate::websocket::structures::ClientRole;
use crate::websocket::structures::ConnectionIdentity;

verus! {

broadcast use vstd::std_specs::hash::group_hash_axioms;

/// The one place a publisher's channel can stand: empty or held by one.
pub struct PublisherSlot {
    holder: Option<OutboundChannel>,
}

impl View for PublisherSlot {
    type V = Option<ConnectionIdentity>;

    /// The connection that holds the slot, if one does.
    closed spec fn view(&self) -> Option<ConnectionIdentity> {
        match self.holder {
            Some(channel) => Some(channel.owner()),
            None => None,
        }
    }
}

impl PublisherSlot {
    /// An empty slot.
    pub fn new() -> (slot: PublisherSlot)
        ensures
            slot@ is None,
    {
        PublisherSlot { holder: None }
    }

    /// The connection that holds the slot, if one does.
    pub fn holder(&self) -> (id: Option<ConnectionIdentity>)
        ensures
            id == self@,
    {
        match &self.holder {
            Some(channel) => Some(channel.owner()),
            None => None,
        }
    }

    /// Whether a publisher holds the slot.
    pub fn is_occupied(&self) -> (occupied: bool)
        ensures
            occupied == self@ is Some,
    {
        self.holder.is_some()
    }

    /// Installs `channel` if the slot is empty and says whether it did.
    /// An occupied slot is left exactly as it was.
    pub fn try_acquire(&mut self, channel: OutboundChannel) -> (acquired: bool)
        ensures
            acquired == old(self)@ is None,
            acquired ==> final(self)@ == Some(channel.owner()),
            !acquired ==> *final(self) == *old(self),
    {
        if self.holder.is_some() {
            false
        } else {
            self.holder = Some(channel);
            true
        }
    }

    /// Empties the slot if it holds exactly the channel of `channel`'s
    /// connection. A release by anyone else changes nothing.
    pub fn release(&mut self, channel: &OutboundChannel)
        ensures
            old(self)@ == Some(channel.owner()) ==> final(self)@ is None,
            old(self)@ != Some(channel.owner()) ==> *final(self) == *old(self),
    {
        let held = match &self.holder {
            Some(current) => current.same_as(channel),
            None => false,
        };
        if held {
            self.holder = None;
        }
    }
}

/// Whether `entries` lists exactly the connections of `registry`, each once
/// and each with a reference to the channel filed under it.
pub open spec fn is_snapshot_of(
    entries: Seq<(ConnectionIdentity, OutboundChannel)>,
    registry: Map<ConnectionIdentity, OutboundChannel>,
) -> bool {
    &&& forall|i: int|
        0 <= i < entries.len() ==> {
            &&& registry.contains_key(#[trigger] entries[i].0)
            &&& entries[i].1.owner() == registry[entries[i].0].owner()
        }
    &&& forall|i: int, j: int|
        0 <= i < j < entries.len() ==> #[trigger] entries[i].0 != #[trigger] entries[j].0
    &&& forall|id: ConnectionIdentity| #[trigger]
        registry.contains_key(id) ==> exists|i: int|
            0 <= i < entries.len() && #[trigger] entries[i].0 == id
}

/// The channels of all active subscribers, keyed by connection identity.
pub struct SubscriberRegistry {
    channels: HashMap<u128, OutboundChannel>,
}

impl View for SubscriberRegistry {
    type V = Map<ConnectionIdentity, OutboundChannel>;

    /// The registered connections, each with the channel filed under it.
    closed spec fn view(&self) -> Map<ConnectionIdentity, OutboundChannel> {
        Map::new(
            |id: ConnectionIdentity| self.channels@.contains_key(id.0),
            |id: ConnectionIdentity| self.channels@[id.0],
        )
    }
}

impl SubscriberRegistry {
    /// A registry with no subscriber.
    pub fn new() -> (registry: SubscriberRegistry)
        ensures
            registry@ == Map::<ConnectionIdentity, OutboundChannel>::empty(),
    {
        let registry = SubscriberRegistry { channels: HashMap::new() };
        assert(registry@ =~= Map::<ConnectionIdentity, OutboundChannel>::empty());
        registry
    }

    /// Files `channel` under `id`, whatever stood there before.
    pub fn register(&mut self, id: ConnectionIdentity, channel: OutboundChannel)
        ensures
            final(self)@ == old(self)@.insert(id, channel),
    {
        self.channels.insert(id.0, channel);
        assert(self@ =~= old(self)@.insert(id, channel));
    }

    /// Removes what is filed under `id`. Where nothing is, nothing changes.
    pub fn unregister(&mut self, id: ConnectionIdentity)
        ensures
            final(self)@ == old(self)@.remove(id),
            !old(self)@.contains_key(id) ==> final(self)@ == old(self)@,
    {
        self.channels.remove(&id.0);
        assert(self@ =~= old(self)@.remove(id));
        assert(!old(self)@.contains_key(id) ==> old(self)@.remove(id) =~= old(self)@);
    }

    /// A copy of the current entries: every registered connection once,
    /// each with a reference to the channel filed under it, in no
    /// particular order. The registry is not touched again afterwards, so
    /// whoever holds it exclusively may let go of it before sending.
    pub fn snapshot(&self) -> (entries: Vec<(ConnectionIdentity, OutboundChannel)>)
        ensures
            is_snapshot_of(entries@, self@),
            entries@.len() == self@.dom().len(),
    {
        let mut entries: Vec<(ConnectionIdentity, OutboundChannel)> = Vec::new();
        for pair in it: self.channels.iter()
            invariant
                it.seq() == self.channels.iter().remaining(),
                it.seq().no_duplicates(),
                entries@.len() == it.index(),
                forall|i: int| 0 <= i < entries@.len() ==> {
                    &&& entries@[i].0.0 == *it.seq()[i].0
                    &&& entries@[i].1.owner() == it.seq()[i].1.owner()
                },
        {
            let (key, channel) = pair;
            entries.push((ConnectionIdentity(*key), channel.share()));
        }
        proof {
            let pairs = self.channels.iter().remaining();
            let stored = self.channels@;
            self.lemma_as_many_as_stored();
            assert forall|id: ConnectionIdentity| #[trigger] self@.contains_key(id) implies exists|
                i: int,
            | 0 <= i < entries@.len() && #[trigger] entries@[i].0 == id by {
                assert(pairs.contains((&id.0, &stored[id.0])));
                let i = choose|i: int| 0 <= i < pairs.len() && pairs[i] == (&id.0, &stored[id.0]);
                assert(entries@[i].0 == id);
            }
            assert forall|i: int, j: int| 0 <= i < j < entries@.len() implies #[trigger] entries@[i].0
                != #[trigger] entries@[j].0 by {
                assert(stored.contains_key(*pairs[i].0) && stored[*pairs[i].0] == *pairs[i].1);
                assert(stored.contains_key(*pairs[j].0) && stored[*pairs[j].0] == *pairs[j].1);
                assert(pairs[i] != pairs[j]);
            }
            assert forall|i: int| 0 <= i < entries@.len() implies {
                &&& self@.contains_key(#[trigger] entries@[i].0)
                &&& entries@[i].1.owner() == self@[entries@[i].0].owner()
            } by {
                assert(stored.contains_key(*pairs[i].0) && stored[*pairs[i].0] == *pairs[i].1);
            }
        }
        entries
    }

    /// The number of registered connections.
    pub fn len(&self) -> (count: usize)
        ensures
            self@.dom().finite(),
            count == self@.dom().len(),
    {
        proof {
            self.lemma_as_many_as_stored();
        }
        self.channels.len()
    }

    /// The registry holds as many connections as the table behind it has
    /// keys.
    proof fn lemma_as_many_as_stored(&self)
        ensures
            self@.dom().finite(),
            self@.dom().len() == self.channels@.dom().len(),
    {
        let keys = self.channels@.dom();
        let wrap = |key: u128| ConnectionIdentity(key);
        assert(keys.map(wrap) =~= self@.dom()) by {
            assert forall|id: ConnectionIdentity| self@.dom().contains(id) implies keys.map(
                wrap,
            ).contains(id) by {
                assert(keys.contains(id.0) && wrap(id.0) == id);
            }
        }
        assert(injective_on(wrap, keys));
        lemma_map_size(keys, self@.dom(), wrap);
    }

    /// Whether a channel is filed under `id`.
    pub fn contains(&self, id: ConnectionIdentity) -> (present: bool)
        ensures
            present == self@.contains_key(id),
    {
        self.channels.contains_key(&id.0)
    }
}

/// What the hub's state says, with the channels left out: who publishes and
/// who subscribes.
pub struct HubModel {
    pub publisher: Option<ConnectionIdentity>,
    pub subscribers: Set<ConnectionIdentity>,
}

impl HubModel {
    /// Whether a connection with `role` can become active: a subscriber
    /// always can, a publisher only while nobody publishes.
    pub open spec fn admits(self, role: ClientRole) -> bool {
        role == ClientRole::Receiver || self.publisher is None
    }

    /// The state after connection `id` with `role` asked to become active.
    /// A publisher that finds the slot taken changes nothing.
    pub open spec fn connect(self, id: ConnectionIdentity, role: ClientRole) -> HubModel {
        match role {
            ClientRole::Receiver => HubModel {
                publisher: self.publisher,
                subscribers: self.subscribers.insert(id),
            },
            ClientRole::Sender => if self.publisher is None {
                HubModel { publisher: Some(id), subscribers: self.subscribers }
            } else {
                self
            },
        }
    }

    /// The state after the session of connection `id` with `role` cleaned up
    /// after itself. A publisher that does not hold the slot changes nothing.
    pub open spec fn disconnect(self, id: ConnectionIdentity, role: ClientRole) -> HubModel {
        match role {
            ClientRole::Receiver => HubModel {
                publisher: self.publisher,
                subscribers: self.subscribers.remove(id),
            },
            ClientRole::Sender => if self.publisher == Some(id) {
                HubModel { publisher: None, subscribers: self.subscribers }
            } else {
                self
            },
        }
    }
}

/// The state every session shares: built once, then handed to each accepted
/// connection.
pub struct Hub {
    pub slot: PublisherSlot,
    pub registry: SubscriberRegistry,
}

impl View for Hub {
    type V = HubModel;

    open spec fn view(&self) -> HubModel {
        HubModel { publisher: self.slot@, subscribers: self.registry@.dom() }
    }
}

impl Hub {
    /// Whether every channel in the registry leads to the connection it is
    /// filed under. Sessions keep it so; only registering by hand can file a
    /// channel under another connection's identity.
    pub open spec fn well_formed(&self) -> bool {
        forall|id: ConnectionIdentity| #[trigger]
            self.registry@.contains_key(id) ==> self.registry@[id].owner() == id
    }

    /// A hub with no publisher and no subscriber.
    pub fn new() -> (hub: Hub)
        ensures
            hub@ == (HubModel { publisher: None, subscribers: Set::empty() }),
            hub.well_formed(),
    {
        let hub = Hub { slot: PublisherSlot::new(), registry: SubscriberRegistry::new() };
        assert(hub.registry@.dom() =~= Set::<ConnectionIdentity>::empty());
        hub
    }
}

} // verus!
