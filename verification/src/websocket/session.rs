//! The life of one connection, from acceptance to cleanup.

use vstd::prelude::*;
use tokio::sync::mpsc::UnboundedReceiver;
use crate::websocket::channel::OutboundChannel;
use crate::websocket::hub::Hub;
use crate::utils::auth::Rejection;
use crate::websocket::structures::is_random_identifier;
use crate::websocket::structures::ClientRole;
use crate::websocket::structures::ConnectionIdentity;
use crate::websocket::structures::Frame;
use crate::websocket::structures::Role;

verus! {

/// Where a session stands. `Closed` is final.
#[derive(Clone, Copy, Debug, PartialEq, Eq, Structural)]
pub enum SessionState {
    /// Accepted, not yet registered with the hub.
    Connecting,
    /// Registered; reader, writer and heartbeat are running.
    Active,
    /// One activity has finished; the others are being cancelled.
    Closing,
    /// Cleaned up. Nothing of this session is left in the hub.
    Closed,
}

/// The three activities that run side by side in an active session.
#[derive(Clone, Copy, Debug, PartialEq, Eq, Structural)]
pub enum Activity {
    /// Consumes inbound frames.
    Reader,
    /// Drains the outbound channel to the socket.
    Writer,
    /// Enqueues a ping at a fixed interval.
    Heartbeat,
}

/// The two activities that run beside `finished`, in a fixed order.
pub open spec fn siblings_of(finished: Activity) -> (Activity, Activity) {
    match finished {
        Activity::Reader => (Activity::Writer, Activity::Heartbeat),
        Activity::Writer => (Activity::Reader, Activity::Heartbeat),
        Activity::Heartbeat => (Activity::Writer, Activity::Reader),
    }
}

/// The activities to cancel once `finished` has ended, for whatever reason:
/// the other two, and never `finished` itself.
pub fn siblings(finished: Activity) -> (others: (Activity, Activity))
    ensures
        others == siblings_of(finished),
        others.0 != finished,
        others.1 != finished,
        others.0 != others.1,
{
    match finished {
        Activity::Reader => (Activity::Writer, Activity::Heartbeat),
        Activity::Writer => (Activity::Reader, Activity::Heartbeat),
        Activity::Heartbeat => (Activity::Writer, Activity::Reader),
    }
}

/// One connection: its identity, its role, its outbound channel, and where
/// in its life it stands.
pub struct ConnectionSession {
    identity: ConnectionIdentity,
    role: ClientRole,
    channel: OutboundChannel,
    state: SessionState,
}

impl ConnectionSession {
    #[verifier::type_invariant]
    spec fn channel_is_own(self) -> bool {
        self.channel.owner() == self.identity
    }

    /// The identity minted for this connection.
    pub closed spec fn spec_identity(&self) -> ConnectionIdentity {
        self.identity
    }

    /// The role resolved for this connection.
    pub closed spec fn spec_role(&self) -> ClientRole {
        self.role
    }

    /// Where the session stands.
    pub closed spec fn spec_state(&self) -> SessionState {
        self.state
    }

    /// Whether the hub may hold something of this session.
    pub open spec fn is_live(&self) -> bool {
        self.state() == SessionState::Active || self.state() == SessionState::Closing
    }

    /// A session for a connection whose role has been resolved: mints its
    /// identity and opens its outbound channel. The second part of the
    /// result is the end of that channel which the writer drains. The hub is
    /// not touched.
    pub fn new(role: ClientRole) -> (made: (ConnectionSession, UnboundedReceiver<Frame>))
        ensures
            made.0.role() == role,
            made.0.state() == SessionState::Connecting,
            is_random_identifier(made.0.identity().0),
    {
        ConnectionSession::with_identity(ConnectionIdentity::mint(), role)
    }

    /// As [`ConnectionSession::new`], for an identity minted beforehand.
    pub fn with_identity(identity: ConnectionIdentity, role: ClientRole) -> (made: (
        ConnectionSession,
        UnboundedReceiver<Frame>,
    ))
        ensures
            made.0.identity() == identity,
            made.0.role() == role,
            made.0.state() == SessionState::Connecting,
    {
        let (channel, outlet) = OutboundChannel::open(identity);
        (ConnectionSession { identity, role, channel, state: SessionState::Connecting }, outlet)
    }

    /// The identity minted for this connection.
    #[verifier::when_used_as_spec(spec_identity)]
    pub fn identity(&self) -> (id: ConnectionIdentity)
        ensures
            id == self.spec_identity(),
    {
        self.identity
    }

    /// The role resolved for this connection.
    #[verifier::when_used_as_spec(spec_role)]
    pub fn role(&self) -> (role: ClientRole)
        ensures
            role == self.spec_role(),
    {
        self.role
    }

    /// Where the session stands.
    #[verifier::when_used_as_spec(spec_state)]
    pub fn state(&self) -> (state: SessionState)
        ensures
            state == self.spec_state(),
    {
        self.state
    }

    /// A reference to this session's own outbound channel.
    pub fn channel(&self) -> (channel: OutboundChannel)
        ensures
            channel.owner() == self.identity(),
    {
        proof {
            use_type_invariant(self);
        }
        self.channel.share()
    }

    /// Registers a connecting session with the hub and says whether that
    /// made it active.
    ///
    /// A subscriber is filed in the registry under its identity. A publisher
    /// takes the slot if it is free; if it is not, the session is refused and
    /// closed on the spot, and the hub stays as it was. A session that is not
    /// connecting is left alone. What other sessions have in the hub is not
    /// touched in any case.
    pub fn activate(&mut self, hub: &mut Hub) -> (activated: bool)
        ensures
            final(self).identity() == old(self).identity(),
            final(self).role() == old(self).role(),
            old(self).state() == SessionState::Connecting ==> {
                &&& activated == old(hub)@.admits(old(self).role())
                &&& final(self).state() == if activated {
                    SessionState::Active
                } else {
                    SessionState::Closed
                }
                &&& final(hub)@ == old(hub)@.connect(old(self).identity(), old(self).role())
            },
            old(self).state() != SessionState::Connecting ==> {
                &&& !activated
                &&& final(self).state() == old(self).state()
            },
            activated && old(self).role() == ClientRole::Receiver ==> {
                &&& final(hub).slot == old(hub).slot
                &&& final(hub).registry@.contains_key(old(self).identity())
                &&& final(hub).registry@[old(self).identity()].owner() == old(self).identity()
                &&& final(hub).registry@ == old(hub).registry@.insert(
                    old(self).identity(),
                    final(hub).registry@[old(self).identity()],
                )
            },
            activated && old(self).role() == ClientRole::Sender ==> {
                &&& final(hub).slot@ == Some(old(self).identity())
                &&& final(hub).registry@ == old(hub).registry@
            },
            !activated ==> *final(hub) == *old(hub),
            old(hub).well_formed() ==> final(hub).well_formed(),
    {
        proof {
            use_type_invariant(&*self);
        }
        match self.state {
            SessionState::Connecting => {
                let activated = match self.role {
                    ClientRole::Receiver => {
                        hub.registry.register(self.identity, self.channel.share());
                        true
                    },
                    ClientRole::Sender => hub.slot.try_acquire(self.channel.share()),
                };
                if activated {
                    self.state = SessionState::Active;
                } else {
                    self.state = SessionState::Closed;
                }
                activated
            },
            _ => false,
        }
    }

    /// Records that `finished` has ended, for whatever reason. On an active
    /// session this starts the closing and names the two activities to
    /// cancel; on any other it does nothing.
    pub fn terminate(&mut self, finished: Activity) -> (cancel: Option<(Activity, Activity)>)
        ensures
            final(self).identity() == old(self).identity(),
            final(self).role() == old(self).role(),
            old(self).state() == SessionState::Active ==> {
                &&& final(self).state() == SessionState::Closing
                &&& cancel == Some(siblings_of(finished))
            },
            old(self).state() != SessionState::Active ==> {
                &&& final(self).state() == old(self).state()
                &&& cancel is None
            },
    {
        proof {
            use_type_invariant(&*self);
        }
        match self.state {
            SessionState::Active => {
                self.state = SessionState::Closing;
                Some(siblings(finished))
            },
            _ => None,
        }
    }

    /// Ends the session. What the session put into the hub is taken out
    /// again: a publisher releases the slot, a subscriber leaves the
    /// registry. A session that never became active, or is closed already,
    /// changes nothing in the hub, so the cleanup happens once. What other
    /// sessions have in the hub is not touched in any case.
    pub fn close(&mut self, hub: &mut Hub)
        ensures
            final(self).identity() == old(self).identity(),
            final(self).role() == old(self).role(),
            final(self).state() == SessionState::Closed,
            old(self).is_live() ==> final(hub)@ == old(hub)@.disconnect(
                old(self).identity(),
                old(self).role(),
            ),
            old(self).is_live() && old(self).role() == ClientRole::Receiver ==> {
                &&& final(hub).slot == old(hub).slot
                &&& final(hub).registry@ == old(hub).registry@.remove(old(self).identity())
            },
            old(self).is_live() && old(self).role() == ClientRole::Sender ==> {
                &&& final(hub).registry@ == old(hub).registry@
                &&& old(hub).slot@ != Some(old(self).identity()) ==> final(hub).slot == old(
                    hub,
                ).slot
            },
            !old(self).is_live() ==> *final(hub) == *old(hub),
            old(hub).well_formed() ==> final(hub).well_formed(),
    {
        proof {
            use_type_invariant(&*self);
        }
        match self.state {
            SessionState::Active | SessionState::Closing => {
                match self.role {
                    ClientRole::Receiver => hub.registry.unregister(self.identity),
                    ClientRole::Sender => hub.slot.release(&self.channel),
                }
            },
            _ => {},
        }
        self.state = SessionState::Closed;
    }
}

/// Why a connection was not taken on.
#[derive(Clone, Copy, Debug, PartialEq, Eq, Structural)]
pub enum AcceptError {
    /// Credential resolution turned the request away.
    AuthRejection(Rejection),
    /// A publisher is active already; there can be one only.
    CapacityConflict,
}

/// Takes on a connection whose role has been resolved, or turns it away.
///
/// Where resolution failed, nothing is minted, nothing is opened and the hub
/// is not touched. Where it gave a role, a session is made and registered;
/// a publisher that finds the slot taken is turned away, and the hub stays
/// as it was. Otherwise the session comes back active, together with the
/// end of its outbound channel that its writer drains.
pub fn accept(resolution: Result<Role, Rejection>, hub: &mut Hub) -> (outcome: Result<
    (ConnectionSession, UnboundedReceiver<Frame>),
    AcceptError,
>)
    ensures
        match resolution {
            Err(rejection) => {
                &&& outcome matches Err(refusal)
                &&& refusal == AcceptError::AuthRejection(rejection)
                &&& *final(hub) == *old(hub)
            },
            Ok(Role(role)) => if old(hub)@.admits(role) {
                &&& outcome matches Ok(taken)
                &&& taken.0.role() == role
                &&& taken.0.state() == SessionState::Active
                &&& is_random_identifier(taken.0.identity().0)
                &&& final(hub)@ == old(hub)@.connect(taken.0.identity(), role)
            } else {
                &&& outcome matches Err(refusal)
                &&& refusal == AcceptError::CapacityConflict
                &&& *final(hub) == *old(hub)
            },
        },
        old(hub).well_formed() ==> final(hub).well_formed(),
{
    match resolution {
        Err(rejection) => Err(AcceptError::AuthRejection(rejection)),
        Ok(Role(role)) => {
            let (mut session, outlet) = ConnectionSession::new(role);
            if session.activate(hub) {
                Ok((session, outlet))
            } else {
                Err(AcceptError::CapacityConflict)
            }
        },
    }
}

} // verus!
