//! Roles, connection identities and the frame vocabulary of the hub.

use vstd::prelude::*;

verus! {

/// What a connection is allowed to do for its whole life.
#[derive(Clone, Copy, Debug, PartialEq, Eq, Structural)]
pub enum ClientRole {
    /// The single producer whose text frames are fanned out.
    Sender,
    /// A consumer; it may only receive.
    Receiver,
}

/// A role as handed over by credential resolution.
pub struct Role(pub ClientRole);

/// The key under which one accepted connection is known to the hub.
///
/// It carries no meaning beyond telling connections apart.
#[derive(Clone, Copy, Debug, PartialEq, Eq, Hash, Structural)]
pub struct ConnectionIdentity(pub u128);

/// A frame as the hub sees it: the kind, and the payload carried through.
#[derive(Debug, PartialEq, Eq)]
pub enum Frame {
    /// Opaque text; the hub never looks inside.
    Text(String),
    /// Opaque bytes.
    Binary(Vec<u8>),
    /// A liveness probe with its payload.
    Ping(Vec<u8>),
    /// The answer to a probe, echoing its payload.
    Pong(Vec<u8>),
    /// The peer is closing the connection.
    Close,
}

/// The mathematical content of a [`Frame`].
pub enum FrameView {
    Text(Seq<char>),
    Binary(Seq<u8>),
    Ping(Seq<u8>),
    Pong(Seq<u8>),
    Close,
}

impl View for Frame {
    type V = FrameView;

    open spec fn view(&self) -> FrameView {
        match self {
            Frame::Text(text) => FrameView::Text(text@),
            Frame::Binary(bytes) => FrameView::Binary(bytes@),
            Frame::Ping(payload) => FrameView::Ping(payload@),
            Frame::Pong(payload) => FrameView::Pong(payload@),
            Frame::Close => FrameView::Close,
        }
    }
}

/// Whether `value` has the layout of a randomly drawn identifier: the
/// version field reads 4 and the variant field reads binary 10.
pub open spec fn is_random_identifier(value: u128) -> bool {
    value & 0x0000_0000_0000_f000_c000_0000_0000_0000u128
        == 0x0000_0000_0000_4000_8000_0000_0000_0000u128
}

/// `uuid::Uuid::new_v4` followed by `Uuid::as_u128`: 122 random bits around
/// the fixed version and variant fields. Only those fixed fields are claimed;
/// two calls may return anything else alike or different. The call panics
/// where the operating system has no random bytes to give, which nothing
/// handed to this library decides.
#[verifier::external_body]
fn random_identifier() -> (value: u128)
    ensures
        is_random_identifier(value),
{
    uuid::Uuid::new_v4().as_u128()
}

impl ConnectionIdentity {
    /// Mints the identity of a newly accepted connection.
    pub fn mint() -> (id: ConnectionIdentity)
        ensures
            is_random_identifier(id.0),
    {
        ConnectionIdentity(random_identifier())
    }
}

impl ClientRole {
    /// Whether this role is the one permitted to emit data for fan-out.
    pub fn is_publisher(&self) -> (b: bool)
        ensures
            b == (*self == ClientRole::Sender),
    {
        match self {
            ClientRole::Sender => true,
            ClientRole::Receiver => false,
        }
    }
}

impl Clone for Frame {
    /// A second frame with the same content, for handing to another queue.
    fn clone(&self) -> (copy: Frame)
        ensures
            copy@ == self@,
    {
        match self {
            Frame::Text(text) => Frame::Text(text.clone()),
            Frame::Binary(bytes) => Frame::Binary(bytes.clone()),
            Frame::Ping(payload) => Frame::Ping(payload.clone()),
            Frame::Pong(payload) => Frame::Pong(payload.clone()),
            Frame::Close => Frame::Close,
        }
    }
}

} // verus!
