use server::utils::auth::Rejection;
use server::websocket::handler::after_enqueue;
use server::websocket::handler::heartbeat_frame;
use server::websocket::handler::reader_action;
use server::websocket::handler::send_reply;
use server::websocket::handler::InboundEvent;
use server::websocket::handler::ReaderAction;
use server::websocket::handler::TerminationCause;
use server::websocket::handler::Verdict;
use server::websocket::hub::Hub;
use server::websocket::session::accept;
use server::websocket::session::siblings;
use server::websocket::session::AcceptError;
use server::websocket::session::Activity;
use server::websocket::session::ConnectionSession;
use server::websocket::session::SessionState;
use server::websocket::structures::ClientRole;
use server::websocket::structures::ConnectionIdentity;
use server::websocket::structures::Frame;
use server::websocket::structures::Role;
use tokio::sync::mpsc::error::TryRecvError;

#[test]
fn ping_is_answered_with_pong_of_the_same_payload() {
    for role in [ClientRole::Sender, ClientRole::Receiver] {
        let action = reader_action(role, InboundEvent::Frame(Frame::Ping(vec![1, 2, 3])));
        assert_eq!(action, ReaderAction::Reply(Frame::Pong(vec![1, 2, 3])));
        let action = reader_action(role, InboundEvent::Frame(Frame::Ping(Vec::new())));
        assert_eq!(action, ReaderAction::Reply(Frame::Pong(Vec::new())));
    }
}

#[test]
fn publisher_text_is_broadcast_untouched() {
    let event = InboundEvent::Frame(Frame::Text("{\"p\": 1.5}".to_string()));
    assert_eq!(
        reader_action(ClientRole::Sender, event),
        ReaderAction::Broadcast(Frame::Text("{\"p\": 1.5}".to_string()))
    );
    let event = InboundEvent::Frame(Frame::Text(String::new()));
    assert_eq!(
        reader_action(ClientRole::Sender, event),
        ReaderAction::Broadcast(Frame::Text(String::new()))
    );
}

#[test]
fn subscriber_text_is_a_protocol_violation() {
    let event = InboundEvent::Frame(Frame::Text("hi".to_string()));
    assert_eq!(
        reader_action(ClientRole::Receiver, event),
        ReaderAction::Terminate(TerminationCause::ProtocolViolation)
    );
}

#[test]
fn close_and_read_failure_terminate() {
    for role in [ClientRole::Sender, ClientRole::Receiver] {
        assert_eq!(
            reader_action(role, InboundEvent::Frame(Frame::Close)),
            ReaderAction::Terminate(TerminationCause::PeerClosed)
        );
        assert_eq!(
            reader_action(role, InboundEvent::Failure),
            ReaderAction::Terminate(TerminationCause::TransportFailure)
        );
    }
}

#[test]
fn other_frames_are_ignored() {
    for role in [ClientRole::Sender, ClientRole::Receiver] {
        assert_eq!(
            reader_action(role, InboundEvent::Frame(Frame::Binary(vec![0xff]))),
            ReaderAction::Ignore
        );
        assert_eq!(
            reader_action(role, InboundEvent::Frame(Frame::Pong(vec![1]))),
            ReaderAction::Ignore
        );
    }
}

#[test]
fn heartbeat_is_an_empty_ping() {
    assert_eq!(heartbeat_frame(), Frame::Ping(Vec::new()));
}

#[test]
fn failed_enqueue_ends_the_session() {
    assert_eq!(after_enqueue(Ok(())), Verdict::Continue);
    assert_eq!(
        after_enqueue(Err(Frame::Close)),
        Verdict::Terminate(TerminationCause::ChannelClosed)
    );
}

#[test]
fn reply_goes_to_the_own_channel_only() {
    let mut hub = Hub::new();
    let (x, mut x_outlet) =
        ConnectionSession::with_identity(ConnectionIdentity(1), ClientRole::Receiver);
    let (y, mut y_outlet) =
        ConnectionSession::with_identity(ConnectionIdentity(2), ClientRole::Receiver);
    let (mut x, mut y) = (x, y);
    assert!(x.activate(&mut hub));
    assert!(y.activate(&mut hub));

    let action = reader_action(x.role(), InboundEvent::Frame(Frame::Ping(vec![5])));
    let reply = match action {
        ReaderAction::Reply(reply) => reply,
        other => panic!("not a reply: {:?}", other),
    };
    assert_eq!(send_reply(&x.channel(), reply), Verdict::Continue);
    assert_eq!(x_outlet.try_recv(), Ok(Frame::Pong(vec![5])));
    assert_eq!(x_outlet.try_recv(), Err(TryRecvError::Empty));
    assert_eq!(y_outlet.try_recv(), Err(TryRecvError::Empty));

    drop(x_outlet);
    assert_eq!(
        send_reply(&x.channel(), Frame::Pong(Vec::new())),
        Verdict::Terminate(TerminationCause::ChannelClosed)
    );
}

#[test]
fn siblings_are_the_other_two() {
    assert_eq!(siblings(Activity::Reader), (Activity::Writer, Activity::Heartbeat));
    assert_eq!(siblings(Activity::Writer), (Activity::Reader, Activity::Heartbeat));
    assert_eq!(siblings(Activity::Heartbeat), (Activity::Writer, Activity::Reader));
}

#[test]
fn new_session_is_connecting_and_touches_nothing() {
    let hub = Hub::new();
    let (session, _outlet) = ConnectionSession::new(ClientRole::Receiver);
    assert_eq!(session.state(), SessionState::Connecting);
    assert_eq!(session.role(), ClientRole::Receiver);
    assert_eq!(session.channel().owner(), session.identity());
    assert_eq!(hub.registry.len(), 0);
    assert!(!hub.slot.is_occupied());

    let (given, _outlet) =
        ConnectionSession::with_identity(ConnectionIdentity(77), ClientRole::Sender);
    assert_eq!(given.identity(), ConnectionIdentity(77));
    assert_eq!(given.role(), ClientRole::Sender);
    assert_eq!(given.state(), SessionState::Connecting);
}

#[test]
fn subscriber_life_cycle() {
    let mut hub = Hub::new();
    let (mut session, _outlet) =
        ConnectionSession::with_identity(ConnectionIdentity(3), ClientRole::Receiver);

    assert!(session.activate(&mut hub));
    assert_eq!(session.state(), SessionState::Active);
    assert!(hub.registry.contains(ConnectionIdentity(3)));
    assert!(!hub.slot.is_occupied());

    // A second activation is not a second registration.
    assert!(!session.activate(&mut hub));
    assert_eq!(session.state(), SessionState::Active);
    assert_eq!(hub.registry.len(), 1);

    assert_eq!(
        session.terminate(Activity::Heartbeat),
        Some((Activity::Writer, Activity::Reader))
    );
    assert_eq!(session.state(), SessionState::Closing);
    assert_eq!(session.terminate(Activity::Reader), None);
    assert_eq!(session.state(), SessionState::Closing);
    assert!(hub.registry.contains(ConnectionIdentity(3)));

    session.close(&mut hub);
    assert_eq!(session.state(), SessionState::Closed);
    assert!(!hub.registry.contains(ConnectionIdentity(3)));
    assert_eq!(hub.registry.len(), 0);
    assert!(!session.activate(&mut hub));
    assert_eq!(session.state(), SessionState::Closed);
    assert_eq!(hub.registry.len(), 0);
}

#[test]
fn close_without_terminate_cleans_up_too() {
    let mut hub = Hub::new();
    let (mut session, _outlet) =
        ConnectionSession::with_identity(ConnectionIdentity(3), ClientRole::Sender);
    assert!(session.activate(&mut hub));
    assert_eq!(hub.slot.holder(), Some(ConnectionIdentity(3)));
    session.close(&mut hub);
    assert_eq!(session.state(), SessionState::Closed);
    assert_eq!(hub.slot.holder(), None);
}

#[test]
fn close_of_a_connecting_session_touches_nothing() {
    let mut hub = Hub::new();
    let (mut other, _o) =
        ConnectionSession::with_identity(ConnectionIdentity(1), ClientRole::Receiver);
    assert!(other.activate(&mut hub));

    let (mut session, _outlet) =
        ConnectionSession::with_identity(ConnectionIdentity(1), ClientRole::Receiver);
    assert_eq!(session.terminate(Activity::Reader), None);
    assert_eq!(session.state(), SessionState::Connecting);
    session.close(&mut hub);
    assert_eq!(session.state(), SessionState::Closed);
    assert!(hub.registry.contains(ConnectionIdentity(1)));
}

#[test]
fn cleanup_happens_once() {
    let mut hub = Hub::new();
    let (mut p, _po) = ConnectionSession::with_identity(ConnectionIdentity(1), ClientRole::Sender);
    assert!(p.activate(&mut hub));
    p.terminate(Activity::Writer);
    p.close(&mut hub);
    assert_eq!(hub.slot.holder(), None);

    let (mut r, _ro) = ConnectionSession::with_identity(ConnectionIdentity(2), ClientRole::Sender);
    assert!(r.activate(&mut hub));
    p.close(&mut hub);
    p.close(&mut hub);
    assert_eq!(hub.slot.holder(), Some(ConnectionIdentity(2)));
}

#[test]
fn refused_publisher_leaves_no_trace() {
    let mut hub = Hub::new();
    let (mut p, _po) = ConnectionSession::with_identity(ConnectionIdentity(1), ClientRole::Sender);
    let (mut q, _qo) = ConnectionSession::with_identity(ConnectionIdentity(2), ClientRole::Sender);
    let (mut x, _xo) =
        ConnectionSession::with_identity(ConnectionIdentity(3), ClientRole::Receiver);
    assert!(p.activate(&mut hub));
    assert!(x.activate(&mut hub));

    assert!(!q.activate(&mut hub));
    assert_eq!(q.state(), SessionState::Closed);
    assert_eq!(hub.slot.holder(), Some(ConnectionIdentity(1)));
    assert_eq!(hub.registry.len(), 1);

    q.close(&mut hub);
    assert_eq!(hub.slot.holder(), Some(ConnectionIdentity(1)));
    assert_eq!(p.state(), SessionState::Active);
    assert_eq!(x.state(), SessionState::Active);
}

#[test]
fn hub_follows_any_order_of_connects_and_disconnects() {
    let mut hub = Hub::new();
    let mut sessions = Vec::new();
    for n in 0..6u128 {
        let role = if n % 3 == 0 { ClientRole::Sender } else { ClientRole::Receiver };
        let (mut session, outlet) = ConnectionSession::with_identity(ConnectionIdentity(n), role);
        let active = session.activate(&mut hub);
        // 0 publishes; 3 comes while 0 holds the slot.
        assert_eq!(active, n != 3);
        sessions.push((session, outlet));
    }
    assert_eq!(hub.slot.holder(), Some(ConnectionIdentity(0)));
    assert_eq!(hub.registry.len(), 4);

    for index in [4usize, 0, 3, 1] {
        sessions[index].0.close(&mut hub);
    }
    assert_eq!(hub.slot.holder(), None);
    assert_eq!(hub.registry.len(), 2);
    for (session, _) in &sessions {
        let live = matches!(
            session.state(),
            SessionState::Active | SessionState::Closing
        );
        let registered = hub.registry.contains(session.identity());
        assert_eq!(registered, live && session.role() == ClientRole::Receiver);
    }
    assert!(hub.registry.contains(ConnectionIdentity(2)));
    assert!(hub.registry.contains(ConnectionIdentity(5)));
}

#[test]
fn rejected_credentials_create_nothing() {
    let mut hub = Hub::new();
    for rejection in [
        Rejection::MissingHeader,
        Rejection::InvalidHeader,
        Rejection::InvalidAuthorizationHeader,
        Rejection::InvalidToken,
        Rejection::PermissionDenied,
    ] {
        let outcome = accept(Err(rejection), &mut hub);
        assert_eq!(outcome.err(), Some(AcceptError::AuthRejection(rejection)));
    }
    assert_eq!(hub.registry.len(), 0);
    assert!(!hub.slot.is_occupied());
}

#[test]
fn accepted_connection_is_active_and_registered() {
    let mut hub = Hub::new();
    let (x, _xo) = accept(Ok(Role(ClientRole::Receiver)), &mut hub).ok().unwrap();
    assert_eq!(x.state(), SessionState::Active);
    assert_eq!(x.role(), ClientRole::Receiver);
    assert!(hub.registry.contains(x.identity()));

    let (p, _po) = accept(Ok(Role(ClientRole::Sender)), &mut hub).ok().unwrap();
    assert_eq!(p.state(), SessionState::Active);
    assert_eq!(hub.slot.holder(), Some(p.identity()));
    assert_ne!(p.identity(), x.identity());

    let refused = accept(Ok(Role(ClientRole::Sender)), &mut hub);
    assert_eq!(refused.err(), Some(AcceptError::CapacityConflict));
    assert_eq!(hub.slot.holder(), Some(p.identity()));
    assert_eq!(hub.registry.len(), 1);
}
