use kodama::server::{lifecycle_step, should_disconnect_on_empty_read, ClientId,
    ClientIdAllocator, ConnectionEvent, ConnectionLifecycle, FromServer, LoopAction, Registry,
    ToServer};

#[test]
fn registry_new_then_disconnect_reaps_entry() {
    // registry ordering: NewClient then Disconnected for the same id leaves
    // no active entry
    let mut registry = Registry::new();
    let id = ClientId(3);
    assert_eq!(
        registry.process(&ToServer::NewClient { id, actor_id: 77 }),
        LoopAction::Continue
    );
    assert!(registry.contains(id));
    assert_eq!(registry.actor_of(id), Some(77));
    assert_eq!(registry.process(&ToServer::Disconnected(id)), LoopAction::Continue);
    assert!(!registry.contains(id));
    assert_eq!(registry.actor_of(id), None);
}

#[test]
fn registry_only_fatal_error_stops_the_loop() {
    let mut registry = Registry::new();
    let id = ClientId(0);
    assert_eq!(
        registry.process(&ToServer::NewClient { id, actor_id: 1 }),
        LoopAction::Continue
    );
    assert_eq!(
        registry.process(&ToServer::Message(id, "hello".to_string())),
        LoopAction::Continue
    );
    assert!(registry.contains(id), "a payload message leaves the registry as it is");
    assert_eq!(registry.process(&ToServer::FatalError), LoopAction::Stop);
    assert!(registry.contains(id), "a fatal error leaves the registry as it is");
}

#[test]
fn registry_keeps_other_entries() {
    let mut registry = Registry::new();
    registry.process(&ToServer::NewClient { id: ClientId(1), actor_id: 10 });
    registry.process(&ToServer::NewClient { id: ClientId(2), actor_id: 20 });
    registry.process(&ToServer::Disconnected(ClientId(1)));
    assert!(!registry.contains(ClientId(1)));
    assert!(registry.contains(ClientId(2)));
    assert_eq!(registry.len(), 1);
}

#[test]
fn client_ids_are_unique_and_gapless() {
    let mut allocator = ClientIdAllocator::new();
    let n = 100;
    let mut seen: Vec<ClientId> = Vec::new();
    for _ in 0..n {
        seen.push(allocator.next_id());
    }
    for i in 0..n {
        assert_eq!(seen[i].0, i, "no id skipped");
        for j in (i + 1)..n {
            assert_ne!(seen[i], seen[j], "ids must be distinct");
        }
    }
}

#[test]
fn idle_timeout_verdict() {
    assert!(!should_disconnect_on_empty_read(0));
    assert!(!should_disconnect_on_empty_read(5000));
    assert!(should_disconnect_on_empty_read(5001));
}

#[test]
fn from_server_carries_message() {
    let msg = FromServer::Message("chat".to_string());
    match msg {
        FromServer::Message(m) => assert_eq!(m, "chat"),
    }
}

#[test]
fn connection_lifecycle() {
    let s = ConnectionLifecycle::Accepted;
    let s = lifecycle_step(s, ConnectionEvent::SocketReady);
    assert_eq!(s, ConnectionLifecycle::HandshakePending);
    let s = lifecycle_step(s, ConnectionEvent::KeyDerived);
    assert_eq!(s, ConnectionLifecycle::Secured);
    let s = lifecycle_step(s, ConnectionEvent::LoginComplete);
    assert_eq!(s, ConnectionLifecycle::Active);
    let s = lifecycle_step(s, ConnectionEvent::IdleTimeout);
    assert_eq!(s, ConnectionLifecycle::Disconnected);
    // disconnection is terminal
    for e in [
        ConnectionEvent::SocketReady,
        ConnectionEvent::KeyDerived,
        ConnectionEvent::LoginComplete,
        ConnectionEvent::TransportError,
        ConnectionEvent::IdleTimeout,
        ConnectionEvent::GracefulLogout,
    ] {
        assert_eq!(lifecycle_step(s, e), ConnectionLifecycle::Disconnected);
    }
    // a key exchange out of order does not secure an accepted connection
    assert_eq!(
        lifecycle_step(ConnectionLifecycle::Accepted, ConnectionEvent::KeyDerived),
        ConnectionLifecycle::Accepted
    );
}
