use bili_live_chat::client::{
    handshake_complete, heartbeat_packet, session_from_json, step_connection, AuthPack,
    ConnectionState, DirectoryError, Failover, HandshakePolicy, SessionEvent, TransportError,
    HEARTBEAT_INTERVAL_SECS,
};
use bili_live_chat::json::parse_json;

#[test]
fn session_resolves_token_and_candidates() {
    let body = br#"{"data":{"token":"secret-token","host_list":[
        {"host":"a.example.com","port":2243,"ws_port":2244,"wss_port":443},
        {"host":"b.example.com","port":2243,"ws_port":2244,"wss_port":2245}
    ]}}"#;
    let v = parse_json(body).unwrap();
    let s = session_from_json(77, &v).unwrap();
    assert_eq!(s.room_id, 77);
    assert_eq!(s.token, "secret-token");
    assert_eq!(s.host_list.len(), 2);
    assert_eq!(s.host_list[0].host, "a.example.com");
    assert_eq!(s.host_list[0].wss_port, 443);
    assert_eq!(s.host_list[1].host, "b.example.com");
    assert!(s.host_index.is_none());
}

#[test]
fn session_is_all_or_nothing() {
    let missing_token = parse_json(br#"{"data":{"host_list":[]}}"#).unwrap();
    assert_eq!(
        session_from_json(1, &missing_token).unwrap_err(),
        DirectoryError::MalformedResponse
    );
    let bad_entry = parse_json(
        br#"{"data":{"token":"t","host_list":[{"host":"a","port":1,"ws_port":2}]}}"#,
    )
    .unwrap();
    assert_eq!(session_from_json(1, &bad_entry).unwrap_err(), DirectoryError::MalformedResponse);
    let not_a_list =
        parse_json(br#"{"data":{"token":"t","host_list":"nope"}}"#).unwrap();
    assert_eq!(session_from_json(1, &not_a_list).unwrap_err(), DirectoryError::MalformedResponse);
}

/// Drives the failover walk over predetermined per-candidate outcomes, the
/// way the connect loop does against real sockets.
fn run_failover(outcomes: &[bool]) -> Failover {
    let mut f = Failover::new(outcomes.len());
    while let Some(i) = f.next_attempt() {
        f.record(outcomes[i]);
    }
    f
}

#[test]
fn failover_binds_to_first_success() {
    let f = run_failover(&[false, false, true]);
    assert_eq!(f.chosen, Some(2));
    // the walk never reaches for candidates past the successful one
    assert_eq!(f.next, 3);

    let f = run_failover(&[false, true, true, false]);
    assert_eq!(f.chosen, Some(1));
    assert_eq!(f.next, 2);
}

#[test]
fn failover_exhausts_list_then_fails() {
    let f = run_failover(&[false, false, false]);
    assert_eq!(f.chosen, None);
    assert_eq!(f.next, 3);
    // every candidate failed: the caller reports it as a transport error
    let outcome = if f.chosen.is_none() {
        Err::<usize, TransportError>(TransportError::AllCandidatesFailed)
    } else {
        Ok(f.chosen.unwrap())
    };
    assert_eq!(outcome, Err(TransportError::AllCandidatesFailed));
}

#[test]
fn finished_walk_reports_a_typed_outcome() {
    let f = run_failover(&[false, true]);
    assert_eq!(f.outcome(), Ok(1));
    let f = run_failover(&[false, false]);
    assert_eq!(f.outcome(), Err(TransportError::AllCandidatesFailed));
}

#[test]
fn auth_pack_for_a_room_fixes_the_protocol_constants() {
    let a = AuthPack::for_room(77, "tok".to_owned());
    assert_eq!(a.uid, 0);
    assert_eq!(a.room_id, 77);
    assert_eq!(a.proto_ver, 2);
    assert_eq!(a.platform, "web");
    assert_eq!(a.pack_type, 2);
    assert_eq!(a.key, "tok");
}

#[test]
fn connection_advances_forward_and_closes_terminally() {
    let s = ConnectionState::Idle;
    let s = step_connection(s, SessionEvent::BeginResolve);
    assert_eq!(s, ConnectionState::Resolving);
    let s = step_connection(s, SessionEvent::DirectoryResolved);
    assert_eq!(s, ConnectionState::Connecting);
    let s = step_connection(s, SessionEvent::TransportConnected);
    assert_eq!(s, ConnectionState::Authenticated);
    let s = step_connection(s, SessionEvent::FatalError);
    assert_eq!(s, ConnectionState::Closed);
    // closed is terminal, whatever arrives
    for e in [
        SessionEvent::BeginResolve,
        SessionEvent::DirectoryResolved,
        SessionEvent::TransportConnected,
        SessionEvent::Shutdown,
    ] {
        assert_eq!(step_connection(ConnectionState::Closed, e), ConnectionState::Closed);
    }
    // an event that does not apply leaves the state alone
    assert_eq!(
        step_connection(ConnectionState::Idle, SessionEvent::TransportConnected),
        ConnectionState::Idle
    );
}

#[test]
fn heartbeat_packet_is_a_bare_header() {
    let p = heartbeat_packet();
    assert_eq!(p, vec![0, 0, 0, 16, 0, 16, 0, 0, 0, 0, 0, 2, 0, 0, 0, 1]);
}

#[test]
fn handshake_policies_differ_only_on_the_ack() {
    // optimistic: sending the authentication packet is enough
    assert!(handshake_complete(HandshakePolicy::FireAndForget, true, false));
    assert!(handshake_complete(HandshakePolicy::FireAndForget, true, true));
    assert!(!handshake_complete(HandshakePolicy::FireAndForget, false, false));
    // strict: the server's acknowledgement must have been seen too
    assert!(!handshake_complete(HandshakePolicy::RequireAck, true, false));
    assert!(handshake_complete(HandshakePolicy::RequireAck, true, true));
    assert!(!handshake_complete(HandshakePolicy::RequireAck, false, true));
}

#[test]
fn heartbeat_interval_is_thirty_seconds() {
    assert_eq!(HEARTBEAT_INTERVAL_SECS, 30);
}
