use sqlite_worker_core::coordination::{
    build_query_response, DatabaseHandle, QueryRoute, RouterAction, WorkerState,
};
use sqlite_worker_core::messages::{parse_message, ChannelMessage, RawMessage};

fn empty_raw() -> RawMessage {
    RawMessage {
        msg_type: None,
        query_id: None,
        sql: None,
        result: None,
        error: None,
        leader_id: None,
    }
}

/// What the bus does between contexts: every subscriber receives the
/// published message as an untyped payload.
fn to_raw(m: &ChannelMessage) -> RawMessage {
    match m {
        ChannelMessage::QueryRequest { query_id, sql } => RawMessage {
            msg_type: Some("query-request".to_string()),
            query_id: Some(query_id.clone()),
            sql: Some(sql.clone()),
            ..empty_raw()
        },
        ChannelMessage::QueryResponse { query_id, result, error } => RawMessage {
            msg_type: Some("query-response".to_string()),
            query_id: Some(query_id.clone()),
            result: result.clone(),
            error: error.clone(),
            ..empty_raw()
        },
        ChannelMessage::NewLeader { leader_id } => RawMessage {
            msg_type: Some("new-leader".to_string()),
            leader_id: Some(leader_id.clone()),
            ..empty_raw()
        },
    }
}

fn make_leader(state: &mut WorkerState, token: u64) -> ChannelMessage {
    state.on_lock_granted();
    state.on_database_initialized(DatabaseHandle { token })
}

#[test]
fn new_state_is_follower_with_empty_table() {
    let state = WorkerState::new();
    assert!(!state.is_leader);
    assert!(state.db.is_none());
    assert!(state.pending_queries.is_empty());
    assert_eq!(state.worker_id.len(), 36);
    assert!(state.worker_id.contains('-'));
    for c in state.worker_id.chars() {
        assert!(c.is_ascii_hexdigit() || c == '-');
    }
}

#[test]
fn worker_identities_are_unique() {
    let a = WorkerState::new();
    let b = WorkerState::new();
    assert_ne!(a.worker_id, b.worker_id);
}

#[test]
fn parse_accepts_query_request() {
    let raw = RawMessage {
        msg_type: Some("query-request".to_string()),
        query_id: Some("test-query-123".to_string()),
        sql: Some("SELECT * FROM test_table".to_string()),
        ..empty_raw()
    };
    match parse_message(raw) {
        Some(ChannelMessage::QueryRequest { query_id, sql }) => {
            assert_eq!(query_id, "test-query-123");
            assert_eq!(sql, "SELECT * FROM test_table");
        }
        _ => panic!("expected a query request"),
    }
}

#[test]
fn parse_accepts_query_response_success() {
    let raw = RawMessage {
        msg_type: Some("query-response".to_string()),
        query_id: Some("test-query-456".to_string()),
        result: Some("[{\"id\": 1, \"name\": \"test\"}]".to_string()),
        ..empty_raw()
    };
    match parse_message(raw) {
        Some(ChannelMessage::QueryResponse { query_id, result, error }) => {
            assert_eq!(query_id, "test-query-456");
            assert_eq!(result.as_deref(), Some("[{\"id\": 1, \"name\": \"test\"}]"));
            assert!(error.is_none());
        }
        _ => panic!("expected a query response"),
    }
}

#[test]
fn parse_accepts_query_response_error() {
    let raw = RawMessage {
        msg_type: Some("query-response".to_string()),
        query_id: Some("test-query-error".to_string()),
        error: Some("SQL syntax error: near 'SELCT'".to_string()),
        ..empty_raw()
    };
    match parse_message(raw) {
        Some(ChannelMessage::QueryResponse { query_id, result, error }) => {
            assert_eq!(query_id, "test-query-error");
            assert!(result.is_none());
            assert_eq!(error.as_deref(), Some("SQL syntax error: near 'SELCT'"));
        }
        _ => panic!("expected a query response"),
    }
}

#[test]
fn parse_accepts_new_leader() {
    let raw = RawMessage {
        msg_type: Some("new-leader".to_string()),
        leader_id: Some("leader-worker-789".to_string()),
        ..empty_raw()
    };
    match parse_message(raw) {
        Some(ChannelMessage::NewLeader { leader_id }) => {
            assert_eq!(leader_id, "leader-worker-789");
        }
        _ => panic!("expected an announcement"),
    }
}

#[test]
fn parse_rejects_malformed_payloads() {
    assert!(parse_message(empty_raw()).is_none());
    let unknown_tag = RawMessage {
        msg_type: Some("invalid json".to_string()),
        ..empty_raw()
    };
    assert!(parse_message(unknown_tag).is_none());
    let request_without_sql = RawMessage {
        msg_type: Some("query-request".to_string()),
        query_id: Some("q1".to_string()),
        ..empty_raw()
    };
    assert!(parse_message(request_without_sql).is_none());
    let response_without_id = RawMessage {
        msg_type: Some("query-response".to_string()),
        result: Some("[]".to_string()),
        ..empty_raw()
    };
    assert!(parse_message(response_without_id).is_none());
    let response_without_fields = RawMessage {
        msg_type: Some("query-response".to_string()),
        query_id: Some("q2".to_string()),
        ..empty_raw()
    };
    assert!(parse_message(response_without_fields).is_none());
    let announcement_without_id = RawMessage {
        msg_type: Some("new-leader".to_string()),
        ..empty_raw()
    };
    assert!(parse_message(announcement_without_id).is_none());
}

#[test]
fn leadership_flag_and_announcement() {
    let mut state = WorkerState::new();
    assert!(!state.is_leader);
    let announcement = make_leader(&mut state, 7);
    assert!(state.is_leader);
    assert_eq!(state.db, Some(DatabaseHandle { token: 7 }));
    match announcement {
        ChannelMessage::NewLeader { leader_id } => assert_eq!(leader_id, state.worker_id),
        _ => panic!("expected an announcement"),
    }
}

#[test]
fn query_route_per_role() {
    let mut state = WorkerState::new();
    assert!(matches!(state.query_route(), QueryRoute::Forward));
    state.on_lock_granted();
    match state.query_route() {
        QueryRoute::NotInitialized { error } => assert_eq!(error, "Database not initialized"),
        _ => panic!("expected the initialization error"),
    }
    state.on_database_initialized(DatabaseHandle { token: 3 });
    match state.query_route() {
        QueryRoute::Local { handle } => assert_eq!(handle.token, 3),
        _ => panic!("expected a local route"),
    }
}

#[test]
fn scenario_forwarded_select_one_round_trip() {
    // Follower X forwards "SELECT 1"; leader Y executes it and answers;
    // X's call resolves with the identical result text.
    let mut follower = WorkerState::new();
    let mut leader = WorkerState::new();
    make_leader(&mut leader, 1);

    let (query_id, request) = follower
        .begin_forwarded_query("SELECT 1".to_string())
        .expect("fresh id");
    assert_eq!(follower.pending_queries.len(), 1);

    // The leader receives the broadcast request and must execute it.
    let action = leader.handle_message(to_raw(&request));
    let response = match action {
        RouterAction::Execute { query_id: q, sql } => {
            assert_eq!(q, query_id);
            assert_eq!(sql, "SELECT 1");
            // The engine returns the encoded result set.
            build_query_response(q, Ok("[{\"1\":1}]".to_string()))
        }
        _ => panic!("leader must execute the forwarded query"),
    };

    // The follower receives the broadcast response and resolves.
    match follower.handle_message(to_raw(&response)) {
        RouterAction::Resolve { query_id: q, result } => {
            assert_eq!(q, query_id);
            assert_eq!(result, "[{\"1\":1}]");
        }
        _ => panic!("follower must resolve its pending call"),
    }
    assert!(follower.pending_queries.is_empty());
}

#[test]
fn scenario_routed_request_before_initialization() {
    // The leader's handle is still absent: a routed request yields the
    // initialization error.
    let mut leader = WorkerState::new();
    leader.on_lock_granted();

    let raw = to_raw(&ChannelMessage::QueryRequest {
        query_id: "q-init".to_string(),
        sql: "SELECT 1".to_string(),
    });
    match leader.handle_message(raw) {
        RouterAction::Publish { response: ChannelMessage::QueryResponse { query_id, result, error } } => {
            assert_eq!(query_id, "q-init");
            assert!(result.is_none());
            assert_eq!(error.as_deref(), Some("Database not initialized"));
        }
        _ => panic!("expected the initialization error response"),
    }
}

#[test]
fn follower_ignores_requests() {
    let mut follower = WorkerState::new();
    let raw = to_raw(&ChannelMessage::QueryRequest {
        query_id: "q-other".to_string(),
        sql: "SELECT 2".to_string(),
    });
    assert!(matches!(follower.handle_message(raw), RouterAction::Nothing));
    assert!(follower.pending_queries.is_empty());
}

#[test]
fn scenario_concurrent_followers_never_swapped() {
    // Two followers issue concurrent requests with distinct ids; each
    // response resolves only its matching caller.
    let mut x = WorkerState::new();
    let mut y = WorkerState::new();
    let (id_x, _) = x.begin_forwarded_query("SELECT 'x'".to_string()).expect("fresh id");
    let (id_y, _) = y.begin_forwarded_query("SELECT 'y'".to_string()).expect("fresh id");
    assert_ne!(id_x, id_y);

    let response_x = build_query_response(id_x.clone(), Ok("for-x".to_string()));
    let response_y = build_query_response(id_y.clone(), Ok("for-y".to_string()));

    // The broadcast reaches every context; y must not react to x's response.
    assert!(matches!(y.handle_message(to_raw(&response_x)), RouterAction::Nothing));
    assert_eq!(y.pending_queries.len(), 1);

    match x.handle_message(to_raw(&response_x)) {
        RouterAction::Resolve { query_id, result } => {
            assert_eq!(query_id, id_x);
            assert_eq!(result, "for-x");
        }
        _ => panic!("x must resolve its own call"),
    }
    assert!(matches!(x.handle_message(to_raw(&response_y)), RouterAction::Nothing));

    match y.handle_message(to_raw(&response_y)) {
        RouterAction::Resolve { query_id, result } => {
            assert_eq!(query_id, id_y);
            assert_eq!(result, "for-y");
        }
        _ => panic!("y must resolve its own call"),
    }
}

#[test]
fn response_with_error_rejects_pending_call() {
    let mut follower = WorkerState::new();
    let (id, _) = follower.begin_forwarded_query("SELCT 1".to_string()).expect("fresh id");
    let response = build_query_response(id.clone(), Err("SQL syntax error: near 'SELCT'".to_string()));
    match follower.handle_message(to_raw(&response)) {
        RouterAction::Reject { query_id, error } => {
            assert_eq!(query_id, id);
            assert_eq!(error, "SQL syntax error: near 'SELCT'");
        }
        _ => panic!("follower must reject its pending call"),
    }
    assert!(follower.pending_queries.is_empty());
}

#[test]
fn unmatched_response_is_inert() {
    // A response whose id is absent from the correlation table has no
    // observable effect.
    let mut state = WorkerState::new();
    let (kept, _) = state.begin_forwarded_query("SELECT 1".to_string()).expect("fresh id");
    let stray = build_query_response("unknown-id".to_string(), Ok("[]".to_string()));
    assert!(matches!(state.handle_message(to_raw(&stray)), RouterAction::Nothing));
    assert_eq!(state.pending_queries.len(), 1);
    assert_eq!(state.pending_queries[0], kept);
}

#[test]
fn timeout_fires_exactly_once_and_late_response_is_dropped() {
    // Absent any response before the window elapses, the call yields
    // the timeout error exactly once; a later response is a no-op.
    let mut follower = WorkerState::new();
    let (id, _) = follower.begin_forwarded_query("SELECT 1".to_string()).expect("fresh id");

    let first = follower.on_timeout(&id);
    assert_eq!(first.as_deref(), Some("Query timeout"));
    assert!(follower.pending_queries.is_empty());

    let late = build_query_response(id.clone(), Ok("too late".to_string()));
    assert!(matches!(follower.handle_message(to_raw(&late)), RouterAction::Nothing));

    let second = follower.on_timeout(&id);
    assert!(second.is_none());
}

#[test]
fn response_without_result_or_error_is_dropped_as_malformed() {
    // A response carrying a pending id but neither result nor error is
    // malformed: it must not cancel the pending call, which still
    // settles exactly once, via the timeout.
    let mut follower = WorkerState::new();
    let (id, _) = follower.begin_forwarded_query("SELECT 1".to_string()).expect("fresh id");
    let raw = RawMessage {
        msg_type: Some("query-response".to_string()),
        query_id: Some(id.clone()),
        ..empty_raw()
    };
    assert!(matches!(follower.handle_message(raw), RouterAction::Nothing));
    assert_eq!(follower.pending_queries.len(), 1);
    assert_eq!(follower.pending_queries[0], id);
    assert_eq!(follower.on_timeout(&id).as_deref(), Some("Query timeout"));
}

#[test]
fn settled_response_disarms_timeout() {
    let mut follower = WorkerState::new();
    let (id, _) = follower.begin_forwarded_query("SELECT 1".to_string()).expect("fresh id");
    let response = build_query_response(id.clone(), Ok("done".to_string()));
    assert!(matches!(follower.handle_message(to_raw(&response)), RouterAction::Resolve { .. }));
    assert!(follower.on_timeout(&id).is_none());
}

#[test]
fn scenario_unparseable_message_leaves_state_intact() {
    // An unparseable message is received; flags and table entries are
    // unaffected and no response is emitted.
    let mut leader = WorkerState::new();
    make_leader(&mut leader, 9);
    let _ = leader.register_pending("held-entry".to_string(), "SELECT 3".to_string());

    let garbage = RawMessage {
        msg_type: Some("invalid json".to_string()),
        query_id: Some("whatever".to_string()),
        ..empty_raw()
    };
    assert!(matches!(leader.handle_message(garbage), RouterAction::Nothing));
    assert!(leader.is_leader);
    assert_eq!(leader.db, Some(DatabaseHandle { token: 9 }));
    assert_eq!(leader.pending_queries.len(), 1);
    assert_eq!(leader.pending_queries[0], "held-entry");
}

#[test]
fn announcements_are_informational_only() {
    let mut state = WorkerState::new();
    let raw = to_raw(&ChannelMessage::NewLeader { leader_id: "someone".to_string() });
    assert!(matches!(state.handle_message(raw), RouterAction::Nothing));
    assert!(!state.is_leader);
    assert!(state.pending_queries.is_empty());
}

#[test]
fn build_query_response_carries_text_verbatim() {
    match build_query_response("a".to_string(), Ok("result text".to_string())) {
        ChannelMessage::QueryResponse { query_id, result, error } => {
            assert_eq!(query_id, "a");
            assert_eq!(result.as_deref(), Some("result text"));
            assert!(error.is_none());
        }
        _ => panic!("expected a response"),
    }
    match build_query_response("b".to_string(), Err("engine error".to_string())) {
        ChannelMessage::QueryResponse { query_id, result, error } => {
            assert_eq!(query_id, "b");
            assert!(result.is_none());
            assert_eq!(error.as_deref(), Some("engine error"));
        }
        _ => panic!("expected a response"),
    }
}
