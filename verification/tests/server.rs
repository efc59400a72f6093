use tracing_surreal::stop::{RecordId, Stop, StopError};
use tracing_surreal::tmp::server::{
    auth_request, authenticate, err_resp, query_auth, read_query, AcceptAction, AcceptEvent,
    AcceptLoop, AuthArgs, Authenticated, BuildServerDefault, ConnAction, ConnEvent, ConnState,
    End, ErrorResponse, FormatArgs, Phase, QueryError, ServerBuilder, StartError,
};
use tracing_surreal::tracing_msg::handshake::ClientRole;
use tracing_surreal::tracing_msg::{
    CloseErr, CloseErrKind, CloseMsg, CloseOk, GraceType, MsgFormat, QueryHistory, Role,
};

fn host() -> Stop {
    Stop::for_participant(
        RecordId { table: ".sessions".to_string(), key: "S".to_string() },
        "stamp".to_string(),
        RecordId { table: "stamp-clients".to_string(), key: "H".to_string() },
        Role::Host,
        true,
    )
}

fn server() -> ServerBuilder {
    host().build_server_default()
}

fn refused(outcome: Result<Authenticated, ErrorResponse>) -> (u16, String) {
    let response = outcome.unwrap_err();
    (response.status, response.body)
}

#[test]
fn a_server_starts_with_the_usual_options() {
    let server = server();
    assert_eq!(
        server.auth_args,
        AuthArgs {
            pusher_path: "/pusher".to_string(),
            pusher_token: None,
            observer_path: "/observer".to_string(),
            observer_token: None,
            director_path: "/director".to_string(),
            director_token: None,
        }
    );
    assert_eq!(
        server.format_args,
        FormatArgs { accept_json: true, accept_bincode: true, accept_msgpack: true }
    );
    assert!(!server.fuck_off_on_damage);
    assert!(!server.fuck_off_on_observer_push);
    assert!(server.ctrlc_shutdown);
    assert_eq!(server.ws_handshake_timeout, 1500);
    assert_eq!(server.tmp_hello_timeout, 3000);
    assert_eq!(server.bind_addrs, vec!["127.0.0.1:8192".to_string()]);
    assert!(!server.stop.is_client());
}

#[test]
fn the_options_of_a_server_can_be_changed() {
    let server = server()
        .pusher_path("/in")
        .observer_path("/out")
        .director_path("/both")
        .observer_token("o")
        .default_token("d")
        .disable_json()
        .fuck_off_on_damage()
        .fuck_off_on_observer_push()
        .disable_ctrlc_shutdown()
        .ws_handshake_timeout(10)
        .tmp_hello_timeout(20)
        .bind_addrs(vec!["0.0.0.0:1".to_string()]);
    assert_eq!(
        server.auth_args,
        AuthArgs {
            pusher_path: "/in".to_string(),
            pusher_token: Some("d".to_string()),
            observer_path: "/out".to_string(),
            observer_token: Some("o".to_string()),
            director_path: "/both".to_string(),
            director_token: Some("d".to_string()),
        }
    );
    assert_eq!(
        server.format_args,
        FormatArgs { accept_json: false, accept_bincode: true, accept_msgpack: true }
    );
    assert!(server.fuck_off_on_damage && server.fuck_off_on_observer_push);
    assert!(!server.ctrlc_shutdown);
    assert_eq!((server.ws_handshake_timeout, server.tmp_hello_timeout), (10, 20));
    assert_eq!(server.bind_addrs, vec!["0.0.0.0:1".to_string()]);
    let server = server.pusher_token("p").director_token("q").disable_bincode().disable_msgpack();
    assert_eq!(server.auth_args.pusher_token, Some("p".to_string()));
    assert_eq!(server.auth_args.director_token, Some("q".to_string()));
    assert!(server.format_args.no_msg_format());
    assert!(!server.format_args.allowed(MsgFormat::Json));
    assert_eq!(server.start().unwrap_err(), StartError::NoMsgFormat);
}

#[test]
fn a_server_that_speaks_a_format_starts_accepting() {
    let (server, accept) = server().disable_json().disable_ctrlc_shutdown().start().unwrap();
    assert!(server.format_args.allowed(MsgFormat::Bincode));
    assert_eq!(accept, AcceptLoop { ctrlc_shutdown: false, phase: Phase::Accepting, in_flight: 0 });
    assert_eq!(StartError::NoMsgFormat.message(), "no message format available");
    assert_eq!(StartError::Io("x".to_string()).message(), "io error: `x`");
}

#[test]
fn a_wrong_token_is_forbidden() {
    let server = server().default_token("secret");
    for path in ["/pusher", "/observer", "/director"] {
        assert_eq!(
            refused(server.authenticate(path, Some("token=wrong"))),
            (403, "wrong token!".to_string())
        );
        assert_eq!(
            refused(server.authenticate(path, Some("token=secret2&format=json"))),
            (403, "wrong token!".to_string())
        );
    }
}

#[test]
fn a_token_that_is_asked_for_has_to_be_shown() {
    let server = server().pusher_token("secret");
    assert_eq!(refused(server.authenticate("/pusher", None)), (400, "need query!".to_string()));
    assert_eq!(
        refused(server.authenticate("/pusher", Some("format=json"))),
        (400, "need token!".to_string())
    );
    let granted = server.authenticate("/pusher", Some("111=222&token=secret&333=444")).unwrap();
    assert_eq!(granted.role, ClientRole::Pusher);
    assert_eq!(granted.msg_format, MsgFormat::Json);
    assert_eq!(granted.query_history, None);
    assert_eq!(granted.link_client, None);
    let map = granted.query_map.unwrap();
    assert_eq!(map.get("token").map(String::as_str), Some("secret"));
    assert_eq!(map.get("111").map(String::as_str), Some("222"));
    assert_eq!(map.len(), 3);
}

#[test]
fn without_a_token_everyone_is_let_in() {
    let server = server();
    let granted = server.authenticate("/pusher", None).unwrap();
    assert_eq!(
        granted,
        Authenticated {
            role: ClientRole::Pusher,
            msg_format: MsgFormat::Json,
            query_history: None,
            link_client: None,
            query_map: None,
        }
    );
    let granted = server.authenticate("/observer", None).unwrap();
    assert_eq!(
        granted,
        Authenticated {
            role: ClientRole::Observer,
            msg_format: MsgFormat::Json,
            query_history: Some(QueryHistory::Full),
            link_client: Some(true),
            query_map: None,
        }
    );
    let granted = server
        .authenticate("/director", Some("history=25&link=false&format=msgpack&token=any"))
        .unwrap();
    assert_eq!(granted.role, ClientRole::Director);
    assert_eq!(granted.msg_format, MsgFormat::Msgpack);
    assert_eq!(granted.query_history, Some(QueryHistory::Limit(25)));
    assert_eq!(granted.link_client, Some(false));
    let granted = server.authenticate("/observer", Some("history=none")).unwrap();
    assert_eq!(granted.query_history, Some(QueryHistory::Nothing));
}

#[test]
fn a_format_that_is_switched_off_is_forbidden() {
    let server = server().disable_bincode().default_token("secret");
    assert_eq!(
        refused(server.authenticate("/pusher", Some("token=secret&format=bincode"))),
        (403, "Bincode not allowed!".to_string())
    );
    assert_eq!(
        refused(server.authenticate("/nowhere", Some("format=bincode"))),
        (403, "Bincode not allowed!".to_string())
    );
    assert!(server.authenticate("/pusher", Some("token=secret&format=msgpack")).is_ok());
    let server = server.disable_json();
    assert_eq!(
        refused(server.authenticate("/pusher", Some("token=secret"))),
        (403, "Json not allowed!".to_string())
    );
    assert_eq!(refused(server.authenticate("/pusher", None)), (403, "Json not allowed!".to_string()));
}

#[test]
fn an_unknown_path_is_not_found() {
    let server = server();
    for path in ["/", "", "/pusher/", "/Pusher", "/observers"] {
        assert_eq!(
            refused(server.authenticate(path, Some("token=x"))),
            (404, "invalid path!".to_string())
        );
    }
}

#[test]
fn a_word_that_stands_for_nothing_is_a_bad_request() {
    let server = server();
    assert_eq!(
        refused(server.authenticate("/pusher", Some("format=xml"))),
        (400, "invalid format!".to_string())
    );
    assert_eq!(
        refused(server.authenticate("/observer", Some("history=0"))),
        (400, "invalid history!".to_string())
    );
    assert_eq!(
        refused(server.authenticate("/observer", Some("history=full&link=maybe"))),
        (400, "invalid link!".to_string())
    );
    assert!(server.authenticate("/pusher", Some("history=0&link=maybe")).is_ok());
    let server = server.observer_token("t");
    assert_eq!(
        refused(server.authenticate("/observer", Some("history=0&token=u"))),
        (403, "wrong token!".to_string())
    );
}

#[test]
fn a_query_that_cannot_be_read_is_a_bad_request_where_a_token_is_needed() {
    let broken = Some(Err(QueryError { text: "why".to_string() }));
    let auth = server().pusher_token("secret").auth_args;
    let formats = FormatArgs { accept_json: true, accept_bincode: false, accept_msgpack: false };
    assert_eq!(
        refused(auth_request(&auth, formats, "/pusher", broken)),
        (400, "query err: why".to_string())
    );
    let broken = Some(Err(QueryError { text: "why".to_string() }));
    let granted = auth_request(&auth, formats, "/observer", broken).unwrap();
    assert_eq!(granted.role, ClientRole::Observer);
    assert_eq!(granted.query_history, Some(QueryHistory::Full));
    assert_eq!(granted.query_map, None);
    let broken = Some(Err(QueryError { text: "why".to_string() }));
    assert_eq!(
        refused(query_auth(broken, Some("t".to_string()), ClientRole::Director, MsgFormat::Json)),
        (400, "query err: why".to_string())
    );
    assert_eq!(
        refused(query_auth(None, Some("t".to_string()), ClientRole::Director, MsgFormat::Json)),
        (400, "need query!".to_string())
    );
    let response = err_resp("text", 418);
    assert_eq!((response.status, response.body.as_str()), (418, "text"));
}

#[test]
fn queries_are_read_by_the_query_string_crate() {
    assert_eq!(read_query(None), None);
    let map = read_query(Some("a=1&b=two%20words")).unwrap().unwrap();
    assert_eq!(map.get("a").map(String::as_str), Some("1"));
    assert_eq!(map.get("b").map(String::as_str), Some("two words"));
    assert_eq!(
        read_query(Some("=&=&=&")),
        Some(Err(QueryError { text: "invalid type: sequence, expected a map".to_string() }))
    );
    assert_eq!(read_query(Some("")), Some(Ok(indexmap::IndexMap::new())));
    assert_eq!(read_query(Some("a=1&a=2")).unwrap().unwrap().get("a").map(String::as_str), Some("2"));
    for query in ["=&=&=&", "a[b", "a[b]=1", "&&&", "", "a", "a=1&a=2"] {
        let read = read_query(Some(query)).unwrap();
        let auth = server().pusher_token("secret").auth_args;
        let formats = FormatArgs { accept_json: true, accept_bincode: true, accept_msgpack: true };
        let answer = authenticate(&auth, formats, "/pusher", Some(query)).unwrap_err();
        match read {
            Ok(_) => assert_eq!((answer.status, answer.body.as_str()), (400, "need token!")),
            Err(err) => {
                assert_eq!(answer.status, 400);
                assert_eq!(answer.body, format!("query err: {}", err.text));
                assert!(!err.text.is_empty());
            }
        }
    }
}

#[test]
fn shutdown_stops_accepting_and_waits_for_the_connections() {
    let accept = AcceptLoop::new(true);
    let (accept, action) = accept.step(AcceptEvent::Accepted);
    assert_eq!(action, AcceptAction::Spawn);
    let (accept, action) = accept.step(AcceptEvent::Accepted);
    assert_eq!(action, AcceptAction::Spawn);
    let (accept, action) = accept.step(AcceptEvent::Accepted);
    assert_eq!(action, AcceptAction::Spawn);
    let (accept, action) = accept.step(AcceptEvent::TaskFinished);
    assert_eq!(action, AcceptAction::Wait);
    assert_eq!(accept.in_flight, 2);
    let (accept, action) = accept.step(AcceptEvent::ShutdownRequested);
    assert_eq!(action, AcceptAction::Drain);
    assert_eq!(accept.phase, Phase::Draining(Ok(GraceType::Explicit)));
    let (accept, action) = accept.step(AcceptEvent::Accepted);
    assert_eq!(action, AcceptAction::Refuse);
    let (accept, action) = accept.step(AcceptEvent::Interrupted(Ok(())));
    assert_eq!(action, AcceptAction::Wait);
    let (accept, action) = accept.step(AcceptEvent::TaskFinished);
    assert_eq!(action, AcceptAction::Wait);
    let (accept, action) = accept.step(AcceptEvent::TaskFinished);
    assert_eq!(action, AcceptAction::Resolve(Ok(GraceType::Explicit)));
    assert_eq!(accept, AcceptLoop { ctrlc_shutdown: true, phase: Phase::Done, in_flight: 0 });
    let (accept, action) = accept.step(AcceptEvent::Accepted);
    assert_eq!(action, AcceptAction::Wait);
    assert_eq!(accept.phase, Phase::Done);
}

#[test]
fn an_idle_server_ends_at_once() {
    let (accept, action) = AcceptLoop::new(true).step(AcceptEvent::Interrupted(Ok(())));
    assert_eq!(action, AcceptAction::Resolve(Ok(GraceType::CtrlC)));
    assert_eq!(accept.phase, Phase::Done);
    let (_, action) = AcceptLoop::new(true).step(AcceptEvent::Interrupted(Err("sig".to_string())));
    assert_eq!(action, AcceptAction::Resolve(Err("sig".to_string())));
    let (accept, action) = AcceptLoop::new(false).step(AcceptEvent::Interrupted(Ok(())));
    assert_eq!(action, AcceptAction::Wait);
    assert_eq!(accept.phase, Phase::Accepting);
    let (_, action) = AcceptLoop::new(false).step(AcceptEvent::ShutdownRequested);
    assert_eq!(action, AcceptAction::Resolve(Ok(GraceType::Explicit)));
    let (accept, action) = AcceptLoop::new(false).step(AcceptEvent::AcceptFailed("emfile".to_string()));
    assert_eq!(action, AcceptAction::Resolve(Err("emfile".to_string())));
    assert_eq!(accept.phase, Phase::Done);
    let full = AcceptLoop { ctrlc_shutdown: true, phase: Phase::Accepting, in_flight: usize::MAX };
    assert_eq!(full.step(AcceptEvent::Accepted).1, AcceptAction::Refuse);
}

#[test]
fn a_connection_walks_through_its_states() {
    let state = ConnState::new();
    let (state, action) = state.step(ConnEvent::HelloDone);
    assert_eq!((&state, action), (&ConnState::Connecting, ConnAction::Continue));
    let (state, action) = state.step(ConnEvent::UpgradeStarted);
    assert_eq!((&state, action), (&ConnState::AuthPending, ConnAction::Continue));
    assert_eq!(server().time_limit(&state), Some(1500));
    let (state, _) = state.step(ConnEvent::Granted {
        role: ClientRole::Observer,
        msg_format: MsgFormat::Json,
        query_history: Some(QueryHistory::Full),
    });
    assert_eq!(
        state,
        ConnState::Authenticated {
            role: ClientRole::Observer,
            msg_format: MsgFormat::Json,
            query_history: Some(QueryHistory::Full),
        }
    );
    assert_eq!(server().time_limit(&state), Some(3000));
    let (state, action) = state.step(ConnEvent::HelloDone);
    assert_eq!((&state, action), (&ConnState::Active, ConnAction::Continue));
    assert_eq!(server().time_limit(&state), None);
    let (state, action) = state.step(ConnEvent::TimedOut);
    assert_eq!((&state, action), (&ConnState::Active, ConnAction::Continue));
    let (state, action) = state.step(ConnEvent::Shutdown(GraceType::Explicit));
    assert_eq!(
        (&state, action),
        (&ConnState::Closed(End::Shutdown(GraceType::Explicit)), ConnAction::Record)
    );
    let (state, action) = state.step(ConnEvent::PeerClosed);
    assert_eq!(
        (&state, action),
        (&ConnState::Closed(End::Shutdown(GraceType::Explicit)), ConnAction::Continue)
    );
}

#[test]
fn a_connection_that_does_not_get_in_leaves_no_record() {
    let pending = || ConnState::new().step(ConnEvent::UpgradeStarted).0;
    assert_eq!(
        pending().step(ConnEvent::TimedOut),
        (ConnState::Closed(End::Timeout), ConnAction::Drop)
    );
    assert_eq!(
        pending().step(ConnEvent::Rejected(403)),
        (ConnState::Closed(End::Rejected(403)), ConnAction::Drop)
    );
    assert_eq!(
        pending().step(ConnEvent::Shutdown(GraceType::CtrlC)),
        (ConnState::Closed(End::Abandoned(GraceType::CtrlC)), ConnAction::Drop)
    );
    assert_eq!(
        ConnState::new().step(ConnEvent::SocketFailed("reset".to_string())),
        (ConnState::Closed(End::SocketFailed("reset".to_string())), ConnAction::Drop)
    );
    let let_in = || {
        pending()
            .step(ConnEvent::Granted {
                role: ClientRole::Pusher,
                msg_format: MsgFormat::Bincode,
                query_history: None,
            })
            .0
    };
    assert_eq!(
        let_in().step(ConnEvent::HelloFailed("no".to_string())),
        (ConnState::Closed(End::HelloFailed("no".to_string())), ConnAction::Drop)
    );
    assert_eq!(let_in().step(ConnEvent::TimedOut), (ConnState::Closed(End::Timeout), ConnAction::Drop));
}

#[test]
fn the_end_of_a_connection_has_its_message() {
    assert_eq!(End::PeerClosed.close_msg(), CloseMsg::ok(CloseOk::Other));
    assert_eq!(
        End::Shutdown(GraceType::CtrlC).close_msg(),
        CloseMsg::ok(CloseOk::Grace(GraceType::CtrlC))
    );
    assert_eq!(
        End::SocketFailed("reset".to_string()).close_msg(),
        CloseMsg::err(CloseErr::with_text(CloseErrKind::Io, "reset"))
    );
    assert_eq!(
        End::Timeout.close_msg(),
        CloseMsg::err(CloseErr::with_text(CloseErrKind::Other, "timeout"))
    );
    assert_eq!(
        End::HelloFailed("no".to_string()).close_msg(),
        CloseMsg::err(CloseErr::with_text(CloseErrKind::Other, "no"))
    );
}

#[test]
fn a_failed_push_ends_the_connection_unless_it_is_a_mistake_that_is_let_pass() {
    let lenient = server();
    assert!(!lenient.ends_on_push_error(&StopError::ObserverCannotPush));
    assert!(lenient.ends_on_push_error(&StopError::Surreal("down".to_string())));
    assert!(lenient.ends_on_push_error(&StopError::CorruptedData));
    assert!(!lenient.ends_on_damage());
    let strict = server().fuck_off_on_observer_push().fuck_off_on_damage();
    assert!(strict.ends_on_push_error(&StopError::ObserverCannotPush));
    assert!(strict.ends_on_push_error(&StopError::Io("reset".to_string())));
    assert!(strict.ends_on_damage());
}
