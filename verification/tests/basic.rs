use tracing_surreal::add;
use tracing_surreal::tracing_msg::handshake::ClientRole;
use tracing_surreal::tracing_msg::proc_env::MacAddr;
use tracing_surreal::tracing_msg::query_map::{
    parse_decimal, parse_flag, render_decimal, Field, MsgFormat, QueryHistory, QueryMap,
};
use tracing_surreal::tracing_msg::observe::{ClientId, ClientRef, MsgInfo, ObserveMsg};
use tracing_surreal::tracing_msg::{
    clone_text, CloseErr, CloseErrKind, CloseMsg, CloseOk, DisconnectFields, GraceType, Level,
    Metadata, MsgBody, Parent, Role, SpanId, Timestamp, TracingMsg,
};

#[test]
fn it_works() {
    let result = add(2, 2);
    assert_eq!(result, 4);
}

#[test]
fn roles_follow_the_table() {
    assert_eq!((Role::Observer.can_push(), Role::Observer.can_observe()), (false, true));
    assert_eq!((Role::Pusher.can_push(), Role::Pusher.can_observe()), (true, false));
    assert_eq!((Role::Director.can_push(), Role::Director.can_observe()), (true, true));
    assert_eq!((Role::Host.can_push(), Role::Host.can_observe()), (true, true));
}

#[test]
fn client_roles_are_roles() {
    assert_eq!(Role::from(ClientRole::Pusher), Role::Pusher);
    assert_eq!(Role::from(ClientRole::Observer), Role::Observer);
    assert_eq!(Role::from(ClientRole::Director), Role::Director);
    assert_eq!(ClientRole::Pusher.to_role(), Role::Pusher);
    assert!(!ClientRole::Observer.can_push());
    assert!(!ClientRole::Pusher.can_observe());
    assert!(ClientRole::Director.can_push() && ClientRole::Director.can_observe());
    assert!(!Role::host().is_client());
    assert!(Role::Pusher.is_client());
}

#[test]
fn formats_have_their_words() {
    assert_eq!(MsgFormat::default(), MsgFormat::Json);
    assert_eq!(MsgFormat::default_rs(), MsgFormat::Bincode);
    assert_eq!(MsgFormat::Json.as_str(), "json");
    assert_eq!(MsgFormat::Bincode.as_str(), "bincode");
    assert_eq!(MsgFormat::Msgpack.as_str(), "msgpack");
    assert_eq!(MsgFormat::Msgpack.name(), "Msgpack");
    assert_eq!(MsgFormat::parse("json"), Some(MsgFormat::Json));
    assert_eq!(MsgFormat::parse("bincode"), Some(MsgFormat::Bincode));
    assert_eq!(MsgFormat::parse("msgpack"), Some(MsgFormat::Msgpack));
    assert_eq!(MsgFormat::parse("Json"), None);
    assert_eq!(MsgFormat::parse(""), None);
    assert_eq!(MsgFormat::parse("xml"), None);
}

#[test]
fn history_policies_have_their_words() {
    assert_eq!(QueryHistory::default(), QueryHistory::Full);
    assert_eq!(QueryHistory::parse("none"), Some(QueryHistory::Nothing));
    assert_eq!(QueryHistory::parse("full"), Some(QueryHistory::Full));
    assert_eq!(QueryHistory::parse("5"), Some(QueryHistory::Limit(5)));
    assert_eq!(QueryHistory::parse("65535"), Some(QueryHistory::Limit(65535)));
    assert_eq!(QueryHistory::parse("007"), Some(QueryHistory::Limit(7)));
    assert_eq!(QueryHistory::parse("0"), None);
    assert_eq!(QueryHistory::parse("65536"), None);
    assert_eq!(QueryHistory::parse("99999999999999999999999"), None);
    assert_eq!(QueryHistory::parse("-1"), None);
    assert_eq!(QueryHistory::parse("+1"), None);
    assert_eq!(QueryHistory::parse("1 "), None);
    assert_eq!(QueryHistory::parse(""), None);
    assert_eq!(QueryHistory::parse("Full"), None);
    assert_eq!(QueryHistory::Nothing.to_text(), "none");
    assert_eq!(QueryHistory::Full.to_text(), "full");
    assert_eq!(QueryHistory::Limit(120).to_text(), "120");
    assert_eq!(QueryHistory::limit(0), None);
    assert!(QueryHistory::Limit(1).is_valid() && QueryHistory::Full.is_valid());
    assert!(QueryHistory::Nothing.is_valid() && !QueryHistory::Limit(0).is_valid());
    assert_eq!(QueryHistory::limit(3), Some(QueryHistory::Limit(3)));
}

#[test]
fn every_limit_is_read_back_from_its_word() {
    for n in [1u16, 9, 10, 99, 100, 1024, 40000, 65535] {
        let word = QueryHistory::Limit(n).to_text();
        assert_eq!(QueryHistory::parse(&word), Some(QueryHistory::Limit(n)));
    }
    for format in [MsgFormat::Json, MsgFormat::Bincode, MsgFormat::Msgpack] {
        assert_eq!(MsgFormat::parse(format.as_str()), Some(format));
    }
}

#[test]
fn decimals_are_written_and_read() {
    assert_eq!(render_decimal(0), "0");
    assert_eq!(render_decimal(7), "7");
    assert_eq!(render_decimal(65535), "65535");
    assert_eq!(parse_decimal("0"), Some(0));
    assert_eq!(parse_decimal("00012"), Some(12));
    assert_eq!(parse_decimal("65535"), Some(65535));
    assert_eq!(parse_decimal("65536"), None);
    assert_eq!(parse_decimal("12a"), None);
    assert_eq!(parse_decimal("٣"), None);
    assert_eq!(parse_flag("true"), Some(true));
    assert_eq!(parse_flag("false"), Some(false));
    assert_eq!(parse_flag("1"), None);
}

#[test]
fn a_query_map_holds_what_was_put_in() {
    let map = indexmap::IndexMap::<String, String>::new();
    assert_eq!(map.get_token(), None);
    assert_eq!(map.get_msg_format(), Field::Absent);
    assert_eq!(map.get_query_history(), Field::Absent);
    assert_eq!(map.get_link(), Field::Absent);
    let map = map
        .with_token("secret")
        .with_msg_format(MsgFormat::Msgpack)
        .with_query_history(QueryHistory::Limit(12))
        .with_link(false);
    assert_eq!(map.get_token(), Some("secret".to_string()));
    assert_eq!(map.get("token").map(String::as_str), Some("secret"));
    assert_eq!(map.get("format").map(String::as_str), Some("msgpack"));
    assert_eq!(map.get("history").map(String::as_str), Some("12"));
    assert_eq!(map.get("link").map(String::as_str), Some("false"));
    assert_eq!(map.get_msg_format(), Field::Value(MsgFormat::Msgpack));
    assert_eq!(map.get_query_history(), Field::Value(QueryHistory::Limit(12)));
    assert_eq!(map.get_link(), Field::Value(false));
    let map = map.with_token("other");
    assert_eq!(map.get_token(), Some("other".to_string()));
    assert_eq!(map.len(), 4);
}

#[test]
fn an_unknown_word_is_invalid_and_not_taken_for_an_absent_one() {
    let mut map = indexmap::IndexMap::<String, String>::new();
    map.insert("format".to_string(), "xml".to_string());
    map.insert("history".to_string(), "0".to_string());
    map.insert("link".to_string(), "yes".to_string());
    assert_eq!(map.get_msg_format(), Field::Invalid);
    assert_eq!(map.get_query_history(), Field::Invalid);
    assert_eq!(map.get_link(), Field::Invalid);
    assert_eq!(Field::Value(3).or(4), 3);
    assert_eq!(Field::<i32>::Absent.or(4), 4);
}

#[test]
fn close_messages_are_written_down_and_read_back() {
    let ok = CloseMsg::ok(CloseOk::Grace(GraceType::Explicit));
    let fields = ok.fields();
    assert_eq!(
        fields,
        DisconnectFields {
            normal: true,
            ok_kind: Some(CloseOk::Grace(GraceType::Explicit)),
            err_kind: None,
            err_msg: None,
        }
    );
    assert_eq!(fields.close_msg(), Some(ok));

    let bad = CloseMsg::err(CloseErr::new(CloseErrKind::Io, "broken pipe"));
    let fields = bad.fields();
    assert_eq!(
        fields,
        DisconnectFields {
            normal: false,
            ok_kind: None,
            err_kind: Some(CloseErrKind::Io),
            err_msg: Some("broken pipe".to_string()),
        }
    );
    assert_eq!(fields.close_msg(), Some(bad.clone()));
    assert_eq!(bad.outcome(), &Err(CloseErr::with_text(CloseErrKind::Io, "broken pipe")));
}

#[test]
fn fields_that_lack_something_stand_for_nothing() {
    let no_kind = DisconnectFields { normal: true, ok_kind: None, err_kind: None, err_msg: None };
    assert_eq!(no_kind.close_msg(), None);
    let no_text = DisconnectFields {
        normal: false,
        ok_kind: Some(CloseOk::Other),
        err_kind: Some(CloseErrKind::Other),
        err_msg: None,
    };
    assert_eq!(no_text.close_msg(), None);
    let no_err_kind = DisconnectFields {
        normal: false,
        ok_kind: None,
        err_kind: None,
        err_msg: Some("x".to_string()),
    };
    assert_eq!(no_err_kind.close_msg(), None);
}

#[test]
fn close_errors_take_their_text_from_what_they_are_given() {
    let err = CloseErr::new(CloseErrKind::BufferFull, 42);
    assert_eq!(err.kind, CloseErrKind::BufferFull);
    assert_eq!(err.display, "42");
    let err = CloseErr::other(std::fmt::Error);
    assert_eq!(err.kind, CloseErrKind::Other);
    assert_eq!(err.display, std::fmt::Error.to_string());
    assert_eq!(CloseOk::from(GraceType::CtrlC), CloseOk::Grace(GraceType::CtrlC));
}

#[test]
fn span_ids_and_parents() {
    assert_eq!(SpanId::new(0), None);
    assert_eq!(SpanId::new(7), Some(SpanId(7)));
    assert_eq!(Parent::resolve(Some(SpanId(3)), true), Parent::Explicit(SpanId(3)));
    assert_eq!(Parent::resolve(None, true), Parent::Root);
    assert_eq!(Parent::resolve(None, false), Parent::Current);
    assert_eq!(MacAddr([1, 2, 3, 4, 5, 6]).bytes(), [1, 2, 3, 4, 5, 6]);
}

fn metadata() -> Metadata {
    Metadata {
        level: Level::Info,
        name: "event".to_string(),
        target: "app::db".to_string(),
        module: Some("app::db".to_string()),
        file: Some("src/db.rs".to_string()),
        line: Some(12),
    }
}

#[test]
fn bodies_are_made_of_what_the_source_says() {
    let body = MsgBody::on_new_span(metadata(), Parent::Root, 5u8, SpanId(9));
    assert_eq!(
        body,
        MsgBody::OnNewSpan {
            span_id: SpanId(9),
            level: Level::Info,
            name: "event".to_string(),
            target: "app::db".to_string(),
            module: Some("app::db".to_string()),
            file: Some("src/db.rs".to_string()),
            line: Some(12),
            parent: Parent::Root,
            payload: 5,
        }
    );
}

#[test]
fn copies_are_equal_to_what_they_are_copies_of() {
    let msg = TracingMsg::new(
        "body".to_string(),
        Timestamp::new(3).unwrap(),
        Some("main".to_string()),
        7,
        Some(8),
    );
    assert_eq!(msg.clone(), msg);
    assert_eq!((msg.timestamp.unix_millis(), msg.thread_id, msg.task_id), (3, 7, Some(8)));
    let told = ObserveMsg::OnMsg(MsgInfo {
        client_info: ClientRef::Id(ClientId("t".to_string(), "k".to_string())),
        tracing_msg: msg,
    });
    assert_eq!(told.clone(), told);
    assert_eq!(clone_text(&Some("x".to_string())), Some("x".to_string()));
    assert_eq!(clone_text(&None), None);
}
