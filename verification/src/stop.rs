//! The coordinator of a session: it opens the session, lets clients in, gives
//! every pushed message its place in the log, and notes how connections end.
//!
//! Nothing here touches the store. Each operation hands back what is to be
//! written, and the caller writes it.

use crate::tracing_msg::observe::ClientId;
use crate::tracing_msg::{
    ClientRole, CloseMsg, CloseTransport, DisconnectFields, HelloMsg, MsgFormat, PushMsg,
    QueryHistory, Role, Timestamp, TracingMsg,
};
use id_gen::{
    clamped_millis, exhausted, issued_after, last_of, lemma_issued_grows, lemma_text_order,
    text_less, ulid_millis, ulid_text, IdGen, TIME_SPAN,
};
use indexmap::IndexMap;
use vstd::prelude::*;
use vstd::std_specs::convert::FromSpecImpl;
use vstd::string::*;

pub mod id_gen;
pub mod watcher;


verus! {

/// What can go wrong in a session.
#[derive(Debug, PartialEq, Eq)]
pub enum StopError {
    /// The store failed; the text is its report.
    Surreal(String),
    /// Reading or writing failed; the text is the report.
    Io(String),
    /// A value could not be turned into JSON, or back; the text is the report.
    Json(String),
    ObserverCannotPush,
    ClientCannotObserve,
    MustFillQueryHistory,
    StreamClosed,
    CorruptedData,
    RequesterDropped,
}

impl StopError {
    /// The error in words.
    pub open spec fn text(self) -> Seq<char> {
        match self {
            StopError::Surreal(report) => "surrealdb error: `"@ + report@ + "`"@,
            StopError::Io(report) => "io error: `"@ + report@ + "`"@,
            StopError::Json(report) => "serde_json error: `"@ + report@ + "`"@,
            StopError::ObserverCannotPush => "observer cannot push"@,
            StopError::ClientCannotObserve => "client cannot explicitly observe"@,
            StopError::MustFillQueryHistory => "observer/director must fill QueryHistory on hello"@,
            StopError::StreamClosed => "live query stream closed"@,
            StopError::CorruptedData => "corrupted data"@,
            StopError::RequesterDropped => "requester dropped"@,
        }
    }

    pub fn message(&self) -> (words: String)
        ensures
            words@ == self.text(),
    {
        match self {
            StopError::Surreal(report) => String::from_str("surrealdb error: `").concat(
                report.as_str(),
            ).concat("`"),
            StopError::Io(report) => String::from_str("io error: `").concat(
                report.as_str(),
            ).concat("`"),
            StopError::Json(report) => String::from_str("serde_json error: `").concat(
                report.as_str(),
            ).concat("`"),
            StopError::ObserverCannotPush => String::from_str("observer cannot push"),
            StopError::ClientCannotObserve => String::from_str("client cannot explicitly observe"),
            StopError::MustFillQueryHistory => String::from_str(
                "observer/director must fill QueryHistory on hello",
            ),
            StopError::StreamClosed => String::from_str("live query stream closed"),
            StopError::CorruptedData => String::from_str("corrupted data"),
            StopError::RequesterDropped => String::from_str("requester dropped"),
        }
    }
}

/// The place of a record in the store: its table and its key in that table.
#[derive(Debug, Eq, PartialEq, Hash)]
pub struct RecordId {
    pub table: String,
    pub key: String,
}

impl Clone for RecordId {
    fn clone(&self) -> (copy: Self)
        ensures
            copy == *self,
    {
        Self { table: self.table.clone(), key: self.key.clone() }
    }
}

impl From<RecordId> for ClientId {
    fn from(value: RecordId) -> (id: ClientId) {
        ClientId(value.table, value.key)
    }
}

impl FromSpecImpl<RecordId> for ClientId {
    open spec fn obeys_from_spec() -> bool {
        true
    }

    open spec fn from_spec(value: RecordId) -> ClientId {
        ClientId(value.table, value.key)
    }
}

impl From<ClientId> for RecordId {
    fn from(value: ClientId) -> (id: RecordId) {
        RecordId { table: value.0, key: value.1 }
    }
}

impl FromSpecImpl<ClientId> for RecordId {
    open spec fn obeys_from_spec() -> bool {
        true
    }

    open spec fn from_spec(value: ClientId) -> RecordId {
        RecordId { table: value.0, key: value.1 }
    }
}

/// A record that is to be created, with the table and the key it goes under.
#[derive(Debug, PartialEq, Eq)]
pub struct Pending<R> {
    pub table: String,
    pub key: String,
    pub content: R,
}

/// What the store says of the connection the session is opened over. The
/// token is JSON text.
#[derive(Debug, PartialEq, Eq)]
pub struct SessionAccess {
    pub access_method: Option<String>,
    pub record_auth: Option<String>,
    pub http_origin: Option<String>,
    pub session_ip: Option<String>,
    pub session_id: Option<String>,
    pub session_token: Option<String>,
}

/// The record of a session.
#[derive(Debug, PartialEq, Eq)]
pub struct SessionRecord {
    pub a_timestamp: Timestamp,
    pub b_access_method: Option<String>,
    pub c_record_auth: Option<String>,
    pub d_http_origin: Option<String>,
    pub e_session_ip: Option<String>,
    pub f_session_id: Option<String>,
    pub g_session_token: Option<String>,
    pub h_link_client: bool,
}

/// The record of a client. The address is the text of a socket address, the
/// process environment JSON text.
#[derive(Debug, PartialEq, Eq)]
pub struct ClientRecord {
    pub a_timestamp: Timestamp,
    pub b_session_id: RecordId,
    pub c_client_name: String,
    pub d_client_role: Role,
    pub e_msg_format: Option<MsgFormat>,
    pub f_query_history: Option<QueryHistory>,
    pub g_client_addr: Option<String>,
    pub h_query_map: Option<IndexMap<String, String>>,
    pub i_proc_env: Option<String>,
}

/// The record of the end of a connection.
#[derive(Debug, PartialEq, Eq)]
pub struct DisconnectRecord {
    pub a_timestamp: Timestamp,
    pub b_session_id: RecordId,
    pub c_client_id: RecordId,
    pub outcome: DisconnectFields,
}

/// The record of a trace message.
#[derive(Debug, PartialEq, Eq)]
pub struct MsgRecord<B> {
    pub id: RecordId,
    pub session_id: RecordId,
    pub client_id: RecordId,
    pub msg: TracingMsg<B>,
}

/// The functions a session defines in the store: those that resolve client
/// records, or those that do not.
#[derive(Debug, Copy, Clone, Eq, PartialEq, Structural)]
pub enum FnScript {
    Linked,
    Plain,
}

/// How a table of the session is watched: through a query that resolves the
/// client of each record, or as it is.
#[derive(Debug, Copy, Clone, Eq, PartialEq, Structural)]
pub enum WatchMode {
    Joined,
    Raw,
}

/// The name of a table of the session with the given stamp.
pub open spec fn table_name(stamp: Seq<char>, suffix: Seq<char>) -> Seq<char> {
    stamp + suffix
}

pub open spec fn clients_table(stamp: Seq<char>) -> Seq<char> {
    table_name(stamp, "-clients"@)
}

pub open spec fn disconnects_table(stamp: Seq<char>) -> Seq<char> {
    table_name(stamp, "-disconnects"@)
}

pub open spec fn msg_table(stamp: Seq<char>) -> Seq<char> {
    table_name(stamp, "-msg"@)
}

/// The options a session is opened with.
#[derive(Debug, PartialEq, Eq)]
pub struct StopBuilder {
    app: String,
    host: String,
    link_client: bool,
    ctrlc_shutdown: bool,
}

/// `StopBuilder` as plain values.
pub struct StopBuilderView {
    pub app: Seq<char>,
    pub host: Seq<char>,
    pub link_client: bool,
    pub ctrlc_shutdown: bool,
}

impl View for StopBuilder {
    type V = StopBuilderView;

    closed spec fn view(&self) -> StopBuilderView {
        StopBuilderView {
            app: self.app@,
            host: self.host@,
            link_client: self.link_client,
            ctrlc_shutdown: self.ctrlc_shutdown,
        }
    }
}

/// Everything that opening a session asks of the store, in the order in
/// which it is asked, and what the session is watched with afterwards.
#[derive(Debug, PartialEq, Eq)]
pub struct SessionPlan {
    /// The database to select.
    pub db_name: String,
    /// The record of the session, to create.
    pub session: Pending<SessionRecord>,
    /// The stamp that the tables of the session are named with.
    pub formatted_timestamp: String,
    /// The functions to define.
    pub script: FnScript,
    /// The table of the clients.
    pub clients_table: String,
    /// How the table of the clients is watched: always as it is.
    pub clients_watch: WatchMode,
    /// The table of the ends of connections.
    pub disconnects_table: String,
    /// The table of the messages.
    pub msg_table: String,
    /// How the last two tables are watched.
    pub watch: WatchMode,
    /// The name the host joins under.
    pub host: String,
    pub link_client: bool,
    pub ctrlc_shutdown: bool,
}

impl StopBuilder {
    pub fn host_name(self, host: &str) -> (builder: Self)
        ensures
            builder@ == (StopBuilderView { host: host@, ..self@ }),
    {
        Self { host: String::from_str(host), ..self }
    }

    pub fn no_link_client(self) -> (builder: Self)
        ensures
            builder@ == (StopBuilderView { link_client: false, ..self@ }),
    {
        Self { link_client: false, ..self }
    }

    pub fn disable_ctrlc_shutdown(self) -> (builder: Self)
        ensures
            builder@ == (StopBuilderView { ctrlc_shutdown: false, ..self@ }),
    {
        Self { ctrlc_shutdown: false, ..self }
    }

    /// The name of the database that the sessions of the application are
    /// kept in.
    pub fn db_name(&self) -> (name: String)
        ensures
            name@ == "app-tracing-"@ + self@.app,
    {
        String::from_str("app-tracing-").concat(self.app.as_str())
    }

    /// What opening the session at `now` asks of the store. `stamp` is `now`
    /// as the wall clock of this machine shows it, and `access` what the store
    /// said of the connection.
    pub fn init(
        self,
        ids: &mut IdGen,
        now: Timestamp,
        stamp: String,
        access: SessionAccess,
    ) -> (plan: SessionPlan)
        requires
            old(ids).wf(),
        ensures
            final(ids).wf(),
            final(ids).issued() == old(ids).issued().push(final(ids).last()),
            issued_after(old(ids).last(), clamped_millis(now), final(ids).last()),
            plan.db_name@ == "app-tracing-"@ + self@.app,
            plan.session.table@ == ".sessions"@,
            plan.session.key@ == ulid_text(final(ids).last()),
            plan.session.content == (SessionRecord {
                a_timestamp: now,
                b_access_method: access.access_method,
                c_record_auth: access.record_auth,
                d_http_origin: access.http_origin,
                e_session_ip: access.session_ip,
                f_session_id: access.session_id,
                g_session_token: access.session_token,
                h_link_client: self@.link_client,
            }),
            plan.formatted_timestamp == stamp,
            plan.script == if self@.link_client {
                FnScript::Linked
            } else {
                FnScript::Plain
            },
            plan.clients_table@ == clients_table(stamp@),
            plan.clients_watch == WatchMode::Raw,
            plan.disconnects_table@ == disconnects_table(stamp@),
            plan.msg_table@ == msg_table(stamp@),
            plan.watch == if self@.link_client {
                WatchMode::Joined
            } else {
                WatchMode::Raw
            },
            plan.host@ == self@.host,
            plan.link_client == self@.link_client,
            plan.ctrlc_shutdown == self@.ctrlc_shutdown,
    {
        let link_client = self.link_client;
        let db_name = String::from_str("app-tracing-").concat(self.app.as_str());
        let record = SessionRecord {
            a_timestamp: now,
            b_access_method: access.access_method,
            c_record_auth: access.record_auth,
            d_http_origin: access.http_origin,
            e_session_ip: access.session_ip,
            f_session_id: access.session_id,
            g_session_token: access.session_token,
            h_link_client: link_client,
        };
        let key = ids.next(now);
        let clients = stamp.clone().concat("-clients");
        let disconnects = stamp.clone().concat("-disconnects");
        let msg = stamp.clone().concat("-msg");
        SessionPlan {
            db_name,
            session: Pending { table: String::from_str(".sessions"), key, content: record },
            formatted_timestamp: stamp,
            script: if link_client {
                FnScript::Linked
            } else {
                FnScript::Plain
            },
            clients_table: clients,
            clients_watch: WatchMode::Raw,
            disconnects_table: disconnects,
            msg_table: msg,
            watch: if link_client {
                WatchMode::Joined
            } else {
                WatchMode::Raw
            },
            host: self.host,
            link_client,
            ctrlc_shutdown: self.ctrlc_shutdown,
        }
    }
}

/// The coordinator, as one participant of the session holds it.
#[derive(Debug, PartialEq, Eq)]
pub struct Stop {
    session_id: RecordId,
    formatted_timestamp: String,
    client_id: RecordId,
    can_push: bool,
    can_observe: bool,
    is_client: bool,
    link_client: bool,
}

/// `Stop` as plain values.
pub struct StopView {
    pub session_id: RecordId,
    pub formatted_timestamp: Seq<char>,
    pub client_id: RecordId,
    pub can_push: bool,
    pub can_observe: bool,
    pub is_client: bool,
    pub link_client: bool,
}

impl View for Stop {
    type V = StopView;

    closed spec fn view(&self) -> StopView {
        StopView {
            session_id: self.session_id,
            formatted_timestamp: self.formatted_timestamp@,
            client_id: self.client_id,
            can_push: self.can_push,
            can_observe: self.can_observe,
            is_client: self.is_client,
            link_client: self.link_client,
        }
    }
}

impl Clone for Stop {
    fn clone(&self) -> (copy: Self)
        ensures
            copy@ == self@,
    {
        Self {
            session_id: self.session_id.clone(),
            formatted_timestamp: self.formatted_timestamp.clone(),
            client_id: self.client_id.clone(),
            can_push: self.can_push,
            can_observe: self.can_observe,
            is_client: self.is_client,
            link_client: self.link_client,
        }
    }
}

/// One message with the name of the client that sent it.
#[derive(Debug, PartialEq, Eq)]
pub struct LastRow {
    pub message: String,
    pub client_name: String,
}

/// A call of a function of the store for the last rows of a table.
#[derive(Debug, PartialEq, Eq)]
pub struct LastQuery {
    pub function: String,
    pub table: String,
    pub n: u8,
}

impl Stop {
    /// The options a session of the application `app` is opened with unless
    /// told otherwise.
    pub fn builder_default(app: &str) -> (builder: StopBuilder)
        ensures
            builder@ == (StopBuilderView {
                app: app@,
                host: "host"@,
                link_client: true,
                ctrlc_shutdown: true,
            }),
    {
        StopBuilder {
            app: String::from_str(app),
            host: String::from_str("host"),
            link_client: true,
            ctrlc_shutdown: true,
        }
    }

    /// The record of a participant that joins the session at `now`, and the
    /// place it goes to.
    pub fn hello_internal(
        ids: &mut IdGen,
        now: Timestamp,
        session_id: &RecordId,
        formatted_timestamp: &str,
        client_name: &str,
        client_role: Role,
        msg_format: Option<MsgFormat>,
        query_history: Option<QueryHistory>,
        client_addr: Option<String>,
        query_map: Option<IndexMap<String, String>>,
        proc_env: Option<String>,
    ) -> (hello: Pending<ClientRecord>)
        requires
            old(ids).wf(),
            query_history matches Some(policy) ==> policy.wf(),
        ensures
            final(ids).wf(),
            final(ids).issued() == old(ids).issued().push(final(ids).last()),
            issued_after(old(ids).last(), clamped_millis(now), final(ids).last()),
            hello.table@ == clients_table(formatted_timestamp@),
            hello.key@ == ulid_text(final(ids).last()),
            hello.content.a_timestamp == now,
            hello.content.b_session_id == *session_id,
            hello.content.c_client_name@ == client_name@,
            hello.content.d_client_role == client_role,
            hello.content.e_msg_format == msg_format,
            hello.content.f_query_history == query_history,
            hello.content.g_client_addr == client_addr,
            hello.content.h_query_map == query_map,
            hello.content.i_proc_env == proc_env,
    {
        let record = ClientRecord {
            a_timestamp: now,
            b_session_id: session_id.clone(),
            c_client_name: String::from_str(client_name),
            d_client_role: client_role,
            e_msg_format: msg_format,
            f_query_history: query_history,
            g_client_addr: client_addr,
            h_query_map: query_map,
            i_proc_env: proc_env,
        };
        let table = String::from_str(formatted_timestamp).concat("-clients");
        let key = ids.next(now);
        Pending { table, key, content: record }
    }

    /// The coordinator of the participant whose record went under
    /// `client_id`. What it may do is fixed by its role, once and for all.
    pub fn for_participant(
        session_id: RecordId,
        formatted_timestamp: String,
        client_id: RecordId,
        client_role: Role,
        link_client: bool,
    ) -> (stop: Stop)
        ensures
            stop@ == (StopView {
                session_id,
                formatted_timestamp: formatted_timestamp@,
                client_id,
                can_push: client_role.spec_can_push(),
                can_observe: client_role.spec_can_observe(),
                is_client: client_role.spec_is_client(),
                link_client,
            }),
    {
        Stop {
            session_id,
            formatted_timestamp,
            client_id,
            can_push: client_role.can_push(),
            can_observe: client_role.can_observe(),
            is_client: client_role.is_client(),
            link_client,
        }
    }

    /// The coordinator of a client of this session whose record went under
    /// `client_id`.
    pub fn for_client(&self, client_role: ClientRole, client_id: RecordId) -> (stop: Stop)
        ensures
            stop@ == (StopView {
                client_id,
                can_push: client_role.spec_can_push(),
                can_observe: client_role.spec_can_observe(),
                is_client: true,
                ..self@
            }),
    {
        Stop::for_participant(
            self.session_id.clone(),
            self.formatted_timestamp.clone(),
            client_id,
            client_role.to_role(),
            self.link_client,
        )
    }

    /// The record of a client that joins this session at `now`. A client that
    /// is to observe has to say how much of the past it wants; nothing else
    /// is asked of a greeting.
    pub fn client_hello(
        &self,
        ids: &mut IdGen,
        now: Timestamp,
        client_role: ClientRole,
        client_hello: HelloMsg,
        client_addr: String,
        msg_format: MsgFormat,
        query_history: Option<QueryHistory>,
        query_map: Option<IndexMap<String, String>>,
    ) -> (hello: Result<Pending<ClientRecord>, StopError>)
        requires
            old(ids).wf(),
            query_history matches Some(policy) ==> policy.wf(),
        ensures
            final(ids).wf(),
            client_role.spec_can_observe() && query_history is None ==> {
                &&& hello == Err::<Pending<ClientRecord>, StopError>(StopError::MustFillQueryHistory)
                &&& final(ids).issued() == old(ids).issued()
                &&& final(ids).restarts() == old(ids).restarts()
            },
            !(client_role.spec_can_observe() && query_history is None) ==> {
                &&& hello matches Ok(pending)
                &&& final(ids).issued() == old(ids).issued().push(final(ids).last())
                &&& issued_after(old(ids).last(), clamped_millis(now), final(ids).last())
                &&& pending.table@ == clients_table(self@.formatted_timestamp)
                &&& pending.key@ == ulid_text(final(ids).last())
                &&& pending.content.a_timestamp == now
                &&& pending.content.b_session_id == self@.session_id
                &&& pending.content.c_client_name@ == client_hello.client_name@
                &&& pending.content.d_client_role == client_role.role()
                &&& pending.content.e_msg_format == Some(msg_format)
                &&& pending.content.f_query_history == query_history
                &&& pending.content.g_client_addr == Some(client_addr)
                &&& pending.content.h_query_map == query_map
                &&& pending.content.i_proc_env == client_hello.proc_env
            },
    {
        if client_role.can_observe() && query_history.is_none() {
            return Err(StopError::MustFillQueryHistory);
        }
        Ok(
            Self::hello_internal(
                ids,
                now,
                &self.session_id,
                self.formatted_timestamp.as_str(),
                client_hello.client_name.as_str(),
                client_role.to_role(),
                Some(msg_format),
                query_history,
                Some(client_addr),
                query_map,
                client_hello.proc_env,
            ),
        )
    }

    /// The call that fetches the last `n` messages of the session, newest
    /// first, each with the name of its client.
    pub fn query_last_n(&self, n: u8) -> (query: LastQuery)
        ensures
            query.function@ == "fn::last_n_desc_client"@,
            query.table@ == msg_table(self@.formatted_timestamp),
            query.n == n,
    {
        LastQuery {
            function: String::from_str("fn::last_n_desc_client"),
            table: self.formatted_timestamp.clone().concat("-msg"),
            n,
        }
    }

    /// The rows that `query_last_n` fetched, oldest first, as pairs of
    /// message and client name.
    pub fn last_n_ascending(rows: Vec<LastRow>) -> (pairs: Vec<(String, String)>)
        ensures
            pairs@.len() == rows@.len(),
            forall|i: int|
                0 <= i < pairs@.len() ==> {
                    &&& (#[trigger] pairs@[i]).0 == rows@[rows@.len() - 1 - i].message
                    &&& pairs@[i].1 == rows@[rows@.len() - 1 - i].client_name
                },
    {
        let mut rows = rows;
        let ghost all = rows@;
        let mut pairs: Vec<(String, String)> = Vec::new();
        while rows.len() > 0
            invariant
                rows@.len() + pairs@.len() == all.len(),
                rows@ == all.take(rows@.len() as int),
                forall|i: int|
                    0 <= i < pairs@.len() ==> {
                        &&& (#[trigger] pairs@[i]).0 == all[all.len() - 1 - i].message
                        &&& pairs@[i].1 == all[all.len() - 1 - i].client_name
                    },
            decreases rows@.len(),
        {
            let ghost before = rows@;
            let row = rows.pop().unwrap();
            proof {
                assert(rows@ == all.take(rows@.len() as int));
                assert(row == all[all.len() - 1 - pairs@.len()]);
            }
            pairs.push((row.message, row.client_name));
        }
        pairs
    }

    pub fn can_push(&self) -> (allowed: bool)
        ensures
            allowed == self@.can_push,
    {
        self.can_push
    }

    pub fn can_observe(&self) -> (allowed: bool)
        ensures
            allowed == self@.can_observe,
    {
        self.can_observe
    }

    pub fn is_client(&self) -> (client: bool)
        ensures
            client == self@.is_client,
    {
        self.is_client
    }

    /// What this participant is to ask the watcher for when it wants an
    /// observer with the given policy: the policy, as long as its role lets
    /// it observe.
    pub fn observe(&self, policy: QueryHistory) -> (asked: Result<QueryHistory, StopError>)
        requires
            policy.wf(),
        ensures
            asked == if self@.can_observe {
                Ok::<QueryHistory, StopError>(policy)
            } else {
                Err::<QueryHistory, StopError>(StopError::ClientCannotObserve)
            },
    {
        if self.can_observe {
            Ok(policy)
        } else {
            Err(StopError::ClientCannotObserve)
        }
    }

    pub fn link_client(&self) -> (linked: bool)
        ensures
            linked == self@.link_client,
    {
        self.link_client
    }

    pub fn session_id(&self) -> (id: &RecordId)
        ensures
            *id == self@.session_id,
    {
        &self.session_id
    }

    pub fn client_id(&self) -> (id: &RecordId)
        ensures
            *id == self@.client_id,
    {
        &self.client_id
    }

    pub fn formatted_timestamp(&self) -> (stamp: &str)
        ensures
            stamp@ == self@.formatted_timestamp,
    {
        self.formatted_timestamp.as_str()
    }
}

impl CloseTransport for Stop {
    type Record = Pending<DisconnectRecord>;

    /// The record of the end of this participant's connection at `now`, and
    /// the place it goes to. Whether it can be written is the caller's
    /// concern, and no concern of anyone else's.
    fn close_transport(&mut self, ids: &mut IdGen, now: Timestamp, msg: Option<CloseMsg>) -> (record:
        Option<Pending<DisconnectRecord>>)
        ensures
            final(self)@ == old(self)@,
            msg is None ==> final(ids).restarts() == old(ids).restarts(),
            msg matches Some(m) ==> {
                &&& record matches Some(pending)
                &&& final(ids).issued() == old(ids).issued().push(final(ids).last())
                &&& issued_after(old(ids).last(), clamped_millis(now), final(ids).last())
                &&& pending.table@ == disconnects_table(old(self)@.formatted_timestamp)
                &&& pending.key@ == ulid_text(final(ids).last())
                &&& pending.content == (DisconnectRecord {
                    a_timestamp: now,
                    b_session_id: old(self)@.session_id,
                    c_client_id: old(self)@.client_id,
                    outcome: m.spec_fields(),
                })
            },
    {
        match msg {
            None => None,
            Some(msg) => {
                let content = DisconnectRecord {
                    a_timestamp: now,
                    b_session_id: self.session_id.clone(),
                    c_client_id: self.client_id.clone(),
                    outcome: msg.fields(),
                };
                let table = self.formatted_timestamp.clone().concat("-disconnects");
                let key = ids.next(now);
                Some(Pending { table, key, content })
            },
        }
    }
}

/// The identifiers in `after` from the place `start` on were handed out for
/// the times `stamps`, one after the other.
pub open spec fn issued_for(after: Seq<u128>, start: int, stamps: Seq<Timestamp>) -> bool {
    &&& 0 <= start
    &&& after.len() == start + stamps.len()
    &&& forall|i: int|
        0 <= i < stamps.len() ==> issued_after(
            last_of(after.take(start + i)),
            clamped_millis(#[trigger] stamps[i]),
            after[start + i],
        )
}

/// The times of a batch of messages.
pub open spec fn stamps_of<B>(msgs: Seq<TracingMsg<B>>) -> Seq<Timestamp> {
    Seq::new(msgs.len(), |i: int| msgs[i].timestamp)
}

/// `records` are the records of the batch `msgs` as `stop` writes it, with
/// the identifiers in `after` from the place `start` on: one record for each
/// message, in the order of the batch.
pub open spec fn batch_recorded<B>(
    stop: StopView,
    msgs: Seq<TracingMsg<B>>,
    after: Seq<u128>,
    start: int,
    records: Seq<MsgRecord<B>>,
) -> bool {
    &&& records.len() == msgs.len()
    &&& forall|i: int|
        0 <= i < records.len() ==> {
            &&& (#[trigger] records[i]).msg == msgs[i]
            &&& records[i].session_id == stop.session_id
            &&& records[i].client_id == stop.client_id
            &&& records[i].id.table@ == msg_table(stop.formatted_timestamp)
            &&& records[i].id.key@ == ulid_text(after[start + i])
        }
}

impl<B> PushMsg<B> for Stop {
    type Record = MsgRecord<B>;

    type Error = StopError;

    /// Pushing a batch leaves the participant as it is. A participant that
    /// may not push gets an error and nothing is handed out. For one that
    /// may, each message gets an identifier of its own, for the time the
    /// message itself carries, in the order of the batch, and a record with
    /// that identifier as its key.
    open spec fn bulk_pushed(
        before: &Stop,
        ids_before: IdGen,
        msgs: Seq<TracingMsg<B>>,
        after: &Stop,
        ids_after: IdGen,
        outcome: Result<Vec<MsgRecord<B>>, StopError>,
    ) -> bool {
        &&& after@ == before@
        &&& !before@.can_push ==> {
            &&& outcome == Err::<Vec<MsgRecord<B>>, StopError>(StopError::ObserverCannotPush)
            &&& ids_after.issued() == ids_before.issued()
            &&& ids_after.restarts() == ids_before.restarts()
        }
        &&& before@.can_push ==> {
            &&& outcome matches Ok(records)
            &&& ids_after.issued().take(ids_before.issued().len() as int) == ids_before.issued()
            &&& issued_for(ids_after.issued(), ids_before.issued().len() as int, stamps_of(msgs))
            &&& batch_recorded(
                before@,
                msgs,
                ids_after.issued(),
                ids_before.issued().len() as int,
                records@,
            )
        }
    }

    /// The records of a batch of messages, as `bulk_pushed` has it.
    fn bulk_push(&mut self, ids: &mut IdGen, msgs: Vec<TracingMsg<B>>) -> (pushed: Result<
        Vec<MsgRecord<B>>,
        StopError,
    >)
    {
        if !self.can_push {
            return Err(StopError::ObserverCannotPush);
        }
        let ghost before = ids.issued();
        let ghost start = before.len() as int;
        let ghost all = msgs@;
        let ghost me = self@;
        let mut records: Vec<MsgRecord<B>> = Vec::new();
        if msgs.is_empty() {
            proof {
                assert(ids.issued().take(start) == before);
            }
            return Ok(records);
        }
        let table = self.formatted_timestamp.clone().concat("-msg");
        let session_id = self.session_id.clone();
        let client_id = self.client_id.clone();
        for msg in it: msgs
            invariant
                ids.wf(),
                it.seq() == all,
                start == before.len(),
                0 <= it.index() <= all.len(),
                table@ == msg_table(me.formatted_timestamp),
                session_id == me.session_id,
                client_id == me.client_id,
                records@.len() == it.index(),
                ids.issued().len() == start + it.index(),
                ids.issued().take(start) == before,
                forall|i: int|
                    0 <= i < it.index() ==> issued_after(
                        last_of(ids.issued().take(start + i)),
                        clamped_millis((#[trigger] all[i]).timestamp),
                        ids.issued()[start + i],
                    ),
                forall|i: int|
                    0 <= i < records@.len() ==> {
                        &&& (#[trigger] records@[i]).msg == all[i]
                        &&& records@[i].session_id == me.session_id
                        &&& records@[i].client_id == me.client_id
                        &&& records@[i].id.table@ == msg_table(me.formatted_timestamp)
                        &&& records@[i].id.key@ == ulid_text(ids.issued()[start + i])
                    },
        {
            let ghost log = ids.issued();
            let ghost at = it.index();
            let key = ids.next(msg.timestamp);
            proof {
                let grown = ids.issued();
                assert(grown.take(start + at) == log);
                assert forall|i: int| 0 <= i < at implies issued_after(
                    last_of(grown.take(start + i)),
                    clamped_millis((#[trigger] all[i]).timestamp),
                    grown[start + i],
                ) by {
                    assert(grown.take(start + i) == log.take(start + i));
                }
                assert(grown.take(start) == before);
            }
            records.push(
                MsgRecord {
                    id: RecordId { table: table.clone(), key },
                    session_id: session_id.clone(),
                    client_id: client_id.clone(),
                    msg,
                },
            );
        }
        proof {
            let stamps = stamps_of(all);
            assert forall|i: int| 0 <= i < stamps.len() implies issued_after(
                last_of(ids.issued().take(start + i)),
                clamped_millis(#[trigger] stamps[i]),
                ids.issued()[start + i],
            ) by {
                assert(stamps[i] == all[i].timestamp);
            }
        }
        Ok(records)
    }
}

/// No identifier of the batch made the generator start afresh.
pub open spec fn issued_steadily(after: Seq<u128>, start: int, stamps: Seq<Timestamp>) -> bool {
    forall|i: int|
        0 <= i < stamps.len() ==> !exhausted(
            last_of(after.take(start + i)),
            clamped_millis(#[trigger] stamps[i]),
        )
}

proof fn lemma_step_grows(after: Seq<u128>, start: int, stamps: Seq<Timestamp>, i: int)
    requires
        issued_for(after, start, stamps),
        issued_steadily(after, start, stamps),
        0 <= i < stamps.len(),
        start + i > 0,
    ensures
        after[start + i - 1] < after[start + i],
{
    let at = stamps[i];
    assert(after.take(start + i).last() == after[start + i - 1]);
    lemma_issued_grows(after[start + i - 1], clamped_millis(at), after[start + i]);
}

proof fn lemma_span_grows(after: Seq<u128>, start: int, stamps: Seq<Timestamp>, i: int, j: int)
    requires
        issued_for(after, start, stamps),
        issued_steadily(after, start, stamps),
        0 <= i < j < stamps.len(),
    ensures
        after[start + i] < after[start + j],
    decreases j - i,
{
    lemma_step_grows(after, start, stamps, j);
    if i + 1 < j {
        lemma_span_grows(after, start, stamps, i, j - 1);
    }
}

/// The identifiers of a batch grow in the order of the batch, and from the
/// one handed out before the batch, as long as the generator never had to
/// start afresh.
pub proof fn lemma_batch_ids_grow(after: Seq<u128>, start: int, stamps: Seq<Timestamp>)
    requires
        issued_for(after, start, stamps),
        issued_steadily(after, start, stamps),
    ensures
        forall|i: int, j: int|
            0 <= i < j < stamps.len() ==> #[trigger] after[start + i] < #[trigger] after[start + j],
        start > 0 && stamps.len() > 0 ==> after[start - 1] < after[start],
{
    assert forall|i: int, j: int| 0 <= i < j < stamps.len() implies #[trigger] after[start + i]
        < #[trigger] after[start + j] by {
        lemma_span_grows(after, start, stamps, i, j);
    }
    if start > 0 && stamps.len() > 0 {
        lemma_step_grows(after, start, stamps, 0);
    }
}

/// The times of a batch, in the milliseconds they count for, grow from one
/// message to the next and lie after the time of the identifier handed out
/// last.
pub open spec fn times_grow(last: u128, stamps: Seq<Timestamp>) -> bool {
    &&& forall|i: int|
        0 <= i < stamps.len() ==> ulid_millis(last) < clamped_millis(#[trigger] stamps[i])
    &&& forall|i: int, j: int|
        0 <= i < j < stamps.len() ==> clamped_millis(#[trigger] stamps[i]) < clamped_millis(
            #[trigger] stamps[j],
        )
}

proof fn lemma_time_of_issued(after: Seq<u128>, start: int, stamps: Seq<Timestamp>, i: int)
    requires
        issued_for(after, start, stamps),
        times_grow(last_of(after.take(start)), stamps),
        0 <= i < stamps.len(),
    ensures
        !exhausted(last_of(after.take(start + i)), clamped_millis(stamps[i])),
        ulid_millis(after[start + i]) == clamped_millis(stamps[i]),
    decreases i,
{
    let at = clamped_millis(stamps[i]);
    assert((at as u128) % TIME_SPAN == at);
    if i > 0 {
        lemma_time_of_issued(after, start, stamps, i - 1);
        assert(after.take(start + i).last() == after[start + i - 1]);
        let _ = stamps[i - 1];
    }
}

/// Messages whose times grow get identifiers that grow: the generator never
/// has to start afresh for them.
pub proof fn lemma_growing_times_grow_ids(after: Seq<u128>, start: int, stamps: Seq<Timestamp>)
    requires
        issued_for(after, start, stamps),
        times_grow(last_of(after.take(start)), stamps),
    ensures
        issued_steadily(after, start, stamps),
        forall|i: int, j: int|
            0 <= i < j < stamps.len() ==> #[trigger] after[start + i] < #[trigger] after[start + j],
{
    assert forall|i: int| 0 <= i < stamps.len() implies !exhausted(
        last_of(after.take(start + i)),
        clamped_millis(#[trigger] stamps[i]),
    ) by {
        lemma_time_of_issued(after, start, stamps, i);
    }
    lemma_batch_ids_grow(after, start, stamps);
}

/// The records of a batch come in the order of the batch, and so do their
/// keys, as texts: whoever reads the records back by key reads the messages
/// in the order in which they were pushed. This holds as long as the
/// generator never had to start afresh.
pub proof fn lemma_batch_keeps_order<B>(
    stop: StopView,
    msgs: Seq<TracingMsg<B>>,
    after: Seq<u128>,
    start: int,
    records: Seq<MsgRecord<B>>,
)
    requires
        batch_recorded(stop, msgs, after, start, records),
        issued_for(after, start, stamps_of(msgs)),
        issued_steadily(after, start, stamps_of(msgs)),
    ensures
        forall|i: int| 0 <= i < msgs.len() ==> (#[trigger] records[i]).msg == msgs[i],
        forall|i: int, j: int|
            0 <= i < j < records.len() ==> text_less(
                (#[trigger] records[i]).id.key@,
                (#[trigger] records[j]).id.key@,
            ),
{
    let stamps = stamps_of(msgs);
    lemma_batch_ids_grow(after, start, stamps);
    assert forall|i: int, j: int| 0 <= i < j < records.len() implies text_less(
        (#[trigger] records[i]).id.key@,
        (#[trigger] records[j]).id.key@,
    ) by {
        assert(after[start + i] < after[start + j]);
        lemma_text_order(after[start + i], after[start + j]);
    }
}

} // verus!
