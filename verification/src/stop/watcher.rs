//! The watcher of a session: it turns what the store reports of the session's
//! tables into the feed that observers read, keeps what it has published, and
//! answers the one request for an observer.
//!
//! The watcher decides and its caller acts. The caller waits on the three
//! streams of the store, on the queue of requests and on the signal to stop,
//! hands each thing that happens to `Watcher::step`, and does what it is
//! told. An observer is built from a range of the backlog and a
//! subscription taken in the same step, so that the backlog and the live feed
//! meet without a gap and without an item told twice.

use super::{RecordId, StopError};
use crate::tracing_msg::observe::{
    observer, ClientId, ClientInfo, ClientRef, CloseInfo, MsgInfo, ObserveMsg, Observer,
};
use crate::tracing_msg::{
    DisconnectFields, GraceType, HelloMsg, QueryHistory, Role, Timestamp, TracingMsg,
};
use tokio::sync::broadcast::{Receiver, Sender};
use vstd::prelude::*;

verus! {

/// What happened to a record.
#[derive(Debug, Copy, Clone, Eq, PartialEq, Structural)]
pub enum Action {
    Create,
    Update,
    Delete,
}

/// A report of the store: a record and what happened to it.
#[derive(Debug, PartialEq, Eq)]
pub struct Notification<T> {
    pub action: Action,
    pub data: T,
}

/// A client as the store holds it.
#[derive(Debug, PartialEq, Eq)]
pub struct ClientModel {
    pub id: RecordId,
    pub a_timestamp: Timestamp,
    pub c_client_name: String,
    pub d_client_role: Role,
    pub g_client_addr: Option<String>,
    pub i_proc_env: Option<String>,
}

/// The client of a record: its place in the store, or the client itself
/// where the store resolved it.
#[derive(Debug, PartialEq, Eq)]
pub enum ClientLink {
    Id(RecordId),
    Record(ClientModel),
}

/// The end of a connection as the store holds it.
#[derive(Debug, PartialEq, Eq)]
pub struct DisconnectModel {
    pub id: RecordId,
    pub a_timestamp: Timestamp,
    pub c_client_id: ClientLink,
    pub outcome: DisconnectFields,
}

/// A trace message as the store holds it.
#[derive(Debug, PartialEq, Eq)]
pub struct MsgModel<B> {
    pub id: RecordId,
    pub client_id: ClientLink,
    pub msg: TracingMsg<B>,
}

/// A record of one of the three tables of a session.
#[derive(Debug, PartialEq, Eq)]
pub enum Model<B> {
    Client(ClientModel),
    Disconnect(DisconnectModel),
    Msg(MsgModel<B>),
}

/// The three streams that a watcher reads.
#[derive(Debug, Copy, Clone, Eq, PartialEq, Structural)]
pub enum Source {
    Clients,
    Disconnects,
    Messages,
}

impl ClientModel {
    pub open spec fn spec_client_info(self) -> ClientInfo {
        ClientInfo {
            hello_timestamp: self.a_timestamp,
            hello_msg: HelloMsg { client_name: self.c_client_name, proc_env: self.i_proc_env },
            client_role: self.d_client_role,
            client_addr: self.g_client_addr,
        }
    }

    /// What observers are told of the client.
    pub fn to_client_info(self) -> (info: ClientInfo)
        ensures
            info == self.spec_client_info(),
    {
        ClientInfo {
            hello_timestamp: self.a_timestamp,
            hello_msg: HelloMsg { client_name: self.c_client_name, proc_env: self.i_proc_env },
            client_role: self.d_client_role,
            client_addr: self.g_client_addr,
        }
    }
}

impl ClientLink {
    pub open spec fn spec_client_ref(self) -> ClientRef {
        match self {
            ClientLink::Id(id) => ClientRef::Id(ClientId(id.table, id.key)),
            ClientLink::Record(client) => ClientRef::Info(client.spec_client_info()),
        }
    }

    pub fn to_client_ref(self) -> (client: ClientRef)
        ensures
            client == self.spec_client_ref(),
    {
        match self {
            ClientLink::Id(id) => ClientRef::Id(ClientId(id.table, id.key)),
            ClientLink::Record(client) => ClientRef::Info(client.to_client_info()),
        }
    }
}

/// What a record has observers told.
pub enum Told<B> {
    /// This.
    Msg(ObserveMsg<B>),
    /// Nothing: the record is that of the host, which is no client.
    Silent,
    /// Nothing: the record does not hang together.
    Corrupted,
}

impl<B> Model<B> {
    /// The place of the record in the store.
    pub open spec fn spec_id(self) -> RecordId {
        match self {
            Model::Client(m) => m.id,
            Model::Disconnect(m) => m.id,
            Model::Msg(m) => m.id,
        }
    }

    /// The stream that reports records of this kind.
    pub open spec fn spec_source(self) -> Source {
        match self {
            Model::Client(_) => Source::Clients,
            Model::Disconnect(_) => Source::Disconnects,
            Model::Msg(_) => Source::Messages,
        }
    }

    /// What observers are told of the record. A client is announced with its
    /// identifier and what is known of it, the host excepted. The end of a
    /// connection is told as long as its fields stand for an outcome. A
    /// message is told as it is.
    pub open spec fn spec_told(self) -> Told<B> {
        match self {
            Model::Client(m) => if m.d_client_role.spec_is_client() {
                Told::Msg(
                    ObserveMsg::OnClientHello(ClientId(m.id.table, m.id.key), m.spec_client_info()),
                )
            } else {
                Told::Silent
            },
            Model::Disconnect(m) => match m.outcome.spec_close_msg() {
                Some(close_msg) => Told::Msg(
                    ObserveMsg::OnDisconnect(
                        CloseInfo {
                            close_timestamp: m.a_timestamp,
                            client_info: m.c_client_id.spec_client_ref(),
                            close_msg,
                        },
                    ),
                ),
                None => Told::Corrupted,
            },
            Model::Msg(m) => Told::Msg(
                ObserveMsg::OnMsg(
                    MsgInfo { client_info: m.client_id.spec_client_ref(), tracing_msg: m.msg },
                ),
            ),
        }
    }

    pub fn get_id(&self) -> (id: &RecordId)
        ensures
            *id == self.spec_id(),
    {
        match self {
            Model::Client(m) => &m.id,
            Model::Disconnect(m) => &m.id,
            Model::Msg(m) => &m.id,
        }
    }

    pub fn source(&self) -> (source: Source)
        ensures
            source == self.spec_source(),
    {
        match self {
            Model::Client(_) => Source::Clients,
            Model::Disconnect(_) => Source::Disconnects,
            Model::Msg(_) => Source::Messages,
        }
    }

    /// What observers are told of the record; `CorruptedData` for a record
    /// that does not hang together.
    pub fn to_observe_msg(self) -> (told: Result<Option<ObserveMsg<B>>, StopError>)
        ensures
            match self.spec_told() {
                Told::Msg(msg) => told == Ok::<Option<ObserveMsg<B>>, StopError>(Some(msg)),
                Told::Silent => told == Ok::<Option<ObserveMsg<B>>, StopError>(None),
                Told::Corrupted => told == Err::<Option<ObserveMsg<B>>, StopError>(
                    StopError::CorruptedData,
                ),
            },
    {
        match self {
            Model::Client(m) => {
                if m.d_client_role.is_client() {
                    let id = ClientId(m.id.table, m.id.key);
                    let info = ClientInfo {
                        hello_timestamp: m.a_timestamp,
                        hello_msg: HelloMsg {
                            client_name: m.c_client_name,
                            proc_env: m.i_proc_env,
                        },
                        client_role: m.d_client_role,
                        client_addr: m.g_client_addr,
                    };
                    Ok(Some(ObserveMsg::OnClientHello(id, info)))
                } else {
                    Ok(None)
                }
            },
            Model::Disconnect(m) => {
                match m.outcome.close_msg() {
                    Some(close_msg) => Ok(
                        Some(
                            ObserveMsg::OnDisconnect(
                                CloseInfo {
                                    close_timestamp: m.a_timestamp,
                                    client_info: m.c_client_id.to_client_ref(),
                                    close_msg,
                                },
                            ),
                        ),
                    ),
                    None => Err(StopError::CorruptedData),
                }
            },
            Model::Msg(m) => Ok(
                Some(
                    ObserveMsg::OnMsg(
                        MsgInfo { client_info: m.client_id.to_client_ref(), tracing_msg: m.msg },
                    ),
                ),
            ),
        }
    }
}

/// Something that happened to the watcher.
#[derive(Debug, PartialEq, Eq)]
pub enum WatchEvent<B> {
    /// A stream reported a record.
    Notified(Notification<Model<B>>),
    /// A stream ended.
    Closed(Source),
    /// A stream reported an error of the store; the text is its report.
    Failed(String),
    /// Someone asked for an observer, with this much of the past.
    Requested(QueryHistory),
    /// Nobody is left who could ask for an observer.
    RequesterDropped,
    /// The watcher was told to stop, for this reason.
    Cancelled(GraceType),
}

impl<B> WatchEvent<B> {
    /// A policy that is asked for hangs together.
    pub open spec fn wf(self) -> bool {
        self matches WatchEvent::Requested(policy) ==> policy.wf()
    }
}

/// What the caller of the watcher is to do.
#[derive(Debug, PartialEq, Eq)]
pub enum WatchAction {
    /// Nothing; go on waiting.
    Wait,
    /// Send a copy of the newest entry of the backlog to the live feed. That
    /// nobody listens is no error.
    Publish,
    /// Answer the request with an observer that holds the entries of the
    /// backlog from `from` up to, not including, `to`, and a subscription to
    /// the live feed taken now. Then tell whoever waits that the watcher is
    /// ready.
    Reply { from: usize, to: usize },
    /// Drop the request unanswered: the one observer has been built.
    Decline,
    /// Stop, with this result.
    Finish(Result<GraceType, StopError>),
}

/// The part of a backlog of `len` entries that a policy asks for, as the
/// place where it starts; it ends where the backlog ends.
pub open spec fn history_start(policy: QueryHistory, len: int) -> int {
    match policy {
        QueryHistory::Nothing => len,
        QueryHistory::Full => 0,
        QueryHistory::Limit(n) => if n <= len {
            len - n
        } else {
            0
        },
    }
}

/// What a new observer is handed of what has been published: nothing, all of
/// it, or the most recent entries up to the limit, in the order in which
/// they were published.
pub open spec fn history_snapshot<T>(policy: QueryHistory, published: Seq<T>) -> Seq<T> {
    published.subrange(history_start(policy, published.len() as int), published.len() as int)
}

/// The range of a backlog of `len` entries that a policy asks for.
pub fn history_range(policy: QueryHistory, len: usize) -> (range: (usize, usize))
    requires
        policy.wf(),
    ensures
        range.0 == history_start(policy, len as int),
        range.1 == len,
        range.0 <= range.1,
{
    match policy {
        QueryHistory::Nothing => (len, len),
        QueryHistory::Full => (0, len),
        QueryHistory::Limit(n) => {
            let n: usize = n as usize;
            if n <= len {
                (len - n, len)
            } else {
                (0, len)
            }
        },
    }
}

/// The watcher of one session.
#[derive(Debug, PartialEq, Eq)]
pub struct Watcher<B> {
    last_key: Option<String>,
    backlog: Vec<ObserveMsg<B>>,
    seen_clients: bool,
    seen_disconnects: bool,
    seen_messages: bool,
    served: bool,
    finished: bool,
}

/// The state of a watcher as plain values.
pub struct WatcherView<B> {
    /// The key of the record that was reported last as created.
    pub last_key: Option<Seq<char>>,
    /// Everything published so far, in order.
    pub published: Seq<ObserveMsg<B>>,
    /// Whether the stream of clients has reported anything.
    pub seen_clients: bool,
    /// Whether the stream of ends of connections has reported anything.
    pub seen_disconnects: bool,
    /// Whether the stream of messages has reported anything.
    pub seen_messages: bool,
    /// Whether the one observer has been built.
    pub served: bool,
    /// Whether the watcher has stopped.
    pub finished: bool,
}

impl<B> WatcherView<B> {
    pub open spec fn seen(self, source: Source) -> bool {
        match source {
            Source::Clients => self.seen_clients,
            Source::Disconnects => self.seen_disconnects,
            Source::Messages => self.seen_messages,
        }
    }

    pub open spec fn with_seen(self, source: Source) -> Self {
        match source {
            Source::Clients => WatcherView { seen_clients: true, ..self },
            Source::Disconnects => WatcherView { seen_disconnects: true, ..self },
            Source::Messages => WatcherView { seen_messages: true, ..self },
        }
    }

    /// The state after a stream has reported `item`, and what is to be done.
    /// Only a record that was created counts; it moves the mark of the last
    /// key, and what it has observers told is published. A record that does
    /// not hang together ends the watcher.
    pub open spec fn notified(self, item: Notification<Model<B>>) -> (Self, WatchAction) {
        let seen = self.with_seen(item.data.spec_source());
        if item.action != Action::Create {
            (seen, WatchAction::Wait)
        } else {
            let marked = WatcherView { last_key: Some(item.data.spec_id().key@), ..seen };
            match item.data.spec_told() {
                Told::Msg(msg) => (
                    WatcherView { published: self.published.push(msg), ..marked },
                    WatchAction::Publish,
                ),
                Told::Silent => (marked, WatchAction::Wait),
                Told::Corrupted => (
                    WatcherView { finished: true, ..marked },
                    WatchAction::Finish(Err(StopError::CorruptedData)),
                ),
            }
        }
    }

    /// The state after `event`, and what is to be done. A watcher that has
    /// stopped stays as it is. A stream that ends before it has reported
    /// anything is an error; one that ends later ends the watcher in good
    /// order, as a request to stop does. The first request for an observer
    /// is answered, a later one is not.
    pub open spec fn step(self, event: WatchEvent<B>) -> (Self, WatchAction) {
        if self.finished {
            (self, WatchAction::Wait)
        } else {
            match event {
                WatchEvent::Notified(item) => self.notified(item),
                WatchEvent::Closed(source) => (
                    WatcherView { finished: true, ..self },
                    WatchAction::Finish(
                        if self.seen(source) {
                            Ok(GraceType::Explicit)
                        } else {
                            Err(StopError::StreamClosed)
                        },
                    ),
                ),
                WatchEvent::Failed(report) => (
                    WatcherView { finished: true, ..self },
                    WatchAction::Finish(Err(StopError::Surreal(report))),
                ),
                WatchEvent::Requested(policy) => if self.served {
                    (self, WatchAction::Decline)
                } else {
                    (
                        WatcherView { served: true, ..self },
                        WatchAction::Reply {
                            from: history_start(policy, self.published.len() as int) as usize,
                            to: self.published.len() as usize,
                        },
                    )
                },
                WatchEvent::RequesterDropped => if self.served {
                    (self, WatchAction::Wait)
                } else {
                    (
                        WatcherView { finished: true, ..self },
                        WatchAction::Finish(Err(StopError::RequesterDropped)),
                    )
                },
                WatchEvent::Cancelled(grace) => (
                    WatcherView { finished: true, ..self },
                    WatchAction::Finish(Ok(grace)),
                ),
            }
        }
    }
}

impl<B> View for Watcher<B> {
    type V = WatcherView<B>;

    closed spec fn view(&self) -> WatcherView<B> {
        WatcherView {
            last_key: match self.last_key {
                Some(key) => Some(key@),
                None => None,
            },
            published: self.backlog@,
            seen_clients: self.seen_clients,
            seen_disconnects: self.seen_disconnects,
            seen_messages: self.seen_messages,
            served: self.served,
            finished: self.finished,
        }
    }
}

impl<B> Watcher<B> {
    /// A watcher that has seen nothing yet.
    pub fn new() -> (watcher: Self)
        ensures
            watcher@ == (WatcherView::<B> {
                last_key: None,
                published: Seq::empty(),
                seen_clients: false,
                seen_disconnects: false,
                seen_messages: false,
                served: false,
                finished: false,
            }),
    {
        Watcher {
            last_key: None,
            backlog: Vec::new(),
            seen_clients: false,
            seen_disconnects: false,
            seen_messages: false,
            served: false,
            finished: false,
        }
    }

    /// Everything published so far, in order.
    pub fn backlog(&self) -> (backlog: &Vec<ObserveMsg<B>>)
        ensures
            backlog@ == self@.published,
    {
        &self.backlog
    }

    /// The key of the record that was reported last as created.
    pub fn last_key(&self) -> (key: Option<&str>)
        ensures
            match key {
                Some(k) => self@.last_key == Some(k@),
                None => self@.last_key is None,
            },
    {
        match &self.last_key {
            Some(key) => Some(key.as_str()),
            None => None,
        }
    }

    pub fn is_finished(&self) -> (finished: bool)
        ensures
            finished == self@.finished,
    {
        self.finished
    }

    pub fn has_served(&self) -> (served: bool)
        ensures
            served == self@.served,
    {
        self.served
    }

    fn mark_seen(&mut self, source: Source)
        ensures
            final(self)@ == old(self)@.with_seen(source),
    {
        match source {
            Source::Clients => {
                self.seen_clients = true;
            },
            Source::Disconnects => {
                self.seen_disconnects = true;
            },
            Source::Messages => {
                self.seen_messages = true;
            },
        }
    }

    fn has_seen(&self, source: Source) -> (seen: bool)
        ensures
            seen == self@.seen(source),
    {
        match source {
            Source::Clients => self.seen_clients,
            Source::Disconnects => self.seen_disconnects,
            Source::Messages => self.seen_messages,
        }
    }

    /// Takes in what a stream reported.
    pub fn handle_item(&mut self, item: Notification<Model<B>>) -> (action: WatchAction)
        ensures
            (final(self)@, action) == old(self)@.notified(item),
    {
        self.mark_seen(item.data.source());
        match item.action {
            Action::Create => {
                let key = item.data.get_id().key.clone();
                self.last_key = Some(key);
                match item.data.to_observe_msg() {
                    Ok(Some(msg)) => {
                        self.backlog.push(msg);
                        WatchAction::Publish
                    },
                    Ok(None) => WatchAction::Wait,
                    Err(err) => {
                        self.finished = true;
                        WatchAction::Finish(Err(err))
                    },
                }
            },
            _ => WatchAction::Wait,
        }
    }

    /// Takes in what happened and says what is to be done.
    pub fn step(&mut self, event: WatchEvent<B>) -> (action: WatchAction)
        requires
            event.wf(),
        ensures
            (final(self)@, action) == old(self)@.step(event),
    {
        if self.finished {
            return WatchAction::Wait;
        }
        match event {
            WatchEvent::Notified(item) => self.handle_item(item),
            WatchEvent::Closed(source) => {
                let seen = self.has_seen(source);
                self.finished = true;
                WatchAction::Finish(
                    if seen {
                        Ok(GraceType::Explicit)
                    } else {
                        Err(StopError::StreamClosed)
                    },
                )
            },
            WatchEvent::Failed(report) => {
                self.finished = true;
                WatchAction::Finish(Err(StopError::Surreal(report)))
            },
            WatchEvent::Requested(policy) => {
                if self.served {
                    WatchAction::Decline
                } else {
                    self.served = true;
                    let range = history_range(policy, self.backlog.len());
                    WatchAction::Reply { from: range.0, to: range.1 }
                }
            },
            WatchEvent::RequesterDropped => {
                if self.served {
                    WatchAction::Wait
                } else {
                    self.finished = true;
                    WatchAction::Finish(Err(StopError::RequesterDropped))
                }
            },
            WatchEvent::Cancelled(grace) => {
                self.finished = true;
                WatchAction::Finish(Ok(grace))
            },
        }
    }
}

/// An observer is built at most once in the life of a watcher: a step that
/// answers a request starts from a watcher that has answered none, and no
/// step takes the answer back.
pub proof fn lemma_observer_built_once<B>(state: WatcherView<B>, event: WatchEvent<B>)
    ensures
        state.step(event).1 is Reply ==> !state.served && state.step(event).0.served,
        state.served ==> state.step(event).0.served,
{
}

/// A watcher that has stopped does nothing more.
pub proof fn lemma_finished_is_final<B>(state: WatcherView<B>, event: WatchEvent<B>)
    requires
        state.finished,
    ensures
        state.step(event) == (state, WatchAction::Wait),
{
}

/// What has been published stays published, in its place: a step adds at
/// most one entry at the end, and it adds one exactly when it says so.
pub proof fn lemma_backlog_only_grows<B>(state: WatcherView<B>, event: WatchEvent<B>)
    ensures
        state.step(event).0.published.len() >= state.published.len(),
        state.step(event).0.published.take(state.published.len() as int) == state.published,
        state.step(event).1 is Publish <==> state.step(event).0.published.len()
            == state.published.len() + 1,
        !(state.step(event).1 is Publish) ==> state.step(event).0.published == state.published,
{
    let after = state.step(event).0.published;
    assert(after.take(state.published.len() as int) == state.published);
}

/// The backlog handed to an observer and the live feed it subscribes to in
/// the same step meet: the backlog ends with the newest entry published, and
/// holds as much of what came before as the policy asks for.
pub proof fn lemma_history_meets_live<B>(state: WatcherView<B>, policy: QueryHistory)
    requires
        !state.finished,
        !state.served,
        state.published.len() <= usize::MAX,
    ensures
        state.step(WatchEvent::Requested(policy)).1 matches WatchAction::Reply { from, to } && {
            &&& to == state.published.len()
            &&& 0 <= from <= to
            &&& state.published.subrange(from as int, to as int) == history_snapshot(
                policy,
                state.published,
            )
            &&& policy == QueryHistory::Full ==> from == 0
            &&& policy == QueryHistory::Nothing ==> from == to
            &&& policy matches QueryHistory::Limit(n) ==> to - from == if n <= to {
                n as int
            } else {
                to as int
            }
        },
        state.step(WatchEvent::Requested(policy)).0.published == state.published,
{
}

/// How many entries the live feed holds for a reader that lags. A reader
/// that falls further behind loses the oldest.
pub const FEED_CAPACITY: usize = 65536;

/// The `Sender` of tokio's broadcast channel, as a value that is carried along.
#[verifier::external_type_specification]
#[verifier::external_body]
#[verifier::reject_recursive_types(T)]
pub struct ExSender<T>(Sender<T>);

/// `broadcast::Sender::new` of tokio: the sending side of a feed that keeps
/// `capacity` entries. The crate panics on a capacity of zero and on one
/// above half of what a `usize` holds.
#[verifier::external_body]
fn open_feed<T: Clone>(capacity: usize) -> (feed: Sender<T>)
    requires
        0 < capacity <= usize::MAX / 2,
{
    Sender::new(capacity)
}

/// `broadcast::Sender::send` of tokio. Whether anyone listens is not for the
/// sender to know, and no listener is no error.
#[verifier::external_body]
fn send<T>(feed: &Sender<T>, item: T) {
    feed.send(item).ok();
}

/// `broadcast::Sender::subscribe` of tokio: a reader that gets what is sent
/// from now on.
#[verifier::external_body]
fn subscribe<T: Clone>(feed: &Sender<T>) -> (live: Receiver<T>) {
    feed.subscribe()
}

/// What the caller of the routine is to do.
#[derive(Debug)]
#[verifier::reject_recursive_types(B)]
pub enum RoutineAction<B> {
    /// Nothing; go on waiting.
    Wait,
    /// Send this entry, a copy of the newest of the backlog, to the live
    /// feed with `Routine::publish`.
    Publish(ObserveMsg<B>),
    /// Answer the request with this observer, then tell whoever waits that
    /// the routine is ready.
    Reply(Observer<B>),
    /// Drop the request unanswered: the one observer has been built.
    Decline,
    /// Stop, with this result.
    Finish(Result<GraceType, StopError>),
}

/// The watcher of a session together with its live feed: it hands back a
/// copy of each entry that is to be published, sends to the feed what it is
/// given to send, and builds the observer that the watcher says is to be
/// built.
#[derive(Debug)]
#[verifier::reject_recursive_types(B)]
pub struct Routine<B> {
    watcher: Watcher<B>,
    feed: Sender<ObserveMsg<B>>,
}

impl<B: Clone> Routine<B> {
    /// The watcher inside the routine.
    pub closed spec fn watcher(&self) -> WatcherView<B> {
        self.watcher@
    }

    /// The live feed of the routine.
    pub closed spec fn feed(&self) -> Sender<ObserveMsg<B>> {
        self.feed
    }

    /// A routine that has seen nothing yet, with a feed of the usual size.
    pub fn new() -> (routine: Self)
        ensures
            routine.watcher() == (WatcherView::<B> {
                last_key: None,
                published: Seq::empty(),
                seen_clients: false,
                seen_disconnects: false,
                seen_messages: false,
                served: false,
                finished: false,
            }),
    {
        Routine { watcher: Watcher::new(), feed: open_feed(FEED_CAPACITY) }
    }

    /// Copies of the entries of the backlog from `from` up to, not
    /// including, `to`, in their order.
    fn snapshot(&self, from: usize, to: usize) -> (history: Vec<ObserveMsg<B>>)
        requires
            from <= to <= self.watcher().published.len(),
        ensures
            history@.len() == to - from,
            forall|i: int|
                0 <= i < history@.len() ==> (#[trigger] history@[i]).copy_of(
                    self.watcher().published[from + i],
                ),
    {
        let backlog = self.watcher.backlog();
        let mut history: Vec<ObserveMsg<B>> = Vec::new();
        let mut at = from;
        while at < to
            invariant
                from <= at <= to <= backlog@.len(),
                backlog@ == self.watcher().published,
                history@.len() == at - from,
                forall|i: int|
                    0 <= i < history@.len() ==> (#[trigger] history@[i]).copy_of(backlog@[from + i]),
            decreases to - at,
        {
            history.push(backlog[at].clone());
            at = at + 1;
        }
        history
    }

    /// Takes in what happened and says what is to be done. The watcher
    /// moves as `WatcherView::step` has it, and the feed stays the one it
    /// was. What the watcher publishes is handed back as a copy of the entry
    /// that the backlog now ends with. The observer it has built holds
    /// copies of the part of the backlog that the policy asks for, and reads
    /// the feed from this step on: nothing is in both, and nothing that is
    /// published later falls between the two.
    pub fn step(&mut self, event: WatchEvent<B>) -> (action: RoutineAction<B>)
        requires
            event.wf(),
        ensures
            final(self).watcher() == old(self).watcher().step(event).0,
            final(self).feed() == old(self).feed(),
            match old(self).watcher().step(event).1 {
                WatchAction::Wait => action is Wait,
                WatchAction::Publish => action matches RoutineAction::Publish(entry)
                    && final(self).watcher().published.len() > 0 && entry.copy_of(
                    final(self).watcher().published.last(),
                ),
                WatchAction::Decline => action is Decline,
                WatchAction::Finish(result) => action matches RoutineAction::Finish(r) && r
                    == result,
                WatchAction::Reply { from, to } => action matches RoutineAction::Reply(built) && {
                    &&& built.backlog().len() == to - from
                    &&& forall|i: int|
                        0 <= i < to - from ==> (#[trigger] built.backlog()[i]).copy_of(
                            old(self).watcher().published[from + i],
                        )
                },
            },
    {
        match self.watcher.step(event) {
            WatchAction::Wait => RoutineAction::Wait,
            WatchAction::Publish => {
                let backlog = self.watcher.backlog();
                let newest = backlog.len() - 1;
                RoutineAction::Publish(backlog[newest].clone())
            },
            WatchAction::Decline => RoutineAction::Decline,
            WatchAction::Finish(result) => RoutineAction::Finish(result),
            WatchAction::Reply { from, to } => {
                let len = self.watcher.backlog().len();
                assert(to == len && from <= to);
                let history = self.snapshot(from, to);
                RoutineAction::Reply(observer(history, subscribe(&self.feed)))
            },
        }
    }

    /// Sends an entry to the live feed. That nobody listens is no error.
    pub fn publish(&self, entry: ObserveMsg<B>) {
        send(&self.feed, entry)
    }

    /// The watcher, for a look at what it has seen.
    pub fn state(&self) -> (watcher: &Watcher<B>)
        ensures
            watcher@ == self.watcher(),
    {
        &self.watcher
    }
}

} // verus!
