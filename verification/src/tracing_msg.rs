//! The vocabulary shared by every participant of a session: roles and their
//! capabilities, the reasons a connection ends, and the envelope of a trace message.

use crate::stop::id_gen::{clamped_millis, IdGen, LAST_MILLIS};
use std::time::SystemTime;
use vstd::prelude::*;
use vstd::std_specs::convert::FromSpecImpl;
use vstd::string::*;

pub mod handshake;
pub mod layer;
pub mod observe;
pub mod payload;
pub mod proc_env;
pub mod query_map;

pub use handshake::{ClientRole, Handshake, HelloMsg};
pub use layer::{Describe, TracingLayerDefault};
pub use observe::{observer, ClientInfo, ObserveMsg, Observer};
pub use payload::{message_of, Payload, Value};
pub use query_map::{MsgFormat, QueryHistory};

verus! {

/// `std::time::SystemTime`, as a value that is carried along.
#[verifier::external_type_specification]
#[verifier::external_body]
pub struct ExSystemTime(SystemTime);

/// The whole milliseconds from the Unix epoch to an instant of the clock;
/// none for an instant before the epoch.
pub uninterp spec fn instant_millis(at: SystemTime) -> int;

/// `SystemTime::checked_add` on the Unix epoch: the instant so many
/// milliseconds after the epoch, where the clock of this machine can hold
/// it.
#[verifier::external_body]
fn instant_after(unix_millis: u64) -> (at: Option<SystemTime>)
    ensures
        at matches Some(instant) ==> instant_millis(instant) == unix_millis,
{
    std::time::UNIX_EPOCH.checked_add(std::time::Duration::from_millis(unix_millis))
}

/// A point in time, in milliseconds since the Unix epoch; negative before
/// it. With it goes the instant of the clock that identifiers for this time
/// are made with, so that a time is one that the clock of this machine can
/// hold.
#[derive(Debug, Copy, Clone, Eq, PartialEq, Hash)]
pub struct Timestamp {
    unix_millis: i64,
    instant: SystemTime,
}

impl Timestamp {
    /// The instant is that of the milliseconds that the time counts for.
    #[verifier::type_invariant]
    spec fn held(self) -> bool {
        instant_millis(self.instant) == clamped_millis(self)
    }

    /// The milliseconds since the Unix epoch; negative before it.
    pub closed spec fn spec_unix_millis(self) -> i64 {
        self.unix_millis
    }

    /// The time so many milliseconds after the Unix epoch, or before it for
    /// a negative number. There is none where the clock of this machine
    /// cannot hold the instant that goes with it.
    pub fn new(unix_millis: i64) -> (at: Option<Timestamp>)
        ensures
            at matches Some(time) ==> time.spec_unix_millis() == unix_millis,
    {
        let counted: u64 = if unix_millis < 0 {
            0
        } else if unix_millis > 0xFFFF_FFFF_FFFF {
            LAST_MILLIS
        } else {
            unix_millis as u64
        };
        match instant_after(counted) {
            Some(instant) => Some(Timestamp { unix_millis, instant }),
            None => None,
        }
    }

    #[verifier::when_used_as_spec(spec_unix_millis)]
    pub fn unix_millis(self) -> (millis: i64)
        ensures
            millis == self.spec_unix_millis(),
    {
        self.unix_millis
    }

    /// The instant of the clock that goes with the time.
    pub fn instant(self) -> (instant: SystemTime)
        ensures
            instant_millis(instant) == clamped_millis(self),
    {
        proof {
            use_type_invariant(self);
        }
        self.instant
    }
}

/// Identifier of a span. Zero is not a span identifier.
#[derive(Debug, Copy, Clone, Eq, PartialEq, Hash, Structural)]
pub struct SpanId(pub u64);

impl SpanId {
    /// A span identifier is never zero.
    pub open spec fn wf(self) -> bool {
        self.0 != 0
    }

    /// The identifier with the given number, unless the number is zero.
    pub fn new(raw: u64) -> (id: Option<SpanId>)
        ensures
            raw == 0 ==> id is None,
            raw != 0 ==> id == Some(SpanId(raw)),
            id matches Some(s) ==> s.wf(),
    {
        if raw == 0 {
            None
        } else {
            Some(SpanId(raw))
        }
    }
}

/// Severity of a span or an event, from the most to the least verbose.
#[derive(Debug, Copy, Clone, Eq, PartialEq, Hash, Structural)]
pub enum Level {
    Trace,
    Debug,
    Info,
    Warn,
    Error,
}

/// Where a span or an event hangs in the span tree.
#[derive(Debug, Copy, Clone, Eq, PartialEq, Hash, Structural)]
pub enum Parent {
    Root,
    Current,
    Explicit(SpanId),
}

impl Parent {
    /// The parent of an item, from what its metadata says: an explicit parent wins,
    /// then the root mark; anything else hangs under the current span.
    pub fn resolve(explicit: Option<SpanId>, is_root: bool) -> (parent: Parent)
        ensures
            parent == match explicit {
                Some(id) => Parent::Explicit(id),
                None => if is_root {
                    Parent::Root
                } else {
                    Parent::Current
                },
            },
    {
        match explicit {
            Some(id) => Parent::Explicit(id),
            None => if is_root {
                Parent::Root
            } else {
                Parent::Current
            },
        }
    }
}

/// Where in the source a span or an event was made, and how it is called.
#[derive(Debug, PartialEq, Eq)]
pub struct Metadata {
    pub level: Level,
    pub name: String,
    pub target: String,
    pub module: Option<String>,
    pub file: Option<String>,
    pub line: Option<u32>,
}

/// What a trace message says. `P` is the type of the fields that a span or
/// an event carries, which this library hands on and never looks into.
#[derive(Debug, PartialEq, Eq)]
pub enum MsgBody<P> {
    OnNewSpan {
        span_id: SpanId,
        level: Level,
        name: String,
        target: String,
        module: Option<String>,
        file: Option<String>,
        line: Option<u32>,
        parent: Parent,
        payload: P,
    },
    OnRecord { span_id: SpanId, payload: P },
    OnFollowsFrom { span_id: SpanId, follows: SpanId },
    OnEvent {
        message: String,
        level: Level,
        name: String,
        target: String,
        module: Option<String>,
        file: Option<String>,
        line: Option<u32>,
        parent: Parent,
        payload: P,
    },
    OnEnter { span_id: SpanId },
    OnExit { span_id: SpanId },
    OnClose { span_id: SpanId },
    OnIdChange { old_span: SpanId, new_span: SpanId },
}

impl<P> MsgBody<P> {
    /// The body for a span that was made.
    pub fn on_new_span(metadata: Metadata, parent: Parent, payload: P, span_id: SpanId) -> (body:
        Self)
        ensures
            body == (MsgBody::OnNewSpan {
                span_id,
                level: metadata.level,
                name: metadata.name,
                target: metadata.target,
                module: metadata.module,
                file: metadata.file,
                line: metadata.line,
                parent,
                payload,
            }),
    {
        MsgBody::OnNewSpan {
            span_id,
            level: metadata.level,
            name: metadata.name,
            target: metadata.target,
            module: metadata.module,
            file: metadata.file,
            line: metadata.line,
            parent,
            payload,
        }
    }
}

impl MsgBody<Payload> {
    /// The body for an event. Its message is what its fields say in words,
    /// and empty where they say nothing.
    pub fn on_event(metadata: Metadata, parent: Parent, payload: Payload) -> (body: Self)
        ensures
            body matches MsgBody::OnEvent {
                message,
                level,
                name,
                target,
                module,
                file,
                line,
                parent: under,
                payload: carried,
            } && {
                &&& message@ == match message_of(payload@) {
                    Some(words) => words,
                    None => Seq::<char>::empty(),
                }
                &&& level == metadata.level
                &&& name == metadata.name
                &&& target == metadata.target
                &&& module == metadata.module
                &&& file == metadata.file
                &&& line == metadata.line
                &&& under == parent
                &&& carried == payload
            },
    {
        let message = match payload.message() {
            Some(words) => words,
            None => String::new(),
        };
        MsgBody::OnEvent {
            message,
            level: metadata.level,
            name: metadata.name,
            target: metadata.target,
            module: metadata.module,
            file: metadata.file,
            line: metadata.line,
            parent,
            payload,
        }
    }
}

impl<B> TracingMsg<B> {
    /// The message around `body`, made at `timestamp` by the thread and the
    /// task that are named.
    pub fn new(
        body: B,
        timestamp: Timestamp,
        thread_name: Option<String>,
        thread_id: u64,
        task_id: Option<u64>,
    ) -> (msg: Self)
        ensures
            msg == (TracingMsg { timestamp, thread_name, thread_id, task_id, body }),
    {
        TracingMsg { timestamp, thread_name, thread_id, task_id, body }
    }
}

/// One trace message around a body of type `B`, which this library carries and
/// never looks into.
#[derive(Debug, PartialEq, Eq)]
pub struct TracingMsg<B> {
    pub timestamp: Timestamp,
    pub thread_name: Option<String>,
    pub thread_id: u64,
    pub task_id: Option<u64>,
    pub body: B,
}

impl<B: Clone> TracingMsg<B> {
    /// The message is a copy of `source`: everything around the body is
    /// the same, and the body is a clone of the body.
    pub open spec fn copy_of(self, source: Self) -> bool {
        &&& self.timestamp == source.timestamp
        &&& self.thread_name == source.thread_name
        &&& self.thread_id == source.thread_id
        &&& self.task_id == source.task_id
        &&& cloned(source.body, self.body)
    }
}

impl<B: Clone> Clone for TracingMsg<B> {
    fn clone(&self) -> (copy: Self)
        ensures
            copy.copy_of(*self),
    {
        TracingMsg {
            timestamp: self.timestamp,
            thread_name: clone_text(&self.thread_name),
            thread_id: self.thread_id,
            task_id: self.task_id,
            body: self.body.clone(),
        }
    }
}

/// A copy of a text that may be missing.
pub fn clone_text(text: &Option<String>) -> (copy: Option<String>)
    ensures
        copy == *text,
{
    match text {
        Some(t) => Some(t.clone()),
        None => None,
    }
}

/// What a participant of a session is.
#[derive(Debug, Copy, Clone, Eq, PartialEq, Hash, Structural)]
pub enum Role {
    Host,
    Pusher,
    Observer,
    Director,
}

impl Role {
    /// Everyone but an observer pushes.
    pub open spec fn spec_can_push(&self) -> bool {
        match self {
            Role::Host => true,
            Role::Pusher => true,
            Role::Observer => false,
            Role::Director => true,
        }
    }

    /// Everyone but a pusher observes.
    pub open spec fn spec_can_observe(&self) -> bool {
        match self {
            Role::Host => true,
            Role::Pusher => false,
            Role::Observer => true,
            Role::Director => true,
        }
    }

    /// Everyone but the host is a client.
    pub open spec fn spec_is_client(&self) -> bool {
        match self {
            Role::Host => false,
            Role::Pusher => true,
            Role::Observer => true,
            Role::Director => true,
        }
    }

    #[verifier::when_used_as_spec(spec_can_push)]
    pub fn can_push(&self) -> (allowed: bool)
        ensures
            allowed == self.spec_can_push(),
    {
        match self {
            Self::Observer => false,
            _ => true,
        }
    }

    #[verifier::when_used_as_spec(spec_can_observe)]
    pub fn can_observe(&self) -> (allowed: bool)
        ensures
            allowed == self.spec_can_observe(),
    {
        match self {
            Self::Pusher => false,
            _ => true,
        }
    }

    #[verifier::when_used_as_spec(spec_is_client)]
    pub fn is_client(&self) -> (client: bool)
        ensures
            client == self.spec_is_client(),
    {
        match self {
            Self::Host => false,
            _ => true,
        }
    }

    /// The role of the process that opened the session.
    pub fn host() -> (role: Role)
        ensures
            role == Role::Host,
    {
        Role::Host
    }
}

impl From<ClientRole> for Role {
    fn from(value: ClientRole) -> (role: Role) {
        match value {
            ClientRole::Pusher => Self::Pusher,
            ClientRole::Observer => Self::Observer,
            ClientRole::Director => Self::Director,
        }
    }
}

impl FromSpecImpl<ClientRole> for Role {
    open spec fn obeys_from_spec() -> bool {
        true
    }

    open spec fn from_spec(value: ClientRole) -> Role {
        value.role()
    }
}

/// Why a routine came to an orderly end.
#[derive(Debug, Copy, Clone, Eq, PartialEq, Hash, Structural)]
pub enum GraceType {
    /// The process was interrupted from outside.
    CtrlC,
    /// Its owner asked it to stop.
    Explicit,
}

/// An orderly end of a connection.
#[derive(Debug, Copy, Clone, Eq, PartialEq, Hash, Structural)]
#[non_exhaustive]
pub enum CloseOk {
    Grace(GraceType),
    Other,
}

impl From<GraceType> for CloseOk {
    fn from(value: GraceType) -> (ok: CloseOk) {
        Self::Grace(value)
    }
}

impl FromSpecImpl<GraceType> for CloseOk {
    open spec fn obeys_from_spec() -> bool {
        true
    }

    open spec fn from_spec(value: GraceType) -> CloseOk {
        CloseOk::Grace(value)
    }
}

/// What went wrong when a connection ended badly.
#[derive(Debug, Copy, Clone, Eq, PartialEq, Hash, Structural)]
#[non_exhaustive]
pub enum CloseErrKind {
    Io,
    LayerDropped,
    PushMsgErr,
    BulkPushErr,
    BufferFull,
    Other,
}

/// A bad end of a connection: its kind and a text for people.
#[derive(Debug, Eq, PartialEq, Hash)]
pub struct CloseErr {
    pub kind: CloseErrKind,
    pub display: String,
}

impl Clone for CloseErr {
    fn clone(&self) -> (copy: Self)
        ensures
            copy == *self,
    {
        Self { kind: self.kind, display: self.display.clone() }
    }
}

impl CloseErr {
    /// An error of the given kind whose text is what `display` prints.
    pub fn new<D: core::fmt::Display>(kind: CloseErrKind, display: D) -> (err: Self)
        ensures
            err.kind == kind,
            to_string_from_display_ensures::<D>(&display, err.display),
    {
        Self { kind, display: display.to_string() }
    }

    /// An error of kind `Other` whose text is what `err` prints.
    pub fn other<E: std::error::Error>(err: E) -> (close: Self)
        ensures
            close.kind == CloseErrKind::Other,
            to_string_from_display_ensures::<E>(&err, close.display),
    {
        Self { kind: CloseErrKind::Other, display: err.to_string() }
    }

    /// An error of the given kind with exactly the given text.
    pub fn with_text(kind: CloseErrKind, text: &str) -> (err: Self)
        ensures
            err.kind == kind,
            err.display@ == text@,
    {
        Self { kind, display: String::from_str(text) }
    }
}

/// How a connection ended.
#[derive(Debug, Eq, PartialEq, Hash)]
pub struct CloseMsg(pub Result<CloseOk, CloseErr>);

impl Clone for CloseMsg {
    fn clone(&self) -> (copy: Self)
        ensures
            copy == *self,
    {
        match &self.0 {
            Ok(ok) => Self(Ok(*ok)),
            Err(err) => Self(Err(err.clone())),
        }
    }
}

impl CloseMsg {
    pub fn ok(value: CloseOk) -> (msg: Self)
        ensures
            msg.0 == Ok::<CloseOk, CloseErr>(value),
    {
        Self(Ok(value))
    }

    pub fn err(err: CloseErr) -> (msg: Self)
        ensures
            msg.0 == Err::<CloseOk, CloseErr>(err),
    {
        Self(Err(err))
    }

    /// The outcome inside the message.
    pub fn outcome(&self) -> (outcome: &Result<CloseOk, CloseErr>)
        ensures
            *outcome == self.0,
    {
        &self.0
    }
}

/// The fields under which the end of a connection is written down.
#[derive(Debug, PartialEq, Eq)]
pub struct DisconnectFields {
    pub normal: bool,
    pub ok_kind: Option<CloseOk>,
    pub err_kind: Option<CloseErrKind>,
    pub err_msg: Option<String>,
}

impl CloseMsg {
    /// The fields that stand for the message.
    pub open spec fn spec_fields(self) -> DisconnectFields {
        match self.0 {
            Ok(ok) => DisconnectFields {
                normal: true,
                ok_kind: Some(ok),
                err_kind: None,
                err_msg: None,
            },
            Err(err) => DisconnectFields {
                normal: false,
                ok_kind: None,
                err_kind: Some(err.kind),
                err_msg: Some(err.display),
            },
        }
    }

    pub fn fields(&self) -> (fields: DisconnectFields)
        ensures
            fields == self.spec_fields(),
    {
        match &self.0 {
            Ok(ok) => DisconnectFields {
                normal: true,
                ok_kind: Some(*ok),
                err_kind: None,
                err_msg: None,
            },
            Err(err) => DisconnectFields {
                normal: false,
                ok_kind: None,
                err_kind: Some(err.kind),
                err_msg: Some(err.display.clone()),
            },
        }
    }
}

impl DisconnectFields {
    /// The message that the fields stand for. A normal end needs its kind, a
    /// bad end its kind and its text; fields that lack them stand for nothing.
    pub open spec fn spec_close_msg(self) -> Option<CloseMsg> {
        if self.normal {
            match self.ok_kind {
                Some(ok) => Some(CloseMsg(Ok(ok))),
                None => None,
            }
        } else {
            match (self.err_kind, self.err_msg) {
                (Some(kind), Some(display)) => Some(CloseMsg(Err(CloseErr { kind, display }))),
                _ => None,
            }
        }
    }

    pub fn close_msg(self) -> (msg: Option<CloseMsg>)
        ensures
            msg == self.spec_close_msg(),
    {
        if self.normal {
            match self.ok_kind {
                Some(ok) => Some(CloseMsg::ok(ok)),
                None => None,
            }
        } else {
            match (self.err_kind, self.err_msg) {
                (Some(kind), Some(display)) => Some(CloseMsg::err(CloseErr { kind, display })),
                _ => None,
            }
        }
    }
}

/// A message is read back from the fields it was written down as.
pub proof fn lemma_fields_round_trip(msg: CloseMsg)
    ensures
        msg.spec_fields().spec_close_msg() == Some(msg),
{
}

/// A transport that can be told how its connection ended. What it hands
/// back is what has to be written down for that end; nothing where it was
/// told nothing.
pub trait CloseTransport {
    type Record;

    fn close_transport(&mut self, ids: &mut IdGen, now: Timestamp, msg: Option<CloseMsg>) -> (record:
        Option<Self::Record>)
        requires
            old(ids).wf(),
        ensures
            final(ids).wf(),
            msg is None ==> record is None && final(ids).issued() == old(ids).issued(),
            msg is Some ==> record is Some,
    ;
}

/// A transport that takes trace messages with a body of type `B`. What it
/// hands back is what has to be written down, one record for each message.
pub trait PushMsg<B> {
    type Record;

    type Error: Describe;

    /// What pushing the batch `msgs` comes to for this transport: how the
    /// transport and the source of identifiers stand afterwards, and what is
    /// handed back.
    spec fn bulk_pushed(
        before: &Self,
        ids_before: IdGen,
        msgs: Seq<TracingMsg<B>>,
        after: &Self,
        ids_after: IdGen,
        outcome: Result<Vec<Self::Record>, Self::Error>,
    ) -> bool;

    fn bulk_push(&mut self, ids: &mut IdGen, msgs: Vec<TracingMsg<B>>) -> (pushed: Result<
        Vec<Self::Record>,
        Self::Error,
    >)
        requires
            old(ids).wf(),
        ensures
            final(ids).wf(),
            Self::bulk_pushed(&*old(self), *old(ids), msgs@, &*final(self), *final(ids), pushed),
            pushed matches Ok(records) ==> records@.len() == msgs@.len(),
    ;

    /// Pushes one message: the batch that holds it and nothing else.
    fn push_msg(&mut self, ids: &mut IdGen, msg: TracingMsg<B>) -> (pushed: Result<
        Vec<Self::Record>,
        Self::Error,
    >)
        requires
            old(ids).wf(),
        ensures
            final(ids).wf(),
            Self::bulk_pushed(
                &*old(self),
                *old(ids),
                seq![msg],
                &*final(self),
                *final(ids),
                pushed,
            ),
            pushed matches Ok(records) ==> records@.len() == 1,
    {
        let mut batch = Vec::new();
        batch.push(msg);
        assert(batch@ == seq![msg]);
        self.bulk_push(ids, batch)
    }
}

} // verus!
