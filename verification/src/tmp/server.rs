//! The server that clients connect to: who is let in, as what, and how the
//! server and each of its connections come to an end.
//!
//! A request names its role by its path and carries its token and its wishes
//! in its query. It is answered before the connection is upgraded: a request
//! that is turned down gets a status and a reason, and no socket is left
//! half open.

use crate::stop::{Stop, StopError};
use crate::tracing_msg::query_map::{
    field_of, parsed_flag, query_fields, same_text, Field, QueryMap,
};
use crate::tracing_msg::{
    clone_text, ClientRole, CloseErr, CloseErrKind, CloseMsg, CloseOk, GraceType, MsgFormat, QueryHistory,
};
use indexmap::IndexMap;
use vstd::prelude::*;
use vstd::string::*;

verus! {

/// The path and the token of each role. A role without a token lets
/// everyone in.
#[derive(Debug, PartialEq, Eq)]
pub struct AuthArgs {
    pub pusher_path: String,
    pub pusher_token: Option<String>,
    pub observer_path: String,
    pub observer_token: Option<String>,
    pub director_path: String,
    pub director_token: Option<String>,
}

/// `AuthArgs` as plain values.
pub struct AuthArgsView {
    pub pusher_path: Seq<char>,
    pub pusher_token: Option<Seq<char>>,
    pub observer_path: Seq<char>,
    pub observer_token: Option<Seq<char>>,
    pub director_path: Seq<char>,
    pub director_token: Option<Seq<char>>,
}

pub open spec fn text_of(text: Option<String>) -> Option<Seq<char>> {
    match text {
        Some(t) => Some(t@),
        None => None,
    }
}

impl View for AuthArgs {
    type V = AuthArgsView;

    open spec fn view(&self) -> AuthArgsView {
        AuthArgsView {
            pusher_path: self.pusher_path@,
            pusher_token: text_of(self.pusher_token),
            observer_path: self.observer_path@,
            observer_token: text_of(self.observer_token),
            director_path: self.director_path@,
            director_token: text_of(self.director_token),
        }
    }
}

impl AuthArgsView {
    /// The role that a path stands for; the first that fits, in the order
    /// pusher, observer, director.
    pub open spec fn role_of(self, path: Seq<char>) -> Option<ClientRole> {
        if path == self.pusher_path {
            Some(ClientRole::Pusher)
        } else if path == self.observer_path {
            Some(ClientRole::Observer)
        } else if path == self.director_path {
            Some(ClientRole::Director)
        } else {
            None
        }
    }

    /// The token that a role has to show, if any.
    pub open spec fn token_of(self, role: ClientRole) -> Option<Seq<char>> {
        match role {
            ClientRole::Pusher => self.pusher_token,
            ClientRole::Observer => self.observer_token,
            ClientRole::Director => self.director_token,
        }
    }
}

impl Clone for AuthArgs {
    fn clone(&self) -> (copy: Self)
        ensures
            copy@ == self@,
    {
        AuthArgs {
            pusher_path: self.pusher_path.clone(),
            pusher_token: clone_text(&self.pusher_token),
            observer_path: self.observer_path.clone(),
            observer_token: clone_text(&self.observer_token),
            director_path: self.director_path.clone(),
            director_token: clone_text(&self.director_token),
        }
    }
}

/// The formats that the server speaks.
#[derive(Debug, Clone, Copy, PartialEq, Eq, Structural)]
pub struct FormatArgs {
    pub accept_json: bool,
    pub accept_bincode: bool,
    pub accept_msgpack: bool,
}

impl FormatArgs {
    pub open spec fn spec_no_msg_format(&self) -> bool {
        !self.accept_json && !self.accept_bincode && !self.accept_msgpack
    }

    pub open spec fn spec_allowed(&self, msg_format: MsgFormat) -> bool {
        match msg_format {
            MsgFormat::Json => self.accept_json,
            MsgFormat::Bincode => self.accept_bincode,
            MsgFormat::Msgpack => self.accept_msgpack,
        }
    }

    /// Whether the server speaks no format at all.
    #[verifier::when_used_as_spec(spec_no_msg_format)]
    pub fn no_msg_format(&self) -> (none: bool)
        ensures
            none == self.spec_no_msg_format(),
    {
        !self.accept_json && !self.accept_bincode && !self.accept_msgpack
    }

    /// Whether the server speaks the given format.
    #[verifier::when_used_as_spec(spec_allowed)]
    pub fn allowed(&self, msg_format: MsgFormat) -> (allowed: bool)
        ensures
            allowed == self.spec_allowed(msg_format),
    {
        match msg_format {
            MsgFormat::Json => self.accept_json,
            MsgFormat::Bincode => self.accept_bincode,
            MsgFormat::Msgpack => self.accept_msgpack,
        }
    }
}

/// The answer to a request that is turned down.
#[derive(Debug, PartialEq, Eq)]
pub struct ErrorResponse {
    pub status: u16,
    pub body: String,
}

/// The request lacks something, or cannot be read.
pub const BAD_REQUEST: u16 = 400;

/// The request asks for what it may not have.
pub const FORBIDDEN: u16 = 403;

/// The request names a path that stands for no role.
pub const NOT_FOUND: u16 = 404;

/// The query of a request could not be read; the text says why.
#[derive(Debug, PartialEq, Eq)]
pub struct QueryError {
    pub text: String,
}

/// What a request that is let in has settled.
#[derive(Debug, PartialEq, Eq)]
pub struct Authenticated {
    pub role: ClientRole,
    pub msg_format: MsgFormat,
    /// How much of the past the client wants; for a role that observes.
    pub query_history: Option<QueryHistory>,
    /// Whether the client wants client records resolved; for a role that
    /// observes.
    pub link_client: Option<bool>,
    /// The parameters of the query, where it had any that could be read.
    pub query_map: Option<IndexMap<String, String>>,
}

/// The query of a request as plain values: none, one that could not be
/// read, or its parameters.
pub enum QueryView {
    Missing,
    Broken(Seq<char>),
    Parsed(Map<Seq<char>, Seq<char>>),
}

pub open spec fn query_view(query: Option<Result<IndexMap<String, String>, QueryError>>) -> QueryView {
    match query {
        None => QueryView::Missing,
        Some(Err(err)) => QueryView::Broken(err.text@),
        Some(Ok(map)) => QueryView::Parsed(query_fields(map)),
    }
}

impl QueryView {
    /// The parameters, where there are any.
    pub open spec fn fields(self) -> Option<Map<Seq<char>, Seq<char>>> {
        match self {
            QueryView::Parsed(fields) => Some(fields),
            _ => None,
        }
    }

    /// What the query says of a parameter: nothing where it has no
    /// parameters at all.
    pub open spec fn field<T>(self, key: Seq<char>, parsed: spec_fn(Seq<char>) -> Option<T>) -> Field<
        T,
    > {
        match self {
            QueryView::Parsed(fields) => field_of(fields, key, parsed),
            _ => Field::Absent,
        }
    }

    pub open spec fn format_field(self) -> Field<MsgFormat> {
        self.field("format"@, |w: Seq<char>| MsgFormat::parsed(w))
    }

    pub open spec fn history_field(self) -> Field<QueryHistory> {
        self.field("history"@, |w: Seq<char>| QueryHistory::parsed(w))
    }

    pub open spec fn link_field(self) -> Field<bool> {
        self.field("link"@, |w: Seq<char>| parsed_flag(w))
    }
}

/// The answer to a request that is turned down, as plain values.
pub struct Rejection {
    pub status: u16,
    pub body: Seq<char>,
}

/// What a request that is let in has settled, as plain values.
pub struct Grant {
    pub role: ClientRole,
    pub msg_format: MsgFormat,
    pub query_history: Option<QueryHistory>,
    pub link_client: Option<bool>,
    pub query_fields: Option<Map<Seq<char>, Seq<char>>>,
}

pub open spec fn reject(status: u16, body: Seq<char>) -> Result<Grant, Rejection> {
    Err(Rejection { status, body })
}

/// Whether a query shows the token that is asked for, and the answer where
/// it does not: a request without a query, with one that cannot be read or
/// with one that names no token is a bad request; a token that differs is
/// forbidden.
pub open spec fn token_check(need: Option<Seq<char>>, query: QueryView) -> Option<Rejection> {
    match need {
        None => None,
        Some(token) => match query {
            QueryView::Missing => Some(Rejection { status: BAD_REQUEST, body: "need query!"@ }),
            QueryView::Broken(why) => Some(
                Rejection { status: BAD_REQUEST, body: "query err: "@ + why },
            ),
            QueryView::Parsed(fields) => if !fields.contains_key("token"@) {
                Some(Rejection { status: BAD_REQUEST, body: "need token!"@ })
            } else if fields["token"@] != token {
                Some(Rejection { status: FORBIDDEN, body: "wrong token!"@ })
            } else {
                None
            },
        },
    }
}

/// The answer to a request for `role` whose format is settled: the token
/// first, then, for a role that observes, what the query says of the past
/// and of resolving clients. A parameter that is absent takes its default, one
/// that stands for nothing is a bad request.
pub open spec fn query_decision(
    need: Option<Seq<char>>,
    role: ClientRole,
    msg_format: MsgFormat,
    query: QueryView,
) -> Result<Grant, Rejection> {
    match token_check(need, query) {
        Some(rejection) => Err(rejection),
        None => if !role.spec_can_observe() {
            Ok(
                Grant {
                    role,
                    msg_format,
                    query_history: None,
                    link_client: None,
                    query_fields: query.fields(),
                },
            )
        } else if query.history_field() is Invalid {
            reject(BAD_REQUEST, "invalid history!"@)
        } else if query.link_field() is Invalid {
            reject(BAD_REQUEST, "invalid link!"@)
        } else {
            Ok(
                Grant {
                    role,
                    msg_format,
                    query_history: Some(query.history_field().spec_or(QueryHistory::Full)),
                    link_client: Some(query.link_field().spec_or(true)),
                    query_fields: query.fields(),
                },
            )
        },
    }
}

/// The answer to a request. The format comes first: one that the query
/// names and that stands for nothing is a bad request, one that the server
/// does not speak is forbidden; a query that names none asks for JSON. Then
/// the path, which has to stand for a role. Then the rest, as
/// `query_decision` has it.
pub open spec fn auth_decision(
    auth: AuthArgsView,
    formats: FormatArgs,
    path: Seq<char>,
    query: QueryView,
) -> Result<Grant, Rejection> {
    if query.format_field() is Invalid {
        reject(BAD_REQUEST, "invalid format!"@)
    } else {
        let msg_format = query.format_field().spec_or(MsgFormat::Json);
        if !formats.spec_allowed(msg_format) {
            reject(FORBIDDEN, msg_format.label() + " not allowed!"@)
        } else {
            match auth.role_of(path) {
                None => reject(NOT_FOUND, "invalid path!"@),
                Some(role) => query_decision(auth.token_of(role), role, msg_format, query),
            }
        }
    }
}

/// The policy that a request settled, where it settled one, hangs together.
pub open spec fn settled_well(outcome: Result<Authenticated, ErrorResponse>) -> bool {
    outcome matches Ok(granted) ==> (granted.query_history matches Some(policy) ==> policy.wf())
}

/// What came out of a request, as plain values.
pub open spec fn outcome_view(outcome: Result<Authenticated, ErrorResponse>) -> Result<
    Grant,
    Rejection,
> {
    match outcome {
        Ok(granted) => Ok(
            Grant {
                role: granted.role,
                msg_format: granted.msg_format,
                query_history: granted.query_history,
                link_client: granted.link_client,
                query_fields: match granted.query_map {
                    Some(map) => Some(query_fields(map)),
                    None => None,
                },
            },
        ),
        Err(response) => Err(Rejection { status: response.status, body: response.body@ }),
    }
}

/// An answer with the given status and reason.
pub fn err_resp(text: &str, status: u16) -> (response: ErrorResponse)
    ensures
        response.status == status,
        response.body@ == text@,
{
    ErrorResponse { status, body: String::from_str(text) }
}

fn check_token(need: Option<String>, query: &Option<Result<IndexMap<String, String>, QueryError>>) -> (rejection:
    Option<ErrorResponse>)
    ensures
        match rejection {
            Some(response) => token_check(text_of(need), query_view(*query)) == Some(
                Rejection { status: response.status, body: response.body@ },
            ),
            None => token_check(text_of(need), query_view(*query)) is None,
        },
{
    match need {
        None => None,
        Some(token) => match query {
            None => Some(err_resp("need query!", BAD_REQUEST)),
            Some(Err(err)) => {
                let body = String::from_str("query err: ").concat(err.text.as_str());
                Some(ErrorResponse { status: BAD_REQUEST, body })
            },
            Some(Ok(map)) => match map.get_token() {
                None => Some(err_resp("need token!", BAD_REQUEST)),
                Some(shown) => if shown != token {
                    Some(err_resp("wrong token!", FORBIDDEN))
                } else {
                    None
                },
            },
        },
    }
}

fn history_of(query: &Option<Result<IndexMap<String, String>, QueryError>>) -> (field: Field<
    QueryHistory,
>)
    ensures
        field == query_view(*query).history_field(),
        field matches Field::Value(policy) ==> policy.wf(),
{
    match query {
        Some(Ok(map)) => map.get_query_history(),
        _ => Field::Absent,
    }
}

fn link_of(query: &Option<Result<IndexMap<String, String>, QueryError>>) -> (field: Field<bool>)
    ensures
        field == query_view(*query).link_field(),
{
    match query {
        Some(Ok(map)) => map.get_link(),
        _ => Field::Absent,
    }
}

fn format_of(query: &Option<Result<IndexMap<String, String>, QueryError>>) -> (field: Field<
    MsgFormat,
>)
    ensures
        field == query_view(*query).format_field(),
{
    match query {
        Some(Ok(map)) => map.get_msg_format(),
        _ => Field::Absent,
    }
}

fn into_map(query: Option<Result<IndexMap<String, String>, QueryError>>) -> (map: Option<
    IndexMap<String, String>,
>)
    ensures
        match map {
            Some(m) => query_view(query).fields() == Some(query_fields(m)),
            None => query_view(query).fields() is None,
        },
{
    match query {
        Some(Ok(map)) => Some(map),
        _ => None,
    }
}

/// Answers a request for `role` whose format is settled.
pub fn query_auth(
    query: Option<Result<IndexMap<String, String>, QueryError>>,
    token_need: Option<String>,
    role: ClientRole,
    msg_format: MsgFormat,
) -> (outcome: Result<Authenticated, ErrorResponse>)
    ensures
        outcome_view(outcome) == query_decision(
            text_of(token_need),
            role,
            msg_format,
            query_view(query),
        ),
        settled_well(outcome),
{
    match check_token(token_need, &query) {
        Some(response) => {
            return Err(response);
        },
        None => {},
    }
    if !role.can_observe() {
        return Ok(
            Authenticated {
                role,
                msg_format,
                query_history: None,
                link_client: None,
                query_map: into_map(query),
            },
        );
    }
    let history = match history_of(&query) {
        Field::Invalid => {
            return Err(err_resp("invalid history!", BAD_REQUEST));
        },
        field => field.or(QueryHistory::Full),
    };
    let link = match link_of(&query) {
        Field::Invalid => {
            return Err(err_resp("invalid link!", BAD_REQUEST));
        },
        field => field.or(true),
    };
    Ok(
        Authenticated {
            role,
            msg_format,
            query_history: Some(history),
            link_client: Some(link),
            query_map: into_map(query),
        },
    )
}

/// Answers a request with the given path, whose query has been read.
pub fn auth_request(
    auth: &AuthArgs,
    formats: FormatArgs,
    path: &str,
    query: Option<Result<IndexMap<String, String>, QueryError>>,
) -> (outcome: Result<Authenticated, ErrorResponse>)
    ensures
        outcome_view(outcome) == auth_decision(auth@, formats, path@, query_view(query)),
        settled_well(outcome),
{
    let msg_format = match format_of(&query) {
        Field::Invalid => {
            return Err(err_resp("invalid format!", BAD_REQUEST));
        },
        field => field.or(MsgFormat::Json),
    };
    if !formats.allowed(msg_format) {
        let body = String::from_str(msg_format.name()).concat(" not allowed!");
        return Err(ErrorResponse { status: FORBIDDEN, body });
    }
    if same_text(path, auth.pusher_path.as_str()) {
        return query_auth(query, clone_text(&auth.pusher_token), ClientRole::Pusher, msg_format);
    }
    if same_text(path, auth.observer_path.as_str()) {
        return query_auth(
            query,
            clone_text(&auth.observer_token),
            ClientRole::Observer,
            msg_format,
        );
    }
    if same_text(path, auth.director_path.as_str()) {
        return query_auth(
            query,
            clone_text(&auth.director_token),
            ClientRole::Director,
            msg_format,
        );
    }
    Err(err_resp("invalid path!", NOT_FOUND))
}

/// `serde_qs::Error`, as a value that is carried along.
#[verifier::external_type_specification]
#[verifier::external_body]
pub struct ExQsError(serde_qs::Error);

/// What `serde_qs` reads out of a query string as a map from text to text:
/// the value under each key, or nothing where it cannot read the string.
pub uninterp spec fn qs_parsed(query: Seq<char>) -> Option<Map<Seq<char>, Seq<char>>>;

/// `serde_qs::from_str`, for a map from text to text. What it returns
/// depends on the query string alone.
#[verifier::external_body]
fn parse_query(query: &str) -> (parsed: Result<IndexMap<String, String>, serde_qs::Error>)
    ensures
        match parsed {
            Ok(map) => qs_parsed(query@) == Some(query_fields(map)),
            Err(_) => qs_parsed(query@) is None,
        },
{
    serde_qs::from_str(query)
}

/// The words in which an error of `serde_qs` describes itself.
#[verifier::external_body]
fn error_text(err: &serde_qs::Error) -> (text: String) {
    err.to_string()
}

/// Reads the query of a request, where it has one.
pub fn read_query(query: Option<&str>) -> (read: Option<Result<IndexMap<String, String>, QueryError>>)
    ensures
        match query {
            None => read is None,
            Some(q) => match qs_parsed(q@) {
                Some(fields) => query_view(read) == QueryView::Parsed(fields),
                None => query_view(read) is Broken,
            },
        },
{
    match query {
        None => None,
        Some(q) => match parse_query(q) {
            Ok(map) => Some(Ok(map)),
            Err(err) => Some(Err(QueryError { text: error_text(&err) })),
        },
    }
}

/// The answer to a request whose query could not be read, for the reason
/// `why`.
pub open spec fn broken_decision(
    auth: AuthArgsView,
    formats: FormatArgs,
    path: Seq<char>,
    why: Seq<char>,
) -> Result<Grant, Rejection> {
    auth_decision(auth, formats, path, QueryView::Broken(why))
}

/// Answers a request with the given path and query.
pub fn authenticate(auth: &AuthArgs, formats: FormatArgs, path: &str, query: Option<&str>) -> (outcome:
    Result<Authenticated, ErrorResponse>)
    ensures
        settled_well(outcome),
        match query {
            None => outcome_view(outcome) == auth_decision(
                auth@,
                formats,
                path@,
                QueryView::Missing,
            ),
            Some(q) => match qs_parsed(q@) {
                Some(fields) => outcome_view(outcome) == auth_decision(
                    auth@,
                    formats,
                    path@,
                    QueryView::Parsed(fields),
                ),
                None => exists|why: Seq<char>|
                    outcome_view(outcome) == #[trigger] broken_decision(auth@, formats, path@, why),
            },
        },
{
    let read = read_query(query);
    let ghost view = query_view(read);
    let outcome = auth_request(auth, formats, path, read);
    proof {
        if let QueryView::Broken(why) = view {
            assert(outcome_view(outcome) == broken_decision(auth@, formats, path@, why));
        }
    }
    outcome
}

/// A wrong token is forbidden: where the format is in order and the path
/// stands for a role that has to show the token `need`, a query that shows
/// another one is turned down with status 403.
pub proof fn lemma_wrong_token_is_forbidden(
    auth: AuthArgsView,
    formats: FormatArgs,
    path: Seq<char>,
    fields: Map<Seq<char>, Seq<char>>,
    role: ClientRole,
    need: Seq<char>,
)
    requires
        !(QueryView::Parsed(fields).format_field() is Invalid),
        formats.spec_allowed(QueryView::Parsed(fields).format_field().spec_or(MsgFormat::Json)),
        auth.role_of(path) == Some(role),
        auth.token_of(role) == Some(need),
        fields.contains_key("token"@),
        fields["token"@] != need,
    ensures
        auth_decision(auth, formats, path, QueryView::Parsed(fields)) matches Err(rejection)
            && rejection.status == 403,
{
}

/// Where no token is asked for none has to be shown: a request without a
/// query is let in on the path of a role without a token, as long as the
/// server speaks JSON.
pub proof fn lemma_no_token_no_query(
    auth: AuthArgsView,
    formats: FormatArgs,
    path: Seq<char>,
    role: ClientRole,
)
    requires
        formats.accept_json,
        auth.role_of(path) == Some(role),
        auth.token_of(role) is None,
    ensures
        auth_decision(auth, formats, path, QueryView::Missing) == Ok::<Grant, Rejection>(
            Grant {
                role,
                msg_format: MsgFormat::Json,
                query_history: if role.spec_can_observe() {
                    Some(QueryHistory::Full)
                } else {
                    None
                },
                link_client: if role.spec_can_observe() {
                    Some(true)
                } else {
                    None
                },
                query_fields: None,
            },
        ),
{
}

/// Where no token is asked for, a query that shows none, or any, is let in
/// as long as what it says of format, history and link is in order.
pub proof fn lemma_no_token_needed(
    auth: AuthArgsView,
    formats: FormatArgs,
    path: Seq<char>,
    query: QueryView,
    role: ClientRole,
)
    requires
        !(query.format_field() is Invalid),
        formats.spec_allowed(query.format_field().spec_or(MsgFormat::Json)),
        auth.role_of(path) == Some(role),
        auth.token_of(role) is None,
        role.spec_can_observe() ==> !(query.history_field() is Invalid) && !(query.link_field()
            is Invalid),
    ensures
        auth_decision(auth, formats, path, query) is Ok,
{
}

/// A format that the server does not speak is forbidden, whatever the path
/// and the token.
pub proof fn lemma_disabled_format_is_forbidden(
    auth: AuthArgsView,
    formats: FormatArgs,
    path: Seq<char>,
    fields: Map<Seq<char>, Seq<char>>,
    msg_format: MsgFormat,
)
    requires
        fields.contains_key("format"@),
        MsgFormat::parsed(fields["format"@]) == Some(msg_format),
        !formats.spec_allowed(msg_format),
    ensures
        auth_decision(auth, formats, path, QueryView::Parsed(fields)) == reject(
            403,
            msg_format.label() + " not allowed!"@,
        ),
{
}

/// A request is let in as the role of its path, never as another, and only
/// with a format that the server speaks.
pub proof fn lemma_grant_is_sound(
    auth: AuthArgsView,
    formats: FormatArgs,
    path: Seq<char>,
    query: QueryView,
)
    ensures
        auth_decision(auth, formats, path, query) matches Ok(grant) ==> {
            &&& auth.role_of(path) == Some(grant.role)
            &&& formats.spec_allowed(grant.msg_format)
            &&& grant.query_history is Some <==> grant.role.spec_can_observe()
            &&& auth.token_of(grant.role) matches Some(need) ==> query matches QueryView::Parsed(
                fields,
            ) && fields.contains_key("token"@) && fields["token"@] == need
        },
{
}

/// Why a server could not be started.
#[derive(Debug, PartialEq, Eq)]
pub enum StartError {
    /// The server speaks no format at all.
    NoMsgFormat,
    /// The address could not be bound; the text is the report.
    Io(String),
}

impl StartError {
    /// The error in words.
    pub open spec fn text(self) -> Seq<char> {
        match self {
            StartError::NoMsgFormat => "no message format available"@,
            StartError::Io(report) => "io error: `"@ + report@ + "`"@,
        }
    }

    pub fn message(&self) -> (words: String)
        ensures
            words@ == self.text(),
    {
        match self {
            StartError::NoMsgFormat => String::from_str("no message format available"),
            StartError::Io(report) => String::from_str("io error: `").concat(
                report.as_str(),
            ).concat("`"),
        }
    }
}

/// The options of a server. Times are in milliseconds, addresses are the
/// texts of socket addresses.
#[derive(Debug, PartialEq, Eq)]
pub struct ServerBuilder {
    pub stop: Stop,
    pub auth_args: AuthArgs,
    pub format_args: FormatArgs,
    pub fuck_off_on_damage: bool,
    pub fuck_off_on_observer_push: bool,
    pub ctrlc_shutdown: bool,
    pub ws_handshake_timeout: u64,
    pub tmp_hello_timeout: u64,
    pub bind_addrs: Vec<String>,
}

impl ServerBuilder {
    pub fn pusher_path(self, path: &str) -> (builder: Self)
        ensures
            builder == (ServerBuilder {
                auth_args: AuthArgs { pusher_path: builder.auth_args.pusher_path, ..self.auth_args },
                ..self
            }),
            builder.auth_args.pusher_path@ == path@,
    {
        Self { auth_args: AuthArgs { pusher_path: String::from_str(path), ..self.auth_args }, ..self }
    }

    pub fn pusher_token(self, token: &str) -> (builder: Self)
        ensures
            builder == (ServerBuilder {
                auth_args: AuthArgs {
                    pusher_token: builder.auth_args.pusher_token,
                    ..self.auth_args
                },
                ..self
            }),
            text_of(builder.auth_args.pusher_token) == Some(token@),
    {
        Self {
            auth_args: AuthArgs { pusher_token: Some(String::from_str(token)), ..self.auth_args },
            ..self
        }
    }

    pub fn observer_path(self, path: &str) -> (builder: Self)
        ensures
            builder == (ServerBuilder {
                auth_args: AuthArgs {
                    observer_path: builder.auth_args.observer_path,
                    ..self.auth_args
                },
                ..self
            }),
            builder.auth_args.observer_path@ == path@,
    {
        Self {
            auth_args: AuthArgs { observer_path: String::from_str(path), ..self.auth_args },
            ..self
        }
    }

    pub fn observer_token(self, token: &str) -> (builder: Self)
        ensures
            builder == (ServerBuilder {
                auth_args: AuthArgs {
                    observer_token: builder.auth_args.observer_token,
                    ..self.auth_args
                },
                ..self
            }),
            text_of(builder.auth_args.observer_token) == Some(token@),
    {
        Self {
            auth_args: AuthArgs { observer_token: Some(String::from_str(token)), ..self.auth_args },
            ..self
        }
    }

    pub fn director_path(self, path: &str) -> (builder: Self)
        ensures
            builder == (ServerBuilder {
                auth_args: AuthArgs {
                    director_path: builder.auth_args.director_path,
                    ..self.auth_args
                },
                ..self
            }),
            builder.auth_args.director_path@ == path@,
    {
        Self {
            auth_args: AuthArgs { director_path: String::from_str(path), ..self.auth_args },
            ..self
        }
    }

    pub fn director_token(self, token: &str) -> (builder: Self)
        ensures
            builder == (ServerBuilder {
                auth_args: AuthArgs {
                    director_token: builder.auth_args.director_token,
                    ..self.auth_args
                },
                ..self
            }),
            text_of(builder.auth_args.director_token) == Some(token@),
    {
        Self {
            auth_args: AuthArgs { director_token: Some(String::from_str(token)), ..self.auth_args },
            ..self
        }
    }

    /// Gives every role that has no token yet the given one.
    pub fn default_token(self, token: &str) -> (builder: Self)
        ensures
            builder == (ServerBuilder {
                auth_args: AuthArgs {
                    pusher_token: builder.auth_args.pusher_token,
                    observer_token: builder.auth_args.observer_token,
                    director_token: builder.auth_args.director_token,
                    ..self.auth_args
                },
                ..self
            }),
            text_of(builder.auth_args.pusher_token) == Some(
                match self.auth_args.pusher_token {
                    Some(own) => own@,
                    None => token@,
                },
            ),
            text_of(builder.auth_args.observer_token) == Some(
                match self.auth_args.observer_token {
                    Some(own) => own@,
                    None => token@,
                },
            ),
            text_of(builder.auth_args.director_token) == Some(
                match self.auth_args.director_token {
                    Some(own) => own@,
                    None => token@,
                },
            ),
    {
        let auth = self.auth_args;
        let pusher_token = match auth.pusher_token {
            Some(own) => Some(own),
            None => Some(String::from_str(token)),
        };
        let observer_token = match auth.observer_token {
            Some(own) => Some(own),
            None => Some(String::from_str(token)),
        };
        let director_token = match auth.director_token {
            Some(own) => Some(own),
            None => Some(String::from_str(token)),
        };
        Self {
            stop: self.stop,
            auth_args: AuthArgs {
                pusher_path: auth.pusher_path,
                pusher_token,
                observer_path: auth.observer_path,
                observer_token,
                director_path: auth.director_path,
                director_token,
            },
            format_args: self.format_args,
            fuck_off_on_damage: self.fuck_off_on_damage,
            fuck_off_on_observer_push: self.fuck_off_on_observer_push,
            ctrlc_shutdown: self.ctrlc_shutdown,
            ws_handshake_timeout: self.ws_handshake_timeout,
            tmp_hello_timeout: self.tmp_hello_timeout,
            bind_addrs: self.bind_addrs,
        }
    }

    pub fn disable_json(self) -> (builder: Self)
        ensures
            builder == (ServerBuilder {
                format_args: FormatArgs { accept_json: false, ..self.format_args },
                ..self
            }),
    {
        Self { format_args: FormatArgs { accept_json: false, ..self.format_args }, ..self }
    }

    pub fn disable_bincode(self) -> (builder: Self)
        ensures
            builder == (ServerBuilder {
                format_args: FormatArgs { accept_bincode: false, ..self.format_args },
                ..self
            }),
    {
        Self { format_args: FormatArgs { accept_bincode: false, ..self.format_args }, ..self }
    }

    pub fn disable_msgpack(self) -> (builder: Self)
        ensures
            builder == (ServerBuilder {
                format_args: FormatArgs { accept_msgpack: false, ..self.format_args },
                ..self
            }),
    {
        Self { format_args: FormatArgs { accept_msgpack: false, ..self.format_args }, ..self }
    }

    /// Makes a message that cannot be read end its connection.
    pub fn fuck_off_on_damage(self) -> (builder: Self)
        ensures
            builder == (ServerBuilder { fuck_off_on_damage: true, ..self }),
    {
        Self { fuck_off_on_damage: true, ..self }
    }

    /// Makes a push by an observer end its connection.
    pub fn fuck_off_on_observer_push(self) -> (builder: Self)
        ensures
            builder == (ServerBuilder { fuck_off_on_observer_push: true, ..self }),
    {
        Self { fuck_off_on_observer_push: true, ..self }
    }

    pub fn disable_ctrlc_shutdown(self) -> (builder: Self)
        ensures
            builder == (ServerBuilder { ctrlc_shutdown: false, ..self }),
    {
        Self { ctrlc_shutdown: false, ..self }
    }

    /// Sets the time a request has to get through the upgrade.
    pub fn ws_handshake_timeout(self, timeout: u64) -> (builder: Self)
        ensures
            builder == (ServerBuilder { ws_handshake_timeout: timeout, ..self }),
    {
        Self { ws_handshake_timeout: timeout, ..self }
    }

    /// Sets the time a client has to say hello after the upgrade.
    pub fn tmp_hello_timeout(self, timeout: u64) -> (builder: Self)
        ensures
            builder == (ServerBuilder { tmp_hello_timeout: timeout, ..self }),
    {
        Self { tmp_hello_timeout: timeout, ..self }
    }

    /// Sets the addresses to listen on.
    pub fn bind_addrs(self, addrs: Vec<String>) -> (builder: Self)
        ensures
            builder == (ServerBuilder { bind_addrs: addrs, ..self }),
    {
        Self { bind_addrs: addrs, ..self }
    }

    /// Whether a push that failed with `err` ends the connection. A push
    /// by a client that may not push ends it only where the server was made
    /// to; any other failure ends it.
    pub fn ends_on_push_error(&self, err: &StopError) -> (ends: bool)
        ensures
            ends == (!(*err is ObserverCannotPush) || self.fuck_off_on_observer_push),
    {
        match err {
            StopError::ObserverCannotPush => self.fuck_off_on_observer_push,
            _ => true,
        }
    }

    /// Whether a message that cannot be read ends the connection: only
    /// where the server was made to.
    pub fn ends_on_damage(&self) -> (ends: bool)
        ensures
            ends == self.fuck_off_on_damage,
    {
        self.fuck_off_on_damage
    }

    /// Answers a request with the given path and query as this server does.
    pub fn authenticate(&self, path: &str, query: Option<&str>) -> (outcome: Result<
        Authenticated,
        ErrorResponse,
    >)
        ensures
            settled_well(outcome),
            match query {
                None => outcome_view(outcome) == auth_decision(
                    self.auth_args@,
                    self.format_args,
                    path@,
                    QueryView::Missing,
                ),
                Some(q) => match qs_parsed(q@) {
                    Some(fields) => outcome_view(outcome) == auth_decision(
                        self.auth_args@,
                        self.format_args,
                        path@,
                        QueryView::Parsed(fields),
                    ),
                    None => exists|why: Seq<char>|
                        outcome_view(outcome) == #[trigger] broken_decision(
                            self.auth_args@,
                            self.format_args,
                            path@,
                            why,
                        ),
                },
            },
    {
        authenticate(&self.auth_args, self.format_args, path, query)
    }

    /// The loop of a server with these options, before it has accepted
    /// anything. A server that speaks no format cannot be started.
    pub fn start(self) -> (started: Result<(ServerBuilder, AcceptLoop), StartError>)
        ensures
            self.format_args.spec_no_msg_format() ==> started == Err::<
                (ServerBuilder, AcceptLoop),
                StartError,
            >(StartError::NoMsgFormat),
            !self.format_args.spec_no_msg_format() ==> started == Ok::<
                (ServerBuilder, AcceptLoop),
                StartError,
            >((self, AcceptLoop::spec_new(self.ctrlc_shutdown))),
    {
        if self.format_args.no_msg_format() {
            return Err(StartError::NoMsgFormat);
        }
        let accept = AcceptLoop::new(self.ctrlc_shutdown);
        Ok((self, accept))
    }
}

/// Something that can be served with the options that are usual.
pub trait BuildServerDefault {
    fn build_server_default(&self) -> (builder: ServerBuilder)
        ensures
            builder.auth_args@ == (AuthArgsView {
                pusher_path: "/pusher"@,
                pusher_token: None,
                observer_path: "/observer"@,
                observer_token: None,
                director_path: "/director"@,
                director_token: None,
            }),
            builder.format_args == (FormatArgs {
                accept_json: true,
                accept_bincode: true,
                accept_msgpack: true,
            }),
            !builder.fuck_off_on_damage,
            !builder.fuck_off_on_observer_push,
            builder.ctrlc_shutdown,
            builder.ws_handshake_timeout == 1500,
            builder.tmp_hello_timeout == 3000,
            builder.bind_addrs@.len() == 1,
            builder.bind_addrs@[0]@ == "127.0.0.1:8192"@,
    ;
}

impl BuildServerDefault for Stop {
    fn build_server_default(&self) -> (builder: ServerBuilder)
        ensures
            builder.stop@ == self@,
    {
        let mut bind_addrs = Vec::new();
        bind_addrs.push(String::from_str("127.0.0.1:8192"));
        ServerBuilder {
            stop: self.clone(),
            auth_args: AuthArgs {
                pusher_path: String::from_str("/pusher"),
                pusher_token: None,
                observer_path: String::from_str("/observer"),
                observer_token: None,
                director_path: String::from_str("/director"),
                director_token: None,
            },
            format_args: FormatArgs {
                accept_json: true,
                accept_bincode: true,
                accept_msgpack: true,
            },
            fuck_off_on_damage: false,
            fuck_off_on_observer_push: false,
            ctrlc_shutdown: true,
            ws_handshake_timeout: 1500,
            tmp_hello_timeout: 3000,
            bind_addrs,
        }
    }
}

/// Where the loop of a server stands.
#[derive(Debug, PartialEq, Eq)]
pub enum Phase {
    /// It takes in connections.
    Accepting,
    /// It takes in no more and waits for its connections to finish; then it
    /// ends with this result.
    Draining(Result<GraceType, String>),
    /// It has ended.
    Done,
}

/// Something that happened to the loop of a server.
#[derive(Debug, PartialEq, Eq)]
pub enum AcceptEvent {
    /// The wait for an interrupt from outside ended: with the interrupt, or
    /// with an error, whose report the text is.
    Interrupted(Result<(), String>),
    /// The owner of the server asked it to stop.
    ShutdownRequested,
    /// A connection came in.
    Accepted,
    /// Taking in a connection failed; the text is the report.
    AcceptFailed(String),
    /// The task of a connection finished.
    TaskFinished,
}

/// What the caller of the loop is to do.
#[derive(Debug, PartialEq, Eq)]
pub enum AcceptAction {
    /// Nothing; go on as before.
    Wait,
    /// Give the connection that came in a task of its own, and go on.
    Spawn,
    /// Close the connection that came in: it cannot be served.
    Refuse,
    /// Take in no more connections, tell the tasks that have not got
    /// through their handshake to give up, and report each task that
    /// finishes.
    Drain,
    /// End, with this result.
    Resolve(Result<GraceType, String>),
}

/// The loop of a server: whether it takes in connections, and how many of
/// those it took in are still served.
#[derive(Debug, PartialEq, Eq)]
pub struct AcceptLoop {
    pub ctrlc_shutdown: bool,
    pub phase: Phase,
    pub in_flight: usize,
}

impl AcceptLoop {
    pub open spec fn spec_new(ctrlc_shutdown: bool) -> AcceptLoop {
        AcceptLoop { ctrlc_shutdown, phase: Phase::Accepting, in_flight: 0 }
    }

    /// The loop once it has been told to stop with the given result: it ends
    /// at once where no connection is served, else it waits for them.
    pub open spec fn stopping(self, outcome: Result<GraceType, String>) -> (AcceptLoop, AcceptAction) {
        if self.in_flight == 0 {
            (AcceptLoop { phase: Phase::Done, ..self }, AcceptAction::Resolve(outcome))
        } else {
            (AcceptLoop { phase: Phase::Draining(outcome), ..self }, AcceptAction::Drain)
        }
    }

    /// The loop after `event`, and what is to be done.
    pub open spec fn spec_step(self, event: AcceptEvent) -> (AcceptLoop, AcceptAction) {
        match self.phase {
            Phase::Done => (self, AcceptAction::Wait),
            Phase::Accepting => match event {
                AcceptEvent::Interrupted(res) => if self.ctrlc_shutdown {
                    self.stopping(
                        match res {
                            Ok(_) => Ok(GraceType::CtrlC),
                            Err(report) => Err(report),
                        },
                    )
                } else {
                    (self, AcceptAction::Wait)
                },
                AcceptEvent::ShutdownRequested => self.stopping(Ok(GraceType::Explicit)),
                AcceptEvent::Accepted => if self.in_flight < usize::MAX {
                    (
                        AcceptLoop { in_flight: (self.in_flight + 1) as usize, ..self },
                        AcceptAction::Spawn,
                    )
                } else {
                    (self, AcceptAction::Refuse)
                },
                AcceptEvent::AcceptFailed(report) => (
                    AcceptLoop { phase: Phase::Done, ..self },
                    AcceptAction::Resolve(Err(report)),
                ),
                AcceptEvent::TaskFinished => if self.in_flight > 0 {
                    (
                        AcceptLoop { in_flight: (self.in_flight - 1) as usize, ..self },
                        AcceptAction::Wait,
                    )
                } else {
                    (self, AcceptAction::Wait)
                },
            },
            Phase::Draining(outcome) => match event {
                AcceptEvent::TaskFinished => if self.in_flight <= 1 {
                    (
                        AcceptLoop { phase: Phase::Done, in_flight: 0, ..self },
                        AcceptAction::Resolve(outcome),
                    )
                } else {
                    (
                        AcceptLoop { in_flight: (self.in_flight - 1) as usize, ..self },
                        AcceptAction::Wait,
                    )
                },
                AcceptEvent::Accepted => (self, AcceptAction::Refuse),
                _ => (self, AcceptAction::Wait),
            },
        }
    }

    /// Whether the loop takes in connections.
    pub open spec fn accepting(self) -> bool {
        self.phase is Accepting
    }

    /// A loop that takes in connections and serves none yet.
    pub fn new(ctrlc_shutdown: bool) -> (made: AcceptLoop)
        ensures
            made == AcceptLoop::spec_new(ctrlc_shutdown),
    {
        AcceptLoop { ctrlc_shutdown, phase: Phase::Accepting, in_flight: 0 }
    }

    fn stop_with(self, outcome: Result<GraceType, String>) -> (next: (AcceptLoop, AcceptAction))
        ensures
            next == self.stopping(outcome),
    {
        if self.in_flight == 0 {
            (AcceptLoop { phase: Phase::Done, ..self }, AcceptAction::Resolve(outcome))
        } else {
            (AcceptLoop { phase: Phase::Draining(outcome), ..self }, AcceptAction::Drain)
        }
    }

    /// Takes in what happened and says what is to be done.
    pub fn step(self, event: AcceptEvent) -> (next: (AcceptLoop, AcceptAction))
        ensures
            next == self.spec_step(event),
    {
        match self.phase {
            Phase::Done => (AcceptLoop { phase: Phase::Done, ..self }, AcceptAction::Wait),
            Phase::Accepting => match event {
                AcceptEvent::Interrupted(res) => if self.ctrlc_shutdown {
                    let outcome = match res {
                        Ok(_) => Ok(GraceType::CtrlC),
                        Err(report) => Err(report),
                    };
                    AcceptLoop { phase: Phase::Accepting, ..self }.stop_with(outcome)
                } else {
                    (AcceptLoop { phase: Phase::Accepting, ..self }, AcceptAction::Wait)
                },
                AcceptEvent::ShutdownRequested => AcceptLoop {
                    phase: Phase::Accepting,
                    ..self
                }.stop_with(Ok(GraceType::Explicit)),
                AcceptEvent::Accepted => if self.in_flight < usize::MAX {
                    (
                        AcceptLoop { phase: Phase::Accepting, in_flight: self.in_flight + 1, ..self },
                        AcceptAction::Spawn,
                    )
                } else {
                    (AcceptLoop { phase: Phase::Accepting, ..self }, AcceptAction::Refuse)
                },
                AcceptEvent::AcceptFailed(report) => (
                    AcceptLoop { phase: Phase::Done, ..self },
                    AcceptAction::Resolve(Err(report)),
                ),
                AcceptEvent::TaskFinished => if self.in_flight > 0 {
                    (
                        AcceptLoop { phase: Phase::Accepting, in_flight: self.in_flight - 1, ..self },
                        AcceptAction::Wait,
                    )
                } else {
                    (AcceptLoop { phase: Phase::Accepting, ..self }, AcceptAction::Wait)
                },
            },
            Phase::Draining(outcome) => match event {
                AcceptEvent::TaskFinished => if self.in_flight <= 1 {
                    (
                        AcceptLoop { phase: Phase::Done, in_flight: 0, ..self },
                        AcceptAction::Resolve(outcome),
                    )
                } else {
                    (
                        AcceptLoop {
                            phase: Phase::Draining(outcome),
                            in_flight: self.in_flight - 1,
                            ..self
                        },
                        AcceptAction::Wait,
                    )
                },
                AcceptEvent::Accepted => (
                    AcceptLoop { phase: Phase::Draining(outcome), ..self },
                    AcceptAction::Refuse,
                ),
                _ => (AcceptLoop { phase: Phase::Draining(outcome), ..self }, AcceptAction::Wait),
            },
        }
    }
}

/// Whether an event asks the loop to stop: a request of its owner, or the
/// end of the wait for an interrupt where the loop listens for one.
pub open spec fn asks_to_stop(state: AcceptLoop, event: AcceptEvent) -> bool {
    event is ShutdownRequested || (event is Interrupted && state.ctrlc_shutdown)
}

/// Asking a server to stop stops it from taking in connections at once.
pub proof fn lemma_shutdown_stops_accepting(state: AcceptLoop, event: AcceptEvent)
    requires
        asks_to_stop(state, event),
    ensures
        !state.spec_step(event).0.accepting(),
        !(state.spec_step(event).1 is Spawn),
{
}

/// A server that takes in no connections never takes one in again.
pub proof fn lemma_no_accept_after_stop(state: AcceptLoop, event: AcceptEvent)
    requires
        !state.accepting(),
    ensures
        !state.spec_step(event).0.accepting(),
        !(state.spec_step(event).1 is Spawn),
        state.spec_step(event).0.in_flight <= state.in_flight,
{
}

/// A server that was asked to stop ends only once none of the connections
/// it took in is served any more, and then with the result it was stopped
/// with.
pub proof fn lemma_resolves_after_drain(state: AcceptLoop, event: AcceptEvent)
    ensures
        state.spec_step(event).1 matches AcceptAction::Resolve(outcome) ==> {
            &&& state.spec_step(event).0.phase is Done
            &&& event is AcceptFailed || state.spec_step(event).0.in_flight == 0
            &&& state.phase matches Phase::Draining(pending) ==> outcome == pending
        },
        state.phase is Draining && state.in_flight > 1 ==> !(state.spec_step(event).1 is Resolve),
{
}

/// How a connection came to its end.
#[derive(Debug, PartialEq, Eq)]
pub enum End {
    /// The client took too long to get through the upgrade or to say hello.
    Timeout,
    /// The request was turned down, with this status.
    Rejected(u16),
    /// The server was stopped before the client had got in.
    Abandoned(GraceType),
    /// The client could not be registered; the text says why.
    HelloFailed(String),
    /// The socket failed; the text is the report.
    SocketFailed(String),
    /// The client closed the connection.
    PeerClosed,
    /// The server was stopped.
    Shutdown(GraceType),
}

impl End {
    /// Whether the connection ended in good order.
    pub open spec fn is_ok(self) -> bool {
        self is PeerClosed || self is Shutdown
    }

    /// The end as it is written down for a client that had got in.
    pub fn close_msg(&self) -> (msg: CloseMsg)
        ensures
            match *self {
                End::PeerClosed => msg.0 == Ok::<CloseOk, CloseErr>(CloseOk::Other),
                End::Shutdown(grace) => msg.0 == Ok::<CloseOk, CloseErr>(CloseOk::Grace(grace)),
                End::Abandoned(grace) => msg.0 == Ok::<CloseOk, CloseErr>(CloseOk::Grace(grace)),
                End::Timeout => msg.0 matches Err(err) && err.kind == CloseErrKind::Other
                    && err.display@ == "timeout"@,
                End::Rejected(_) => msg.0 matches Err(err) && err.kind == CloseErrKind::Other
                    && err.display@ == "rejected"@,
                End::HelloFailed(why) => msg.0 matches Err(err) && err.kind == CloseErrKind::Other
                    && err.display@ == why@,
                End::SocketFailed(why) => msg.0 matches Err(err) && err.kind == CloseErrKind::Io
                    && err.display@ == why@,
            },
    {
        match self {
            End::PeerClosed => CloseMsg::ok(CloseOk::Other),
            End::Shutdown(grace) => CloseMsg::ok(CloseOk::Grace(*grace)),
            End::Abandoned(grace) => CloseMsg::ok(CloseOk::Grace(*grace)),
            End::Timeout => CloseMsg::err(CloseErr::with_text(CloseErrKind::Other, "timeout")),
            End::Rejected(_) => CloseMsg::err(CloseErr::with_text(CloseErrKind::Other, "rejected")),
            End::HelloFailed(why) => CloseMsg::err(
                CloseErr::with_text(CloseErrKind::Other, why.as_str()),
            ),
            End::SocketFailed(why) => CloseMsg::err(
                CloseErr::with_text(CloseErrKind::Io, why.as_str()),
            ),
        }
    }
}

/// Where a connection stands.
#[derive(Debug, PartialEq, Eq)]
pub enum ConnState {
    /// The socket is there and nothing has been asked yet.
    Connecting,
    /// The request is being looked at.
    AuthPending,
    /// The request was let in, with what it settled.
    Authenticated { role: ClientRole, msg_format: MsgFormat, query_history: Option<QueryHistory> },
    /// The client is registered and messages flow.
    Active,
    /// The connection has ended.
    Closed(End),
}

/// Something that happened to a connection.
#[derive(Debug, PartialEq, Eq)]
pub enum ConnEvent {
    /// The upgrade of the connection began.
    UpgradeStarted,
    /// The request was let in.
    Granted { role: ClientRole, msg_format: MsgFormat, query_history: Option<QueryHistory> },
    /// The request was turned down, with this status.
    Rejected(u16),
    /// The time for the step at hand ran out.
    TimedOut,
    /// The client is registered, and has its observer where it is to have one.
    HelloDone,
    /// The client could not be registered; the text says why.
    HelloFailed(String),
    /// The socket failed; the text is the report.
    SocketFailed(String),
    /// The client closed the connection.
    PeerClosed,
    /// The server is stopping.
    Shutdown(GraceType),
}

impl ConnEvent {
    /// A policy that was settled hangs together.
    pub open spec fn wf(self) -> bool {
        self matches ConnEvent::Granted { query_history: Some(policy), .. } ==> policy.wf()
    }
}

/// What the task of a connection is to do.
#[derive(Debug, Copy, Clone, PartialEq, Eq, Structural)]
pub enum ConnAction {
    /// Go on.
    Continue,
    /// Give the connection up. There is no client to write anything down for.
    Drop,
    /// Close the connection and write its end down for the client.
    Record,
}

impl ConnState {
    /// How far a connection has come. No step takes it back.
    pub open spec fn rank(self) -> nat {
        match self {
            ConnState::Connecting => 0,
            ConnState::AuthPending => 1,
            ConnState::Authenticated { .. } => 2,
            ConnState::Active => 3,
            ConnState::Closed(_) => 4,
        }
    }

    /// The connection after `event`, and what is to be done. Each state
    /// takes in what can happen to it and lets everything else pass. Only the
    /// request and the hello stand under a time limit. The end of a client
    /// that was registered is written down, no other.
    pub open spec fn spec_step(self, event: ConnEvent) -> (ConnState, ConnAction) {
        match self {
            ConnState::Connecting => match event {
                ConnEvent::UpgradeStarted => (ConnState::AuthPending, ConnAction::Continue),
                ConnEvent::SocketFailed(why) => (
                    ConnState::Closed(End::SocketFailed(why)),
                    ConnAction::Drop,
                ),
                ConnEvent::Shutdown(grace) => (
                    ConnState::Closed(End::Abandoned(grace)),
                    ConnAction::Drop,
                ),
                _ => (self, ConnAction::Continue),
            },
            ConnState::AuthPending => match event {
                ConnEvent::Granted { role, msg_format, query_history } => (
                    ConnState::Authenticated { role, msg_format, query_history },
                    ConnAction::Continue,
                ),
                ConnEvent::Rejected(status) => (
                    ConnState::Closed(End::Rejected(status)),
                    ConnAction::Drop,
                ),
                ConnEvent::TimedOut => (ConnState::Closed(End::Timeout), ConnAction::Drop),
                ConnEvent::SocketFailed(why) => (
                    ConnState::Closed(End::SocketFailed(why)),
                    ConnAction::Drop,
                ),
                ConnEvent::Shutdown(grace) => (
                    ConnState::Closed(End::Abandoned(grace)),
                    ConnAction::Drop,
                ),
                _ => (self, ConnAction::Continue),
            },
            ConnState::Authenticated { .. } => match event {
                ConnEvent::HelloDone => (ConnState::Active, ConnAction::Continue),
                ConnEvent::HelloFailed(why) => (
                    ConnState::Closed(End::HelloFailed(why)),
                    ConnAction::Drop,
                ),
                ConnEvent::TimedOut => (ConnState::Closed(End::Timeout), ConnAction::Drop),
                ConnEvent::SocketFailed(why) => (
                    ConnState::Closed(End::SocketFailed(why)),
                    ConnAction::Drop,
                ),
                ConnEvent::PeerClosed => (ConnState::Closed(End::PeerClosed), ConnAction::Drop),
                ConnEvent::Shutdown(grace) => (
                    ConnState::Closed(End::Abandoned(grace)),
                    ConnAction::Drop,
                ),
                _ => (self, ConnAction::Continue),
            },
            ConnState::Active => match event {
                ConnEvent::SocketFailed(why) => (
                    ConnState::Closed(End::SocketFailed(why)),
                    ConnAction::Record,
                ),
                ConnEvent::PeerClosed => (ConnState::Closed(End::PeerClosed), ConnAction::Record),
                ConnEvent::Shutdown(grace) => (
                    ConnState::Closed(End::Shutdown(grace)),
                    ConnAction::Record,
                ),
                _ => (self, ConnAction::Continue),
            },
            ConnState::Closed(_) => (self, ConnAction::Continue),
        }
    }

    /// A connection that has just come in.
    pub fn new() -> (state: ConnState)
        ensures
            state == ConnState::Connecting,
    {
        ConnState::Connecting
    }

    /// Takes in what happened and says what is to be done.
    pub fn step(self, event: ConnEvent) -> (next: (ConnState, ConnAction))
        requires
            event.wf(),
        ensures
            next == self.spec_step(event),
    {
        match self {
            ConnState::Connecting => match event {
                ConnEvent::UpgradeStarted => (ConnState::AuthPending, ConnAction::Continue),
                ConnEvent::SocketFailed(why) => (
                    ConnState::Closed(End::SocketFailed(why)),
                    ConnAction::Drop,
                ),
                ConnEvent::Shutdown(grace) => (
                    ConnState::Closed(End::Abandoned(grace)),
                    ConnAction::Drop,
                ),
                _ => (ConnState::Connecting, ConnAction::Continue),
            },
            ConnState::AuthPending => match event {
                ConnEvent::Granted { role, msg_format, query_history } => (
                    ConnState::Authenticated { role, msg_format, query_history },
                    ConnAction::Continue,
                ),
                ConnEvent::Rejected(status) => (
                    ConnState::Closed(End::Rejected(status)),
                    ConnAction::Drop,
                ),
                ConnEvent::TimedOut => (ConnState::Closed(End::Timeout), ConnAction::Drop),
                ConnEvent::SocketFailed(why) => (
                    ConnState::Closed(End::SocketFailed(why)),
                    ConnAction::Drop,
                ),
                ConnEvent::Shutdown(grace) => (
                    ConnState::Closed(End::Abandoned(grace)),
                    ConnAction::Drop,
                ),
                _ => (ConnState::AuthPending, ConnAction::Continue),
            },
            ConnState::Authenticated { role, msg_format, query_history } => match event {
                ConnEvent::HelloDone => (ConnState::Active, ConnAction::Continue),
                ConnEvent::HelloFailed(why) => (
                    ConnState::Closed(End::HelloFailed(why)),
                    ConnAction::Drop,
                ),
                ConnEvent::TimedOut => (ConnState::Closed(End::Timeout), ConnAction::Drop),
                ConnEvent::SocketFailed(why) => (
                    ConnState::Closed(End::SocketFailed(why)),
                    ConnAction::Drop,
                ),
                ConnEvent::PeerClosed => (ConnState::Closed(End::PeerClosed), ConnAction::Drop),
                ConnEvent::Shutdown(grace) => (
                    ConnState::Closed(End::Abandoned(grace)),
                    ConnAction::Drop,
                ),
                _ => (
                    ConnState::Authenticated { role, msg_format, query_history },
                    ConnAction::Continue,
                ),
            },
            ConnState::Active => match event {
                ConnEvent::SocketFailed(why) => (
                    ConnState::Closed(End::SocketFailed(why)),
                    ConnAction::Record,
                ),
                ConnEvent::PeerClosed => (ConnState::Closed(End::PeerClosed), ConnAction::Record),
                ConnEvent::Shutdown(grace) => (
                    ConnState::Closed(End::Shutdown(grace)),
                    ConnAction::Record,
                ),
                _ => (ConnState::Active, ConnAction::Continue),
            },
            ConnState::Closed(end) => (ConnState::Closed(end), ConnAction::Continue),
        }
    }
}

impl ServerBuilder {
    /// The time, in milliseconds, that a connection may stay in the given
    /// state; none for a state that stands under no limit.
    pub fn time_limit(&self, state: &ConnState) -> (limit: Option<u64>)
        ensures
            limit == match *state {
                ConnState::AuthPending => Some(self.ws_handshake_timeout),
                ConnState::Authenticated { .. } => Some(self.tmp_hello_timeout),
                _ => None,
            },
    {
        match state {
            ConnState::AuthPending => Some(self.ws_handshake_timeout),
            ConnState::Authenticated { .. } => Some(self.tmp_hello_timeout),
            _ => None,
        }
    }
}

/// No step takes a connection back, and a step that moves it on moves it to
/// the next state or to its end.
pub proof fn lemma_connection_never_reverts(state: ConnState, event: ConnEvent)
    ensures
        state.rank() <= state.spec_step(event).0.rank(),
        state.spec_step(event).0.rank() == state.rank() ==> state.spec_step(event).0 == state,
        state.spec_step(event).0.rank() != state.rank() ==> state.spec_step(event).0.rank()
            == state.rank() + 1 || state.spec_step(event).0 is Closed,
{
}

/// A connection that has ended stays as it is, and a connection that waits
/// for its request to be answered ends when its time runs out.
pub proof fn lemma_connection_ends(state: ConnState, event: ConnEvent)
    ensures
        state is Closed ==> state.spec_step(event) == (state, ConnAction::Continue),
        state is AuthPending && event is TimedOut ==> state.spec_step(event) == (
            ConnState::Closed(End::Timeout),
            ConnAction::Drop,
        ),
        state is Active && event is TimedOut ==> state.spec_step(event).0 is Active,
{
}

/// The end of a connection is written down exactly when a registered client
/// leaves: only a step from the active state to the end asks for it.
pub proof fn lemma_only_clients_are_recorded(state: ConnState, event: ConnEvent)
    ensures
        state.spec_step(event).1 == ConnAction::Record <==> state is Active && state.spec_step(
            event,
        ).0 is Closed,
        state.spec_step(event).1 == ConnAction::Drop <==> !(state is Active) && !(state is Closed)
            && state.spec_step(event).0 is Closed,
{
}

} // verus!
