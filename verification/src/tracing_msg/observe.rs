//! What an observer of a session is shown, and the handle it reads from.

use super::{clone_text, CloseMsg, HelloMsg, Role, Timestamp, TracingMsg};
use tokio::sync::broadcast::error::{RecvError, TryRecvError};
use tokio::sync::broadcast::Receiver;
use vstd::prelude::*;

verus! {

/// The table and the key under which a client is written down.
#[derive(Debug, Eq, PartialEq, Hash)]
pub struct ClientId(pub String, pub String);

impl Clone for ClientId {
    fn clone(&self) -> (copy: Self)
        ensures
            copy == *self,
    {
        ClientId(self.0.clone(), self.1.clone())
    }
}

/// What is known of a client from its greeting. The address is the text of
/// the socket address it connected from.
#[derive(Debug, Eq, PartialEq)]
pub struct ClientInfo {
    pub hello_timestamp: Timestamp,
    pub hello_msg: HelloMsg,
    pub client_role: Role,
    pub client_addr: Option<String>,
}

impl Clone for ClientInfo {
    fn clone(&self) -> (copy: Self)
        ensures
            copy == *self,
    {
        ClientInfo {
            hello_timestamp: self.hello_timestamp,
            hello_msg: self.hello_msg.clone(),
            client_role: self.client_role,
            client_addr: clone_text(&self.client_addr),
        }
    }
}

/// A client, either named by its identifier or described in full.
#[derive(Debug, Eq, PartialEq)]
pub enum ClientRef {
    Id(ClientId),
    Info(ClientInfo),
}

impl Clone for ClientRef {
    fn clone(&self) -> (copy: Self)
        ensures
            copy == *self,
    {
        match self {
            ClientRef::Id(id) => ClientRef::Id(id.clone()),
            ClientRef::Info(info) => ClientRef::Info(info.clone()),
        }
    }
}

/// The end of a client's connection.
#[derive(Debug, Eq, PartialEq)]
pub struct CloseInfo {
    pub close_timestamp: Timestamp,
    pub client_info: ClientRef,
    pub close_msg: CloseMsg,
}

impl Clone for CloseInfo {
    fn clone(&self) -> (copy: Self)
        ensures
            copy == *self,
    {
        CloseInfo {
            close_timestamp: self.close_timestamp,
            client_info: self.client_info.clone(),
            close_msg: self.close_msg.clone(),
        }
    }
}

/// A trace message and the client it came from.
#[derive(Debug, PartialEq, Eq)]
pub struct MsgInfo<B> {
    pub client_info: ClientRef,
    pub tracing_msg: TracingMsg<B>,
}

impl<B: Clone> Clone for MsgInfo<B> {
    fn clone(&self) -> (copy: Self)
        ensures
            copy.client_info == self.client_info,
            copy.tracing_msg.copy_of(self.tracing_msg),
    {
        MsgInfo { client_info: self.client_info.clone(), tracing_msg: self.tracing_msg.clone() }
    }
}

/// One thing that happened in a session, as observers are told of it.
#[derive(Debug, PartialEq, Eq)]
pub enum ObserveMsg<B> {
    OnClientHello(ClientId, ClientInfo),
    OnDisconnect(CloseInfo),
    OnMsg(MsgInfo<B>),
}

impl<B: Clone> ObserveMsg<B> {
    /// The entry is a copy of `source`: the same, but for the body of a
    /// trace message, which is a clone of the body.
    pub open spec fn copy_of(self, source: Self) -> bool {
        match source {
            ObserveMsg::OnMsg(info) => self matches ObserveMsg::OnMsg(copy) && copy.client_info
                == info.client_info && copy.tracing_msg.copy_of(info.tracing_msg),
            _ => self == source,
        }
    }
}

impl<B: Clone> Clone for ObserveMsg<B> {
    fn clone(&self) -> (copy: Self)
        ensures
            copy.copy_of(*self),
    {
        match self {
            ObserveMsg::OnClientHello(id, info) => ObserveMsg::OnClientHello(
                id.clone(),
                info.clone(),
            ),
            ObserveMsg::OnDisconnect(info) => ObserveMsg::OnDisconnect(info.clone()),
            ObserveMsg::OnMsg(info) => ObserveMsg::OnMsg(info.clone()),
        }
    }
}

/// The `Receiver` of tokio's broadcast channel, as a value that is carried
/// along.
#[verifier::external_type_specification]
#[verifier::external_body]
#[verifier::reject_recursive_types(T)]
pub struct ExReceiver<T>(Receiver<T>);

/// The `TryRecvError` of tokio's broadcast channel, as a value that is carried
/// along.
#[verifier::external_type_specification]
#[verifier::external_body]
pub struct ExTryRecvError(TryRecvError);

/// The `RecvError` of tokio's broadcast channel, as a value that is carried
/// along.
#[verifier::external_type_specification]
#[verifier::external_body]
pub struct ExRecvError(RecvError);

/// Why the live feed had nothing to give.
#[derive(Debug, Copy, Clone, Eq, PartialEq, Structural)]
pub enum LiveError {
    /// Nothing has been published since the last item was taken.
    Empty,
    /// The feed has ended.
    Closed,
    /// The reader fell behind and this many items were dropped unread.
    Lagged(u64),
}

/// What handing out a backlog gives, and what is kept of it: all of it, and
/// nothing.
pub open spec fn handed_out<T>(backlog: Seq<T>) -> (Seq<T>, Seq<T>) {
    (backlog, Seq::empty())
}

/// A backlog is handed out once: whoever asks again gets nothing, and
/// nothing is kept then either.
pub proof fn lemma_backlog_is_handed_out_once<T>(backlog: Seq<T>)
    ensures
        handed_out(backlog).0 == backlog,
        handed_out(handed_out(backlog).1) == (Seq::<T>::empty(), Seq::<T>::empty()),
{
}

/// The backlog of a session and its live feed, for one reader.
#[derive(Debug)]
#[verifier::reject_recursive_types(B)]
pub struct Observer<B> {
    history: Vec<ObserveMsg<B>>,
    live: Receiver<ObserveMsg<B>>,
}

impl<B> Observer<B> {
    /// The backlog that has not been handed out yet.
    pub closed spec fn backlog(&self) -> Seq<ObserveMsg<B>> {
        self.history@
    }

    /// The live feed this observer reads from.
    pub closed spec fn feed(&self) -> Receiver<ObserveMsg<B>> {
        self.live
    }

    /// Hands out the backlog and keeps none of it.
    pub fn history(&mut self) -> (backlog: Vec<ObserveMsg<B>>)
        ensures
            (backlog@, final(self).backlog()) == handed_out(old(self).backlog()),
            final(self).feed() == old(self).feed(),
    {
        let mut backlog = Vec::new();
        core::mem::swap(&mut self.history, &mut backlog);
        backlog
    }
}

impl<B> Observer<B> {
    /// The live feed, for a reader that waits on it. The backlog stays as it is.
    pub fn live_mut(&mut self) -> (feed: &mut Receiver<ObserveMsg<B>>)
        ensures
            *feed == old(self).feed(),
            final(self).feed() == *final(feed),
            final(self).backlog() == old(self).backlog(),
    {
        &mut self.live
    }
}

impl<B: Clone> Observer<B> {
    /// The next item of the live feed, if one is waiting. A reader that fell
    /// behind is told so, with the number of items it lost.
    pub fn try_next_live(&mut self) -> (item: Result<ObserveMsg<B>, LiveError>)
        ensures
            final(self).backlog() == old(self).backlog(),
    {
        Self::taken(try_recv(&mut self.live))
    }

    /// What taking the next item of the live feed came to: the item, or the
    /// reason why there is none.
    pub fn taken(tried: Result<ObserveMsg<B>, TryRecvError>) -> (item: Result<
        ObserveMsg<B>,
        LiveError,
    >)
        ensures
            match tried {
                Ok(msg) => item == Ok::<ObserveMsg<B>, LiveError>(msg),
                Err(_) => item is Err,
            },
    {
        match tried {
            Ok(msg) => Ok(msg),
            Err(err) => Err(live_error(err)),
        }
    }
}

/// `Receiver::try_recv` of tokio's broadcast channel. What comes back depends
/// on what other tasks have sent, so nothing is said of it.
#[verifier::external_body]
fn try_recv<T: Clone>(live: &mut Receiver<T>) -> (item: Result<T, TryRecvError>) {
    live.try_recv()
}

/// Tells the variants of tokio's `TryRecvError` apart. Nothing is claimed of which
/// one a given error is.
#[verifier::external_body]
fn live_error(err: TryRecvError) -> (kind: LiveError) {
    match err {
        TryRecvError::Empty => LiveError::Empty,
        TryRecvError::Closed => LiveError::Closed,
        TryRecvError::Lagged(n) => LiveError::Lagged(n),
    }
}

/// Tells the variants of tokio's `RecvError` apart. Nothing is claimed of which
/// one a given error is, only that it is none that says the feed is empty.
#[verifier::external_body]
fn wait_error(err: RecvError) -> (kind: LiveError)
    ensures
        !(kind is Empty),
{
    match err {
        RecvError::Closed => LiveError::Closed,
        RecvError::Lagged(n) => LiveError::Lagged(n),
    }
}

impl<B> Observer<B> {
    /// What waiting for the next item of the live feed came to: the item,
    /// or the reason why there is none. A reader that fell behind is told so.
    pub fn next_live(awaited: Result<ObserveMsg<B>, RecvError>) -> (item: Result<
        ObserveMsg<B>,
        LiveError,
    >)
        ensures
            match awaited {
                Ok(msg) => item == Ok::<ObserveMsg<B>, LiveError>(msg),
                Err(_) => item matches Err(kind) && !(kind is Empty),
            },
    {
        match awaited {
            Ok(msg) => Ok(msg),
            Err(err) => Err(wait_error(err)),
        }
    }
}

/// An observer with the given backlog and live feed.
pub fn observer<B>(history: Vec<ObserveMsg<B>>, live: Receiver<ObserveMsg<B>>) -> (made: Observer<B>)
    ensures
        made.backlog() == history@,
        made.feed() == live,
{
    Observer { history, live }
}

} // verus!
