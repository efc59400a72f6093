//! A bridge between tasks: one side asks, the other answers, and every
//! request carries the slot for its own answer.
//!
//! A request can be answered once, because answering uses it up. What is
//! waited for is waited for by the caller; this module makes the channels,
//! sends, and says what each outcome means.

use tokio::sync::mpsc::{UnboundedReceiver, UnboundedSender};
use tokio::sync::oneshot;
use vstd::prelude::*;
use vstd::string::*;

verus! {

/// The `Sender` of tokio's oneshot channel, as a value that is carried along.
#[verifier::external_type_specification]
#[verifier::external_body]
#[verifier::reject_recursive_types(T)]
pub struct ExOneshotSender<T>(oneshot::Sender<T>);

/// The `Receiver` of tokio's oneshot channel, as a value that is carried
/// along.
#[verifier::external_type_specification]
#[verifier::external_body]
#[verifier::reject_recursive_types(T)]
pub struct ExOneshotReceiver<T>(oneshot::Receiver<T>);

/// The `RecvError` of tokio's oneshot channel, as a value that is carried
/// along.
#[verifier::external_type_specification]
#[verifier::external_body]
pub struct ExOneshotRecvError(oneshot::error::RecvError);

/// The `UnboundedSender` of tokio's mpsc channel, as a value that is carried
/// along.
#[verifier::external_type_specification]
#[verifier::external_body]
#[verifier::reject_recursive_types(T)]
pub struct ExUnboundedSender<T>(UnboundedSender<T>);

/// The `UnboundedReceiver` of tokio's mpsc channel, as a value that is
/// carried along.
#[verifier::external_type_specification]
#[verifier::external_body]
#[verifier::reject_recursive_types(T)]
pub struct ExUnboundedReceiver<T>(UnboundedReceiver<T>);

/// `oneshot::channel` of tokio: a slot for one value and the place where it
/// is awaited.
#[verifier::external_body]
fn answer_slot<S>() -> (slot: (oneshot::Sender<S>, oneshot::Receiver<S>)) {
    oneshot::channel()
}

/// `oneshot::Sender::send` of tokio. Where nobody awaits the value any more
/// it comes back; whether anybody does is not for this side to know.
#[verifier::external_body]
fn fill_slot<S>(slot: oneshot::Sender<S>, value: S) -> (sent: Result<(), S>)
    ensures
        sent matches Err(back) ==> back == value,
{
    slot.send(value)
}

/// `mpsc::unbounded_channel` of tokio: a queue without a bound, and its two
/// ends.
#[verifier::external_body]
fn queue<T>() -> (ends: (UnboundedSender<T>, UnboundedReceiver<T>)) {
    tokio::sync::mpsc::unbounded_channel()
}

/// `UnboundedSender::send` of tokio. Where the other end is closed or gone
/// the message comes back.
#[verifier::external_body]
fn enqueue<T>(sender: &UnboundedSender<T>, message: T) -> (sent: Result<(), T>)
    ensures
        sent matches Err(back) ==> back == message,
{
    sender.send(message).map_err(|err| err.0)
}

/// `UnboundedSender::clone` of tokio: another handle to the same queue.
#[verifier::external_body]
fn another<T>(sender: &UnboundedSender<T>) -> (copy: UnboundedSender<T>) {
    sender.clone()
}

/// `UnboundedReceiver::close` of tokio: nothing more is let into the queue.
#[verifier::external_body]
fn shut<T>(receiver: &mut UnboundedReceiver<T>) {
    receiver.close()
}

/// A request on its way: what is asked, and the slot for the answer.
#[derive(Debug)]
#[verifier::reject_recursive_types(S)]
pub struct Request<Q, S> {
    req: Q,
    res_send: oneshot::Sender<S>,
}

impl<Q, S> Request<Q, S> {
    /// What is asked.
    pub closed spec fn asked(&self) -> Q {
        self.req
    }

    pub fn req(&self) -> (asked: Q) where Q: Copy
        ensures
            asked == self.asked(),
    {
        self.req
    }

    pub fn req_cloned(&self) -> (asked: Q) where Q: Clone
        ensures
            cloned(self.asked(), asked),
    {
        self.req.clone()
    }

    /// What is asked, for a look.
    pub fn req_ref(&self) -> (asked: &Q)
        ensures
            *asked == self.asked(),
    {
        &self.req
    }

    /// Answers the request, which uses it up. The answer comes back where
    /// nobody waits for it any more.
    pub fn response(self, res: S) -> (sent: Result<(), S>)
        ensures
            sent matches Err(back) ==> back == res,
    {
        fill_slot(self.res_send, res)
    }

    /// A request that asks `req`, with a slot of its own for the answer, and
    /// the place where that answer is awaited.
    pub fn new(req: Q) -> (made: (Request<Q, S>, oneshot::Receiver<S>))
        ensures
            made.0.asked() == req,
    {
        let (res_send, res_recv) = answer_slot();
        (Request { req, res_send }, res_recv)
    }
}

/// Why a request got no answer.
#[derive(Debug, Copy, Clone, Eq, PartialEq, Hash, Structural)]
pub enum RequestError {
    /// The request could not be sent: the other side has closed the queue
    /// or is gone.
    SendReqErr,
    /// The request was dropped without an answer.
    RecvResErr,
}

impl RequestError {
    /// The error in words.
    pub open spec fn text(self) -> Seq<char> {
        match self {
            RequestError::SendReqErr => "send request error: Respondor closed or dropped"@,
            RequestError::RecvResErr =>
                "recv response error: Request handle dropped without sending response"@,
        }
    }

    pub fn message(&self) -> (words: String)
        ensures
            words@ == self.text(),
    {
        match self {
            RequestError::SendReqErr => String::from_str(
                "send request error: Respondor closed or dropped",
            ),
            RequestError::RecvResErr => String::from_str(
                "recv response error: Request handle dropped without sending response",
            ),
        }
    }
}

/// What a request that was sent comes to: its answer, or the news that it
/// was dropped without one.
pub open spec fn spec_answered<S, X>(awaited: Result<S, X>) -> Result<S, RequestError> {
    match awaited {
        Ok(answer) => Ok(answer),
        Err(_) => Err(RequestError::RecvResErr),
    }
}

/// What a request that was sent comes to, from what awaiting its answer
/// gave.
pub fn answered<S>(awaited: Result<S, oneshot::error::RecvError>) -> (outcome: Result<
    S,
    RequestError,
>)
    ensures
        outcome == spec_answered(awaited),
{
    match awaited {
        Ok(answer) => Ok(answer),
        Err(_) => Err(RequestError::RecvResErr),
    }
}

/// What sending a request comes to: the place where the answer is awaited,
/// or the news that the request could not be sent.
pub open spec fn spec_sent<M, R>(sent: Result<(), M>, awaiting: R) -> Result<R, RequestError> {
    match sent {
        Ok(_) => Ok(awaiting),
        Err(_) => Err(RequestError::SendReqErr),
    }
}

/// What sending a request comes to, from what putting it into the queue
/// gave.
pub fn sent<M, R>(queued: Result<(), M>, awaiting: R) -> (outcome: Result<R, RequestError>)
    ensures
        outcome == spec_sent(queued, awaiting),
{
    match queued {
        Ok(_) => Ok(awaiting),
        Err(_) => Err(RequestError::SendReqErr),
    }
}

/// The side that asks. There can be many of them.
#[derive(Debug)]
#[verifier::reject_recursive_types(Q)]
#[verifier::reject_recursive_types(S)]
pub struct Requester<Q, S>(UnboundedSender<Request<Q, S>>);

impl<Q, S> Requester<Q, S> {
    /// Sends a request. What comes back is the place where its answer is
    /// awaited, and `answered` says what the outcome of that wait means. A
    /// request that cannot be sent fails at once, and with no other error.
    pub fn request(&self, req: Q) -> (awaiting: Result<oneshot::Receiver<S>, RequestError>)
        ensures
            awaiting matches Err(err) ==> err == RequestError::SendReqErr,
    {
        let (request, res_recv) = Request::new(req);
        sent(enqueue(&self.0, request), res_recv)
    }
}

impl<Q, S> Clone for Requester<Q, S> {
    fn clone(&self) -> (copy: Self) {
        Self(another(&self.0))
    }
}

/// The side that answers. There is one.
#[derive(Debug)]
#[verifier::reject_recursive_types(Q)]
#[verifier::reject_recursive_types(S)]
pub struct Respondor<Q, S>(UnboundedReceiver<Request<Q, S>>);

impl<Q, S> Respondor<Q, S> {
    /// The queue that the requests come in by.
    pub closed spec fn queue(&self) -> UnboundedReceiver<Request<Q, S>> {
        self.0
    }

    /// The queue of the requests, for the one who waits on it: the queue
    /// of this side itself, and what is done to it is done to this side.
    pub fn next_requset(&mut self) -> (requests: &mut UnboundedReceiver<Request<Q, S>>)
        ensures
            *requests == old(self).queue(),
            final(self).queue() == *final(requests),
    {
        &mut self.0
    }

    /// Lets no more requests in. Those that are in can still be answered.
    pub fn close(&mut self) {
        shut(&mut self.0)
    }
}

/// A bridge: the side that asks and the side that answers.
pub fn req_res<Q, S>() -> (ends: (Requester<Q, S>, Respondor<Q, S>)) {
    let (req_send, req_recv) = queue();
    (Requester(req_send), Respondor(req_recv))
}

/// A request that is sent comes to exactly one of three things: its answer,
/// the news that it could not be sent, or the news that it was dropped
/// without an answer. It never comes to the answer of another request: the
/// answer is whatever was put into its own slot.
pub proof fn lemma_request_outcomes<S, M, X>(sent: Result<(), M>, awaited: Result<S, X>)
    ensures
        sent is Err ==> spec_sent(sent, awaited) == Err::<Result<S, X>, RequestError>(
            RequestError::SendReqErr,
        ),
        sent is Ok ==> spec_sent(sent, awaited) == Ok::<Result<S, X>, RequestError>(awaited),
        awaited matches Ok(answer) ==> spec_answered(awaited) == Ok::<S, RequestError>(answer),
        awaited is Err ==> spec_answered(awaited) == Err::<S, RequestError>(
            RequestError::RecvResErr,
        ),
{
}

} // verus!
