//! The routine that carries the trace messages of a process to a transport:
//! what it does with each message, how it empties its queue when it is told
//! to stop, and what it reports at the end.
//!
//! The routine decides and its caller acts: the caller waits on the queue
//! and on the signals, pushes and closes, and hands each thing that happens
//! to `MsgLayerBuiler::step`.

use super::{CloseErr, CloseErrKind, CloseMsg, CloseOk, CloseTransport, GraceType};
use crate::stop::StopError;
use vstd::prelude::*;
use vstd::string::*;

verus! {

/// The most that is pushed when the queue is emptied at the end.
pub const FLUSH_LIMIT: usize = 1024;

/// The least severe level that is let through.
#[derive(Debug, Copy, Clone, Eq, PartialEq, Hash, Structural)]
pub enum LevelFilter {
    Off,
    Error,
    Warn,
    Info,
    Debug,
    Trace,
}

/// An error that can say in words what it is.
pub trait Describe {
    spec fn describe(&self) -> Seq<char>;

    fn description(&self) -> (words: String)
        ensures
            words@ == self.describe(),
    ;
}

impl Describe for StopError {
    open spec fn describe(&self) -> Seq<char> {
        self.text()
    }

    fn description(&self) -> (words: String) {
        self.message()
    }
}

/// What can end the routine badly. `E` is the error of the transport.
#[derive(Debug, PartialEq, Eq)]
pub enum LayerError<E> {
    /// Waiting for the interrupt failed; the text is the report.
    Io(String),
    /// Nobody is left who could send a message.
    LayerDropped,
    /// A message could not be pushed.
    PushMsgErr(E),
    /// The messages left at the end could not be pushed.
    BulkPushErr(E),
    /// More messages were left at the end than are pushed then.
    BufferFull,
}

impl<E: Describe> LayerError<E> {
    /// The error in words.
    pub open spec fn text(self) -> Seq<char> {
        match self {
            LayerError::Io(report) => "io error: `"@ + report@ + "`"@,
            LayerError::LayerDropped => "MsgLayer dropped"@,
            LayerError::PushMsgErr(err) => "push_msg error: `"@ + err.describe() + "`"@,
            LayerError::BulkPushErr(err) => "bulk_push error: `"@ + err.describe() + "`"@,
            LayerError::BufferFull => "msg buffer full"@,
        }
    }

    /// The kind under which the error is written down.
    pub open spec fn spec_kind(self) -> CloseErrKind {
        match self {
            LayerError::Io(_) => CloseErrKind::Io,
            LayerError::LayerDropped => CloseErrKind::LayerDropped,
            LayerError::PushMsgErr(_) => CloseErrKind::PushMsgErr,
            LayerError::BulkPushErr(_) => CloseErrKind::BulkPushErr,
            LayerError::BufferFull => CloseErrKind::BufferFull,
        }
    }

    pub fn message(&self) -> (words: String)
        ensures
            words@ == self.text(),
    {
        match self {
            LayerError::Io(report) => String::from_str("io error: `").concat(
                report.as_str(),
            ).concat("`"),
            LayerError::LayerDropped => String::from_str("MsgLayer dropped"),
            LayerError::PushMsgErr(err) => String::from_str("push_msg error: `").concat(
                err.description().as_str(),
            ).concat("`"),
            LayerError::BulkPushErr(err) => String::from_str("bulk_push error: `").concat(
                err.description().as_str(),
            ).concat("`"),
            LayerError::BufferFull => String::from_str("msg buffer full"),
        }
    }

    pub fn kind(&self) -> (kind: CloseErrKind)
        ensures
            kind == self.spec_kind(),
    {
        match self {
            LayerError::Io(_) => CloseErrKind::Io,
            LayerError::LayerDropped => CloseErrKind::LayerDropped,
            LayerError::PushMsgErr(_) => CloseErrKind::PushMsgErr,
            LayerError::BulkPushErr(_) => CloseErrKind::BulkPushErr,
            LayerError::BufferFull => CloseErrKind::BufferFull,
        }
    }

    /// The error as the end of a connection is written down with it.
    pub fn close_err(&self) -> (err: CloseErr)
        ensures
            err.kind == self.spec_kind(),
            err.display@ == self.text(),
    {
        CloseErr { kind: self.kind(), display: self.message() }
    }
}

/// The result of a routine as the end of a connection is written down with
/// it.
pub fn close_msg_of<E: Describe>(output: &Result<GraceType, LayerError<E>>) -> (msg: CloseMsg)
    ensures
        match *output {
            Ok(grace) => msg.0 == Ok::<CloseOk, CloseErr>(CloseOk::Grace(grace)),
            Err(err) => msg.0 matches Err(close) && close.kind == err.spec_kind() && close.display@
                == err.text(),
        },
{
    match output {
        Ok(grace) => CloseMsg::ok(CloseOk::Grace(*grace)),
        Err(err) => CloseMsg::err(err.close_err()),
    }
}

/// What is pushed of the messages that were left in the queue at the end:
/// the first of them, up to the limit.
pub open spec fn flush_chunk<M>(left: Seq<M>) -> Seq<M> {
    if left.len() <= FLUSH_LIMIT {
        left
    } else {
        left.take(FLUSH_LIMIT as int)
    }
}

/// The messages to push of those that were left in the queue at the end, and
/// whether more were left than are pushed.
pub fn flush_plan<M>(left: Vec<M>) -> (plan: (Vec<M>, bool))
    ensures
        plan.0@ == flush_chunk(left@),
        plan.1 == (left@.len() > FLUSH_LIMIT),
{
    let mut chunk = left;
    let overflow = chunk.len() > FLUSH_LIMIT;
    if overflow {
        chunk.truncate(FLUSH_LIMIT);
    }
    (chunk, overflow)
}

/// The result of a routine that was to end with `output` once it has
/// emptied its queue. With nothing left it ends as it was to end. A push that
/// fails is the result, then that more was left than was pushed.
pub open spec fn flush_outcome<E>(
    output: Result<GraceType, LayerError<E>>,
    left: nat,
    pushed: Result<(), E>,
) -> Result<GraceType, LayerError<E>> {
    if left == 0 {
        output
    } else {
        match pushed {
            Err(err) => Err(LayerError::BulkPushErr(err)),
            Ok(_) => if left > FLUSH_LIMIT {
                Err(LayerError::BufferFull)
            } else {
                output
            },
        }
    }
}

/// Where the routine stands.
#[derive(Debug, PartialEq, Eq)]
pub enum LayerPhase<E> {
    /// It carries messages.
    Running,
    /// It empties its queue, and was to end with this result.
    Flushing(Result<GraceType, LayerError<E>>),
    /// It has ended.
    Done,
}

/// Something that happened to the routine.
#[derive(Debug, PartialEq, Eq)]
pub enum LayerEvent<E> {
    /// The wait for an interrupt from outside ended: with the interrupt, or
    /// with an error, whose report the text is.
    Interrupted(Result<(), String>),
    /// The owner of the routine asked it to stop.
    ShutdownRequested,
    /// A message came out of the queue.
    Received,
    /// The queue is closed and empty.
    QueueClosed,
    /// The message was pushed, or could not be.
    Pushed(Result<(), E>),
    /// The queue was emptied: so many messages were left, and the first of
    /// them were pushed, or could not be. The result of the push counts only
    /// where something was left.
    Flushed { left: usize, pushed: Result<(), E> },
}

/// What the caller of the routine is to do.
#[derive(Debug, PartialEq, Eq)]
pub enum LayerAction<E> {
    /// Nothing; go on waiting.
    Wait,
    /// Push the message that came out of the queue, and say how it went.
    Push,
    /// Close the queue, take out what is left, push what `flush_plan` says,
    /// and say how it went.
    Flush,
    /// End with this result; before that, tell the transport what
    /// `MsgLayerBuiler::close` says.
    Finish(Result<GraceType, LayerError<E>>),
}

/// The options of a routine, and the transport it carries messages to.
#[derive(Debug, PartialEq, Eq)]
pub struct MsgLayerBuiler<T> {
    pub transport: T,
    pub level_filter: LevelFilter,
    pub ctrlc_shutdown: bool,
    pub close_on_shutdown: bool,
    pub abort_on_error: bool,
}

impl<T> MsgLayerBuiler<T> {
    pub fn set_level_filter(self, level_filter: LevelFilter) -> (builder: Self)
        ensures
            builder == (MsgLayerBuiler { level_filter, ..self }),
    {
        Self { level_filter, ..self }
    }

    /// Lets every level through.
    pub fn disable_level_filter(self) -> (builder: Self)
        ensures
            builder == (MsgLayerBuiler { level_filter: LevelFilter::Trace, ..self }),
    {
        Self { level_filter: LevelFilter::Trace, ..self }
    }

    pub fn disable_ctrlc_shutdown(self) -> (builder: Self)
        ensures
            builder == (MsgLayerBuiler { ctrlc_shutdown: false, ..self }),
    {
        Self { ctrlc_shutdown: false, ..self }
    }

    /// Makes the routine tell the transport how it ended.
    pub fn close_transport_on_shutdown(self) -> (builder: Self)
        ensures
            builder == (MsgLayerBuiler { close_on_shutdown: true, ..self }),
    {
        Self { close_on_shutdown: true, ..self }
    }

    /// Makes the routine go on when a message could not be pushed.
    pub fn discard_push_error(self) -> (builder: Self)
        ensures
            builder == (MsgLayerBuiler { abort_on_error: false, ..self }),
    {
        Self { abort_on_error: false, ..self }
    }

    /// What the transport is told when the routine ends with `output`:
    /// nothing, unless the routine was made to tell.
    pub fn close<E: Describe>(&self, output: &Result<GraceType, LayerError<E>>) -> (msg: Option<
        CloseMsg,
    >)
        ensures
            self.close_on_shutdown <==> msg is Some,
            msg matches Some(m) ==> match *output {
                Ok(grace) => m.0 == Ok::<CloseOk, CloseErr>(CloseOk::Grace(grace)),
                Err(err) => m.0 matches Err(close) && close.kind == err.spec_kind()
                    && close.display@ == err.text(),
            },
    {
        if self.close_on_shutdown {
            Some(close_msg_of(output))
        } else {
            None
        }
    }

    /// What becomes of a push of one message: a failure ends the routine
    /// unless it was made to go on.
    pub open spec fn spec_push_msg<E>(self, pushed: Result<(), E>) -> Result<(), LayerError<E>> {
        match pushed {
            Err(err) => if self.abort_on_error {
                Err(LayerError::PushMsgErr(err))
            } else {
                Ok(())
            },
            Ok(_) => Ok(()),
        }
    }

    pub fn push_msg<E>(&self, pushed: Result<(), E>) -> (next: Result<(), LayerError<E>>)
        ensures
            next == self.spec_push_msg(pushed),
    {
        match pushed {
            Err(err) => if self.abort_on_error {
                Err(LayerError::PushMsgErr(err))
            } else {
                Ok(())
            },
            Ok(_) => Ok(()),
        }
    }

    /// The result of a routine that was to end with `output` once it has
    /// emptied its queue.
    pub fn flush_close<E>(
        output: Result<GraceType, LayerError<E>>,
        left: usize,
        pushed: Result<(), E>,
    ) -> (result: Result<GraceType, LayerError<E>>)
        ensures
            result == flush_outcome(output, left as nat, pushed),
    {
        if left == 0 {
            output
        } else {
            match pushed {
                Err(err) => Err(LayerError::BulkPushErr(err)),
                Ok(_) => if left > FLUSH_LIMIT {
                    Err(LayerError::BufferFull)
                } else {
                    output
                },
            }
        }
    }

    /// The routine after `event`, and what is to be done. While it runs, a
    /// message is pushed as it comes, and a signal to stop makes it empty its
    /// queue; an interrupt counts only where the routine listens for one.
    /// When the queue closes by itself nobody is left to send.
    pub open spec fn spec_step<E>(self, phase: LayerPhase<E>, event: LayerEvent<E>) -> (
        LayerPhase<E>,
        LayerAction<E>,
    ) {
        match phase {
            LayerPhase::Done => (phase, LayerAction::Wait),
            LayerPhase::Running => match event {
                LayerEvent::Interrupted(res) => if self.ctrlc_shutdown {
                    (
                        LayerPhase::Flushing(
                            match res {
                                Ok(_) => Ok(GraceType::CtrlC),
                                Err(report) => Err(LayerError::Io(report)),
                            },
                        ),
                        LayerAction::Flush,
                    )
                } else {
                    (phase, LayerAction::Wait)
                },
                LayerEvent::ShutdownRequested => (
                    LayerPhase::Flushing(Ok(GraceType::Explicit)),
                    LayerAction::Flush,
                ),
                LayerEvent::Received => (phase, LayerAction::Push),
                LayerEvent::QueueClosed => (
                    LayerPhase::Done,
                    LayerAction::Finish(Err(LayerError::LayerDropped)),
                ),
                LayerEvent::Pushed(pushed) => match self.spec_push_msg(pushed) {
                    Ok(_) => (phase, LayerAction::Wait),
                    Err(err) => (LayerPhase::Done, LayerAction::Finish(Err(err))),
                },
                LayerEvent::Flushed { .. } => (phase, LayerAction::Wait),
            },
            LayerPhase::Flushing(output) => match event {
                LayerEvent::Flushed { left, pushed } => (
                    LayerPhase::Done,
                    LayerAction::Finish(flush_outcome(output, left as nat, pushed)),
                ),
                _ => (phase, LayerAction::Wait),
            },
        }
    }

    /// Takes in what happened and says what is to be done.
    pub fn step<E>(&self, phase: LayerPhase<E>, event: LayerEvent<E>) -> (next: (
        LayerPhase<E>,
        LayerAction<E>,
    ))
        ensures
            next == self.spec_step(phase, event),
    {
        match phase {
            LayerPhase::Done => (LayerPhase::Done, LayerAction::Wait),
            LayerPhase::Running => match event {
                LayerEvent::Interrupted(res) => if self.ctrlc_shutdown {
                    (
                        LayerPhase::Flushing(
                            match res {
                                Ok(_) => Ok(GraceType::CtrlC),
                                Err(report) => Err(LayerError::Io(report)),
                            },
                        ),
                        LayerAction::Flush,
                    )
                } else {
                    (LayerPhase::Running, LayerAction::Wait)
                },
                LayerEvent::ShutdownRequested => (
                    LayerPhase::Flushing(Ok(GraceType::Explicit)),
                    LayerAction::Flush,
                ),
                LayerEvent::Received => (LayerPhase::Running, LayerAction::Push),
                LayerEvent::QueueClosed => (
                    LayerPhase::Done,
                    LayerAction::Finish(Err(LayerError::LayerDropped)),
                ),
                LayerEvent::Pushed(pushed) => match self.push_msg(pushed) {
                    Ok(_) => (LayerPhase::Running, LayerAction::Wait),
                    Err(err) => (LayerPhase::Done, LayerAction::Finish(Err(err))),
                },
                LayerEvent::Flushed { .. } => (LayerPhase::Running, LayerAction::Wait),
            },
            LayerPhase::Flushing(output) => match event {
                LayerEvent::Flushed { left, pushed } => (
                    LayerPhase::Done,
                    LayerAction::Finish(Self::flush_close(output, left, pushed)),
                ),
                _ => (LayerPhase::Flushing(output), LayerAction::Wait),
            },
        }
    }

    /// The routine of these options before anything has happened.
    pub fn build<E>(&self) -> (phase: LayerPhase<E>)
        ensures
            phase == LayerPhase::<E>::Running,
    {
        LayerPhase::Running
    }
}

/// A transport that a routine with the usual options can be made for.
pub trait TracingLayerDefault: Sized {
    fn tracing_layer_default(&self) -> (builder: MsgLayerBuiler<Self>)
        ensures
            builder.level_filter == LevelFilter::Debug,
            builder.ctrlc_shutdown,
            !builder.close_on_shutdown,
            builder.abort_on_error,
    ;
}

impl<T: CloseTransport + Clone> TracingLayerDefault for T {
    fn tracing_layer_default(&self) -> (builder: MsgLayerBuiler<Self>)
        ensures
            cloned(*self, builder.transport),
    {
        MsgLayerBuiler {
            transport: self.clone(),
            level_filter: LevelFilter::Debug,
            ctrlc_shutdown: true,
            close_on_shutdown: false,
            abort_on_error: true,
        }
    }
}

/// A routine that is stopped ends in good order unless emptying its queue
/// goes wrong: with nothing left, or with no more left than is pushed and a
/// push that works, it ends as it was stopped.
pub proof fn lemma_clean_flush_keeps_outcome<E>(
    output: Result<GraceType, LayerError<E>>,
    left: nat,
    pushed: Result<(), E>,
)
    requires
        left == 0 || (left <= FLUSH_LIMIT && pushed is Ok),
    ensures
        flush_outcome(output, left, pushed) == output,
{
}

/// A routine that was made to go on never ends because a message could not
/// be pushed.
pub proof fn lemma_discarded_errors_do_not_end<T, E>(
    builder: MsgLayerBuiler<T>,
    event: LayerEvent<E>,
)
    requires
        !builder.abort_on_error,
        event is Pushed,
    ensures
        builder.spec_step(LayerPhase::Running, event) == (
            LayerPhase::<E>::Running,
            LayerAction::<E>::Wait,
        ),
{
}

} // verus!
