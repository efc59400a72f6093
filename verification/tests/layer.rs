use tracing_surreal::stop::{RecordId, Stop, StopError};
use tracing_surreal::tracing_msg::layer::{
    close_msg_of, flush_plan, Describe, LayerAction, LayerError, LayerEvent, LayerPhase,
    LevelFilter, MsgLayerBuiler, TracingLayerDefault, FLUSH_LIMIT,
};
use tracing_surreal::tracing_msg::{CloseErr, CloseErrKind, CloseMsg, CloseOk, GraceType, Role};

type Output = Result<GraceType, LayerError<StopError>>;

fn transport() -> Stop {
    Stop::for_participant(
        RecordId { table: ".sessions".to_string(), key: "S".to_string() },
        "stamp".to_string(),
        RecordId { table: "stamp-clients".to_string(), key: "H".to_string() },
        Role::Host,
        true,
    )
}

fn builder() -> MsgLayerBuiler<Stop> {
    transport().tracing_layer_default()
}

#[test]
fn a_routine_starts_with_the_usual_options() {
    let builder = builder();
    assert_eq!(builder.level_filter, LevelFilter::Debug);
    assert!(builder.ctrlc_shutdown);
    assert!(!builder.close_on_shutdown);
    assert!(builder.abort_on_error);
    assert_eq!(builder.transport, transport());
    let builder = builder
        .set_level_filter(LevelFilter::Warn)
        .disable_ctrlc_shutdown()
        .close_transport_on_shutdown()
        .discard_push_error();
    assert_eq!(builder.level_filter, LevelFilter::Warn);
    assert!(!builder.ctrlc_shutdown && builder.close_on_shutdown && !builder.abort_on_error);
    assert_eq!(builder.disable_level_filter().level_filter, LevelFilter::Trace);
}

#[test]
fn errors_of_a_routine_say_what_they_are() {
    let io: LayerError<StopError> = LayerError::Io("sig".to_string());
    assert_eq!(io.message(), "io error: `sig`");
    assert_eq!(io.kind(), CloseErrKind::Io);
    let dropped: LayerError<StopError> = LayerError::LayerDropped;
    assert_eq!(dropped.message(), "MsgLayer dropped");
    assert_eq!(dropped.kind(), CloseErrKind::LayerDropped);
    let push = LayerError::PushMsgErr(StopError::ObserverCannotPush);
    assert_eq!(push.message(), "push_msg error: `observer cannot push`");
    assert_eq!(push.kind(), CloseErrKind::PushMsgErr);
    let bulk = LayerError::BulkPushErr(StopError::Surreal("down".to_string()));
    assert_eq!(bulk.message(), "bulk_push error: `surrealdb error: `down``");
    assert_eq!(bulk.close_err(), CloseErr::with_text(CloseErrKind::BulkPushErr, "bulk_push error: `surrealdb error: `down``"));
    let full: LayerError<StopError> = LayerError::BufferFull;
    assert_eq!(full.message(), "msg buffer full");
    assert_eq!(full.kind(), CloseErrKind::BufferFull);
    assert_eq!(StopError::CorruptedData.description(), "corrupted data");
}

#[test]
fn the_result_of_a_routine_is_what_the_transport_is_told() {
    let good: Output = Ok(GraceType::Explicit);
    let bad: Output = Err(LayerError::BufferFull);
    assert_eq!(close_msg_of(&good), CloseMsg::ok(CloseOk::Grace(GraceType::Explicit)));
    assert_eq!(
        close_msg_of(&bad),
        CloseMsg::err(CloseErr::with_text(CloseErrKind::BufferFull, "msg buffer full"))
    );
    assert_eq!(builder().close(&good), None);
    let telling = builder().close_transport_on_shutdown();
    assert_eq!(telling.close(&good), Some(CloseMsg::ok(CloseOk::Grace(GraceType::Explicit))));
    assert_eq!(
        telling.close(&bad),
        Some(CloseMsg::err(CloseErr::with_text(CloseErrKind::BufferFull, "msg buffer full")))
    );
}

#[test]
fn at_the_end_no_more_than_the_limit_is_pushed() {
    assert_eq!(FLUSH_LIMIT, 1024);
    assert_eq!(flush_plan(Vec::<u32>::new()), (Vec::new(), false));
    assert_eq!(flush_plan(vec![1, 2, 3]), (vec![1, 2, 3], false));
    let exact: Vec<u32> = (0..1024).collect();
    assert_eq!(flush_plan(exact.clone()), (exact.clone(), false));
    let over: Vec<u32> = (0..1025).collect();
    assert_eq!(flush_plan(over), (exact, true));
}

#[test]
fn emptying_the_queue_can_change_the_result() {
    let stopped = || -> Output { Ok(GraceType::CtrlC) };
    assert_eq!(MsgLayerBuiler::<Stop>::flush_close(stopped(), 0, Ok(())), Ok(GraceType::CtrlC));
    assert_eq!(
        MsgLayerBuiler::<Stop>::flush_close(stopped(), 0, Err(StopError::StreamClosed)),
        Ok(GraceType::CtrlC)
    );
    assert_eq!(MsgLayerBuiler::<Stop>::flush_close(stopped(), 1024, Ok(())), Ok(GraceType::CtrlC));
    assert_eq!(
        MsgLayerBuiler::<Stop>::flush_close(stopped(), 1025, Ok(())),
        Err(LayerError::BufferFull)
    );
    assert_eq!(
        MsgLayerBuiler::<Stop>::flush_close(stopped(), 5, Err(StopError::ObserverCannotPush)),
        Err(LayerError::BulkPushErr(StopError::ObserverCannotPush))
    );
    assert_eq!(
        MsgLayerBuiler::<Stop>::flush_close(stopped(), 2000, Err(StopError::ObserverCannotPush)),
        Err(LayerError::BulkPushErr(StopError::ObserverCannotPush))
    );
    let failed: Output = Err(LayerError::Io("sig".to_string()));
    assert_eq!(
        MsgLayerBuiler::<Stop>::flush_close(failed, 3, Ok(())),
        Err(LayerError::Io("sig".to_string()))
    );
}

#[test]
fn a_routine_pushes_until_it_is_stopped() {
    let builder = builder();
    let phase: LayerPhase<StopError> = builder.build();
    assert_eq!(phase, LayerPhase::Running);
    let (phase, action) = builder.step(phase, LayerEvent::Received);
    assert_eq!((&phase, &action), (&LayerPhase::Running, &LayerAction::Push));
    let (phase, action) = builder.step(phase, LayerEvent::Pushed(Ok(())));
    assert_eq!((&phase, &action), (&LayerPhase::Running, &LayerAction::Wait));
    let (phase, action) = builder.step(phase, LayerEvent::ShutdownRequested);
    assert_eq!(
        (&phase, &action),
        (&LayerPhase::Flushing(Ok(GraceType::Explicit)), &LayerAction::Flush)
    );
    let (phase, action) = builder.step(phase, LayerEvent::Received);
    assert_eq!(action, LayerAction::Wait);
    let (phase, action) = builder.step(phase, LayerEvent::Flushed { left: 7, pushed: Ok(()) });
    assert_eq!(
        (&phase, &action),
        (&LayerPhase::Done, &LayerAction::Finish(Ok(GraceType::Explicit)))
    );
    let (phase, action) = builder.step(phase, LayerEvent::Received);
    assert_eq!((&phase, &action), (&LayerPhase::Done, &LayerAction::Wait));
}

#[test]
fn a_failed_push_ends_the_routine_unless_told_otherwise() {
    let failed = || LayerEvent::Pushed(Err(StopError::ObserverCannotPush));
    let (phase, action) = builder().step(LayerPhase::Running, failed());
    assert_eq!(phase, LayerPhase::Done);
    assert_eq!(
        action,
        LayerAction::Finish(Err(LayerError::PushMsgErr(StopError::ObserverCannotPush)))
    );
    let lenient = builder().discard_push_error();
    let (phase, action) = lenient.step(LayerPhase::Running, failed());
    assert_eq!((phase, action), (LayerPhase::Running, LayerAction::Wait));
    assert_eq!(lenient.push_msg(Err(StopError::StreamClosed)), Ok(()));
    assert_eq!(
        builder().push_msg(Err(StopError::StreamClosed)),
        Err(LayerError::PushMsgErr(StopError::StreamClosed))
    );
    assert_eq!(builder().push_msg::<StopError>(Ok(())), Ok(()));
}

#[test]
fn an_interrupt_counts_only_where_it_is_listened_for() {
    let (phase, action) = builder().step::<StopError>(LayerPhase::Running, LayerEvent::Interrupted(Ok(())));
    assert_eq!((phase, action), (LayerPhase::Flushing(Ok(GraceType::CtrlC)), LayerAction::Flush));
    let (phase, action) = builder()
        .step::<StopError>(LayerPhase::Running, LayerEvent::Interrupted(Err("sig".to_string())));
    assert_eq!(
        (phase, action),
        (LayerPhase::Flushing(Err(LayerError::Io("sig".to_string()))), LayerAction::Flush)
    );
    let deaf = builder().disable_ctrlc_shutdown();
    let (phase, action) = deaf.step::<StopError>(LayerPhase::Running, LayerEvent::Interrupted(Ok(())));
    assert_eq!((phase, action), (LayerPhase::Running, LayerAction::Wait));
    let (phase, action) = deaf.step::<StopError>(LayerPhase::Running, LayerEvent::QueueClosed);
    assert_eq!((phase, action), (LayerPhase::Done, LayerAction::Finish(Err(LayerError::LayerDropped))));
}
