use tokio::sync::broadcast::error::TryRecvError;
use tracing_surreal::async_req_res::{answered, req_res, sent, Request, RequestError};
use tracing_surreal::stop::id_gen::IdGen;
use tracing_surreal::stop::{RecordId, Stop, StopError};
use tracing_surreal::tracing_msg::observe::{observer, LiveError, ObserveMsg, Observer};
use tracing_surreal::tracing_msg::observe::{ClientId, ClientRef, MsgInfo};
use tracing_surreal::tracing_msg::{PushMsg, Role, Timestamp, TracingMsg};

fn told(body: u32) -> ObserveMsg<u32> {
    ObserveMsg::OnMsg(MsgInfo {
        client_info: ClientRef::Id(ClientId("clients".to_string(), "C".to_string())),
        tracing_msg: TracingMsg::new(body, Timestamp::new(1).unwrap(), None, 1, None),
    })
}

#[test]
fn a_request_gets_its_own_answer() {
    let (requester, mut respondor) = req_res::<u32, String>();
    let other = requester.clone();
    let mut first = requester.request(1).unwrap();
    let mut second = other.request(2).unwrap();
    let request = respondor.next_requset().try_recv().unwrap();
    assert_eq!(request.req(), 1);
    assert_eq!(request.req_cloned(), 1);
    assert_eq!(request.req_ref(), &1);
    assert_eq!(request.response("one".to_string()), Ok(()));
    let request = respondor.next_requset().try_recv().unwrap();
    assert_eq!(request.req(), 2);
    assert_eq!(request.response("two".to_string()), Ok(()));
    assert_eq!(answered(second.try_recv().map_err(|_| unreachable!())), Ok("two".to_string()));
    assert_eq!(first.blocking_recv().ok(), Some("one".to_string()));
    assert!(respondor.next_requset().try_recv().is_err());
}

#[test]
fn a_request_that_is_dropped_gets_no_answer() {
    let (requester, mut respondor) = req_res::<u32, String>();
    let awaiting = requester.request(1).unwrap();
    drop(respondor.next_requset().try_recv().unwrap());
    assert_eq!(answered(awaiting.blocking_recv()), Err(RequestError::RecvResErr));

    let (requester, respondor) = req_res::<u32, String>();
    let awaiting = requester.request(1).unwrap();
    drop(respondor);
    assert_eq!(answered(awaiting.blocking_recv()), Err(RequestError::RecvResErr));
}

#[test]
fn a_request_cannot_be_sent_to_a_closed_bridge() {
    let (requester, mut respondor) = req_res::<u32, String>();
    let queued = requester.request(1).unwrap();
    respondor.close();
    assert_eq!(requester.request(2).err(), Some(RequestError::SendReqErr));
    let request = respondor.next_requset().try_recv().unwrap();
    assert_eq!(request.response("late".to_string()), Ok(()));
    assert_eq!(answered(queued.blocking_recv()), Ok("late".to_string()));

    let (requester, respondor) = req_res::<u32, String>();
    drop(respondor);
    assert_eq!(requester.request(1).err(), Some(RequestError::SendReqErr));
}

#[test]
fn an_answer_comes_back_where_nobody_waits() {
    let (requester, mut respondor) = req_res::<u32, String>();
    drop(requester.request(1).unwrap());
    let request = respondor.next_requset().try_recv().unwrap();
    assert_eq!(request.response("lost".to_string()), Err("lost".to_string()));
}

#[test]
fn errors_of_the_bridge_say_what_they_are() {
    assert_eq!(
        RequestError::SendReqErr.message(),
        "send request error: Respondor closed or dropped"
    );
    assert_eq!(
        RequestError::RecvResErr.message(),
        "recv response error: Request handle dropped without sending response"
    );
}

#[test]
fn the_backlog_is_handed_out_once() {
    let (feed, live) = tokio::sync::broadcast::channel(8);
    let mut watching: Observer<u32> = observer(vec![told(1), told(2)], live);
    assert_eq!(watching.history(), vec![told(1), told(2)]);
    assert_eq!(watching.history(), Vec::new());
    assert_eq!(watching.try_next_live(), Err(LiveError::Empty));
    feed.send(told(3)).unwrap();
    assert_eq!(watching.history(), Vec::new());
    assert_eq!(watching.try_next_live(), Ok(told(3)));
    assert_eq!(watching.try_next_live(), Err(LiveError::Empty));
    assert_eq!(watching.live_mut().len(), 0);
    drop(feed);
    assert_eq!(watching.try_next_live(), Err(LiveError::Closed));
}

#[test]
fn a_reader_that_falls_behind_is_told_so() {
    let (feed, live) = tokio::sync::broadcast::channel(2);
    let mut watching: Observer<u32> = observer(Vec::new(), live);
    for body in 0..5 {
        feed.send(told(body)).unwrap();
    }
    assert_eq!(watching.try_next_live(), Err(LiveError::Lagged(3)));
    assert_eq!(watching.try_next_live(), Ok(told(3)));
    assert_eq!(watching.try_next_live(), Ok(told(4)));
    assert_eq!(watching.try_next_live(), Err(LiveError::Empty));
}

#[test]
fn waiting_for_the_feed_tells_lag_from_the_end() {
    let (feed, mut live) = tokio::sync::broadcast::channel(1);
    feed.send(told(1)).unwrap();
    feed.send(told(2)).unwrap();
    assert_eq!(Observer::next_live(live.blocking_recv()), Err(LiveError::Lagged(1)));
    assert_eq!(Observer::next_live(live.blocking_recv()), Ok(told(2)));
    drop(feed);
    assert_eq!(Observer::next_live(live.blocking_recv()), Err(LiveError::Closed));
}

#[test]
fn sending_tells_the_two_outcomes_apart() {
    assert_eq!(sent(Ok::<(), u8>(()), 7), Ok(7));
    assert_eq!(sent(Err(1u8), 7), Err(RequestError::SendReqErr));
}

#[test]
fn a_request_carries_what_is_asked_and_its_own_slot() {
    let (request, awaiting) = Request::<u32, String>::new(5);
    assert_eq!(request.req(), 5);
    assert_eq!(request.response("five".to_string()), Ok(()));
    assert_eq!(answered(awaiting.blocking_recv()), Ok("five".to_string()));
}

#[test]
fn the_queue_of_the_respondor_is_the_one_requests_come_in_by() {
    let (requester, mut respondor) = req_res::<u32, String>();
    assert!(respondor.next_requset().is_empty());
    drop(requester.request(1).unwrap());
    drop(requester.request(2).unwrap());
    assert_eq!(respondor.next_requset().len(), 2);
    assert_eq!(respondor.next_requset().try_recv().unwrap().req(), 1);
    assert_eq!(respondor.next_requset().len(), 1);
}

#[test]
fn taking_from_the_feed_gives_the_item_or_the_reason() {
    assert_eq!(Observer::taken(Ok(told(1))), Ok(told(1)));
    assert_eq!(Observer::<u32>::taken(Err(TryRecvError::Empty)), Err(LiveError::Empty));
    assert_eq!(Observer::<u32>::taken(Err(TryRecvError::Closed)), Err(LiveError::Closed));
    assert_eq!(Observer::<u32>::taken(Err(TryRecvError::Lagged(4))), Err(LiveError::Lagged(4)));
}

#[test]
fn pushing_one_message_is_pushing_the_batch_of_one() {
    let rid = |key: &str| RecordId { table: "t".to_string(), key: key.to_string() };
    let msg = || TracingMsg::new(9u32, Timestamp::new(-1).unwrap(), None, 1, None);
    let mut pusher = Stop::for_participant(rid("S"), "stamp".to_string(), rid("C"), Role::Pusher, true);
    let mut one = IdGen::new();
    let mut batch = IdGen::new();
    assert_eq!(
        pusher.push_msg(&mut one, msg()).unwrap(),
        pusher.bulk_push(&mut batch, vec![msg()]).unwrap()
    );
    let mut observer = Stop::for_participant(rid("S"), "stamp".to_string(), rid("O"), Role::Observer, true);
    assert_eq!(observer.push_msg(&mut one, msg()), Err(StopError::ObserverCannotPush));
}
