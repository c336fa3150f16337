use flowy_sync::entities::{DocumentWSData, DocumentWSDataType};
use flowy_sync::errors::FlowyError;
use flowy_sync::web_socket::sink::{
    tick, tick_action, DocumentWebSocketSink, SinkAction, SinkEvent, SinkIdle, SinkStep, TickAction,
};
use std::sync::Arc;
use tokio::sync::{broadcast, mpsc};

type Sink = DocumentWebSocketSink<u8, u16>;

fn message(id: &str) -> DocumentWSData {
    DocumentWSData {
        doc_id: "doc".to_string(),
        ty: DocumentWSDataType::PushRev,
        data: vec![1],
        id: id.to_string(),
    }
}

#[test]
fn what_the_provider_gives_is_sent() {
    match Sink::send_next_revision(Ok(Some(message("5")))) {
        SinkStep::Send(data, wait) => {
            assert_eq!(data, message("5"));
            assert_eq!(wait.sent(Ok(())), Ok(()));
        },
        SinkStep::Done(_) => panic!("not sent"),
    }
}

#[test]
fn a_socket_that_fails_is_an_internal_error() {
    match Sink::send_next_revision(Ok(Some(message("5")))) {
        SinkStep::Send(_, wait) => assert_eq!(
            wait.sent(Err("closed".to_string())),
            Err(FlowyError::Internal("closed".to_string()))
        ),
        SinkStep::Done(_) => panic!("not sent"),
    }
}

#[test]
fn nothing_is_sent_where_the_provider_has_nothing() {
    match Sink::send_next_revision(Ok(None)) {
        SinkStep::Done(result) => assert_eq!(result, Ok(())),
        SinkStep::Send(..) => panic!("sent"),
    }
}

#[test]
fn the_error_of_the_provider_is_the_result() {
    match Sink::send_next_revision(Err(FlowyError::Reported("disk".to_string()))) {
        SinkStep::Done(result) => assert_eq!(result, Err(FlowyError::Reported("disk".to_string()))),
        SinkStep::Send(..) => panic!("sent"),
    }
}

#[test]
fn every_tick_sends_until_the_end() {
    let mut idle = SinkIdle {};
    let mut sends = 0;
    let mut noted = 0;
    let turns = vec![
        (SinkEvent::Ticked(Some(())), Ok(())),
        (SinkEvent::Ticked(Some(())), Err(FlowyError::Internal("x".to_string()))),
        (SinkEvent::Ticked(Some(())), Ok(())),
        (SinkEvent::Stopped, Ok(())),
        (SinkEvent::Ticked(Some(())), Ok(())),
    ];
    for (event, result) in turns {
        match idle.woken(event) {
            SinkAction::SendNext(wait) => {
                sends += 1;
                let (next, failure) = wait.sent(result);
                idle = next;
                noted += failure.iter().count();
            },
            SinkAction::Exit => break,
        }
    }
    assert_eq!(sends, 3);
    assert_eq!(noted, 1);
}

#[test]
fn a_clock_that_ended_ends_the_task() {
    assert!(matches!(SinkIdle {}.woken(SinkEvent::Ticked(None)), SinkAction::Exit));
}

#[test]
fn ticks_go_on_while_somebody_takes_them() {
    let (mut tx, mut rx) = mpsc::unbounded_channel();
    assert_eq!(tick(&mut tx), TickAction::Wait);
    assert_eq!(tick(&mut tx), TickAction::Wait);
    assert!(rx.try_recv().is_ok());
    assert!(rx.try_recv().is_ok());
    assert!(rx.try_recv().is_err());
    drop(rx);
    assert_eq!(tick(&mut tx), TickAction::End);
    assert_eq!(tick(&mut tx), TickAction::End);
}

#[test]
fn what_is_given_is_sent_in_its_order() {
    let gives = |id: &str| (SinkEvent::Ticked(Some(())), Ok(Some(message(id))), Ok(()));
    let turns = vec![
        gives("1"),
        (SinkEvent::Ticked(Some(())), Ok(None), Ok(())),
        (SinkEvent::Ticked(Some(())), Err(FlowyError::Internal("x".to_string())), Ok(())),
        (SinkEvent::Ticked(Some(())), Ok(Some(message("2"))), Err("down".to_string())),
        gives("3"),
        (SinkEvent::Ticked(None), Ok(Some(message("4"))), Ok(())),
        gives("5"),
    ];
    let mut idle = SinkIdle {};
    let mut sent = Vec::new();
    let mut noted = Vec::new();
    for (event, next, socket) in turns {
        let wait = match idle.woken(event) {
            SinkAction::SendNext(wait) => wait,
            SinkAction::Exit => break,
        };
        let result = match Sink::send_next_revision(next) {
            SinkStep::Send(data, wait) => {
                sent.push(data.id);
                wait.sent(socket)
            },
            SinkStep::Done(result) => result,
        };
        let (waiting, failure) = wait.sent(result);
        idle = waiting;
        noted.extend(failure);
    }
    assert_eq!(sent, vec!["1", "2", "3"]);
    assert_eq!(
        noted,
        vec![FlowyError::Internal("x".to_string()), FlowyError::Internal("down".to_string())]
    );
}

#[test]
fn the_clock_follows_the_outcome() {
    assert_eq!(tick_action(Ok(())), TickAction::Wait);
    assert_eq!(tick_action(Err(())), TickAction::End);
}

#[test]
fn the_task_waits_on_its_own_clock() {
    let (stop_tx, stop_rx) = broadcast::channel(2);
    let provider = Arc::new(1u8);
    let socket = Arc::new(2u16);
    let mut sink = Sink::new("doc-2", provider.clone(), socket.clone(), stop_rx);
    assert_eq!(sink.doc_id(), "doc-2");
    assert!(Arc::ptr_eq(&sink.provider(), &provider));
    assert!(Arc::ptr_eq(&sink.ws_sender(), &socket));
    let (mut stop, mut tx, mut rx, _idle) = sink.run();
    assert!(rx.try_recv().is_err());
    assert_eq!(tick(&mut tx), TickAction::Wait);
    assert_eq!(rx.try_recv(), Ok(()));
    assert!(stop.try_recv().is_err());
    assert!(stop_tx.send(()).is_ok());
    assert!(stop.try_recv().is_ok());
}
