use flowy_sync::entities::{DocumentWSData, DocumentWSDataType};
use flowy_sync::errors::{FlowyError, FlowyResult};
use flowy_sync::web_socket::stream::{
    DocumentWebSocketStream, StreamAction, StreamBusy, StreamEvent, StreamIdle, StreamStep,
};
use std::sync::Arc;
use tokio::sync::{broadcast, mpsc};

type Stream = DocumentWebSocketStream<()>;
type Step = StreamStep<(i64, i64), String>;

fn message(ty: DocumentWSDataType, id: &str, data: &[u8]) -> DocumentWSData {
    DocumentWSData { doc_id: "doc".to_string(), ty, data: data.to_vec(), id: id.to_string() }
}

fn begin(ty: DocumentWSDataType, id: &str, data: &[u8]) -> Step {
    Stream::converted(Ok(Stream::handle_message(message(ty, id, data)).convert()))
}

fn reported(text: &str) -> FlowyError {
    FlowyError::Reported(text.to_string())
}

fn result_of(step: Step) -> FlowyResult<()> {
    match step {
        StreamStep::Done(result) => result,
        _ => panic!("not done"),
    }
}

#[test]
fn handling_begins_with_the_whole_message() {
    let pending = Stream::handle_message(message(DocumentWSDataType::Ack, "7", &[1, 2]));
    assert_eq!(pending.ty, DocumentWSDataType::Ack);
    assert_eq!(pending.id, "7");
    assert_eq!(pending.data, vec![1, 2]);
    let payload = pending.convert();
    assert_eq!(payload.ty, DocumentWSDataType::Ack);
    assert_eq!(payload.id, "7");
    assert_eq!(&payload.bytes[..], &[1, 2]);
}

#[test]
fn an_empty_payload_stays_empty() {
    let payload = Stream::handle_message(message(DocumentWSDataType::Ack, "", &[])).convert();
    assert!(payload.bytes.is_empty());
}

#[test]
fn a_lost_payload_is_an_internal_error() {
    let step: Step = Stream::converted(Err("cancelled".to_string()));
    assert_eq!(result_of(step), Err(FlowyError::Internal("cancelled".to_string())));
}

#[test]
fn a_push_that_was_taken_is_acknowledged() {
    match begin(DocumentWSDataType::PushRev, "42", &[9, 8, 7]) {
        StreamStep::ReceivePush { bytes, wait } => {
            assert_eq!(&bytes[..], &[9, 8, 7]);
            let step: Step = wait.received(Ok(()));
            match step {
                StreamStep::ReceiveAck { id, ty, wait } => {
                    assert_eq!(id, "42");
                    assert_eq!(ty, DocumentWSDataType::PushRev);
                    assert_eq!(result_of(wait.acknowledged(Ok(()))), Ok(()));
                },
                _ => panic!("no acknowledgement"),
            }
        },
        _ => panic!("not pushed"),
    }
}

#[test]
fn a_push_that_was_refused_is_not_acknowledged() {
    match begin(DocumentWSDataType::PushRev, "42", &[1]) {
        StreamStep::ReceivePush { wait, .. } => {
            let step: Step = wait.received(Err(reported("conflict")));
            assert_eq!(result_of(step), Err(reported("conflict")));
        },
        _ => panic!("not pushed"),
    }
}

#[test]
fn a_pull_is_answered_with_the_range() {
    for outcome in [Ok(()), Err(reported("offline"))] {
        let expected = match &outcome {
            Ok(()) => Ok(()),
            Err(_) => Err(reported("offline")),
        };
        match begin(DocumentWSDataType::PullRev, "1", &[5]) {
            StreamStep::DecodeRange { bytes, wait } => {
                assert_eq!(&bytes[..], &[5]);
                let step: Step = wait.decoded(Ok((3, 6)));
                match step {
                    StreamStep::SendRange { range, wait } => {
                        assert_eq!(range, (3, 6));
                        assert_eq!(result_of(wait.sent(outcome)), expected);
                    },
                    _ => panic!("not sent"),
                }
            },
            _ => panic!("not decoded"),
        }
    }
}

#[test]
fn a_range_that_does_not_decode_is_an_error() {
    match begin(DocumentWSDataType::PullRev, "1", &[5]) {
        StreamStep::DecodeRange { wait, .. } => {
            let step: Step = wait.decoded(Err(reported("garbled")));
            assert_eq!(result_of(step), Err(reported("garbled")));
        },
        _ => panic!("not decoded"),
    }
}

#[test]
fn an_ack_reaches_the_consumer_and_its_answer_is_ignored() {
    match begin(DocumentWSDataType::Ack, "99", &[1]) {
        StreamStep::ReceiveAck { id, ty, wait } => {
            assert_eq!(id, "99");
            assert_eq!(ty, DocumentWSDataType::Ack);
            assert_eq!(result_of(wait.acknowledged(Err(reported("ignored")))), Ok(()));
        },
        _ => panic!("no acknowledgement"),
    }
}

#[test]
fn a_new_user_is_announced_and_the_answer_is_ignored() {
    match begin(DocumentWSDataType::UserConnect, "1", &[4, 2]) {
        StreamStep::DecodeUser { bytes, wait } => {
            assert_eq!(&bytes[..], &[4, 2]);
            let step: Step = wait.decoded(Ok("ann".to_string()));
            match step {
                StreamStep::ConnectUser { new_user, wait } => {
                    assert_eq!(new_user, "ann");
                    assert_eq!(result_of(wait.connected(Err(reported("ignored")))), Ok(()));
                },
                _ => panic!("not announced"),
            }
        },
        _ => panic!("not decoded"),
    }
}

#[test]
fn a_user_who_does_not_decode_is_an_error() {
    match begin(DocumentWSDataType::UserConnect, "1", &[4, 2]) {
        StreamStep::DecodeUser { wait, .. } => {
            let step: Step = wait.decoded(Err(reported("garbled")));
            assert_eq!(result_of(step), Err(reported("garbled")));
        },
        _ => panic!("not decoded"),
    }
}

#[test]
fn messages_are_handled_in_order_until_the_queue_ends() {
    let mut idle = StreamIdle {};
    let mut handled = Vec::new();
    let mut noted = Vec::new();
    let turns = vec![
        (Some("1"), Ok(())),
        (Some("2"), Err(reported("bad"))),
        (Some("3"), Ok(())),
        (None, Ok(())),
        (Some("4"), Ok(())),
    ];
    for (id, result) in turns {
        let received = id.map(|id| message(DocumentWSDataType::Ack, id, &[]));
        match idle.woken(StreamEvent::Received(received)) {
            StreamAction::Handle { msg, wait } => {
                handled.push(msg.id);
                let (next, failure) = wait.handled(result);
                idle = next;
                noted.extend(failure);
            },
            StreamAction::Exit => break,
        }
    }
    assert_eq!(handled, vec!["1", "2", "3"]);
    assert_eq!(noted, vec![reported("bad")]);
}

#[test]
fn a_stop_ends_the_task() {
    assert!(matches!(StreamIdle {}.woken(StreamEvent::Stopped), StreamAction::Exit));
}

#[test]
fn a_handled_message_leaves_nothing_to_note() {
    let (_, failure) = StreamBusy {}.handled(Ok(()));
    assert!(failure.is_none());
}

#[test]
fn the_task_waits_on_the_ends_it_was_made_with() {
    let (tx, rx) = mpsc::unbounded_channel();
    let (stop_tx, stop_rx) = broadcast::channel(2);
    let consumer = Arc::new(());
    let mut stream = Stream::new("doc-1", consumer.clone(), rx, stop_rx);
    assert_eq!(stream.doc_id(), "doc-1");
    assert!(Arc::ptr_eq(&stream.consumer(), &consumer));
    assert!(tx.send(message(DocumentWSDataType::Ack, "a", &[])).is_ok());
    assert!(stop_tx.send(()).is_ok());
    let (mut receiver, mut stop, _idle) = stream.run();
    assert_eq!(receiver.try_recv().map(|m| m.id), Ok("a".to_string()));
    assert!(stop.try_recv().is_ok());
}
