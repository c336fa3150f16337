use flowy_sync::entities::{DocumentWSData, DocumentWSDataType, WSConnectState};
use flowy_sync::web_socket::editor::{stop_heard, EditorHttpWebSocket};
use flowy_sync::web_socket::sink::DocumentWebSocketSink;
use flowy_sync::web_socket::stream::{DocumentWebSocketStream, StreamAction, StreamEvent};
use std::sync::Arc;
use tokio::sync::broadcast::error::TryRecvError;

type Editor = EditorHttpWebSocket<u8, u16, u32>;

fn open() -> (Editor, DocumentWebSocketSink<u8, u32>, DocumentWebSocketStream<u16>) {
    EditorHttpWebSocket::new("doc", Arc::new(3u32), Arc::new(1u8), Arc::new(2u16))
}

fn message(id: &str) -> DocumentWSData {
    DocumentWSData {
        doc_id: "doc".to_string(),
        ty: DocumentWSDataType::PushRev,
        data: vec![1, 2, 3],
        id: id.to_string(),
    }
}

#[test]
fn the_tasks_belong_to_the_document() {
    let (editor, sink, stream) = open();
    assert_eq!(editor.doc_id(), "doc");
    assert_eq!(sink.doc_id(), "doc");
    assert_eq!(stream.doc_id(), "doc");
    assert_eq!(*sink.provider(), 1);
    assert_eq!(*sink.ws_sender(), 3);
    assert_eq!(*stream.consumer(), 2);
}

#[test]
fn received_messages_reach_the_stream_in_order() {
    let (mut editor, _sink, mut stream) = open();
    for id in ["1", "2", "3"] {
        assert_eq!(editor.receive(message(id)), Ok(()));
    }
    let (mut rx, _stop, _idle) = stream.run();
    assert_eq!(rx.try_recv(), Ok(message("1")));
    assert_eq!(rx.try_recv(), Ok(message("2")));
    assert_eq!(rx.try_recv(), Ok(message("3")));
    assert!(rx.try_recv().is_err());
}

#[test]
fn a_message_comes_back_when_the_stream_is_gone() {
    let (mut editor, _sink, stream) = open();
    drop(stream);
    assert_eq!(editor.receive(message("1")), Err(message("1")));
}

#[test]
fn a_refused_message_is_followed_by_refusals() {
    let (mut editor, _sink, mut stream) = open();
    let (mut rx, _stop, _idle) = stream.run();
    assert_eq!(editor.receive(message("1")), Ok(()));
    rx.close();
    assert_eq!(editor.receive(message("2")), Err(message("2")));
    assert_eq!(rx.try_recv(), Ok(message("1")));
    assert_eq!(editor.receive(message("3")), Err(message("3")));
    drop(rx);
    assert_eq!(editor.receive(message("4")), Err(message("4")));
}

#[test]
fn a_stop_reaches_both_tasks() {
    let (mut editor, mut sink, mut stream) = open();
    assert!(editor.stop_web_socket());
    let (mut sink_stop, _tx, _rx, _idle) = sink.run();
    let (_messages, mut stream_stop, _waiting) = stream.run();
    assert_eq!(sink_stop.try_recv(), Ok(()));
    assert_eq!(stream_stop.try_recv(), Ok(()));
    assert_eq!(sink_stop.try_recv(), Err(TryRecvError::Empty));
    assert_eq!(stream_stop.try_recv(), Err(TryRecvError::Empty));
}

#[test]
fn a_stop_that_nobody_hears_is_told() {
    let (mut editor, sink, stream) = open();
    drop(sink);
    assert!(editor.stop_web_socket());
    drop(stream);
    assert!(!editor.stop_web_socket());
}

#[test]
fn a_slow_task_loses_all_but_two_stops() {
    let (mut editor, mut sink, _stream) = open();
    for _ in 0..3 {
        assert!(editor.stop_web_socket());
    }
    let (mut stop, _tx, _rx, _idle) = sink.run();
    assert_eq!(stop.try_recv(), Err(TryRecvError::Lagged(1)));
    assert_eq!(stop.try_recv(), Ok(()));
    assert_eq!(stop.try_recv(), Ok(()));
    assert_eq!(stop.try_recv(), Err(TryRecvError::Empty));
}

#[test]
fn states_reach_those_who_listen() {
    let (mut editor, _sink, _stream) = open();
    assert_eq!(
        editor.connect_state_changed(&WSConnectState::Init),
        Err(WSConnectState::Init)
    );
    let mut first = editor.scribe_state();
    assert_eq!(editor.connect_state_changed(&WSConnectState::Connecting), Ok(()));
    let mut second = editor.scribe_state();
    assert_eq!(editor.connect_state_changed(&WSConnectState::Connected), Ok(()));
    assert_eq!(first.try_recv(), Ok(WSConnectState::Connecting));
    assert_eq!(first.try_recv(), Ok(WSConnectState::Connected));
    assert_eq!(first.try_recv(), Err(TryRecvError::Empty));
    assert_eq!(second.try_recv(), Ok(WSConnectState::Connected));
    assert_eq!(second.try_recv(), Err(TryRecvError::Empty));
}

#[test]
fn a_slow_listener_loses_all_but_two_states() {
    let (mut editor, _sink, _stream) = open();
    let mut rx = editor.scribe_state();
    for state in [
        WSConnectState::Connecting,
        WSConnectState::Connected,
        WSConnectState::Disconnected,
    ] {
        assert_eq!(editor.connect_state_changed(&state), Ok(()));
    }
    assert_eq!(rx.try_recv(), Err(TryRecvError::Lagged(1)));
    assert_eq!(rx.try_recv(), Ok(WSConnectState::Connected));
    assert_eq!(rx.try_recv(), Ok(WSConnectState::Disconnected));
}

#[test]
fn receiving_and_announcing_keep_apart() {
    let (mut editor, _sink, mut stream) = open();
    let mut states = editor.scribe_state();
    assert_eq!(editor.receive(message("1")), Ok(()));
    assert_eq!(states.try_recv(), Err(TryRecvError::Empty));
    assert_eq!(editor.connect_state_changed(&WSConnectState::Connected), Ok(()));
    let (mut rx, mut stop, _idle) = stream.run();
    assert_eq!(rx.try_recv(), Ok(message("1")));
    assert!(rx.try_recv().is_err());
    assert_eq!(stop.try_recv(), Err(TryRecvError::Empty));
}

#[test]
fn what_was_received_is_handled_in_order() {
    let (mut editor, _sink, mut stream) = open();
    for id in ["1", "2", "3"] {
        assert_eq!(editor.receive(message(id)), Ok(()));
    }
    drop(editor);
    let (mut rx, _stop, mut idle) = stream.run();
    let mut handled = Vec::new();
    loop {
        match idle.woken(StreamEvent::Received(rx.try_recv().ok())) {
            StreamAction::Handle { msg, wait } => {
                handled.push(msg.id);
                idle = wait.handled(Ok(())).0;
            },
            StreamAction::Exit => break,
        }
    }
    assert_eq!(handled, vec!["1", "2", "3"]);
}

#[test]
fn a_stop_is_heard_where_somebody_listened() {
    assert!(stop_heard(Ok(1)));
    assert!(stop_heard(Ok(2)));
    assert!(!stop_heard(Err(())));
}

#[test]
fn each_stop_is_heard_or_finds_nobody() {
    let (mut editor, sink, mut stream) = open();
    assert!(editor.stop_web_socket());
    drop(sink);
    assert!(editor.stop_web_socket());
    let (_messages, mut stop, _idle) = stream.run();
    assert_eq!(stop.try_recv(), Ok(()));
    assert_eq!(stop.try_recv(), Ok(()));
    assert_eq!(stop.try_recv(), Err(TryRecvError::Empty));
    drop(stop);
    assert!(!editor.stop_web_socket());
    assert!(!editor.stop_web_socket());
}

#[test]
fn every_listener_hears_a_state_and_a_new_one_makes_it_heard_again() {
    let (mut editor, _sink, _stream) = open();
    let state = WSConnectState::Connecting;
    assert_eq!(editor.connect_state_changed(&state), Err(WSConnectState::Connecting));
    let mut listeners = vec![editor.scribe_state(), editor.scribe_state(), editor.scribe_state()];
    assert_eq!(editor.connect_state_changed(&WSConnectState::Connected), Ok(()));
    for listener in listeners.iter_mut() {
        assert_eq!(listener.try_recv(), Ok(WSConnectState::Connected));
        assert_eq!(listener.try_recv(), Err(TryRecvError::Empty));
    }
    drop(listeners);
    assert_eq!(editor.connect_state_changed(&state), Err(WSConnectState::Connecting));
}

#[test]
fn states_go_on_after_a_stop() {
    let (mut editor, sink, stream) = open();
    let mut listener = editor.scribe_state();
    assert!(editor.stop_web_socket());
    drop((sink, stream));
    assert!(!editor.stop_web_socket());
    assert_eq!(editor.connect_state_changed(&WSConnectState::Connected), Ok(()));
    assert_eq!(listener.try_recv(), Ok(WSConnectState::Connected));
    assert_eq!(listener.try_recv(), Err(TryRecvError::Empty));
}

#[test]
fn messages_of_any_document_are_queued_in_order() {
    let (mut editor, _sink, mut stream) = open();
    let other = DocumentWSData { doc_id: "other".to_string(), ..message("2") };
    assert_eq!(editor.receive(message("1")), Ok(()));
    assert_eq!(editor.receive(DocumentWSData { doc_id: "other".to_string(), ..message("2") }), Ok(()));
    assert_eq!(editor.receive(message("1")), Ok(()));
    let (mut rx, _stop, _idle) = stream.run();
    assert_eq!(rx.try_recv(), Ok(message("1")));
    assert_eq!(rx.try_recv(), Ok(other));
    assert_eq!(rx.try_recv(), Ok(message("1")));
    assert!(rx.try_recv().is_err());
}
