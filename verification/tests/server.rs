use flowy_sync::entities::{Doc, Revision, RevisionUser};
use flowy_sync::errors::{CollaborateError, CollaborateResult, OTError};
use flowy_sync::server::editor::ServerDocEditor;
use flowy_sync::server::handle::{OpenDoc, OpenDocHandle, COMMAND_BUFFER};
use flowy_sync::server::manager::{caching, ServerDocManager, ServerDocPersistence};
use flowy_sync::server::queue::{DocCommand, DocCommandQueue, DocReply, QueueAction, QueueStep};
use std::sync::Arc;
use tokio::sync::mpsc;

struct NoStorage {}

impl ServerDocPersistence for NoStorage {
    type Delta = u8;

    fn create_doc(&self, _doc_id: &str, _delta: u8) -> CollaborateResult<()> {
        Ok(())
    }

    fn update_doc(&self, _doc_id: &str, _delta: u8) -> CollaborateResult<()> {
        Ok(())
    }

    fn read_doc(&self, doc_id: &str) -> CollaborateResult<Doc> {
        Ok(doc(doc_id, 0))
    }
}

fn doc(id: &str, rev_id: i64) -> Doc {
    Doc { id: id.to_string(), rev_id, data: vec![7] }
}

fn user(id: &str, conn: u64) -> RevisionUser {
    RevisionUser { user_id: id.to_string(), conn }
}

fn revision(rev_id: i64) -> Revision {
    Revision { base_rev_id: rev_id - 1, rev_id, delta_data: vec![1, 2] }
}

fn internal(text: &str) -> CollaborateError {
    CollaborateError::Internal(text.to_string())
}

fn open(id: &str, rev_id: i64) -> OpenDoc<u8> {
    match OpenDocHandle::new(doc(id, rev_id), Ok(5u8)) {
        Ok(opened) => opened,
        Err(_) => panic!("not opened"),
    }
}

fn deliver(reply: DocReply) {
    match reply {
        DocReply::Done { ret, value } => assert!(ret.send(value).is_ok()),
        DocReply::Json { ret, value } => assert!(ret.send(value).is_ok()),
        DocReply::RevId { ret, value } => assert!(ret.send(value).is_ok()),
    }
}

#[test]
fn an_opened_document_seeds_its_synchronizer() {
    let (editor, seed) = match ServerDocEditor::new(doc("d", 12), Ok("delta")) {
        Ok(opened) => opened,
        Err(_) => panic!("not opened"),
    };
    assert_eq!(editor.doc_id, "d");
    assert_eq!(editor.rev_id, 12);
    assert_eq!(editor.rev_id(), 12);
    assert_eq!(seed.doc_id, "d");
    assert_eq!(seed.rev_id, 12);
    assert_eq!(seed.delta, "delta");
}

#[test]
fn a_delta_that_does_not_decode_opens_nothing() {
    let failure = || OTError { text: "bad delta".to_string() };
    match ServerDocEditor::new::<u8>(doc("d", 1), Err(failure())) {
        Err(e) => assert_eq!(e, failure()),
        Ok(_) => panic!("opened"),
    }
    let (_tx, rx) = mpsc::channel(1);
    match DocCommandQueue::new::<u8>(rx, doc("d", 1), Err(failure())) {
        Err(e) => assert_eq!(e, internal("bad delta")),
        Ok(_) => panic!("opened"),
    }
    match OpenDocHandle::new::<u8>(doc("d", 1), Err(failure())) {
        Err(e) => assert_eq!(e, internal("bad delta")),
        Ok(_) => panic!("opened"),
    }
}

#[test]
fn a_user_displaces_the_earlier_connection_of_the_same_id() {
    let (mut editor, _seed) = match ServerDocEditor::new(doc("d", 1), Ok(())) {
        Ok(opened) => opened,
        Err(_) => panic!("not opened"),
    };
    let first = editor.new_doc_user(user("ann", 1), 4);
    assert_eq!(first.user, user("ann", 1));
    assert_eq!(first.rev_id, 4);
    assert_eq!(first.displaced, None);
    let other = editor.new_doc_user(user("bob", 2), 4);
    assert_eq!(other.displaced, None);
    let applied = editor.apply_revision(user("ann", 3), revision(5));
    assert_eq!(applied.user, user("ann", 3));
    assert_eq!(applied.revision, revision(5));
    assert_eq!(applied.displaced, Some(user("ann", 1)));
    let again = editor.new_doc_user(user("ann", 4), 5);
    assert_eq!(again.displaced, Some(user("ann", 3)));
}

#[test]
fn the_queue_ends_when_all_senders_are_gone() {
    let mut opened = open("d", 1);
    let call = opened.handle.rev_id();
    assert!(matches!(DocCommandQueue::woken(Some(call.msg)), QueueAction::Handle(_)));
    let mut receiver = opened.queue.run();
    let call = opened.handle.rev_id();
    assert!(opened.handle.sender().try_send(call.msg).is_ok());
    assert!(matches!(receiver.try_recv(), Ok(DocCommand::GetDocRevId { .. })));
    drop(opened.handle);
    assert!(receiver.try_recv().is_err());
    assert!(matches!(DocCommandQueue::woken(None), QueueAction::Exit));
}

#[test]
fn the_queue_holds_a_hundred_commands() {
    let opened = open("d", 1);
    assert_eq!(COMMAND_BUFFER, 100);
    assert_eq!(opened.handle.sender().max_capacity(), 100);
    for _ in 0..100 {
        assert!(opened.handle.sender().try_send(opened.handle.rev_id().msg).is_ok());
    }
    assert!(opened.handle.sender().try_send(opened.handle.rev_id().msg).is_err());
}

#[test]
fn adding_a_user_is_answered_to_the_one_who_asked() {
    let mut opened = open("d", 1);
    let mut call = opened.handle.add_user(user("ann", 8), 3);
    let mut bystander = opened.handle.add_user(user("bob", 9), 3);
    match opened.queue.handle_message(call.msg) {
        QueueStep::Connect { request, wait } => {
            assert_eq!(request.user, user("ann", 8));
            assert_eq!(request.rev_id, 3);
            assert_eq!(request.displaced, None);
            deliver(wait.connected());
        },
        _ => panic!("not connected"),
    }
    assert_eq!(call.rx.try_recv(), Ok(Ok(())));
    assert!(bystander.rx.try_recv().is_err());
}

#[test]
fn a_revision_is_applied_and_answered() {
    let mut opened = open("d", 1);
    let mut call = opened.handle.apply_revision(user("ann", 8), revision(2));
    match opened.queue.handle_message(call.msg) {
        QueueStep::Apply { request, wait } => {
            assert_eq!(request.user, user("ann", 8));
            assert_eq!(request.revision, revision(2));
            deliver(wait.applied(Ok(())));
        },
        _ => panic!("not applied"),
    }
    assert_eq!(call.rx.try_recv(), Ok(Ok(())));
}

#[test]
fn the_document_is_answered_as_it_was_written() {
    let mut opened = open("d", 1);
    let mut call = opened.handle.document_json();
    match opened.queue.handle_message(call.msg) {
        QueueStep::ReadJson { wait } => deliver(wait.read(Ok("[]".to_string()))),
        _ => panic!("not read"),
    }
    assert_eq!(call.rx.try_recv(), Ok(Ok("[]".to_string())));
    let mut call = opened.handle.document_json();
    match opened.queue.handle_message(call.msg) {
        QueueStep::ReadJson { wait } => deliver(wait.read(Err("panicked".to_string()))),
        _ => panic!("not read"),
    }
    assert_eq!(call.rx.try_recv(), Ok(Err(internal("panicked"))));
}

#[test]
fn the_revision_number_is_that_of_the_opening() {
    let mut opened = open("d", 17);
    for rev_id in 18..21 {
        let call = opened.handle.apply_revision(user("ann", 1), revision(rev_id));
        match opened.queue.handle_message(call.msg) {
            QueueStep::Apply { wait, .. } => {
                let _ = wait.applied(Ok(()));
            },
            _ => panic!("not applied"),
        }
    }
    let mut call = opened.handle.rev_id();
    match opened.queue.handle_message(call.msg) {
        QueueStep::Reply(reply) => deliver(reply),
        _ => panic!("not answered"),
    }
    assert_eq!(call.rx.try_recv(), Ok(Ok(17)));
}

#[test]
fn the_latest_connection_of_a_user_counts() {
    let mut opened = open("d", 1);
    for conn in 1..4 {
        let call = opened.handle.add_user(user("ann", conn), 1);
        let _ = opened.queue.handle_message(call.msg);
        let call = opened.handle.add_user(user("bob", 10 * conn), 1);
        let _ = opened.queue.handle_message(call.msg);
    }
    let call = opened.handle.apply_revision(user("ann", 7), revision(2));
    match opened.queue.handle_message(call.msg) {
        QueueStep::Apply { request, .. } => assert_eq!(request.displaced, Some(user("ann", 3))),
        _ => panic!("not applied"),
    }
}

#[test]
fn an_exchange_fails_where_an_end_is_gone() {
    let opened = open("d", 1);
    let call = opened.handle.rev_id();
    match OpenDocHandle::send(call.rx, Err("closed".to_string())) {
        Err(e) => assert_eq!(e, internal("closed")),
        Ok(_) => panic!("went on"),
    }
    let call = opened.handle.rev_id();
    match call.msg {
        DocCommand::GetDocRevId { ret } => assert!(ret.send(Ok(3)).is_ok()),
        _ => panic!("another command"),
    }
    match OpenDocHandle::send(call.rx, Ok(())) {
        Ok(mut rx) => assert_eq!(rx.try_recv(), Ok(Ok(3))),
        Err(_) => panic!("gave up"),
    }
    assert_eq!(OpenDocHandle::answered(Ok(4)), Ok(4));
    assert_eq!(OpenDocHandle::answered::<u8>(Err("gone".to_string())), Err(internal("gone")));
}

#[test]
fn only_the_delivery_counts_for_a_change() {
    assert_eq!(OpenDocHandle::delivered(Ok(Ok(()))), Ok(()));
    assert_eq!(OpenDocHandle::delivered(Ok(Err(internal("ignored")))), Ok(()));
    assert_eq!(OpenDocHandle::delivered(Err(internal("gone"))), Err(internal("gone")));
}

#[test]
fn a_question_gets_the_answer_of_the_document() {
    assert_eq!(OpenDocHandle::obtained(Ok(Ok(3))), Ok(3));
    assert_eq!(OpenDocHandle::obtained::<i64>(Ok(Err(internal("inner")))), Err(internal("inner")));
    assert_eq!(OpenDocHandle::obtained::<i64>(Err(internal("outer"))), Err(internal("outer")));
}

#[test]
fn a_cached_document_is_found_under_its_id() {
    let mut manager = ServerDocManager::new(Arc::new(NoStorage {}));
    assert!(manager.get("a").is_none());
    let a = open("a", 1).handle;
    let sender = a.sender().clone();
    assert_eq!(manager.cache("a".to_string(), Ok(Ok(a))), Ok(()));
    assert_eq!(manager.cache("b".to_string(), Ok(Ok(open("b", 1).handle))), Ok(()));
    match manager.get("a") {
        Some(handle) => assert!(handle.sender().same_channel(&sender)),
        None => panic!("not found"),
    }
    match manager.get("b") {
        Some(handle) => assert!(!handle.sender().same_channel(&sender)),
        None => panic!("not found"),
    }
    assert!(manager.get("c").is_none());
}

#[test]
fn a_document_that_is_cached_again_takes_the_place() {
    let mut manager = ServerDocManager::new(Arc::new(NoStorage {}));
    assert_eq!(manager.cache("a".to_string(), Ok(Ok(open("a", 1).handle))), Ok(()));
    let second = open("a", 2).handle;
    let sender = second.sender().clone();
    assert_eq!(manager.cache("a".to_string(), Ok(Ok(second))), Ok(()));
    match manager.get("a") {
        Some(handle) => assert!(handle.sender().same_channel(&sender)),
        None => panic!("not found"),
    }
}

#[test]
fn a_failed_opening_changes_nothing() {
    let mut manager = ServerDocManager::new(Arc::new(NoStorage {}));
    assert_eq!(
        manager.cache("a".to_string(), Err("cancelled".to_string())),
        Err(internal("cancelled"))
    );
    assert_eq!(manager.cache("a".to_string(), Ok(Err(internal("bad")))), Err(internal("bad")));
    assert!(manager.get("a").is_none());
    let kept = open("a", 1).handle;
    let sender = kept.sender().clone();
    assert_eq!(manager.cache("a".to_string(), Ok(Ok(kept))), Ok(()));
    assert_eq!(manager.cache("a".to_string(), Ok(Err(internal("bad")))), Err(internal("bad")));
    match manager.get("a") {
        Some(handle) => assert!(handle.sender().same_channel(&sender)),
        None => panic!("not found"),
    }
}

/// Carries out all that waits for a document, and says what kind of command each was.
fn carry_out(queue: &mut DocCommandQueue, receiver: &mut mpsc::Receiver<DocCommand>) -> Vec<String> {
    let mut kinds = Vec::new();
    loop {
        match DocCommandQueue::woken(receiver.try_recv().ok()) {
            QueueAction::Handle(msg) => match queue.handle_message(msg) {
                QueueStep::Connect { request, wait } => {
                    kinds.push(format!("connect {}", request.user.conn));
                    deliver(wait.connected());
                },
                QueueStep::Apply { request, wait } => {
                    kinds.push(format!("apply {}", request.revision.rev_id));
                    deliver(wait.applied(Ok(())));
                },
                QueueStep::ReadJson { wait } => {
                    kinds.push("json".to_string());
                    deliver(wait.read(Ok("[]".to_string())));
                },
                QueueStep::Reply(reply) => {
                    kinds.push("reply".to_string());
                    deliver(reply);
                },
            },
            QueueAction::Exit => return kinds,
        }
    }
}

#[test]
fn a_document_is_cached_under_its_own_id() {
    assert_eq!(caching(doc("a", 4)), ("a".to_string(), doc("a", 4)));
    assert_eq!(caching(doc("", 0)), (String::new(), doc("", 0)));
}

#[test]
fn the_queue_carries_commands_out_in_order() {
    let mut opened = open("d", 3);
    let mut receiver = opened.queue.run();
    let mut first = opened.handle.add_user(user("ann", 1), 3);
    let mut second = opened.handle.apply_revision(user("ann", 2), revision(4));
    let mut third = opened.handle.rev_id();
    let mut fourth = opened.handle.document_json();
    for msg in vec![first.msg, second.msg, third.msg, fourth.msg] {
        assert!(opened.handle.sender().try_send(msg).is_ok());
    }
    let kinds = carry_out(&mut opened.queue, &mut receiver);
    assert_eq!(kinds, vec!["connect 1", "apply 4", "reply", "json"]);
    assert_eq!(first.rx.try_recv(), Ok(Ok(())));
    assert_eq!(second.rx.try_recv(), Ok(Ok(())));
    assert_eq!(third.rx.try_recv(), Ok(Ok(3)));
    assert_eq!(fourth.rx.try_recv(), Ok(Ok("[]".to_string())));
}

#[test]
fn two_cached_documents_keep_apart() {
    let mut manager = ServerDocManager::new(Arc::new(NoStorage {}));
    let (mut a, mut b) = (open("a", 10), open("b", 20));
    let (mut a_receiver, mut b_receiver) = (a.queue.run(), b.queue.run());
    assert_eq!(manager.cache("a".to_string(), Ok(Ok(a.handle))), Ok(()));
    assert_eq!(manager.cache("b".to_string(), Ok(Ok(b.handle))), Ok(()));
    let (a_found, b_found) = match (manager.get("a"), manager.get("b")) {
        (Some(a_found), Some(b_found)) => (a_found, b_found),
        _ => panic!("not found"),
    };
    assert!(!a_found.sender().same_channel(b_found.sender()));
    let applied = a_found.apply_revision(user("ann", 1), revision(11));
    let mut asked_a = a_found.rev_id();
    let mut asked_b = b_found.rev_id();
    assert!(a_found.sender().try_send(applied.msg).is_ok());
    assert!(a_found.sender().try_send(asked_a.msg).is_ok());
    assert!(b_found.sender().try_send(asked_b.msg).is_ok());
    assert_eq!(carry_out(&mut b.queue, &mut b_receiver), vec!["reply"]);
    assert_eq!(asked_b.rx.try_recv(), Ok(Ok(20)));
    assert!(asked_a.rx.try_recv().is_err());
    assert_eq!(carry_out(&mut a.queue, &mut a_receiver), vec!["apply 11", "reply"]);
    assert_eq!(asked_a.rx.try_recv(), Ok(Ok(10)));
    let connected = b_found.add_user(user("ann", 2), 20);
    match b.queue.handle_message(connected.msg) {
        QueueStep::Connect { request, .. } => assert_eq!(request.displaced, None),
        _ => panic!("not connected"),
    }
}

#[test]
fn a_document_that_was_displaced_goes_on() {
    let mut manager = ServerDocManager::new(Arc::new(NoStorage {}));
    let (mut a, mut b) = (open("d", 1), open("d", 2));
    let (mut a_receiver, mut b_receiver) = (a.queue.run(), b.queue.run());
    assert_eq!(manager.cache("d".to_string(), Ok(Ok(a.handle))), Ok(()));
    let displaced = match manager.get("d") {
        Some(handle) => handle,
        None => panic!("not found"),
    };
    assert_eq!(manager.cache("d".to_string(), Ok(Ok(b.handle))), Ok(()));
    let found = match manager.get("d") {
        Some(handle) => handle,
        None => panic!("not found"),
    };
    assert!(!found.sender().same_channel(displaced.sender()));
    let mut asked_new = found.rev_id();
    let mut asked_old = displaced.rev_id();
    assert!(found.sender().try_send(asked_new.msg).is_ok());
    assert!(displaced.sender().try_send(asked_old.msg).is_ok());
    assert_eq!(carry_out(&mut a.queue, &mut a_receiver), vec!["reply"]);
    assert_eq!(carry_out(&mut b.queue, &mut b_receiver), vec!["reply"]);
    assert_eq!(asked_new.rx.try_recv(), Ok(Ok(2)));
    assert_eq!(asked_old.rx.try_recv(), Ok(Ok(1)));
}

#[test]
fn the_document_is_written_after_the_revisions_before() {
    let mut opened = open("d", 1);
    let mut receiver = opened.queue.run();
    let calls = vec![
        opened.handle.apply_revision(user("ann", 1), revision(2)),
        opened.handle.apply_revision(user("bob", 2), revision(3)),
    ];
    let mut question = opened.handle.document_json();
    let joined = opened.handle.add_user(user("cid", 3), 3);
    let mut again = opened.handle.document_json();
    let later = opened.handle.apply_revision(user("ann", 1), revision(4));
    let mut answers = Vec::new();
    for call in calls {
        assert!(opened.handle.sender().try_send(call.msg).is_ok());
        answers.push(call.rx);
    }
    for msg in vec![question.msg, joined.msg, again.msg, later.msg] {
        assert!(opened.handle.sender().try_send(msg).is_ok());
    }
    let kinds = carry_out(&mut opened.queue, &mut receiver);
    assert_eq!(kinds, vec!["apply 2", "apply 3", "json", "connect 3", "json", "apply 4"]);
    for mut answer in answers {
        assert_eq!(answer.try_recv(), Ok(Ok(())));
    }
    assert_eq!(question.rx.try_recv(), again.rx.try_recv());
}
