//! What holds of several open documents of one server.

use super::calls::command_link;
use super::editor::EditorView;
use super::handle::{OpenDoc, OpenDocHandle};
use super::laws::{after_commands, law_rev_id_is_that_of_the_opening};
use super::manager::{ServerDocManager, ServerDocPersistence};
use super::queue::{after_command, DocCommand};
use crate::entities::Doc;
use std::sync::Arc;
use vstd::prelude::*;

verus! {

/// A command, and the handle that it was sent through.
pub struct SentCommand {
    pub handle: OpenDocHandle,
    pub msg: DocCommand,
}

/// The document behind a handle, where `docs` holds the documents under their queues.
pub open spec fn document_behind(docs: Map<nat, EditorView>, handle: OpenDocHandle) -> EditorView {
    docs[command_link(handle.commands())]
}

/// The documents once the queue of a newly opened one runs.
pub open spec fn with_opened<D>(docs: Map<nat, EditorView>, opened: OpenDoc<D>) -> Map<
    nat,
    EditorView,
> {
    docs.insert(command_link(opened.handle.commands()), opened.queue.doc())
}

/// The documents after these commands, each carried out by the queue that its handle feeds.
pub open spec fn after_sent(docs: Map<nat, EditorView>, sent: Seq<SentCommand>) -> Map<
    nat,
    EditorView,
>
    decreases sent.len(),
{
    if sent.len() == 0 {
        docs
    } else {
        let earlier = after_sent(docs, sent.drop_last());
        let last = sent.last();
        earlier.insert(
            command_link(last.handle.commands()),
            after_command(document_behind(earlier, last.handle), last.msg),
        )
    }
}

/// Those of the commands that go to the queue of this handle, in their order.
pub open spec fn sent_through(sent: Seq<SentCommand>, handle: OpenDocHandle) -> Seq<DocCommand>
    decreases sent.len(),
{
    if sent.len() == 0 {
        Seq::empty()
    } else {
        let earlier = sent_through(sent.drop_last(), handle);
        if command_link(sent.last().handle.commands()) == command_link(handle.commands()) {
            earlier.push(sent.last().msg)
        } else {
            earlier
        }
    }
}

/// Of all commands that are sent to the documents of a server, in whatever mixture, each
/// document sees just its own, in their order.
pub proof fn law_document_sees_its_own_commands(
    docs: Map<nat, EditorView>,
    sent: Seq<SentCommand>,
    handle: OpenDocHandle,
)
    ensures
        document_behind(after_sent(docs, sent), handle) == after_commands(
            document_behind(docs, handle),
            sent_through(sent, handle),
        ),
    decreases sent.len(),
{
    if sent.len() > 0 {
        law_document_sees_its_own_commands(docs, sent.drop_last(), handle);
        let earlier = sent_through(sent.drop_last(), handle);
        assert(earlier.push(sent.last().msg).drop_last() =~= earlier);
    }
}

/// Commands that are all sent through one handle leave every document of another queue as
/// it is.
pub proof fn law_other_documents_stay(
    docs: Map<nat, EditorView>,
    sent: Seq<SentCommand>,
    handle: OpenDocHandle,
    other: OpenDocHandle,
)
    requires
        command_link(handle.commands()) != command_link(other.commands()),
        forall|i: int| 0 <= i < sent.len() ==> (#[trigger] sent[i]).handle == handle,
    ensures
        document_behind(after_sent(docs, sent), other) == document_behind(docs, other),
    decreases sent.len(),
{
    if sent.len() > 0 {
        assert(sent[sent.len() - 1].handle == handle);
        let earlier = sent.drop_last();
        assert forall|i: int| 0 <= i < earlier.len() implies (#[trigger] earlier[i]).handle
            == handle by {
            assert(sent[i].handle == handle);
        }
        law_other_documents_stay(docs, earlier, handle, other);
    }
}

/// A document that was taken up is found under its id, and what is found under any other id
/// is what was found there before.
pub proof fn law_cached_document_is_found<P: ServerDocPersistence + ?Sized>(
    before: ServerDocManager<P>,
    doc_id: Seq<char>,
    handle: Arc<OpenDocHandle>,
    after: ServerDocManager<P>,
    other: Seq<char>,
)
    requires
        after@ == before@.insert(doc_id, handle),
    ensures
        after.handle(doc_id) == Some(handle),
        other != doc_id ==> after.handle(other) == before.handle(other),
{
}

/// Of two documents of different ids that are taken up, both are found, and under different
/// handles. Whatever is sent to the two, the one that was open goes on from where it stood by
/// the commands that were sent to it, the new one from its opening by those that were sent to
/// it, and each keeps its own revision number. That the queues of two openings differ comes
/// from their channels being made anew.
pub proof fn law_cached_documents_keep_apart<P: ServerDocPersistence + ?Sized, D>(
    before: ServerDocManager<P>,
    first_id: Seq<char>,
    first: OpenDocHandle,
    between: ServerDocManager<P>,
    docs: Map<nat, EditorView>,
    doc: Doc,
    second: OpenDoc<D>,
    after: ServerDocManager<P>,
    sent: Seq<SentCommand>,
)
    requires
        first_id != doc.id@,
        second.queue.doc() == EditorView::opened(doc),
        command_link(first.commands()) != command_link(second.handle.commands()),
        between@ == before@.insert(first_id, Arc::new(first)),
        after@ == between@.insert(doc.id@, Arc::new(second.handle)),
    ensures
        after.handle(first_id) == Some(Arc::new(first)),
        after.handle(doc.id@) == Some(Arc::new(second.handle)),
        after.handle(first_id) != after.handle(doc.id@),
        document_behind(after_sent(with_opened(docs, second), sent), first) == after_commands(
            document_behind(docs, first),
            sent_through(sent, first),
        ),
        document_behind(after_sent(with_opened(docs, second), sent), second.handle)
            == after_commands(EditorView::opened(doc), sent_through(sent, second.handle)),
        document_behind(after_sent(with_opened(docs, second), sent), first).rev_id
            == document_behind(docs, first).rev_id,
        document_behind(after_sent(with_opened(docs, second), sent), second.handle).rev_id
            == doc.rev_id,
{
    lemma_opening_leaves_the_other(docs, first, doc, second, sent);
}

/// Of two documents that are taken up under one id, the second is found. It starts from its
/// own opening and gives its own revision number. The first goes on behind the handle that it
/// had, from where it stood, by the commands that are sent to it, and keeps its revision
/// number. That the queues of two openings differ comes from their channels being made anew.
pub proof fn law_document_cached_again<P: ServerDocPersistence + ?Sized, D>(
    before: ServerDocManager<P>,
    first: OpenDocHandle,
    between: ServerDocManager<P>,
    docs: Map<nat, EditorView>,
    doc: Doc,
    second: OpenDoc<D>,
    after: ServerDocManager<P>,
    sent: Seq<SentCommand>,
)
    requires
        second.queue.doc() == EditorView::opened(doc),
        command_link(first.commands()) != command_link(second.handle.commands()),
        between@ == before@.insert(doc.id@, Arc::new(first)),
        after@ == between@.insert(doc.id@, Arc::new(second.handle)),
    ensures
        between.handle(doc.id@) == Some(Arc::new(first)),
        after.handle(doc.id@) == Some(Arc::new(second.handle)),
        after.handle(doc.id@) != between.handle(doc.id@),
        document_behind(after_sent(with_opened(docs, second), sent), second.handle)
            == after_commands(EditorView::opened(doc), sent_through(sent, second.handle)),
        document_behind(after_sent(with_opened(docs, second), sent), first) == after_commands(
            document_behind(docs, first),
            sent_through(sent, first),
        ),
        document_behind(after_sent(with_opened(docs, second), sent), second.handle).rev_id
            == doc.rev_id,
        document_behind(after_sent(with_opened(docs, second), sent), first).rev_id
            == document_behind(docs, first).rev_id,
{
    lemma_opening_leaves_the_other(docs, first, doc, second, sent);
}

/// A document that is opened beside another starts from its opening and leaves the other to
/// its own commands.
proof fn lemma_opening_leaves_the_other<D>(
    docs: Map<nat, EditorView>,
    first: OpenDocHandle,
    doc: Doc,
    second: OpenDoc<D>,
    sent: Seq<SentCommand>,
)
    requires
        second.queue.doc() == EditorView::opened(doc),
        command_link(first.commands()) != command_link(second.handle.commands()),
    ensures
        document_behind(after_sent(with_opened(docs, second), sent), first) == after_commands(
            document_behind(docs, first),
            sent_through(sent, first),
        ),
        document_behind(after_sent(with_opened(docs, second), sent), second.handle)
            == after_commands(EditorView::opened(doc), sent_through(sent, second.handle)),
        document_behind(after_sent(with_opened(docs, second), sent), first).rev_id
            == document_behind(docs, first).rev_id,
        document_behind(after_sent(with_opened(docs, second), sent), second.handle).rev_id
            == doc.rev_id,
{
    let open = with_opened(docs, second);
    law_document_sees_its_own_commands(open, sent, first);
    law_document_sees_its_own_commands(open, sent, second.handle);
    law_rev_id_is_that_of_the_opening(document_behind(docs, first), sent_through(sent, first));
    law_rev_id_is_that_of_the_opening(
        EditorView::opened(doc),
        sent_through(sent, second.handle),
    );
}

/// Just what was taken up is found: nothing on a server without open documents, and under an
/// id that has a document that very document.
pub proof fn law_found_is_what_was_taken_up<P: ServerDocPersistence + ?Sized>(
    server: ServerDocManager<P>,
    doc_id: Seq<char>,
)
    ensures
        server.handle(doc_id) is Some <==> server@.contains_key(doc_id),
        server@.contains_key(doc_id) ==> server.handle(doc_id) == Some(server@[doc_id]),
{
}

} // verus!
