//! What the synchronizer of a document is asked for over a run of its queue.

use super::editor::{ApplyRevision, EditorView, NewConn};
use super::laws::{after_commands, carried_out, command_user, law_commands_add_up};
use super::queue::{command_step, DocCommand, QueueStep};
use crate::entities::{Doc, Revision, RevisionUser};
use vstd::prelude::*;

verus! {

/// Something that the synchronizer of a document is asked for.
pub enum SyncRequest {
    /// To take up a user.
    Connect(NewConn),
    /// To apply a revision.
    Apply(ApplyRevision),
    /// To write the document.
    WriteJson,
}

/// What a step asks the synchronizer for: one thing at most.
pub open spec fn asked_by(step: QueueStep) -> Seq<SyncRequest> {
    match step {
        QueueStep::Connect { request, .. } => seq![SyncRequest::Connect(request)],
        QueueStep::Apply { request, .. } => seq![SyncRequest::Apply(request)],
        QueueStep::ReadJson { .. } => seq![SyncRequest::WriteJson],
        QueueStep::Reply(_) => Seq::empty(),
    }
}

/// What the synchronizer is asked for, in this order, when these commands are carried out on
/// the document.
pub open spec fn requests(doc: EditorView, msgs: Seq<DocCommand>) -> Seq<SyncRequest>
    decreases msgs.len(),
{
    if msgs.len() == 0 {
        Seq::empty()
    } else {
        let earlier = msgs.drop_last();
        requests(doc, earlier) + asked_by(command_step(after_commands(doc, earlier), msgs.last()))
    }
}

/// The revisions that are to be applied by these requests, each with its user, in their order.
pub open spec fn revisions_asked(asked: Seq<SyncRequest>) -> Seq<(RevisionUser, Revision)>
    decreases asked.len(),
{
    if asked.len() == 0 {
        Seq::empty()
    } else {
        let earlier = revisions_asked(asked.drop_last());
        match asked.last() {
            SyncRequest::Apply(request) => earlier.push((request.user, request.revision)),
            _ => earlier,
        }
    }
}

/// The revisions that came in these commands, each with its user, in their order.
pub open spec fn revisions_in(msgs: Seq<DocCommand>) -> Seq<(RevisionUser, Revision)>
    decreases msgs.len(),
{
    if msgs.len() == 0 {
        Seq::empty()
    } else {
        let earlier = revisions_in(msgs.drop_last());
        match msgs.last() {
            DocCommand::ReceiveRevision { user, revision, .. } => earlier.push((user, revision)),
            _ => earlier,
        }
    }
}

/// The synchronizer is asked to apply exactly the revisions that came in the commands, each
/// once, for its user, and in their order.
pub proof fn law_revisions_are_asked_for_in_order(doc: EditorView, msgs: Seq<DocCommand>)
    ensures
        revisions_asked(requests(doc, msgs)) == revisions_in(msgs),
    decreases msgs.len(),
{
    if msgs.len() > 0 {
        let earlier = msgs.drop_last();
        law_revisions_are_asked_for_in_order(doc, earlier);
        let asked = requests(doc, earlier);
        let step = asked_by(command_step(after_commands(doc, earlier), msgs.last()));
        if step.len() == 0 {
            assert(asked + step =~= asked);
        } else {
            assert(step.len() == 1);
            assert((asked + step).drop_last() =~= asked);
            assert((asked + step).last() == step[0]);
        }
    }
}

/// Over a run of its queue, a document has its synchronizer apply exactly the revisions of
/// the commands that the queue carries out, in their order.
pub proof fn law_run_applies_its_revisions(doc: EditorView, received: Seq<Option<DocCommand>>)
    ensures
        revisions_asked(requests(doc, carried_out(received))) == revisions_in(
            carried_out(received),
        ),
{
    law_revisions_are_asked_for_in_order(doc, carried_out(received));
}

/// What is asked for over some commands and then others is what is asked for over the first,
/// followed by what is asked for over the others on the document as the first left it.
pub proof fn law_requests_add_up(doc: EditorView, first: Seq<DocCommand>, second: Seq<DocCommand>)
    ensures
        requests(doc, first + second) == requests(doc, first) + requests(
            after_commands(doc, first),
            second,
        ),
    decreases second.len(),
{
    if second.len() == 0 {
        assert(first + second =~= first);
        assert(requests(doc, first) + Seq::<SyncRequest>::empty() =~= requests(doc, first));
    } else {
        let shorter = second.drop_last();
        assert((first + second).drop_last() =~= first + shorter);
        assert((first + second).last() == second.last());
        law_requests_add_up(doc, first, shorter);
        law_commands_add_up(doc, first, shorter);
        let step = asked_by(
            command_step(after_commands(after_commands(doc, first), shorter), second.last()),
        );
        assert(requests(doc, first + second) =~= requests(doc, first) + (requests(
            after_commands(doc, first),
            shorter,
        ) + step));
    }
}

/// A question for the document is put to the synchronizer once, after it was asked to apply
/// every revision of the commands before the question, in their order, and before any
/// revision of the commands behind it.
pub proof fn law_document_is_written_after_the_revisions_before(
    doc: EditorView,
    before: Seq<DocCommand>,
    question: DocCommand,
    after: Seq<DocCommand>,
)
    requires
        question is GetDocJson,
    ensures
        requests(doc, before + seq![question] + after) == requests(doc, before)
            + seq![SyncRequest::WriteJson] + requests(after_commands(doc, before), after),
        revisions_asked(requests(doc, before)) == revisions_in(before),
        revisions_asked(requests(after_commands(doc, before), after)) == revisions_in(after),
{
    let asked = before + seq![question];
    assert(asked.drop_last() =~= before);
    assert(asked.last() == question);
    assert(after_commands(doc, asked) == after_commands(doc, before));
    law_requests_add_up(doc, asked, after);
    law_revisions_are_asked_for_in_order(doc, before);
    law_revisions_are_asked_for_in_order(after_commands(doc, before), after);
}

/// Two questions for the document with no revision between them are put to a synchronizer
/// that was asked to apply the same revisions.
pub proof fn law_questions_without_a_revision_between_agree(
    doc: EditorView,
    before: Seq<DocCommand>,
    between: Seq<DocCommand>,
)
    requires
        forall|i: int| 0 <= i < between.len() ==> !((#[trigger] between[i]) is ReceiveRevision),
    ensures
        revisions_asked(requests(doc, before + between)) == revisions_asked(requests(doc, before)),
    decreases between.len(),
{
    if between.len() == 0 {
        assert(before + between =~= before);
    } else {
        let shorter = between.drop_last();
        assert forall|i: int| 0 <= i < shorter.len() implies !((#[trigger] shorter[i])
            is ReceiveRevision) by {
            assert(!(between[i] is ReceiveRevision));
        }
        law_questions_without_a_revision_between_agree(doc, before, shorter);
        assert((before + between).drop_last() =~= before + shorter);
        assert(!(between[between.len() - 1] is ReceiveRevision));
        law_revisions_are_asked_for_in_order(doc, before + between);
        law_revisions_are_asked_for_in_order(doc, before + shorter);
    }
}

/// The connections that are to be taken up by these requests, each with the revision that its
/// user is at, in their order.
pub open spec fn connections_asked(asked: Seq<SyncRequest>) -> Seq<(RevisionUser, i64)>
    decreases asked.len(),
{
    if asked.len() == 0 {
        Seq::empty()
    } else {
        let earlier = connections_asked(asked.drop_last());
        match asked.last() {
            SyncRequest::Connect(request) => earlier.push((request.user, request.rev_id)),
            _ => earlier,
        }
    }
}

/// The connections that came in these commands, each with the revision that its user is at,
/// in their order.
pub open spec fn connections_in(msgs: Seq<DocCommand>) -> Seq<(RevisionUser, i64)>
    decreases msgs.len(),
{
    if msgs.len() == 0 {
        Seq::empty()
    } else {
        let earlier = connections_in(msgs.drop_last());
        match msgs.last() {
            DocCommand::NewConnectedUser { user, rev_id, .. } => earlier.push((user, rev_id)),
            _ => earlier,
        }
    }
}

/// The synchronizer is asked to take up exactly the users who came in the commands, each
/// once, at the revision that the command names, be it behind the document or ahead of it,
/// and in their order.
pub proof fn law_connections_are_asked_for_in_order(doc: EditorView, msgs: Seq<DocCommand>)
    ensures
        connections_asked(requests(doc, msgs)) == connections_in(msgs),
    decreases msgs.len(),
{
    if msgs.len() > 0 {
        let earlier = msgs.drop_last();
        law_connections_are_asked_for_in_order(doc, earlier);
        let asked = requests(doc, earlier);
        let step = asked_by(command_step(after_commands(doc, earlier), msgs.last()));
        if step.len() == 0 {
            assert(asked + step =~= asked);
        } else {
            assert(step.len() == 1);
            assert((asked + step).drop_last() =~= asked);
            assert((asked + step).last() == step[0]);
        }
    }
}

/// Over a run of its queue, a document has its synchronizer take up exactly the users of the
/// commands that the queue carries out, at their own revisions and in their order.
pub proof fn law_run_takes_up_its_users(doc: EditorView, received: Seq<Option<DocCommand>>)
    ensures
        connections_asked(requests(doc, carried_out(received))) == connections_in(
            carried_out(received),
        ),
{
    law_connections_are_asked_for_in_order(doc, carried_out(received));
}

/// The user for whom something is asked.
pub open spec fn asked_for(request: SyncRequest) -> Option<RevisionUser> {
    match request {
        SyncRequest::Connect(request) => Some(request.user),
        SyncRequest::Apply(request) => Some(request.user),
        SyncRequest::WriteJson => None,
    }
}

/// The connection that is given up with a request.
pub open spec fn given_up(request: SyncRequest) -> Option<RevisionUser> {
    match request {
        SyncRequest::Connect(request) => request.displaced,
        SyncRequest::Apply(request) => request.displaced,
        SyncRequest::WriteJson => None,
    }
}

/// The connections that a document has, one for each of its users.
pub open spec fn connections_of(doc: EditorView) -> Set<RevisionUser> {
    Set::new(
        |user: RevisionUser|
            doc.users.contains_key(user.user_id@) && doc.users[user.user_id@] == user,
    )
}

/// The connections that are left of `held` when, with each of these requests, one is given up
/// and one is taken up.
pub open spec fn held_after(held: Set<RevisionUser>, asked: Seq<SyncRequest>) -> Set<RevisionUser>
    decreases asked.len(),
{
    if asked.len() == 0 {
        held
    } else {
        let earlier = held_after(held, asked.drop_last());
        let kept = match given_up(asked.last()) {
            Some(user) => earlier.remove(user),
            None => earlier,
        };
        match asked_for(asked.last()) {
            Some(user) => kept.insert(user),
            None => kept,
        }
    }
}

/// A command that names a user asks for something for just that user, and gives up just the
/// connection that the user of that id had before it, if there was one: so it never gives up
/// its own connection, unless the document had that one before.
pub proof fn law_only_the_earlier_connection_is_given_up(doc: EditorView, msg: DocCommand)
    ensures
        command_user(msg) matches Some(user) ==> {
            let asked = asked_by(command_step(doc, msg));
            &&& asked.len() == 1
            &&& asked_for(asked[0]) == Some(user)
            &&& doc.users.contains_key(user.user_id@) ==> given_up(asked[0]) == Some(
                doc.users[user.user_id@],
            )
            &&& !doc.users.contains_key(user.user_id@) ==> given_up(asked[0]) is None
            &&& !connections_of(doc).contains(user) ==> given_up(asked[0]) != Some(user)
        },
        command_user(msg) is None ==> forall|i: int|
            0 <= i < asked_by(command_step(doc, msg)).len() ==> asked_for(
                #[trigger] asked_by(command_step(doc, msg))[i],
            ) is None && given_up(asked_by(command_step(doc, msg))[i]) is None,
{
}

/// Every user of the document stands under the user's own id.
pub open spec fn under_their_ids(doc: EditorView) -> bool {
    forall|user_id: Seq<char>| #[trigger]
        doc.users.contains_key(user_id) ==> doc.users[user_id].user_id@ == user_id
}

/// Whatever commands are carried out on a document, its users stand under their own ids.
pub proof fn law_users_stand_under_their_ids(doc: EditorView, msgs: Seq<DocCommand>)
    requires
        under_their_ids(doc),
    ensures
        under_their_ids(after_commands(doc, msgs)),
    decreases msgs.len(),
{
    if msgs.len() > 0 {
        law_users_stand_under_their_ids(doc, msgs.drop_last());
    }
}

/// What was taken up over any commands and not given up again, with what the document had
/// before, is exactly what the document has after them: no connection is lost, none is kept
/// beside a later one of the same user, and the latest of each user is the one that is there.
pub proof fn law_connections_balance(doc: EditorView, msgs: Seq<DocCommand>)
    requires
        under_their_ids(doc),
    ensures
        held_after(connections_of(doc), requests(doc, msgs)) == connections_of(
            after_commands(doc, msgs),
        ),
    decreases msgs.len(),
{
    if msgs.len() > 0 {
        let earlier = msgs.drop_last();
        law_connections_balance(doc, earlier);
        let before = after_commands(doc, earlier);
        let asked = requests(doc, earlier);
        let step = asked_by(command_step(before, msgs.last()));
        law_users_stand_under_their_ids(doc, earlier);
        law_only_the_earlier_connection_is_given_up(before, msgs.last());
        if step.len() == 0 {
            assert(asked + step =~= asked);
        } else {
            assert(step.len() == 1);
            assert((asked + step).drop_last() =~= asked);
            assert((asked + step).last() == step[0]);
        }
        assert(held_after(connections_of(doc), asked + step) =~= connections_of(
            after_commands(doc, msgs),
        ));
    }
}

/// From its opening on, a document has exactly the connections that were taken up for it and
/// not given up again, under the ids of their users.
pub proof fn law_connections_balance_from_the_opening(stored: Doc, msgs: Seq<DocCommand>)
    ensures
        held_after(Set::empty(), requests(EditorView::opened(stored), msgs)) == connections_of(
            after_commands(EditorView::opened(stored), msgs),
        ),
        under_their_ids(after_commands(EditorView::opened(stored), msgs)),
{
    let doc = EditorView::opened(stored);
    law_connections_balance(doc, msgs);
    law_users_stand_under_their_ids(doc, msgs);
    assert(connections_of(doc) =~= Set::empty());
}

} // verus!
