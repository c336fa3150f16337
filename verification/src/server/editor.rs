//! The state of one open document on the server: who is connected to it. Its text is kept by
//! a synchronizer, to which every change is handed on.

use crate::entities::{Doc, Revision, RevisionUser};
use crate::errors::OTError;
use crate::registry::Registry;
use vstd::prelude::*;

verus! {

/// An open document: its id, the revision it was opened at, and its users, each under the id
/// of the user.
#[verifier::ext_equal]
pub struct EditorView {
    pub doc_id: Seq<char>,
    pub rev_id: i64,
    pub users: Map<Seq<char>, RevisionUser>,
}

impl EditorView {
    /// The document just after it was opened.
    pub open spec fn opened(doc: Doc) -> EditorView {
        EditorView { doc_id: doc.id@, rev_id: doc.rev_id, users: Map::empty() }
    }

    /// The document with this user among its users, in place of one of the same id.
    pub open spec fn with_user(self, user: RevisionUser) -> EditorView {
        EditorView { users: self.users.insert(user.user_id@, user), ..self }
    }

    /// The connection of the user of this id, where there is one.
    pub open spec fn connection(self, user_id: Seq<char>) -> Option<RevisionUser> {
        if self.users.contains_key(user_id) {
            Some(self.users[user_id])
        } else {
            None
        }
    }
}

/// What a document's synchronizer is made from. `D` is the decoded delta.
pub struct SynchronizerSeed<D> {
    pub doc_id: String,
    pub rev_id: i64,
    pub delta: D,
}

/// The synchronizer is to take up this user, who is at revision `rev_id`. The connection
/// that the user had before, if any, has been given up.
pub struct NewConn {
    pub user: RevisionUser,
    pub rev_id: i64,
    pub displaced: Option<RevisionUser>,
}

/// The synchronizer is to apply this revision of this user. The connection that the user had
/// before, if any, has been given up.
pub struct ApplyRevision {
    pub user: RevisionUser,
    pub revision: Revision,
    pub displaced: Option<RevisionUser>,
}

/// The state of one open document.
pub struct ServerDocEditor {
    pub doc_id: String,
    pub rev_id: i64,
    users: Registry<RevisionUser>,
}

impl View for ServerDocEditor {
    type V = EditorView;

    closed spec fn view(&self) -> EditorView {
        EditorView { doc_id: self.doc_id@, rev_id: self.rev_id, users: self.users@ }
    }
}

impl ServerDocEditor {
    /// The registry of users is in order.
    pub closed spec fn well_formed(&self) -> bool {
        self.users.well_formed()
    }

    /// Opens a document, given what came of decoding its data. A delta that does not decode
    /// is the error; otherwise the document has no users, and its synchronizer is to be made
    /// from the same id and revision and from the delta.
    pub fn new<D>(doc: Doc, delta: Result<D, OTError>) -> (r: Result<
        (Self, SynchronizerSeed<D>),
        OTError,
    >)
        ensures
            r is Ok <==> delta is Ok,
            r matches Ok(opened) ==> opened.0.well_formed() && opened.0@ == EditorView::opened(doc)
                && opened.1 == (SynchronizerSeed {
                doc_id: doc.id,
                rev_id: doc.rev_id,
                delta: delta->Ok_0,
            }),
            r matches Err(e) ==> e == delta->Err_0,
    {
        let delta = match delta {
            Ok(delta) => delta,
            Err(e) => {
                return Err(e);
            },
        };
        let users = Registry::new();
        let seed = SynchronizerSeed { doc_id: doc.id.clone(), rev_id: doc.rev_id, delta };
        Ok((ServerDocEditor { doc_id: doc.id.clone(), rev_id: doc.rev_id, users }, seed))
    }

    /// The revision that the document was opened at.
    pub fn rev_id(&self) -> (r: i64)
        ensures
            r == self@.rev_id,
    {
        self.rev_id
    }

    /// Adds a user to the document. Nothing can go wrong here: what is left is to hand the
    /// user to the synchronizer.
    pub fn new_doc_user(&mut self, user: RevisionUser, rev_id: i64) -> (r: NewConn)
        requires
            old(self).well_formed(),
        ensures
            final(self).well_formed(),
            final(self)@ == old(self)@.with_user(user),
            r == (NewConn { user, rev_id, displaced: old(self)@.connection(user.user_id@) }),
    {
        let displaced = self.users.insert(user.user_id(), user.clone());
        NewConn { user, rev_id, displaced }
    }

    /// Adds the user to the document, whose revision is then to be applied by the
    /// synchronizer.
    pub fn apply_revision(&mut self, user: RevisionUser, revision: Revision) -> (r: ApplyRevision)
        requires
            old(self).well_formed(),
        ensures
            final(self).well_formed(),
            final(self)@ == old(self)@.with_user(user),
            r == (ApplyRevision {
                user,
                revision,
                displaced: old(self)@.connection(user.user_id@),
            }),
    {
        let displaced = self.users.insert(user.user_id(), user.clone());
        ApplyRevision { user, revision, displaced }
    }
}

} // verus!
