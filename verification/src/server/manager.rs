//! All open documents of a server.

use super::handle::OpenDocHandle;
use crate::entities::Doc;
use crate::errors::{CollaborateError, CollaborateResult};
use crate::registry::Registry;
use std::sync::Arc;
use vstd::prelude::*;

verus! {

/// Where documents are kept while nobody has them open.
pub trait ServerDocPersistence: Send + Sync {
    /// The decoded content of a document.
    type Delta;

    /// Stores a new document.
    fn create_doc(&self, doc_id: &str, delta: Self::Delta) -> CollaborateResult<()>;

    /// Stores the new content of a document.
    fn update_doc(&self, doc_id: &str, delta: Self::Delta) -> CollaborateResult<()>;

    /// Reads a document.
    fn read_doc(&self, doc_id: &str) -> CollaborateResult<Doc>;
}

/// The open documents, each under its id.
#[verifier::reject_recursive_types(P)]
pub struct ServerDocManager<P: ServerDocPersistence + ?Sized> {
    open_doc_map: Registry<Arc<OpenDocHandle>>,
    persistence: Arc<P>,
}

impl<P: ServerDocPersistence + ?Sized> View for ServerDocManager<P> {
    type V = Map<Seq<char>, Arc<OpenDocHandle>>;

    closed spec fn view(&self) -> Map<Seq<char>, Arc<OpenDocHandle>> {
        self.open_doc_map@
    }
}

impl<P: ServerDocPersistence + ?Sized> ServerDocManager<P> {
    /// The registry of open documents is in order.
    pub closed spec fn well_formed(&self) -> bool {
        self.open_doc_map.well_formed()
    }

    /// Where documents are kept.
    pub closed spec fn storage(&self) -> Arc<P> {
        self.persistence
    }

    /// The handle of an open document.
    pub open spec fn handle(&self, doc_id: Seq<char>) -> Option<Arc<OpenDocHandle>> {
        if self@.contains_key(doc_id) {
            Some(self@[doc_id])
        } else {
            None
        }
    }

    /// A server without open documents.
    pub fn new(persistence: Arc<P>) -> (r: Self)
        ensures
            r.well_formed(),
            r.storage() == persistence,
            (r@ == Map::<Seq<char>, Arc<OpenDocHandle>>::empty()),
    {
        ServerDocManager { open_doc_map: Registry::new(), persistence }
    }

    /// The handle of an open document.
    pub fn get(&self, doc_id: &str) -> (r: Option<Arc<OpenDocHandle>>)
        requires
            self.well_formed(),
        ensures
            r == self.handle(doc_id@),
    {
        match self.open_doc_map.get(doc_id) {
            Some(handle) => Some(handle.clone()),
            None => None,
        }
    }

    /// Takes up a document that was opened in another thread, in place of an open document
    /// of the same id. A thread that did not come to its end is an internal error, and a
    /// document that could not be opened is the error of its opening; neither changes which
    /// documents are open.
    pub fn cache(
        &mut self,
        doc_id: String,
        opened: Result<CollaborateResult<OpenDocHandle>, String>,
    ) -> (r: Result<(), CollaborateError>)
        requires
            old(self).well_formed(),
        ensures
            final(self).well_formed(),
            final(self).storage() == old(self).storage(),
            opened matches Ok(Ok(handle)) ==> r is Ok && final(self)@ == old(self)@.insert(
                doc_id@,
                Arc::new(handle),
            ),
            opened matches Ok(Err(e)) ==> r == Err::<(), CollaborateError>(e) && final(self)@
                == old(self)@,
            opened matches Err(cause) ==> r == Err::<(), CollaborateError>(
                CollaborateError::Internal(cause),
            ) && final(self)@ == old(self)@,
    {
        let handle = match opened {
            Ok(handle) => handle,
            Err(cause) => {
                return Err(CollaborateError::internal_error(cause));
            },
        };
        let handle = match handle {
            Ok(handle) => Arc::new(handle),
            Err(e) => {
                return Err(e);
            },
        };
        let _ = self.open_doc_map.insert(doc_id, handle);
        Ok(())
    }
}

/// What it takes to take up a document: the id under which it is to be found, which is its
/// own, and the document, which is to be opened.
pub fn caching(doc: Doc) -> (r: (String, Doc))
    ensures
        r.0 == doc.id,
        r.1 == doc,
{
    (doc.id.clone(), doc)
}

} // verus!
