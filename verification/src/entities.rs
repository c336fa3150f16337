//! The values that travel between client and server.

use vstd::prelude::*;

verus! {

/// What a web socket message asks for.
#[derive(Clone, Copy, Debug, PartialEq, Eq, Structural)]
pub enum DocumentWSDataType {
    /// The other side acknowledges a message.
    Ack,
    /// The other side pushes a revision.
    PushRev,
    /// The other side asks for a range of revisions.
    PullRev,
    /// Somebody has opened the document.
    UserConnect,
}

/// One web socket message about one document.
#[derive(Debug, PartialEq, Eq)]
pub struct DocumentWSData {
    pub doc_id: String,
    pub ty: DocumentWSDataType,
    pub data: Vec<u8>,
    pub id: String,
}

/// The state of the web socket connection.
#[derive(Clone, Copy, Debug, PartialEq, Eq, Structural)]
pub enum WSConnectState {
    Init,
    Connecting,
    Connected,
    Disconnected,
}

/// A document as it is stored: its id, its revision number and its encoded delta.
#[derive(Debug, PartialEq, Eq)]
pub struct Doc {
    pub id: String,
    pub rev_id: i64,
    pub data: Vec<u8>,
}

/// A revision of a document: the revision it builds on, its own number, and its
/// encoded change, which is carried along unread.
#[derive(Debug, PartialEq, Eq)]
pub struct Revision {
    pub base_rev_id: i64,
    pub rev_id: i64,
    pub delta_data: Vec<u8>,
}

/// A user who is connected to a document. `conn` is the number under which the
/// program keeps the live connection.
#[derive(Debug, PartialEq, Eq)]
pub struct RevisionUser {
    pub user_id: String,
    pub conn: u64,
}

impl RevisionUser {
    /// The id of the user.
    pub fn user_id(&self) -> (r: String)
        ensures
            r == self.user_id,
    {
        self.user_id.clone()
    }
}

impl Clone for RevisionUser {
    fn clone(&self) -> (r: Self)
        ensures
            r == *self,
    {
        RevisionUser { user_id: self.user_id.clone(), conn: self.conn }
    }
}

} // verus!
