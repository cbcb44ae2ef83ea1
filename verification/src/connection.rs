//! The connection to the compositor, as far as the client decides on it:
//! whether it is still usable, and the batches that wait to be written.

use vstd::prelude::*;
use crate::hint::{ContentHint, ContentPurpose};
use crate::error::TransportError;

verus! {

/// One atomic group of staged changes, sent to the compositor as a whole.
#[derive(Debug)]
pub struct Batch {
    /// Text to insert at the cursor, if any was staged.
    pub text: Option<String>,
    /// The hint and purpose that were staged last, if any.
    pub hint: Option<(ContentHint, ContentPurpose)>,
}

/// What a batch holds, with the text as a sequence of characters.
pub struct BatchView {
    pub text: Option<Seq<char>>,
    pub hint: Option<(ContentHint, ContentPurpose)>,
}

/// The text of an optional string, as a sequence of characters.
pub open spec fn text_view(text: Option<String>) -> Option<Seq<char>> {
    match text {
        Some(s) => Some(s@),
        None => None,
    }
}

impl View for Batch {
    type V = BatchView;

    open spec fn view(&self) -> BatchView {
        BatchView { text: text_view(self.text), hint: self.hint }
    }
}

impl BatchView {
    /// A batch that carries neither text nor hint. It is still a valid commit.
    pub open spec fn is_empty(self) -> bool {
        self.text.is_none() && self.hint.is_none()
    }
}

impl Batch {
    /// True when the batch carries neither text nor hint.
    pub fn is_empty(&self) -> (empty: bool)
        ensures
            empty == self@.is_empty(),
    {
        self.text.is_none() && self.hint.is_none()
    }
}

/// The batches of a list, each by its view.
pub open spec fn batch_views(batches: Seq<Batch>) -> Seq<BatchView> {
    Seq::new(batches.len(), |i: int| batches[i]@)
}

/// What a connection is to the client's rules.
pub struct ConnectionView {
    /// Whether the connection is still usable.
    pub open: bool,
    /// The batches that were enqueued and not yet taken out, oldest first.
    pub outgoing: Seq<BatchView>,
}

/// The process's one connection to the compositor. It is made once and
/// handed to each operation that needs it.
pub struct Connection {
    open: bool,
    outgoing: Vec<Batch>,
}

impl View for Connection {
    type V = ConnectionView;

    closed spec fn view(&self) -> ConnectionView {
        ConnectionView { open: self.open, outgoing: batch_views(self.outgoing@) }
    }
}

impl Connection {
    /// A usable connection with nothing to send.
    pub fn new() -> (conn: Connection)
        ensures
            conn@.open,
            conn@.outgoing == Seq::<BatchView>::empty(),
    {
        let conn = Connection { open: true, outgoing: Vec::new() };
        assert(conn@.outgoing =~= Seq::<BatchView>::empty());
        conn
    }

    /// Whether the connection is still usable.
    pub fn is_open(&self) -> (open: bool)
        ensures
            open == self@.open,
    {
        self.open
    }

    /// Marks the connection as closed. What was enqueued stays where it is.
    pub fn close(&mut self)
        ensures
            !final(self)@.open,
            final(self)@.outgoing == old(self)@.outgoing,
    {
        self.open = false;
    }

    /// The number of batches that wait to be written.
    pub fn outgoing_len(&self) -> (n: usize)
        ensures
            n == self@.outgoing.len(),
    {
        self.outgoing.len()
    }

    /// Puts a batch behind those that wait, unless the connection is closed:
    /// then nothing changes and the call fails.
    pub fn enqueue(&mut self, batch: Batch) -> (r: Result<(), TransportError>)
        ensures
            r.is_ok() == old(self)@.open,
            final(self)@.open == old(self)@.open,
            old(self)@.open ==> final(self)@.outgoing == old(self)@.outgoing.push(batch@),
            !old(self)@.open ==> final(self)@.outgoing == old(self)@.outgoing,
    {
        if !self.open {
            return Err(TransportError);
        }
        self.outgoing.push(batch);
        assert(final(self)@.outgoing =~= old(self)@.outgoing.push(batch@));
        Ok(())
    }

    /// Hands out the batches that wait, oldest first, and leaves none behind.
    /// The caller writes them to the wire.
    pub fn take_outgoing(&mut self) -> (batches: Vec<Batch>)
        ensures
            batch_views(batches@) == old(self)@.outgoing,
            final(self)@.outgoing == Seq::<BatchView>::empty(),
            final(self)@.open == old(self)@.open,
    {
        let mut taken: Vec<Batch> = Vec::new();
        core::mem::swap(&mut taken, &mut self.outgoing);
        assert(final(self)@.outgoing =~= Seq::<BatchView>::empty());
        taken
    }
}

} // verus!
