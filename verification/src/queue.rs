//! The client's own queue of incoming messages, and one pass over it.

use vstd::prelude::*;
use crate::connection::Connection;
use crate::error::TransportError;
use crate::host::{HintPurpose, HostCall, KeyboardVisibility};
use crate::session::{Event, InputMethodSession, SessionView};

verus! {

/// An incoming message: the protocol object that it is addressed to, and
/// what it says.
#[derive(Clone, Copy, Debug, PartialEq, Eq, Structural)]
pub struct Message {
    pub target: u32,
    pub event: Event,
}

/// Takes the messages that are addressed to no object of the queue.
pub trait DefaultHandler {
    fn unhandled(&self, message: Message);
}

/// What one pass did.
#[derive(Debug)]
pub struct DispatchReport {
    /// The calls that the session made on the host, in their order.
    pub host_calls: Vec<HostCall>,
    /// The messages that went to the default handler, in their order.
    pub unhandled: Vec<Message>,
}

/// The session after the messages of one pass: each message that is
/// addressed to it moves it, in the order of arrival; the others leave it
/// alone.
pub open spec fn session_after(start: SessionView, messages: Seq<Message>) -> SessionView
    decreases messages.len(),
{
    if messages.len() == 0 {
        start
    } else {
        let before = session_after(start, messages.drop_last());
        if messages.last().target == start.id {
            before.after_event(messages.last().event)
        } else {
            before
        }
    }
}

/// The calls on the host that one pass makes, in their order: for each
/// message addressed to the session, the call that the session makes in the
/// state in which the message finds it.
pub open spec fn host_calls_of(start: SessionView, messages: Seq<Message>) -> Seq<HostCall>
    decreases messages.len(),
{
    if messages.len() == 0 {
        Seq::empty()
    } else {
        let earlier = host_calls_of(start, messages.drop_last());
        let before = session_after(start, messages.drop_last());
        if messages.last().target == start.id {
            match before.host_call(messages.last().event) {
                Some(call) => earlier.push(call),
                None => earlier,
            }
        } else {
            earlier
        }
    }
}

/// The messages that are not addressed to `id`, in their order.
pub open spec fn strays(id: u32, messages: Seq<Message>) -> Seq<Message>
    decreases messages.len(),
{
    if messages.len() == 0 {
        Seq::empty()
    } else {
        let earlier = strays(id, messages.drop_last());
        if messages.last().target == id {
            earlier
        } else {
            earlier.push(messages.last())
        }
    }
}

/// The messages that have arrived for the client and were not yet
/// dispatched, oldest first. The queue is the client's own: no other loop
/// drains it.
#[derive(Debug)]
pub struct EventQueue {
    pending: Vec<Message>,
}

impl View for EventQueue {
    type V = Seq<Message>;

    closed spec fn view(&self) -> Seq<Message> {
        self.pending@
    }
}

impl EventQueue {
    /// A queue with nothing pending.
    pub fn new() -> (queue: EventQueue)
        ensures
            queue@ == Seq::<Message>::empty(),
    {
        EventQueue { pending: Vec::new() }
    }

    /// Puts a message that was read from the connection behind those that
    /// wait.
    pub fn push(&mut self, message: Message)
        ensures
            final(self)@ == old(self)@.push(message),
    {
        self.pending.push(message);
    }

    /// The number of messages that wait.
    pub fn pending_len(&self) -> (n: usize)
        ensures
            n == self@.len(),
    {
        self.pending.len()
    }

    /// One pass over the messages that wait, without waiting for more. Each
    /// message for the session goes to the session, each other one to
    /// `default_handler`, in the order of arrival; then none is pending.
    /// With nothing pending the pass succeeds and does nothing. On a
    /// connection that cannot be read the pass fails, and the queue and the
    /// session stay as they are.
    pub fn dispatch<H: KeyboardVisibility + HintPurpose, D: DefaultHandler>(
        &mut self,
        conn: &Connection,
        session: &mut InputMethodSession<H>,
        default_handler: &D,
    ) -> (r: Result<DispatchReport, TransportError>)
        ensures
            r.is_ok() == conn@.open,
            final(session).spec_host() == old(session).spec_host(),
            !conn@.open ==> final(self)@ == old(self)@ && final(session)@ == old(session)@,
            conn@.open ==> final(self)@ == Seq::<Message>::empty(),
            conn@.open ==> final(session)@ == session_after(old(session)@, old(self)@),
            conn@.open ==> r.unwrap().host_calls@ == host_calls_of(old(session)@, old(self)@),
            conn@.open ==> r.unwrap().unhandled@ == strays(old(session)@.id, old(self)@),
    {
        if !conn.is_open() {
            return Err(TransportError);
        }
        let mut messages: Vec<Message> = Vec::new();
        core::mem::swap(&mut messages, &mut self.pending);
        let id = session.id();
        let ghost start = session@;
        let mut host_calls: Vec<HostCall> = Vec::new();
        let mut unhandled: Vec<Message> = Vec::new();
        assert(messages@.take(0) =~= Seq::<Message>::empty());
        let mut i: usize = 0;
        while i < messages.len()
            invariant
                i <= messages.len(),
                id == start.id,
                session.spec_host() == old(session).spec_host(),
                session@ == session_after(start, messages@.take(i as int)),
                session@.id == id,
                host_calls@ == host_calls_of(start, messages@.take(i as int)),
                unhandled@ == strays(id, messages@.take(i as int)),
            decreases messages.len() - i,
        {
            let message = messages[i];
            assert(messages@.take(i + 1).drop_last() =~= messages@.take(i as int));
            assert(messages@.take(i + 1).last() == message);
            if message.target == id {
                match session.handle_event(message.event) {
                    Some(call) => {
                        host_calls.push(call);
                    },
                    None => {},
                }
            } else {
                default_handler.unhandled(message);
                unhandled.push(message);
            }
            i += 1;
        }
        assert(messages@.take(messages.len() as int) =~= messages@);
        Ok(DispatchReport { host_calls, unhandled })
    }
}

} // verus!
