//! The input-method session: what is staged, what a commit sends, and how
//! the session follows the compositor's events.

use vstd::prelude::*;
use crate::connection::{text_view, Batch, BatchView, Connection, ConnectionView};
use crate::error::CommitError;
use crate::hint::{ContentHint, ContentPurpose};
use crate::host::{HintPurpose, HostCall, KeyboardVisibility};
use crate::registry::Binding;

verus! {

/// Where a session stands. A session is bound from the moment it is made;
/// only the compositor makes it active or inactive; teardown is final.
#[derive(Clone, Copy, Debug, PartialEq, Eq, Structural)]
pub enum SessionState {
    Bound,
    Active,
    Inactive,
    Destroyed,
}

/// What the compositor can tell a session.
#[derive(Clone, Copy, Debug, PartialEq, Eq, Structural)]
pub enum Event {
    /// The session now owns the text-input focus.
    Activate,
    /// The session has lost the text-input focus.
    Deactivate,
    /// The host is asked to show its keyboard.
    ShowKeyboard,
    /// The host is asked to hide its keyboard.
    HideKeyboard,
    /// Hint and purpose of the field that has the focus.
    ContentType(ContentHint, ContentPurpose),
    /// A message that the session does not know, by its opcode.
    Unrecognized(u32),
}

/// A session as the contracts see it.
pub struct SessionView {
    /// The number of the session's protocol object.
    pub id: u32,
    /// The seat that the session was made for.
    pub seat: Binding,
    /// The manager that the session was made from.
    pub manager: Binding,
    pub state: SessionState,
    /// The text that was staged and not yet sent.
    pub text: Option<Seq<char>>,
    /// The hint and purpose that were staged last and not yet sent.
    pub hint: Option<(ContentHint, ContentPurpose)>,
}

impl SessionView {
    pub open spec fn destroyed(self) -> bool {
        self.state == SessionState::Destroyed
    }

    /// Nothing is staged.
    pub open spec fn nothing_staged(self) -> bool {
        self.text.is_none() && self.hint.is_none()
    }

    /// What a staging call answers: it is refused after teardown and
    /// accepted in every other state, active or not.
    pub open spec fn staging_result(self) -> Result<(), CommitError> {
        if self.destroyed() {
            Err(CommitError::NotBound)
        } else {
            Ok(())
        }
    }

    /// The session after `commit_string(text)`.
    pub open spec fn stage_text(self, text: Seq<char>) -> SessionView {
        if self.destroyed() {
            self
        } else {
            SessionView { text: Some(text), ..self }
        }
    }

    /// The session after `set_hint_purpose(hint, purpose)`: the pair takes
    /// the place of one that was staged before.
    pub open spec fn stage_hint(self, hint: ContentHint, purpose: ContentPurpose) -> SessionView {
        if self.destroyed() {
            self
        } else {
            SessionView { hint: Some((hint, purpose)), ..self }
        }
    }

    /// The batch that a commit sends: all that is staged.
    pub open spec fn batch(self) -> BatchView {
        BatchView { text: self.text, hint: self.hint }
    }

    /// What `commit` answers on a connection that is open or not.
    pub open spec fn commit_result(self, open: bool) -> Result<(), CommitError> {
        if self.destroyed() {
            Err(CommitError::NotBound)
        } else if !open {
            Err(CommitError::TransportClosed)
        } else {
            Ok(())
        }
    }

    /// The session after `commit`: where it succeeds nothing is staged any
    /// more, where it fails nothing has changed.
    pub open spec fn after_commit(self, open: bool) -> SessionView {
        if self.commit_result(open).is_ok() {
            SessionView { text: None, hint: None, ..self }
        } else {
            self
        }
    }

    /// What waits on the connection after `commit`: where it succeeds, one
    /// batch more.
    pub open spec fn outgoing_after_commit(self, conn: ConnectionView) -> Seq<BatchView> {
        if self.commit_result(conn.open).is_ok() {
            conn.outgoing.push(self.batch())
        } else {
            conn.outgoing
        }
    }

    /// The session after teardown: destroyed, and what was staged is gone.
    pub open spec fn torn_down(self) -> SessionView {
        SessionView { state: SessionState::Destroyed, text: None, hint: None, ..self }
    }

    /// The state after an event. Activation and deactivation move a live
    /// session; a deactivation before the first activation is unexpected and
    /// dropped; nothing moves a destroyed session.
    pub open spec fn after_event(self, event: Event) -> SessionView {
        match (self.state, event) {
            (SessionState::Destroyed, _) => self,
            (_, Event::Activate) => SessionView { state: SessionState::Active, ..self },
            (SessionState::Active, Event::Deactivate) => SessionView {
                state: SessionState::Inactive,
                ..self
            },
            _ => self,
        }
    }

    /// The call on the host that an event leads to, if any. Requests to show
    /// or hide the keyboard and content types are handed on as they are;
    /// a destroyed session hands nothing on.
    pub open spec fn host_call(self, event: Event) -> Option<HostCall> {
        if self.destroyed() {
            None
        } else {
            match event {
                Event::ShowKeyboard => Some(HostCall::ShowKeyboard),
                Event::HideKeyboard => Some(HostCall::HideKeyboard),
                Event::ContentType(hint, purpose) => Some(HostCall::SetHintPurpose(hint, purpose)),
                _ => None,
            }
        }
    }
}

/// The client's end of one input method on one seat. It gathers staged
/// changes and sends them as one batch; it never asks for the focus itself.
pub struct InputMethodSession<H: KeyboardVisibility + HintPurpose> {
    id: u32,
    seat: Binding,
    manager: Binding,
    state: SessionState,
    pending_commit_string: Option<String>,
    pending_hint: Option<(ContentHint, ContentPurpose)>,
    host: H,
}

impl<H: KeyboardVisibility + HintPurpose> View for InputMethodSession<H> {
    type V = SessionView;

    closed spec fn view(&self) -> SessionView {
        SessionView {
            id: self.id,
            seat: self.seat,
            manager: self.manager,
            state: self.state,
            text: text_view(self.pending_commit_string),
            hint: self.pending_hint,
        }
    }
}

impl<H: KeyboardVisibility + HintPurpose> InputMethodSession<H> {
    /// The host that the session calls.
    pub closed spec fn spec_host(&self) -> H {
        self.host
    }

    /// Binds a seat and a manager into a session whose protocol object has
    /// the number `id`. Nothing is sent; the session is bound, not active,
    /// and nothing is staged.
    pub fn new(id: u32, seat: &Binding, manager: Binding, host: H) -> (session: Self)
        ensures
            session@ == (SessionView {
                id,
                seat: *seat,
                manager,
                state: SessionState::Bound,
                text: None,
                hint: None,
            }),
            session.spec_host() == host,
    {
        InputMethodSession {
            id,
            seat: *seat,
            manager,
            state: SessionState::Bound,
            pending_commit_string: None,
            pending_hint: None,
            host,
        }
    }

    /// The number of the session's protocol object.
    pub fn id(&self) -> (id: u32)
        ensures
            id == self@.id,
    {
        self.id
    }

    /// The seat that the session was made for.
    pub fn seat(&self) -> (seat: Binding)
        ensures
            seat == self@.seat,
    {
        self.seat
    }

    /// The manager that the session was made from.
    pub fn manager(&self) -> (manager: Binding)
        ensures
            manager == self@.manager,
    {
        self.manager
    }

    /// The host that the session calls.
    pub fn host(&self) -> (host: &H)
        ensures
            *host == self.spec_host(),
    {
        &self.host
    }

    /// Where the session stands.
    pub fn state(&self) -> (state: SessionState)
        ensures
            state == self@.state,
    {
        self.state
    }

    /// Whether the compositor's last word was that the session has the focus.
    pub fn is_active(&self) -> (active: bool)
        ensures
            active == (self@.state == SessionState::Active),
    {
        match self.state {
            SessionState::Active => true,
            _ => false,
        }
    }

    /// Whether anything is staged.
    pub fn has_staged(&self) -> (staged: bool)
        ensures
            staged == !self@.nothing_staged(),
    {
        self.pending_commit_string.is_some() || self.pending_hint.is_some()
    }

    /// The hint and purpose that are staged, if any.
    pub fn staged_hint(&self) -> (hint: Option<(ContentHint, ContentPurpose)>)
        ensures
            hint == self@.hint,
    {
        self.pending_hint
    }

    /// The text that is staged, if any.
    pub fn staged_text(&self) -> (text: Option<&String>)
        ensures
            text.is_some() == self@.text.is_some(),
            text.is_some() ==> self@.text == Some(text.unwrap()@),
    {
        self.pending_commit_string.as_ref()
    }

    /// Stages `text`, which may be empty, for insertion at the cursor, in
    /// place of text that was staged before. Nothing is sent. After teardown
    /// the call is refused and changes nothing.
    pub fn commit_string(&mut self, text: String) -> (r: Result<(), CommitError>)
        ensures
            r == old(self)@.staging_result(),
            final(self)@ == old(self)@.stage_text(text@),
            final(self).spec_host() == old(self).spec_host(),
    {
        match self.state {
            SessionState::Destroyed => Err(CommitError::NotBound),
            _ => {
                self.pending_commit_string = Some(text);
                Ok(())
            },
        }
    }

    /// Stages a hint and a purpose, in place of a pair that was staged
    /// before. Nothing is sent. After teardown the call is refused and
    /// changes nothing.
    pub fn set_hint_purpose(&mut self, hint: ContentHint, purpose: ContentPurpose) -> (r: Result<
        (),
        CommitError,
    >)
        ensures
            r == old(self)@.staging_result(),
            final(self)@ == old(self)@.stage_hint(hint, purpose),
            final(self).spec_host() == old(self).spec_host(),
    {
        match self.state {
            SessionState::Destroyed => Err(CommitError::NotBound),
            _ => {
                self.pending_hint = Some((hint, purpose));
                Ok(())
            },
        }
    }

    /// Gathers all that is staged into one batch and enqueues it on the
    /// connection; then nothing is staged. With nothing staged the batch is
    /// empty and still sent. Success means enqueued, not applied. After
    /// teardown, or on a closed connection, the call fails and changes
    /// nothing, neither here nor on the connection.
    pub fn commit(&mut self, conn: &mut Connection) -> (r: Result<(), CommitError>)
        ensures
            r == old(self)@.commit_result(old(conn)@.open),
            final(self)@ == old(self)@.after_commit(old(conn)@.open),
            final(conn)@.open == old(conn)@.open,
            final(conn)@.outgoing == old(self)@.outgoing_after_commit(old(conn)@),
            final(self).spec_host() == old(self).spec_host(),
    {
        match self.state {
            SessionState::Destroyed => {
                return Err(CommitError::NotBound);
            },
            _ => {},
        }
        if !conn.is_open() {
            return Err(CommitError::TransportClosed);
        }
        let batch = Batch { text: self.pending_commit_string.take(), hint: self.pending_hint };
        self.pending_hint = None;
        let sent = conn.enqueue(batch);
        assert(sent.is_ok());
        Ok(())
    }

    /// Tears the session down: what was staged is dropped, and from now on
    /// every staging call and every commit is refused.
    pub fn destroy(&mut self)
        ensures
            final(self)@ == old(self)@.torn_down(),
            final(self).spec_host() == old(self).spec_host(),
    {
        self.state = SessionState::Destroyed;
        self.pending_commit_string = None;
        self.pending_hint = None;
    }

    /// Takes one event of the compositor: follows an activation or a
    /// deactivation, and hands a keyboard request or a content type on to the
    /// host as it came. Returns the call that it made on the host, if it made
    /// one. What is staged stays staged.
    pub fn handle_event(&mut self, event: Event) -> (call: Option<HostCall>)
        ensures
            final(self)@ == old(self)@.after_event(event),
            call == old(self)@.host_call(event),
            final(self).spec_host() == old(self).spec_host(),
    {
        match self.state {
            SessionState::Destroyed => {
                return None;
            },
            _ => {},
        }
        match event {
            Event::Activate => {
                self.state = SessionState::Active;
                None
            },
            Event::Deactivate => {
                match self.state {
                    SessionState::Active => {
                        self.state = SessionState::Inactive;
                    },
                    _ => {},
                }
                None
            },
            Event::ShowKeyboard => {
                self.host.show_keyboard();
                Some(HostCall::ShowKeyboard)
            },
            Event::HideKeyboard => {
                self.host.hide_keyboard();
                Some(HostCall::HideKeyboard)
            },
            Event::ContentType(hint, purpose) => {
                self.host.set_hint_purpose(hint, purpose);
                Some(HostCall::SetHintPurpose(hint, purpose))
            },
            Event::Unrecognized(_) => None,
        }
    }
}

} // verus!
