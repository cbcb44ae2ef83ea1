use input_method_client::connection::{Batch, Connection};
use input_method_client::error::CommitError;
use input_method_client::hint::{ContentHint, ContentPurpose};
use input_method_client::host::{HintPurpose, HostCall, KeyboardVisibility};
use input_method_client::registry::Binding;
use input_method_client::session::{Event, InputMethodSession, SessionState};
use input_method_client::setup::{submit_text, teardown};
use std::cell::RefCell;

struct Recorder {
    calls: RefCell<Vec<HostCall>>,
}

impl Recorder {
    fn new() -> Recorder {
        Recorder { calls: RefCell::new(Vec::new()) }
    }

    fn seen(&self) -> Vec<HostCall> {
        self.calls.borrow().clone()
    }
}

impl KeyboardVisibility for Recorder {
    fn show_keyboard(&self) {
        self.calls.borrow_mut().push(HostCall::ShowKeyboard);
    }

    fn hide_keyboard(&self) {
        self.calls.borrow_mut().push(HostCall::HideKeyboard);
    }
}

impl HintPurpose for Recorder {
    fn set_hint_purpose(&self, content_hint: ContentHint, content_purpose: ContentPurpose) {
        self.calls.borrow_mut().push(HostCall::SetHintPurpose(content_hint, content_purpose));
    }
}

fn fresh() -> InputMethodSession<Recorder> {
    let seat = Binding { name: 3, version: 1 };
    let manager = Binding { name: 9, version: 1 };
    InputMethodSession::new(40, &seat, manager, Recorder::new())
}

fn sent(conn: &mut Connection) -> Vec<(Option<String>, Option<(ContentHint, ContentPurpose)>)> {
    conn.take_outgoing().into_iter().map(|b: Batch| (b.text, b.hint)).collect()
}

#[test]
fn new_session_is_bound_and_holds_nothing() {
    let s = fresh();
    assert_eq!(s.state(), SessionState::Bound);
    assert!(!s.is_active());
    assert!(!s.has_staged());
    assert_eq!(s.staged_text(), None);
    assert_eq!(s.staged_hint(), None);
    assert_eq!(s.id(), 40);
    assert_eq!(s.seat(), Binding { name: 3, version: 1 });
    assert_eq!(s.manager(), Binding { name: 9, version: 1 });
}

#[test]
fn hint_and_text_leave_in_one_batch() {
    let mut conn = Connection::new();
    let mut s = fresh();
    assert_eq!(s.set_hint_purpose(ContentHint::none(), ContentPurpose::Digits), Ok(()));
    assert_eq!(s.commit_string("42".to_string()), Ok(()));
    assert_eq!(conn.outgoing_len(), 0);
    assert_eq!(s.commit(&mut conn), Ok(()));
    assert_eq!(conn.outgoing_len(), 1);
    assert_eq!(
        sent(&mut conn),
        vec![(Some("42".to_string()), Some((ContentHint { bits: 0 }, ContentPurpose::Digits)))]
    );
    assert!(!s.has_staged());
    assert_eq!(s.staged_text(), None);
    assert_eq!(s.staged_hint(), None);
}

#[test]
fn only_the_last_hint_is_sent() {
    let mut conn = Connection::new();
    let mut s = fresh();
    assert_eq!(s.set_hint_purpose(ContentHint { bits: 0x40 }, ContentPurpose::Password), Ok(()));
    assert_eq!(s.set_hint_purpose(ContentHint { bits: 0x200 }, ContentPurpose::Normal), Ok(()));
    assert_eq!(s.set_hint_purpose(ContentHint { bits: 0x8 }, ContentPurpose::Email), Ok(()));
    assert_eq!(s.staged_hint(), Some((ContentHint { bits: 0x8 }, ContentPurpose::Email)));
    assert_eq!(s.commit(&mut conn), Ok(()));
    assert_eq!(sent(&mut conn), vec![(None, Some((ContentHint { bits: 0x8 }, ContentPurpose::Email)))]);
}

#[test]
fn later_text_replaces_earlier_text() {
    let mut conn = Connection::new();
    let mut s = fresh();
    assert_eq!(s.commit_string("first".to_string()), Ok(()));
    assert_eq!(s.commit_string("second".to_string()), Ok(()));
    assert_eq!(s.staged_text(), Some(&"second".to_string()));
    assert_eq!(s.commit(&mut conn), Ok(()));
    assert_eq!(sent(&mut conn), vec![(Some("second".to_string()), None)]);
}

#[test]
fn empty_text_is_staged_and_committed() {
    let mut conn = Connection::new();
    let mut s = fresh();
    assert_eq!(s.commit_string(String::new()), Ok(()));
    assert!(s.has_staged());
    assert_eq!(s.commit(&mut conn), Ok(()));
    assert!(!s.has_staged());
    assert_eq!(s.state(), SessionState::Bound);
    assert_eq!(sent(&mut conn), vec![(Some(String::new()), None)]);
}

#[test]
fn two_commits_send_two_batches() {
    let mut conn = Connection::new();
    let mut s = fresh();
    assert_eq!(s.commit(&mut conn), Ok(()));
    assert_eq!(s.commit(&mut conn), Ok(()));
    assert_eq!(conn.outgoing_len(), 2);
    let batches = conn.take_outgoing();
    assert_eq!(batches.len(), 2);
    assert!(batches[0].is_empty());
    assert!(batches[1].is_empty());
    assert_eq!(conn.outgoing_len(), 0);
}

#[test]
fn second_commit_carries_nothing_of_the_first() {
    let mut conn = Connection::new();
    let mut s = fresh();
    assert_eq!(s.set_hint_purpose(ContentHint { bits: 1 }, ContentPurpose::Url), Ok(()));
    assert_eq!(s.commit_string("a".to_string()), Ok(()));
    assert_eq!(s.commit(&mut conn), Ok(()));
    assert_eq!(s.commit(&mut conn), Ok(()));
    assert_eq!(
        sent(&mut conn),
        vec![
            (Some("a".to_string()), Some((ContentHint { bits: 1 }, ContentPurpose::Url))),
            (None, None),
        ]
    );
}

#[test]
fn destroyed_session_refuses_every_call() {
    let mut conn = Connection::new();
    let mut s = fresh();
    assert_eq!(s.commit_string("kept?".to_string()), Ok(()));
    s.destroy();
    assert_eq!(s.state(), SessionState::Destroyed);
    assert!(!s.has_staged());
    assert_eq!(s.commit_string("x".to_string()), Err(CommitError::NotBound));
    assert_eq!(
        s.set_hint_purpose(ContentHint::none(), ContentPurpose::Pin),
        Err(CommitError::NotBound)
    );
    assert_eq!(s.commit(&mut conn), Err(CommitError::NotBound));
    assert_eq!(submit_text(&mut s, &mut conn, "y".to_string()), Err(CommitError::NotBound));
    assert_eq!(s.staged_text(), None);
    assert_eq!(s.staged_hint(), None);
    assert_eq!(s.state(), SessionState::Destroyed);
    assert_eq!(conn.outgoing_len(), 0);
    assert!(conn.is_open());
}

#[test]
fn destroyed_session_wins_over_closed_connection() {
    let mut conn = Connection::new();
    conn.close();
    let mut s = fresh();
    s.destroy();
    assert_eq!(s.commit(&mut conn), Err(CommitError::NotBound));
}

#[test]
fn commit_on_closed_connection_keeps_what_is_staged() {
    let mut conn = Connection::new();
    let mut s = fresh();
    assert_eq!(s.commit_string("wait".to_string()), Ok(()));
    assert_eq!(s.set_hint_purpose(ContentHint { bits: 2 }, ContentPurpose::Name), Ok(()));
    conn.close();
    assert!(!conn.is_open());
    assert_eq!(s.commit(&mut conn), Err(CommitError::TransportClosed));
    assert_eq!(s.staged_text(), Some(&"wait".to_string()));
    assert_eq!(s.staged_hint(), Some((ContentHint { bits: 2 }, ContentPurpose::Name)));
    assert_eq!(conn.outgoing_len(), 0);
    assert_eq!(s.state(), SessionState::Bound);
}

#[test]
fn commit_is_accepted_while_inactive() {
    let mut conn = Connection::new();
    let mut s = fresh();
    assert_eq!(s.handle_event(Event::Activate), None);
    assert_eq!(s.handle_event(Event::Deactivate), None);
    assert_eq!(s.state(), SessionState::Inactive);
    assert_eq!(s.commit_string("still".to_string()), Ok(()));
    assert_eq!(s.commit(&mut conn), Ok(()));
    assert_eq!(sent(&mut conn), vec![(Some("still".to_string()), None)]);
    assert_eq!(s.state(), SessionState::Inactive);
}

#[test]
fn activation_follows_the_compositor() {
    let mut s = fresh();
    assert_eq!(s.handle_event(Event::Deactivate), None);
    assert_eq!(s.state(), SessionState::Bound);
    assert_eq!(s.handle_event(Event::Activate), None);
    assert_eq!(s.state(), SessionState::Active);
    assert!(s.is_active());
    assert_eq!(s.handle_event(Event::Activate), None);
    assert_eq!(s.state(), SessionState::Active);
    assert_eq!(s.handle_event(Event::Deactivate), None);
    assert_eq!(s.state(), SessionState::Inactive);
    assert!(!s.is_active());
    assert_eq!(s.handle_event(Event::Deactivate), None);
    assert_eq!(s.state(), SessionState::Inactive);
    assert_eq!(s.handle_event(Event::Activate), None);
    assert!(s.is_active());
    assert_eq!(s.handle_event(Event::Unrecognized(77)), None);
    assert!(s.is_active());
    assert!(s.host().seen().is_empty());
}

#[test]
fn requests_reach_the_host_as_they_came() {
    let mut s = fresh();
    assert_eq!(s.handle_event(Event::ShowKeyboard), Some(HostCall::ShowKeyboard));
    assert_eq!(s.handle_event(Event::HideKeyboard), Some(HostCall::HideKeyboard));
    let hint = ContentHint { bits: 0x80 };
    assert_eq!(
        s.handle_event(Event::ContentType(hint, ContentPurpose::Phone)),
        Some(HostCall::SetHintPurpose(hint, ContentPurpose::Phone))
    );
    assert_eq!(
        s.host().seen(),
        vec![
            HostCall::ShowKeyboard,
            HostCall::HideKeyboard,
            HostCall::SetHintPurpose(hint, ContentPurpose::Phone),
        ]
    );
    assert_eq!(s.state(), SessionState::Bound);
    assert_eq!(s.staged_hint(), None);
}

#[test]
fn events_do_not_touch_what_is_staged() {
    let mut s = fresh();
    assert_eq!(s.commit_string("draft".to_string()), Ok(()));
    assert_eq!(s.handle_event(Event::Activate), None);
    assert_eq!(
        s.handle_event(Event::ContentType(ContentHint { bits: 4 }, ContentPurpose::Date)),
        Some(HostCall::SetHintPurpose(ContentHint { bits: 4 }, ContentPurpose::Date))
    );
    assert_eq!(s.staged_text(), Some(&"draft".to_string()));
    assert_eq!(s.staged_hint(), None);
}

#[test]
fn destroyed_session_drops_events() {
    let mut s = fresh();
    s.destroy();
    assert_eq!(s.handle_event(Event::Activate), None);
    assert_eq!(s.handle_event(Event::ShowKeyboard), None);
    assert_eq!(s.handle_event(Event::ContentType(ContentHint::none(), ContentPurpose::Time)), None);
    assert_eq!(s.state(), SessionState::Destroyed);
    assert!(s.host().seen().is_empty());
}

#[test]
fn submit_text_stages_and_commits() {
    let mut conn = Connection::new();
    let mut s = fresh();
    assert_eq!(s.set_hint_purpose(ContentHint { bits: 0x10 }, ContentPurpose::Alpha), Ok(()));
    assert_eq!(submit_text(&mut s, &mut conn, "Hello world!".to_string()), Ok(()));
    assert!(!s.has_staged());
    assert_eq!(
        sent(&mut conn),
        vec![(Some("Hello world!".to_string()), Some((ContentHint { bits: 0x10 }, ContentPurpose::Alpha)))]
    );
}

#[test]
fn submit_text_on_closed_connection_leaves_text_staged() {
    let mut conn = Connection::new();
    conn.close();
    let mut s = fresh();
    assert_eq!(
        submit_text(&mut s, &mut conn, "late".to_string()),
        Err(CommitError::TransportClosed)
    );
    assert_eq!(s.staged_text(), Some(&"late".to_string()));
    assert_eq!(conn.outgoing_len(), 0);
}

#[test]
fn connection_hands_batches_out_oldest_first() {
    let mut conn = Connection::new();
    assert_eq!(conn.enqueue(Batch { text: Some("one".to_string()), hint: None }), Ok(()));
    assert_eq!(conn.enqueue(Batch { text: Some("two".to_string()), hint: None }), Ok(()));
    assert_eq!(sent(&mut conn), vec![(Some("one".to_string()), None), (Some("two".to_string()), None)]);
    assert_eq!(conn.outgoing_len(), 0);
    conn.close();
    assert!(conn.enqueue(Batch { text: None, hint: None }).is_err());
    assert_eq!(conn.outgoing_len(), 0);
}

#[test]
fn purposes_have_their_wire_numbers() {
    assert_eq!(ContentPurpose::Normal.to_raw(), 0);
    assert_eq!(ContentPurpose::Digits.to_raw(), 2);
    assert_eq!(ContentPurpose::Email.to_raw(), 6);
    assert_eq!(ContentPurpose::Terminal.to_raw(), 13);
    assert_eq!(ContentPurpose::from_raw(2), Some(ContentPurpose::Digits));
    assert_eq!(ContentPurpose::from_raw(8), Some(ContentPurpose::Password));
    assert_eq!(ContentPurpose::from_raw(13), Some(ContentPurpose::Terminal));
    assert_eq!(ContentPurpose::from_raw(14), None);
    assert_eq!(ContentPurpose::from_raw(u32::MAX), None);
    let mut n: u32 = 0;
    while n <= 13 {
        assert_eq!(ContentPurpose::from_raw(n).map(|p| p.to_raw()), Some(n));
        n += 1;
    }
    assert!(ContentHint::none().is_none());
    assert!(!ContentHint { bits: 0x40 }.is_none());
}

#[test]
fn teardown_closes_the_connection_and_destroys_the_session() {
    let mut conn = Connection::new();
    let mut s = fresh();
    assert_eq!(s.commit_string("sent".to_string()), Ok(()));
    assert_eq!(s.commit(&mut conn), Ok(()));
    assert_eq!(s.commit_string("dropped".to_string()), Ok(()));
    teardown(&mut s, &mut conn);
    assert!(!conn.is_open());
    assert_eq!(conn.outgoing_len(), 1);
    assert_eq!(s.state(), SessionState::Destroyed);
    assert!(!s.has_staged());
    assert_eq!(s.commit(&mut conn), Err(CommitError::NotBound));
    assert_eq!(sent(&mut conn), vec![(Some("sent".to_string()), None)]);
}
