//! What holds of every session, whatever was staged and whatever arrived.

use vstd::prelude::*;
use crate::connection::{BatchView, ConnectionView};
use crate::error::{CommitError, ProtocolUnsupported};
use crate::hint::{ContentHint, ContentPurpose};
use crate::host::HostCall;
use crate::queue::{host_calls_of, session_after, strays, Message};
use crate::registry::{first_offer, resolve, Binding, GlobalView};
use crate::session::SessionView;

verus! {

/// The session after a run of `set_hint_purpose` calls, one for each pair,
/// in their order.
pub open spec fn stage_hints(start: SessionView, pairs: Seq<(ContentHint, ContentPurpose)>) -> SessionView
    decreases pairs.len(),
{
    if pairs.len() == 0 {
        start
    } else {
        stage_hints(start, pairs.drop_last()).stage_hint(pairs.last().0, pairs.last().1)
    }
}

/// The hint that is staged after a run of `set_hint_purpose` calls: the last
/// pair of the run, or what was staged before where the run is empty.
pub open spec fn last_staged(start: SessionView, pairs: Seq<(ContentHint, ContentPurpose)>) -> Option<
    (ContentHint, ContentPurpose),
> {
    if pairs.len() == 0 {
        start.hint
    } else {
        Some(pairs.last())
    }
}

/// On a live session, a run of `set_hint_purpose` calls changes the staged
/// hint and nothing else, and leaves the last pair staged.
pub proof fn staging_hints_keeps_the_last(start: SessionView, pairs: Seq<(ContentHint, ContentPurpose)>)
    requires
        !start.destroyed(),
    ensures
        stage_hints(start, pairs) == (SessionView { hint: last_staged(start, pairs), ..start }),
    decreases pairs.len(),
{
    if pairs.len() > 0 {
        staging_hints_keeps_the_last(start, pairs.drop_last());
    }
}

/// However many times a hint and purpose are staged on a live session, the
/// one commit that follows on an open connection succeeds and sends one
/// batch, which carries the pair that was staged last and no other, beside
/// the text that was staged.
pub proof fn only_last_hint_is_sent(
    start: SessionView,
    pairs: Seq<(ContentHint, ContentPurpose)>,
    conn: ConnectionView,
)
    requires
        !start.destroyed(),
        conn.open,
    ensures
        stage_hints(start, pairs).commit_result(conn.open).is_ok(),
        stage_hints(start, pairs).outgoing_after_commit(conn) == conn.outgoing.push(
            BatchView { text: start.text, hint: last_staged(start, pairs) },
        ),
        stage_hints(start, pairs).after_commit(conn.open).nothing_staged(),
{
    staging_hints_keeps_the_last(start, pairs);
}

/// Staging the empty text on a live session and committing on an open
/// connection succeeds; the batch carries the empty text, and afterwards
/// nothing is staged and the state is what it was.
pub proof fn empty_text_commits(start: SessionView, conn: ConnectionView)
    requires
        !start.destroyed(),
        conn.open,
    ensures
        start.staging_result().is_ok(),
        start.stage_text(Seq::empty()).commit_result(conn.open).is_ok(),
        start.stage_text(Seq::empty()).outgoing_after_commit(conn) == conn.outgoing.push(
            BatchView { text: Some(Seq::empty()), hint: start.hint },
        ),
        start.stage_text(Seq::empty()).after_commit(conn.open) == (SessionView {
            text: None,
            hint: None,
            ..start
        }),
{
}

/// The connection after a commit of the session `s`.
pub open spec fn connection_after_commit(s: SessionView, conn: ConnectionView) -> ConnectionView {
    ConnectionView { open: conn.open, outgoing: s.outgoing_after_commit(conn) }
}

/// Two commits in a row on a live session and an open connection both
/// succeed. Each sends a batch of its own: the first what was staged, the
/// second an empty one. The second leaves the session as it found it.
pub proof fn commit_twice_sends_two_batches(start: SessionView, conn: ConnectionView)
    requires
        !start.destroyed(),
        conn.open,
    ensures
        start.commit_result(conn.open).is_ok(),
        start.after_commit(conn.open).commit_result(conn.open).is_ok(),
        start.after_commit(conn.open).batch().is_empty(),
        start.after_commit(conn.open).outgoing_after_commit(connection_after_commit(start, conn))
            == conn.outgoing.push(start.batch()).push(BatchView { text: None, hint: None }),
        start.after_commit(conn.open).after_commit(conn.open) == start.after_commit(conn.open),
{
}

/// After teardown every staging call and every commit answers `NotBound`,
/// and changes neither the session nor what waits on the connection.
pub proof fn destroyed_session_refuses_all(
    s: SessionView,
    text: Seq<char>,
    hint: ContentHint,
    purpose: ContentPurpose,
    conn: ConnectionView,
)
    requires
        s.destroyed(),
    ensures
        s.staging_result() == Err::<(), CommitError>(CommitError::NotBound),
        s.stage_text(text) == s,
        s.stage_hint(hint, purpose) == s,
        s.commit_result(conn.open) == Err::<(), CommitError>(CommitError::NotBound),
        s.after_commit(conn.open) == s,
        s.outgoing_after_commit(conn) == conn.outgoing,
{
}

/// Teardown leads to the destroyed state from every state, with nothing
/// staged.
pub proof fn teardown_destroys(s: SessionView)
    ensures
        s.torn_down().destroyed(),
        s.torn_down().nothing_staged(),
{
}

/// A pass over no messages leaves the session as it is, calls nothing on
/// the host and hands nothing to the default handler.
pub proof fn empty_pass_does_nothing(start: SessionView)
    ensures
        session_after(start, Seq::<Message>::empty()) == start,
        host_calls_of(start, Seq::<Message>::empty()) == Seq::<HostCall>::empty(),
        strays(start.id, Seq::<Message>::empty()) == Seq::<Message>::empty(),
{
}

/// No message brings a destroyed session back or makes it call the host.
pub proof fn destroyed_is_final(start: SessionView, messages: Seq<Message>)
    requires
        start.destroyed(),
    ensures
        session_after(start, messages) == start,
        host_calls_of(start, messages) == Seq::<HostCall>::empty(),
    decreases messages.len(),
{
    if messages.len() > 0 {
        destroyed_is_final(start, messages.drop_last());
    }
}

/// Messages move the state of a session and never what is staged: only a
/// commit or a teardown takes staged changes away.
pub proof fn messages_keep_what_is_staged(start: SessionView, messages: Seq<Message>)
    ensures
        session_after(start, messages) == (SessionView {
            state: session_after(start, messages).state,
            ..start
        }),
        !start.destroyed() ==> !session_after(start, messages).destroyed(),
    decreases messages.len(),
{
    if messages.len() > 0 {
        messages_keep_what_is_staged(start, messages.drop_last());
    }
}

/// A look-up of an interface that no global of the list has is refused,
/// whatever the version.
pub proof fn absent_interface_is_unsupported(
    globals: Seq<GlobalView>,
    interface: Seq<char>,
    version: u32,
)
    requires
        forall|i: int| 0 <= i < globals.len() ==> (#[trigger] globals[i]).interface != interface,
    ensures
        resolve(globals, interface, version) == Err::<Binding, ProtocolUnsupported>(
            ProtocolUnsupported,
        ),
{
    if exists|i: int| first_offer(globals, interface, i) {
        let i = choose|i: int| first_offer(globals, interface, i);
        assert(globals[i].interface != interface);
    }
}

/// Where an interface is in the list, the first global that has it decides
/// the look-up alone: it is bound, in the version asked for, exactly if it
/// offers that version or a higher one.
pub proof fn first_offer_decides(
    globals: Seq<GlobalView>,
    interface: Seq<char>,
    version: u32,
    i: int,
)
    requires
        first_offer(globals, interface, i),
    ensures
        version <= globals[i].version ==> resolve(globals, interface, version) == Ok::<
            Binding,
            ProtocolUnsupported,
        >(Binding { name: globals[i].name, version }),
        version > globals[i].version ==> resolve(globals, interface, version) == Err::<
            Binding,
            ProtocolUnsupported,
        >(ProtocolUnsupported),
{
    let k = choose|k: int| first_offer(globals, interface, k);
    if k < i {
        assert(globals[k].interface != interface);
    }
    if k > i {
        assert(globals[i].interface != interface);
    }
}

} // verus!
