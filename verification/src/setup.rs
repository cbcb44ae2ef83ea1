//! The look-ups that the client is built for, with their interfaces and
//! their version; the one-step text entry that a host's key press comes
//! down to; and the common end of a connection and its session.

use vstd::prelude::*;
use crate::connection::{Connection, ConnectionView};
use crate::error::{CommitError, ProtocolUnsupported};
use crate::host::{HintPurpose, KeyboardVisibility};
use crate::registry::{resolve, Binding, GlobalManager};
use crate::session::InputMethodSession;

verus! {

/// The version in which the client binds what it needs.
pub const PROTOCOL_VERSION: u32 = 1;

/// The interface of a seat.
pub open spec fn seat_interface() -> Seq<char> {
    "wl_seat"@
}

/// The interface of the factory of input methods.
pub open spec fn manager_interface() -> Seq<char> {
    "zwp_input_method_manager_v2"@
}

/// Decides which seat to bind: the first one that the compositor
/// advertises.
pub fn bind_seat(globals: &GlobalManager) -> (r: Result<Binding, ProtocolUnsupported>)
    ensures
        r == resolve(globals@, seat_interface(), PROTOCOL_VERSION),
{
    globals.instantiate_exact("wl_seat", PROTOCOL_VERSION)
}

/// Decides which factory of input methods to bind.
pub fn bind_manager(globals: &GlobalManager) -> (r: Result<Binding, ProtocolUnsupported>)
    ensures
        r == resolve(globals@, manager_interface(), PROTOCOL_VERSION),
{
    globals.instantiate_exact("zwp_input_method_manager_v2", PROTOCOL_VERSION)
}

/// Stages `text` and commits at once: the batch carries the text and the
/// hint that was staged before, if one was. The answer is that of the
/// commit; where it fails on a closed connection the text stays staged.
pub fn submit_text<H: KeyboardVisibility + HintPurpose>(
    session: &mut InputMethodSession<H>,
    conn: &mut Connection,
    text: String,
) -> (r: Result<(), CommitError>)
    ensures
        r == old(session)@.commit_result(old(conn)@.open),
        final(session)@ == old(session)@.stage_text(text@).after_commit(old(conn)@.open),
        final(session).spec_host() == old(session).spec_host(),
        final(conn)@ == (ConnectionView {
            open: old(conn)@.open,
            outgoing: old(session)@.stage_text(text@).outgoing_after_commit(old(conn)@),
        }),
{
    match session.commit_string(text) {
        Ok(()) => session.commit(conn),
        Err(refused) => Err(refused),
    }
}

/// Tears the connection and its session down together: the connection is
/// closed, the session is destroyed and what it had staged is dropped. What
/// was enqueued before stays where it is.
pub fn teardown<H: KeyboardVisibility + HintPurpose>(
    session: &mut InputMethodSession<H>,
    conn: &mut Connection,
)
    ensures
        final(session)@ == old(session)@.torn_down(),
        final(session).spec_host() == old(session).spec_host(),
        final(conn)@ == (ConnectionView { open: false, outgoing: old(conn)@.outgoing }),
{
    conn.close();
    session.destroy();
}

} // verus!
