//! What the host application implements, and what the client calls on it.

use vstd::prelude::*;
use crate::hint::{ContentHint, ContentPurpose};

verus! {

/// The host shows and hides its on-screen keyboard on the compositor's
/// request. Both methods run while messages are dispatched and must return
/// promptly.
pub trait KeyboardVisibility {
    fn show_keyboard(&self);

    fn hide_keyboard(&self);
}

/// The host learns the hint and purpose of the text field that has the
/// focus. The method runs while messages are dispatched and must return
/// promptly.
pub trait HintPurpose {
    fn set_hint_purpose(&self, content_hint: ContentHint, content_purpose: ContentPurpose);
}

/// One call on the host.
#[derive(Clone, Copy, Debug, PartialEq, Eq, Structural)]
pub enum HostCall {
    ShowKeyboard,
    HideKeyboard,
    SetHintPurpose(ContentHint, ContentPurpose),
}

} // verus!
