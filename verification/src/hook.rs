//! The three notifications a hoverable widget can send.

use vstd::prelude::*;

verus! {

/// A slot for one message template.
#[derive(Debug, Clone, Copy, PartialEq, Eq, Structural)]
pub enum Hook {
    /// Sent when the focus flag flips, in either direction.
    FocusChanged,
    /// Sent on every observation with the pointer inside.
    Focus,
    /// Sent on every observation with the pointer outside or absent.
    Unfocus,
}

impl Hook {
    /// Whether an observation calls for this hook, given the flag before it.
    pub open spec fn due(self, was_focused: bool, inside: bool) -> bool {
        match self {
            Hook::FocusChanged => was_focused != inside,
            Hook::Focus => inside,
            Hook::Unfocus => !inside,
        }
    }
}

} // verus!
