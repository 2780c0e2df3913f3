//! The focus state that the host keeps for each hoverable widget.

use vstd::prelude::*;

verus! {

/// Whether the pointer was over the widget at the last observation.
///
/// The host owns one `State` per widget in its tree and lends it out for each
/// event. A new one is unfocused.
#[derive(Debug, Clone, Copy, PartialEq, Eq, Structural)]
pub struct State {
    is_focused: bool,
}

impl State {
    /// The stored flag.
    pub closed spec fn focused(self) -> bool {
        self.is_focused
    }

    /// Reads the stored flag.
    pub fn is_focused(&self) -> (focused: bool)
        ensures
            focused == self.focused(),
    {
        self.is_focused
    }

    /// Overwrites the stored flag with the latest observation.
    pub(crate) fn record(&mut self, inside: bool)
        ensures
            final(self).focused() == inside,
    {
        self.is_focused = inside;
    }
}

impl Default for State {
    /// The state before any event: unfocused.
    fn default() -> (state: Self)
        ensures
            !state.focused(),
    {
        State { is_focused: false }
    }
}

} // verus!
