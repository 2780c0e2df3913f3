//! What holds of observations, proved from the definitions in
//! [`Hoverable`].

use crate::hook::Hook;
use crate::hoverable::Hoverable;
use crate::state::State;
use vstd::prelude::*;

verus! {

impl<'a, Message: Clone> Hoverable<'a, Message> {
    /// Every hook fires at most once per observation, exactly when it is due
    /// and has a template, and the edge-triggered hook goes first.
    pub proof fn lemma_fired_once(self, was_focused: bool, inside: bool)
        ensures
            self.fired(was_focused, inside).no_duplicates(),
            forall|hook: Hook|
                self.fired(was_focused, inside).contains(hook) <==> self.fires(
                    hook,
                    was_focused,
                    inside,
                ),
            self.fires(Hook::FocusChanged, was_focused, inside) ==> self.fired(
                was_focused,
                inside,
            )[0] == Hook::FocusChanged,
    {
        let fired = self.fired(was_focused, inside);
        assert forall|hook: Hook| fired.contains(hook) <==> self.fires(
            hook,
            was_focused,
            inside,
        ) by {
            if self.fires(hook, was_focused, inside) {
                if hook == Hook::FocusChanged {
                    assert(fired[0] == hook);
                } else {
                    assert(fired[fired.len() - 1] == hook);
                }
            }
        }
    }

    /// Entering: an observation with the pointer inside sets the flag. The
    /// focus message goes out whenever it is configured, and the
    /// focus-changed message goes out ahead of it, once, exactly when the
    /// flag was unset and that message is configured. The unfocus message
    /// never goes out.
    pub proof fn lemma_entry(self, before: State, after: State, messages: Seq<Message>)
        requires
            self.step(before, true, after, messages),
        ensures
            after.focused(),
            self.fired(before.focused(), true) =~= if before.focused() {
                self.attached(Hook::Focus)
            } else {
                self.attached(Hook::FocusChanged) + self.attached(Hook::Focus)
            },
            self.template(Hook::Focus) is Some ==> messages.len() > 0 && cloned(
                self.template(Hook::Focus)->0,
                messages.last(),
            ),
            !before.focused() && self.template(Hook::FocusChanged) is Some ==> messages.len() > 0
                && cloned(self.template(Hook::FocusChanged)->0, messages[0]),
    {
        let fired = self.fired(before.focused(), true);
        if self.template(Hook::Focus) is Some {
            assert(fired[fired.len() - 1] == Hook::Focus);
        }
        if !before.focused() && self.template(Hook::FocusChanged) is Some {
            assert(fired[0] == Hook::FocusChanged);
        }
    }

    /// Leaving: an observation with the pointer outside or absent clears the
    /// flag. The unfocus message goes out whenever it is configured, and the
    /// focus-changed message goes out ahead of it, once, exactly when the
    /// flag was set and that message is configured. The focus message never
    /// goes out.
    pub proof fn lemma_exit(self, before: State, after: State, messages: Seq<Message>)
        requires
            self.step(before, false, after, messages),
        ensures
            !after.focused(),
            self.fired(before.focused(), false) =~= if before.focused() {
                self.attached(Hook::FocusChanged) + self.attached(Hook::Unfocus)
            } else {
                self.attached(Hook::Unfocus)
            },
            self.template(Hook::Unfocus) is Some ==> messages.len() > 0 && cloned(
                self.template(Hook::Unfocus)->0,
                messages.last(),
            ),
            before.focused() && self.template(Hook::FocusChanged) is Some ==> messages.len() > 0
                && cloned(self.template(Hook::FocusChanged)->0, messages[0]),
    {
        let fired = self.fired(before.focused(), false);
        if self.template(Hook::Unfocus) is Some {
            assert(fired[fired.len() - 1] == Hook::Unfocus);
        }
        if before.focused() && self.template(Hook::FocusChanged) is Some {
            assert(fired[0] == Hook::FocusChanged);
        }
    }

    /// Two observations in a row with the pointer inside: the focus-changed
    /// hook can fire on the first only, and then only if the flag was unset;
    /// the focus hook fires on both or on neither.
    pub proof fn lemma_repeated_inside(
        self,
        before: State,
        between: State,
        after: State,
        first: Seq<Message>,
        second: Seq<Message>,
    )
        requires
            self.step(before, true, between, first),
            self.step(between, true, after, second),
        ensures
            after.focused(),
            self.fired(before.focused(), true).contains(Hook::FocusChanged) <==> !before.focused()
                && self.template(Hook::FocusChanged) is Some,
            !self.fired(between.focused(), true).contains(Hook::FocusChanged),
            self.fired(before.focused(), true).contains(Hook::Focus) <==> self.template(
                Hook::Focus,
            ) is Some,
            self.fired(between.focused(), true).contains(Hook::Focus) <==> self.template(
                Hook::Focus,
            ) is Some,
            second.len() == if self.template(Hook::Focus) is Some {
                1nat
            } else {
                0nat
            },
    {
        self.lemma_fired_once(before.focused(), true);
        self.lemma_fired_once(between.focused(), true);
        assert(self.fires(Hook::Focus, before.focused(), true) <==> self.template(Hook::Focus) is Some);
        assert(self.fires(Hook::Focus, between.focused(), true) <==> self.template(Hook::Focus) is Some);
        assert(!self.fires(Hook::FocusChanged, between.focused(), true));
    }

    /// With no template attached, an observation still sets the flag and
    /// sends nothing.
    pub proof fn lemma_no_hooks(
        self,
        before: State,
        inside: bool,
        after: State,
        messages: Seq<Message>,
    )
        requires
            forall|hook: Hook| self.template(hook) is None,
            self.step(before, inside, after, messages),
        ensures
            after.focused() == inside,
            self.fired(before.focused(), inside).len() == 0,
            messages.len() == 0,
    {
    }
}

} // verus!
