//! The hoverable wrapper: its configuration and its event handling.

use crate::hook::Hook;
use crate::host::{layout_bounds, node_children, node_size, position_within};
use crate::state::State;
use iced::advanced::layout::{Layout, Node};
use iced::advanced::Shell;
use iced::event::Status;
use iced::mouse::Cursor;
use iced::{Element, Length, Renderer, Size, Theme};
use vstd::prelude::*;

verus! {

/// A wrapper that owns one child element and up to three message templates.
#[verifier::reject_recursive_types(Message)]
pub struct Hoverable<'a, Message> {
    widget: Element<'a, Message, Theme, Renderer>,
    on_focus_changed: Option<Message>,
    on_focus: Option<Message>,
    on_unfocus: Option<Message>,
}

/// Wraps `widget` with no hooks attached.
pub fn hoverable<'a, Message>(
    widget: Element<'a, Message, Theme, Renderer>,
) -> (wrapper: Hoverable<'a, Message>)
    ensures
        wrapper.child() == widget,
        forall|hook: Hook| wrapper.template(hook) is None,
{
    Hoverable::new(widget)
}

/// Whether the pointer is over the region that a layout gives to a widget:
/// whether `iced` finds a position for the cursor within the layout's bounds.
pub open spec fn hovered(layout: Layout<'_>, cursor: Cursor) -> bool {
    position_within(cursor, layout_bounds(layout)) is Some
}

/// Puts a child's layout node inside a parent of the same size, as its only
/// child and without moving it.
pub fn enclose(child: Node) -> (node: Node)
    ensures
        node_size(node) == node_size(child),
        node_children(node) == seq![child],
{
    let size = child.size();
    Node::with_children(size, vec![child])
}

impl<'a, Message> Hoverable<'a, Message> {
    /// The wrapped child.
    pub closed spec fn child(self) -> Element<'a, Message, Theme, Renderer> {
        self.widget
    }

    /// The message template attached to a hook, if any.
    pub closed spec fn template(self, hook: Hook) -> Option<Message> {
        match hook {
            Hook::FocusChanged => self.on_focus_changed,
            Hook::Focus => self.on_focus,
            Hook::Unfocus => self.on_unfocus,
        }
    }

    /// Whether an observation makes a hook fire: the hook is due and has a
    /// template.
    pub open spec fn fires(self, hook: Hook, was_focused: bool, inside: bool) -> bool {
        hook.due(was_focused, inside) && self.template(hook) is Some
    }

    /// The hook alone if it has a template, and nothing otherwise.
    pub open spec fn attached(self, hook: Hook) -> Seq<Hook> {
        if self.template(hook) is Some {
            seq![hook]
        } else {
            Seq::empty()
        }
    }

    /// The hooks that fire on one observation, in the order in which their
    /// messages go out: the edge-triggered hook, if the flag flips, and then
    /// the level-triggered hook of the side the pointer is on.
    pub open spec fn fired(self, was_focused: bool, inside: bool) -> Seq<Hook> {
        let edge = if was_focused != inside {
            self.attached(Hook::FocusChanged)
        } else {
            Seq::empty()
        };
        let level = if inside {
            self.attached(Hook::Focus)
        } else {
            self.attached(Hook::Unfocus)
        };
        edge + level
    }

    /// Wraps `widget` with no hooks attached.
    pub fn new(widget: Element<'a, Message, Theme, Renderer>) -> (wrapper: Self)
        ensures
            wrapper.child() == widget,
            forall|hook: Hook| wrapper.template(hook) is None,
    {
        Self { widget, on_focus_changed: None, on_focus: None, on_unfocus: None }
    }

    /// Sets the message to send when the focus flag flips, replacing any
    /// earlier one.
    pub fn on_focus_change(self, message: Message) -> (wrapper: Self)
        ensures
            wrapper.child() == self.child(),
            wrapper.template(Hook::FocusChanged) == Some(message),
            wrapper.template(Hook::Focus) == self.template(Hook::Focus),
            wrapper.template(Hook::Unfocus) == self.template(Hook::Unfocus),
    {
        let mut wrapper = self;
        wrapper.on_focus_changed = Some(message);
        wrapper
    }

    /// Sets the message to send on every observation with the pointer
    /// inside, replacing any earlier one.
    pub fn on_focus(self, message: Message) -> (wrapper: Self)
        ensures
            wrapper.child() == self.child(),
            wrapper.template(Hook::FocusChanged) == self.template(Hook::FocusChanged),
            wrapper.template(Hook::Focus) == Some(message),
            wrapper.template(Hook::Unfocus) == self.template(Hook::Unfocus),
    {
        let mut wrapper = self;
        wrapper.on_focus = Some(message);
        wrapper
    }

    /// Sets the message to send on every observation with the pointer
    /// outside, replacing any earlier one.
    pub fn on_unfocus(self, message: Message) -> (wrapper: Self)
        ensures
            wrapper.child() == self.child(),
            wrapper.template(Hook::FocusChanged) == self.template(Hook::FocusChanged),
            wrapper.template(Hook::Focus) == self.template(Hook::Focus),
            wrapper.template(Hook::Unfocus) == Some(message),
    {
        let mut wrapper = self;
        wrapper.on_unfocus = Some(message);
        wrapper
    }

    /// Borrows the wrapped child.
    pub fn widget(&self) -> (widget: &Element<'a, Message, Theme, Renderer>)
        ensures
            *widget == self.child(),
    {
        &self.widget
    }

    /// Borrows the wrapped child for mutation. The hooks stay as they are.
    pub fn widget_mut(&mut self) -> (widget: &mut Element<'a, Message, Theme, Renderer>)
        ensures
            *widget == old(self).child(),
            final(self).child() == *final(widget),
            forall|hook: Hook| final(self).template(hook) == old(self).template(hook),
    {
        &mut self.widget
    }

    /// Borrows the message template attached to a hook, if any.
    pub fn hook(&self, hook: Hook) -> (template: Option<&Message>)
        ensures
            template is Some == self.template(hook) is Some,
            template is Some ==> *template->0 == self.template(hook)->0,
    {
        match hook {
            Hook::FocusChanged => self.on_focus_changed.as_ref(),
            Hook::Focus => self.on_focus.as_ref(),
            Hook::Unfocus => self.on_unfocus.as_ref(),
        }
    }

    /// The space the wrapper asks for: as little as its content needs, on
    /// both axes.
    pub fn size(&self) -> (size: Size<Length>)
        ensures
            size.width == Length::Shrink,
            size.height == Length::Shrink,
    {
        Size::new(Length::Shrink, Length::Shrink)
    }
}

impl<'a, Message: Clone> Hoverable<'a, Message> {
    /// Whether `messages` are what one observation sends: one clone of the
    /// template of each hook that fires, in firing order.
    pub open spec fn sends(self, was_focused: bool, inside: bool, messages: Seq<Message>) -> bool {
        let fired = self.fired(was_focused, inside);
        &&& messages.len() == fired.len()
        &&& forall|i: int|
            0 <= i < fired.len() ==> cloned(self.template(#[trigger] fired[i])->0, messages[i])
    }

    /// One observation as a transition: the flag becomes the observation,
    /// and `messages` are what it sends.
    pub open spec fn step(
        self,
        before: State,
        inside: bool,
        after: State,
        messages: Seq<Message>,
    ) -> bool {
        &&& after.focused() == inside
        &&& self.sends(before.focused(), inside, messages)
    }

    /// Takes in one observation of the pointer: stores it as the new focus
    /// flag and returns the messages to publish, in order.
    pub fn observe(&self, state: &mut State, inside: bool) -> (messages: Vec<Message>)
        ensures
            self.step(*old(state), inside, *final(state), messages@),
    {
        let was_focused = state.is_focused();
        let mut messages = Vec::new();
        if was_focused != inside {
            if let Some(on_change) = &self.on_focus_changed {
                messages.push(on_change.clone());
            }
        }
        let level = if inside {
            &self.on_focus
        } else {
            &self.on_unfocus
        };
        if let Some(on_level) = level {
            messages.push(on_level.clone());
        }
        state.record(inside);
        messages
    }

    /// Handles one event that has already been offered to the child.
    ///
    /// `child` is the child's answer. If the child captured the event, the
    /// wrapper reports it captured and touches neither the state nor the
    /// shell. Otherwise the pointer is looked up in the wrapper's bounds, the
    /// result becomes the new focus flag, the messages of
    /// [`observe`](Self::observe) are published in order, and the event is
    /// reported ignored: the wrapper watches events and never consumes one.
    ///
    /// The contract cannot say which messages reach the shell, whose queue
    /// has no model here; it says when the shell is left alone.
    pub fn on_event(
        &self,
        state: &mut State,
        child: Status,
        layout: Layout<'_>,
        cursor: Cursor,
        shell: &mut Shell<'_, Message>,
    ) -> (status: Status)
        ensures
            status == child,
            child == Status::Captured ==> *final(state) == *old(state) && *final(shell) == *old(
                shell,
            ),
            child == Status::Ignored ==> final(state).focused() == hovered(layout, cursor),
            child == Status::Ignored && cursor is Unavailable ==> !final(state).focused(),
            child == Status::Ignored && self.fired(
                old(state).focused(),
                hovered(layout, cursor),
            ).len() == 0 ==> *final(shell) == *old(shell),
    {
        match child {
            Status::Captured => Status::Captured,
            Status::Ignored => {
                let inside = match cursor.position_in(layout.bounds()) {
                    Some(_) => true,
                    None => false,
                };
                let messages = self.observe(state, inside);
                for message in iter: messages
                    invariant
                        iter.index() == 0 ==> *shell == *old(shell),
                {
                    shell.publish(message);
                }
                Status::Ignored
            },
        }
    }
}

} // verus!
