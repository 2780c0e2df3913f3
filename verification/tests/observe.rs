use iced::widget::Space;
use iced::{Element, Length, Renderer, Theme};
use iced_on_focus_text_input::{hoverable, Hook, Hoverable, State};

#[derive(Debug, Clone, PartialEq)]
enum Note {
    Changed,
    Over,
    Away,
}

fn child<'a>() -> Element<'a, Note, Theme, Renderer> {
    Space::new(Length::Fixed(30.0), Length::Fixed(20.0)).into()
}

fn fully_hooked<'a>() -> Hoverable<'a, Note> {
    hoverable(child())
        .on_focus_change(Note::Changed)
        .on_focus(Note::Over)
        .on_unfocus(Note::Away)
}

fn focused_state(wrapper: &Hoverable<'_, Note>) -> State {
    let mut state = State::default();
    let _ = wrapper.observe(&mut state, true);
    state
}

#[test]
fn default_state_is_unfocused() {
    assert!(!State::default().is_focused());
}

#[test]
fn state_compares_by_its_flag() {
    let wrapper = fully_hooked();
    let focused = focused_state(&wrapper);
    assert_eq!(State::default(), State::default());
    assert_ne!(focused, State::default());
    let copy = focused;
    assert_eq!(copy, focused);
    assert_eq!(format!("{:?}", State::default()), "State { is_focused: false }");
}

#[test]
fn entering_from_unfocused_sends_change_then_focus() {
    let wrapper = fully_hooked();
    let mut state = State::default();
    let messages = wrapper.observe(&mut state, true);
    assert_eq!(messages, vec![Note::Changed, Note::Over]);
    assert!(state.is_focused());
}

#[test]
fn staying_inside_sends_focus_only() {
    let wrapper = fully_hooked();
    let mut state = focused_state(&wrapper);
    let messages = wrapper.observe(&mut state, true);
    assert_eq!(messages, vec![Note::Over]);
    assert!(state.is_focused());
}

#[test]
fn leaving_from_focused_sends_change_then_unfocus() {
    let wrapper = fully_hooked();
    let mut state = focused_state(&wrapper);
    let messages = wrapper.observe(&mut state, false);
    assert_eq!(messages, vec![Note::Changed, Note::Away]);
    assert!(!state.is_focused());
}

#[test]
fn staying_outside_sends_unfocus_only() {
    let wrapper = fully_hooked();
    let mut state = State::default();
    let messages = wrapper.observe(&mut state, false);
    assert_eq!(messages, vec![Note::Away]);
    assert!(!state.is_focused());
}

#[test]
fn two_inside_observations_send_the_change_once() {
    let wrapper = fully_hooked();
    let mut state = State::default();
    let first = wrapper.observe(&mut state, true);
    let second = wrapper.observe(&mut state, true);
    assert_eq!(first.iter().filter(|m| **m == Note::Changed).count(), 1);
    assert_eq!(second.iter().filter(|m| **m == Note::Changed).count(), 0);
    assert_eq!(first.iter().filter(|m| **m == Note::Over).count(), 1);
    assert_eq!(second.iter().filter(|m| **m == Note::Over).count(), 1);
    assert!(state.is_focused());
}

#[test]
fn a_round_trip_sends_the_change_twice() {
    let wrapper = fully_hooked();
    let mut state = State::default();
    let mut all = Vec::new();
    for inside in [true, true, false, false, true] {
        all.extend(wrapper.observe(&mut state, inside));
    }
    assert_eq!(
        all,
        vec![
            Note::Changed,
            Note::Over,
            Note::Over,
            Note::Changed,
            Note::Away,
            Note::Away,
            Note::Changed,
            Note::Over,
        ]
    );
}

#[test]
fn without_hooks_the_flag_still_follows_the_pointer() {
    let wrapper = hoverable(child());
    let mut state = State::default();
    assert!(wrapper.observe(&mut state, true).is_empty());
    assert!(state.is_focused());
    assert!(wrapper.observe(&mut state, true).is_empty());
    assert!(state.is_focused());
    assert!(wrapper.observe(&mut state, false).is_empty());
    assert!(!state.is_focused());
    assert!(wrapper.observe(&mut state, false).is_empty());
    assert!(!state.is_focused());
}

#[test]
fn only_the_change_hook() {
    let wrapper = hoverable(child()).on_focus_change(Note::Changed);
    let mut state = State::default();
    assert_eq!(wrapper.observe(&mut state, true), vec![Note::Changed]);
    assert_eq!(wrapper.observe(&mut state, true), Vec::<Note>::new());
    assert_eq!(wrapper.observe(&mut state, false), vec![Note::Changed]);
    assert_eq!(wrapper.observe(&mut state, false), Vec::<Note>::new());
}

#[test]
fn only_the_focus_hook() {
    let wrapper = hoverable(child()).on_focus(Note::Over);
    let mut state = State::default();
    assert_eq!(wrapper.observe(&mut state, true), vec![Note::Over]);
    assert_eq!(wrapper.observe(&mut state, true), vec![Note::Over]);
    assert_eq!(wrapper.observe(&mut state, false), Vec::<Note>::new());
    assert!(!state.is_focused());
}

#[test]
fn only_the_unfocus_hook() {
    let wrapper = hoverable(child()).on_unfocus(Note::Away);
    let mut state = State::default();
    assert_eq!(wrapper.observe(&mut state, false), vec![Note::Away]);
    assert_eq!(wrapper.observe(&mut state, true), Vec::<Note>::new());
    assert!(state.is_focused());
    assert_eq!(wrapper.observe(&mut state, false), vec![Note::Away]);
}

#[test]
fn the_same_message_on_two_hooks_goes_out_twice() {
    let wrapper = hoverable(child()).on_focus_change(Note::Over).on_focus(Note::Over);
    let mut state = State::default();
    assert_eq!(wrapper.observe(&mut state, true), vec![Note::Over, Note::Over]);
    assert_eq!(wrapper.observe(&mut state, true), vec![Note::Over]);
}

#[test]
fn new_wrapper_has_no_hooks() {
    let wrapper = Hoverable::new(child());
    assert_eq!(wrapper.hook(Hook::FocusChanged), None);
    assert_eq!(wrapper.hook(Hook::Focus), None);
    assert_eq!(wrapper.hook(Hook::Unfocus), None);
    let wrapper = hoverable(child());
    assert_eq!(wrapper.hook(Hook::FocusChanged), None);
    assert_eq!(wrapper.hook(Hook::Focus), None);
    assert_eq!(wrapper.hook(Hook::Unfocus), None);
}

#[test]
fn each_builder_fills_its_own_slot() {
    let wrapper = hoverable(child()).on_focus(Note::Over);
    assert_eq!(wrapper.hook(Hook::FocusChanged), None);
    assert_eq!(wrapper.hook(Hook::Focus), Some(&Note::Over));
    assert_eq!(wrapper.hook(Hook::Unfocus), None);

    let wrapper = hoverable(child()).on_unfocus(Note::Away);
    assert_eq!(wrapper.hook(Hook::FocusChanged), None);
    assert_eq!(wrapper.hook(Hook::Focus), None);
    assert_eq!(wrapper.hook(Hook::Unfocus), Some(&Note::Away));

    let wrapper = hoverable(child()).on_focus_change(Note::Changed);
    assert_eq!(wrapper.hook(Hook::FocusChanged), Some(&Note::Changed));
    assert_eq!(wrapper.hook(Hook::Focus), None);
    assert_eq!(wrapper.hook(Hook::Unfocus), None);
}

#[test]
fn a_later_message_replaces_an_earlier_one() {
    let wrapper = hoverable(child()).on_focus(Note::Away).on_focus(Note::Over);
    assert_eq!(wrapper.hook(Hook::Focus), Some(&Note::Over));
    let mut state = State::default();
    assert_eq!(wrapper.observe(&mut state, true), vec![Note::Over]);
}

#[test]
fn builders_do_not_depend_on_their_order() {
    let one = hoverable(child())
        .on_unfocus(Note::Away)
        .on_focus(Note::Over)
        .on_focus_change(Note::Changed);
    let other = fully_hooked();
    for hook in [Hook::FocusChanged, Hook::Focus, Hook::Unfocus] {
        assert_eq!(one.hook(hook), other.hook(hook));
    }
}

#[test]
fn the_child_stays_in_place() {
    let mut wrapper = fully_hooked();
    let size = wrapper.widget().as_widget().size();
    assert_eq!(size.width, Length::Fixed(30.0));
    assert_eq!(size.height, Length::Fixed(20.0));
    *wrapper.widget_mut() = Space::new(Length::Fill, Length::Shrink).into();
    let size = wrapper.widget().as_widget().size();
    assert_eq!(size.width, Length::Fill);
    assert_eq!(size.height, Length::Shrink);
    assert_eq!(wrapper.hook(Hook::FocusChanged), Some(&Note::Changed));
    assert_eq!(wrapper.hook(Hook::Focus), Some(&Note::Over));
    assert_eq!(wrapper.hook(Hook::Unfocus), Some(&Note::Away));
}
