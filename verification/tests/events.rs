use gui_toolkit::event::{
    held_buttons, Action, Event, Key, Modifiers, MouseButton, RawAction, RawEvent,
};
use gui_toolkit::geometry::Vec2;

const NONE_HELD: [RawAction; 8] = [RawAction::Release; 8];

#[test]
fn a_repeat_counts_as_a_press() {
    assert_eq!(Action::from_raw(RawAction::Press), Action::Press);
    assert_eq!(Action::from_raw(RawAction::Repeat), Action::Press);
    assert_eq!(Action::from_raw(RawAction::Release), Action::Release);
}

#[test]
fn the_eight_button_slots() {
    assert_eq!(MouseButton::from_index(0), Some(MouseButton::Left));
    assert_eq!(MouseButton::from_index(1), Some(MouseButton::Right));
    assert_eq!(MouseButton::from_index(2), Some(MouseButton::Middle));
    assert_eq!(MouseButton::from_index(7), Some(MouseButton::Button8));
    assert_eq!(MouseButton::from_index(8), None);
}

#[test]
fn held_buttons_are_those_not_released() {
    let mut states = NONE_HELD;
    assert_eq!(held_buttons(&states), vec![]);
    states[0] = RawAction::Press;
    states[2] = RawAction::Repeat;
    states[7] = RawAction::Press;
    assert_eq!(
        held_buttons(&states),
        vec![MouseButton::Left, MouseButton::Middle, MouseButton::Button8]
    );
}

#[test]
fn a_button_event_happens_at_the_cursor() {
    let mods = Modifiers { bits: 3 };
    let event = Event::from_raw(
        RawEvent::MouseButton(MouseButton::Right, RawAction::Repeat, mods),
        Vec2::new(12, 34),
        &NONE_HELD,
    );
    assert_eq!(
        event,
        Event::MouseButton(MouseButton::Right, Action::Press, mods, Vec2::new(12, 34))
    );
}

#[test]
fn a_cursor_move_names_the_held_buttons() {
    let mut states = NONE_HELD;
    states[1] = RawAction::Press;
    let event = Event::from_raw(RawEvent::CursorPos(Vec2::new(5, 6)), Vec2::new(99, 99), &states);
    assert_eq!(event, Event::MouseMove(Vec2::new(5, 6), vec![MouseButton::Right]));
}

#[test]
fn keys_characters_and_the_rest() {
    let mods = Modifiers { bits: 0 };
    let key = Key { code: 65 };
    assert_eq!(
        Event::from_raw(RawEvent::Key(key, 38, RawAction::Release, mods), Vec2::new(0, 0), &NONE_HELD),
        Event::Key(key, 38, Action::Release, mods)
    );
    assert_eq!(
        Event::from_raw(RawEvent::Key(key, 38, RawAction::Repeat, mods), Vec2::new(0, 0), &NONE_HELD),
        Event::Key(key, 38, Action::Press, mods)
    );
    assert_eq!(
        Event::from_raw(RawEvent::Char('x'), Vec2::new(0, 0), &NONE_HELD),
        Event::Char('x')
    );
    assert_eq!(Event::from_raw(RawEvent::Other, Vec2::new(0, 0), &NONE_HELD), Event::Unknown);
}

#[test]
fn only_pointer_events_have_a_position() {
    let mods = Modifiers { bits: 0 };
    assert_eq!(
        Event::MouseButton(MouseButton::Left, Action::Press, mods, Vec2::new(1, 2)).position(),
        Some(Vec2::new(1, 2))
    );
    assert_eq!(Event::MouseMove(Vec2::new(3, 4), vec![]).position(), Some(Vec2::new(3, 4)));
    assert_eq!(Event::Key(Key { code: 1 }, 1, Action::Press, mods).position(), None);
    assert_eq!(Event::Char('a').position(), None);
    assert_eq!(Event::Unknown.position(), None);
}

#[test]
fn a_widget_sees_positions_from_its_own_corner() {
    let mods = Modifiers { bits: 0 };
    let press = Event::MouseButton(MouseButton::Left, Action::Press, mods, Vec2::new(30, 50));
    assert_eq!(
        press.for_widget(Vec2::new(10, 45)),
        Event::MouseButton(MouseButton::Left, Action::Press, mods, Vec2::new(20, 5))
    );
    let moved = Event::MouseMove(Vec2::new(30, 50), vec![MouseButton::Left]);
    assert_eq!(
        moved.for_widget(Vec2::new(10, 45)),
        Event::MouseMove(Vec2::new(20, 5), vec![MouseButton::Left])
    );
    assert_eq!(Event::Char('q').for_widget(Vec2::new(10, 45)), Event::Char('q'));
    assert_eq!(moved.duplicate(), moved);
}
