//! Input events as the toolkit hands them to widgets.

use vstd::prelude::*;
use crate::geometry::Vec2;

verus! {

/// What happened to a button or a key. A key or button that repeats counts
/// as pressed.
#[derive(Clone, Copy, Debug, PartialEq, Eq, Structural)]
pub enum Action {
    Press,
    Release,
}

/// The state of a button or a key as the input backend reports it.
#[derive(Clone, Copy, Debug, PartialEq, Eq, Structural)]
pub enum RawAction {
    Release,
    Press,
    Repeat,
}

/// One of the eight buttons of a pointer.
#[derive(Clone, Copy, Debug, PartialEq, Eq, Structural)]
pub enum MouseButton {
    Left,
    Right,
    Middle,
    Button4,
    Button5,
    Button6,
    Button7,
    Button8,
}

/// The modifier keys that were held, as the backend's bit set.
#[derive(Clone, Copy, Debug, PartialEq, Eq, Structural)]
pub struct Modifiers {
    pub bits: i32,
}

/// A key, by the backend's code for it.
#[derive(Clone, Copy, Debug, PartialEq, Eq, Structural)]
pub struct Key {
    pub code: i32,
}

/// The platform's code for a physical key.
pub type Scancode = i32;

/// An event as the input backend reports it.
#[derive(Clone, Copy, Debug, PartialEq, Eq, Structural)]
pub enum RawEvent {
    MouseButton(MouseButton, RawAction, Modifiers),
    CursorPos(Vec2),
    Key(Key, Scancode, RawAction, Modifiers),
    Char(char),
    Other,
}

/// An input event.
#[derive(Clone, Debug, PartialEq, Eq)]
pub enum Event {
    /// A pointer button went down or up at a position.
    MouseButton(MouseButton, Action, Modifiers, Vec2),
    /// The pointer moved to a position while the listed buttons were held.
    MouseMove(Vec2, Vec<MouseButton>),
    /// A key went down or up.
    Key(Key, Scancode, Action, Modifiers),
    /// A character was typed.
    Char(char),
    /// Anything else.
    Unknown,
}

/// What an event says, with the held buttons as a sequence.
pub enum EventView {
    MouseButton(MouseButton, Action, Modifiers, Vec2),
    MouseMove(Vec2, Seq<MouseButton>),
    Key(Key, Scancode, Action, Modifiers),
    Char(char),
    Unknown,
}

impl Action {
    pub open spec fn spec_from_raw(action: RawAction) -> Action {
        match action {
            RawAction::Release => Action::Release,
            _ => Action::Press,
        }
    }

    /// A press or a repeat counts as a press, a release as a release.
    #[verifier::when_used_as_spec(spec_from_raw)]
    pub fn from_raw(action: RawAction) -> (result: Action)
        ensures
            result == Action::spec_from_raw(action),
    {
        match action {
            RawAction::Press | RawAction::Repeat => Action::Press,
            RawAction::Release => Action::Release,
        }
    }
}

impl MouseButton {
    /// The button of a slot, counted from zero; the left button where the
    /// slot is none of the eight.
    pub open spec fn spec_from_index(index: int) -> MouseButton {
        if index == 1 {
            MouseButton::Right
        } else if index == 2 {
            MouseButton::Middle
        } else if index == 3 {
            MouseButton::Button4
        } else if index == 4 {
            MouseButton::Button5
        } else if index == 5 {
            MouseButton::Button6
        } else if index == 6 {
            MouseButton::Button7
        } else if index == 7 {
            MouseButton::Button8
        } else {
            MouseButton::Left
        }
    }

    /// The button of one of the eight slots, counted from zero.
    pub fn from_index(index: usize) -> (button: Option<MouseButton>)
        ensures
            button.is_some() <==> index < 8,
            button.is_some() ==> button.unwrap() == MouseButton::spec_from_index(index as int),
    {
        if index == 0 {
            Some(MouseButton::Left)
        } else if index == 1 {
            Some(MouseButton::Right)
        } else if index == 2 {
            Some(MouseButton::Middle)
        } else if index == 3 {
            Some(MouseButton::Button4)
        } else if index == 4 {
            Some(MouseButton::Button5)
        } else if index == 5 {
            Some(MouseButton::Button6)
        } else if index == 6 {
            Some(MouseButton::Button7)
        } else if index == 7 {
            Some(MouseButton::Button8)
        } else {
            None
        }
    }
}

impl View for Event {
    type V = EventView;

    open spec fn view(&self) -> EventView {
        match self {
            Event::MouseButton(button, action, mods, pos) => EventView::MouseButton(
                *button,
                *action,
                *mods,
                *pos,
            ),
            Event::MouseMove(pos, held) => EventView::MouseMove(*pos, held@),
            Event::Key(key, scancode, action, mods) => EventView::Key(
                *key,
                *scancode,
                *action,
                *mods,
            ),
            Event::Char(c) => EventView::Char(*c),
            Event::Unknown => EventView::Unknown,
        }
    }
}

impl EventView {
    /// Where the pointer was, for the events that say so.
    pub open spec fn position(self) -> Option<Vec2> {
        match self {
            EventView::MouseButton(_, _, _, pos) => Some(pos),
            EventView::MouseMove(pos, _) => Some(pos),
            _ => None,
        }
    }

    /// The event as a widget at `widget_pos` sees it: a pointer position is
    /// counted from the widget's corner, everything else stays.
    pub open spec fn for_widget(self, widget_pos: Vec2) -> EventView {
        match self {
            EventView::MouseButton(button, action, mods, pos) => EventView::MouseButton(
                button,
                action,
                mods,
                Vec2 { x: (pos.x - widget_pos.x) as i32, y: (pos.y - widget_pos.y) as i32 },
            ),
            EventView::MouseMove(pos, held) => EventView::MouseMove(
                Vec2 { x: (pos.x - widget_pos.x) as i32, y: (pos.y - widget_pos.y) as i32 },
                held,
            ),
            other => other,
        }
    }

    /// The event that a raw event stands for. A button event happens where
    /// the cursor is; a cursor move names the buttons that are held, given
    /// the state of each button slot.
    pub open spec fn from_raw(raw: RawEvent, cursor: Vec2, states: Seq<RawAction>) -> EventView {
        match raw {
            RawEvent::MouseButton(button, action, mods) => EventView::MouseButton(
                button,
                Action::spec_from_raw(action),
                mods,
                cursor,
            ),
            RawEvent::CursorPos(pos) => EventView::MouseMove(pos, held_of_first(states, 8)),
            RawEvent::Key(key, scancode, action, mods) => EventView::Key(
                key,
                scancode,
                Action::spec_from_raw(action),
                mods,
            ),
            RawEvent::Char(c) => EventView::Char(c),
            RawEvent::Other => EventView::Unknown,
        }
    }
}

/// A copy of a list of buttons.
fn copy_buttons(held: &Vec<MouseButton>) -> (copy: Vec<MouseButton>)
    ensures
        copy@ == held@,
{
    let mut copy: Vec<MouseButton> = Vec::new();
    let mut i: usize = 0;
    while i < held.len()
        invariant
            i <= held@.len(),
            copy@ == held@.take(i as int),
        decreases held@.len() - i,
    {
        copy.push(held[i]);
        assert(held@.take(i + 1) =~= held@.take(i as int).push(held@[i as int]));
        i = i + 1;
    }
    assert(held@.take(held@.len() as int) =~= held@);
    copy
}

impl Event {
    /// Translates an event of the input backend. `cursor` is where the
    /// cursor is now, `states` the state of each of the eight button slots.
    pub fn from_raw(raw: RawEvent, cursor: Vec2, states: &[RawAction; 8]) -> (event: Event)
        ensures
            event@ == EventView::from_raw(raw, cursor, states@),
    {
        match raw {
            RawEvent::MouseButton(button, action, mods) => Event::MouseButton(
                button,
                Action::from_raw(action),
                mods,
                cursor,
            ),
            RawEvent::CursorPos(pos) => Event::MouseMove(pos, held_buttons(states)),
            RawEvent::Key(key, scancode, action, mods) => Event::Key(
                key,
                scancode,
                Action::from_raw(action),
                mods,
            ),
            RawEvent::Char(c) => Event::Char(c),
            RawEvent::Other => Event::Unknown,
        }
    }

    /// Where the pointer was, for the events that say so.
    pub fn position(&self) -> (pos: Option<Vec2>)
        ensures
            pos == self@.position(),
    {
        match self {
            Event::MouseButton(_, _, _, pos) => Some(*pos),
            Event::MouseMove(pos, _) => Some(*pos),
            _ => None,
        }
    }

    /// A copy of the event.
    pub fn duplicate(&self) -> (copy: Event)
        ensures
            copy@ == self@,
    {
        match self {
            Event::MouseButton(button, action, mods, pos) => Event::MouseButton(
                *button,
                *action,
                *mods,
                *pos,
            ),
            Event::MouseMove(pos, held) => Event::MouseMove(*pos, copy_buttons(held)),
            Event::Key(key, scancode, action, mods) => Event::Key(*key, *scancode, *action, *mods),
            Event::Char(c) => Event::Char(*c),
            Event::Unknown => Event::Unknown,
        }
    }

    /// The event as a widget at `widget_pos` sees it.
    pub fn for_widget(&self, widget_pos: Vec2) -> (event: Event)
        requires
            self@.position().is_some() ==> self@.position().unwrap().can_sub(widget_pos),
        ensures
            event@ == self@.for_widget(widget_pos),
    {
        match self {
            Event::MouseButton(button, action, mods, pos) => Event::MouseButton(
                *button,
                *action,
                *mods,
                pos.minus(widget_pos),
            ),
            Event::MouseMove(pos, held) => Event::MouseMove(
                pos.minus(widget_pos),
                copy_buttons(held),
            ),
            _ => self.duplicate(),
        }
    }
}

/// The buttons among the first `n` slots that are not released, in the order
/// of the slots.
pub open spec fn held_of_first(states: Seq<RawAction>, n: nat) -> Seq<MouseButton>
    decreases n,
{
    if n == 0 || n > states.len() || n > 8 {
        Seq::empty()
    } else {
        let before = held_of_first(states, (n - 1) as nat);
        if states[n - 1] != RawAction::Release {
            before.push(MouseButton::spec_from_index(n - 1))
        } else {
            before
        }
    }
}

/// The buttons that are held, given the state of each of the eight slots.
pub fn held_buttons(states: &[RawAction; 8]) -> (held: Vec<MouseButton>)
    ensures
        held@ == held_of_first(states@, 8),
{
    let mut held: Vec<MouseButton> = Vec::new();
    let mut i: usize = 0;
    while i < 8
        invariant
            i <= 8,
            held@ == held_of_first(states@, i as nat),
        decreases 8 - i,
    {
        match states[i] {
            RawAction::Release => {},
            _ => {
                match MouseButton::from_index(i) {
                    Some(button) => {
                        held.push(button);
                    },
                    None => {},
                }
            },
        }
        i = i + 1;
    }
    held
}

} // verus!
