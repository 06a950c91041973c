//! The state of the stock widgets and the geometry they draw by.

use vstd::prelude::*;
use crate::event::{Action, Event, EventView, MouseButton};
use crate::geometry::{in_i32, Rect, Vec2};
use crate::util::Id;
use crate::window::GUIWindow;

verus! {

/// Whether an event is a press of the left pointer button.
pub open spec fn is_left_press(event: EventView) -> bool {
    event matches EventView::MouseButton(MouseButton::Left, Action::Press, _, _)
}

/// Whether an event is a press of the left pointer button.
fn left_press(event: &Event) -> (pressed: bool)
    ensures
        pressed == is_left_press(event@),
{
    match event {
        Event::MouseButton(MouseButton::Left, Action::Press, _, _) => true,
        _ => false,
    }
}

/// A button with a caption. It remembers a press until it is next drawn.
pub struct ButtonWidget {
    id: Id,
    text: String,
    was_pressed: bool,
}

impl ButtonWidget {
    pub closed spec fn spec_id(&self) -> Id {
        self.id
    }

    pub closed spec fn spec_text(&self) -> Seq<char> {
        self.text@
    }

    pub closed spec fn spec_was_pressed(&self) -> bool {
        self.was_pressed
    }

    /// A button that was not pressed yet.
    pub fn new(id: Id, text: &str) -> (button: ButtonWidget)
        ensures
            button.spec_id() == id,
            button.spec_text() == text@,
            !button.spec_was_pressed(),
    {
        ButtonWidget { id, text: text.to_owned(), was_pressed: false }
    }

    #[verifier::when_used_as_spec(spec_id)]
    pub fn id(&self) -> (id: Id)
        ensures
            id == self.spec_id(),
    {
        self.id
    }

    pub fn text(&self) -> (text: &str)
        ensures
            text@ == self.spec_text(),
    {
        self.text.as_str()
    }

    pub fn set_text(&mut self, text: &str)
        ensures
            final(self).spec_text() == text@,
            final(self).spec_id() == old(self).spec_id(),
            final(self).spec_was_pressed() == old(self).spec_was_pressed(),
    {
        self.text = text.to_owned();
    }

    /// Whether the left pointer button was pressed on the button since it
    /// was last drawn.
    #[verifier::when_used_as_spec(spec_was_pressed)]
    pub fn was_pressed(&self) -> (pressed: bool)
        ensures
            pressed == self.spec_was_pressed(),
    {
        self.was_pressed
    }

    /// Takes an event that was delivered to the button: a press of the left
    /// pointer button is remembered, anything else changes nothing.
    pub fn handle_event(&mut self, event: &Event)
        ensures
            final(self).spec_was_pressed() == (old(self).spec_was_pressed() || is_left_press(
                event@,
            )),
            final(self).spec_id() == old(self).spec_id(),
            final(self).spec_text() == old(self).spec_text(),
    {
        if left_press(event) {
            self.was_pressed = true;
        }
    }

    /// The bookkeeping of drawing the button: a press that was remembered is
    /// forgotten.
    pub fn draw(&mut self)
        ensures
            !final(self).spec_was_pressed(),
            final(self).spec_id() == old(self).spec_id(),
            final(self).spec_text() == old(self).spec_text(),
    {
        self.was_pressed = false;
    }
}

/// A line of text.
pub struct LabelWidget {
    id: Id,
    text: String,
}

impl LabelWidget {
    pub closed spec fn spec_id(&self) -> Id {
        self.id
    }

    pub closed spec fn spec_text(&self) -> Seq<char> {
        self.text@
    }

    pub fn new(id: Id, text: &str) -> (label: LabelWidget)
        ensures
            label.spec_id() == id,
            label.spec_text() == text@,
    {
        LabelWidget { id, text: text.to_owned() }
    }

    #[verifier::when_used_as_spec(spec_id)]
    pub fn id(&self) -> (id: Id)
        ensures
            id == self.spec_id(),
    {
        self.id
    }

    pub fn text(&self) -> (text: &str)
        ensures
            text@ == self.spec_text(),
    {
        self.text.as_str()
    }

    pub fn set_text(&mut self, text: &str)
        ensures
            final(self).spec_text() == text@,
            final(self).spec_id() == old(self).spec_id(),
    {
        self.text = text.to_owned();
    }
}

/// A widget that shows nothing and only takes up room.
pub struct EmptyWidget {
    id: Id,
    min_size: Vec2,
}

impl EmptyWidget {
    pub closed spec fn spec_id(&self) -> Id {
        self.id
    }

    pub closed spec fn spec_min_size(&self) -> Vec2 {
        self.min_size
    }

    pub fn new(id: Id, min_size: Vec2) -> (widget: EmptyWidget)
        ensures
            widget.spec_id() == id,
            widget.spec_min_size() == min_size,
    {
        EmptyWidget { id, min_size }
    }

    #[verifier::when_used_as_spec(spec_id)]
    pub fn id(&self) -> (id: Id)
        ensures
            id == self.spec_id(),
    {
        self.id
    }

    #[verifier::when_used_as_spec(spec_min_size)]
    pub fn min_size(&self) -> (size: Vec2)
        ensures
            size == self.spec_min_size(),
    {
        self.min_size
    }
}

/// A widget that shows whether it has the keyboard focus, and takes the
/// focus when it is clicked.
pub struct FocusTestWidget {
    id: Id,
}

impl FocusTestWidget {
    pub closed spec fn spec_id(&self) -> Id {
        self.id
    }

    pub fn new(id: Id) -> (widget: FocusTestWidget)
        ensures
            widget.spec_id() == id,
    {
        FocusTestWidget { id }
    }

    #[verifier::when_used_as_spec(spec_id)]
    pub fn id(&self) -> (id: Id)
        ensures
            id == self.spec_id(),
    {
        self.id
    }

    /// A hundred pixels on each axis.
    pub fn min_size(&self) -> (size: Vec2)
        ensures
            size == (Vec2 { x: 100, y: 100 }),
    {
        Vec2 { x: 100, y: 100 }
    }

    /// Whether the widget has the focus of `window`, which decides what it
    /// shows.
    pub fn is_focused(&self, window: &GUIWindow) -> (focused: bool)
        ensures
            focused == (window.focused == Some(self.spec_id())),
    {
        match window.focused {
            Some(id) => id == self.id,
            None => false,
        }
    }

    /// Takes an event that was delivered to the widget: a press of the left
    /// pointer button gives it the focus of `window`, anything else changes
    /// nothing.
    pub fn handle_event(&self, event: &Event, window: &mut GUIWindow)
        ensures
            final(window).focused == (if is_left_press(event@) {
                Some(self.spec_id())
            } else {
                old(window).focused
            }),
            final(window).id == old(window).id,
            final(window).mode == old(window).mode,
            final(window).events == old(window).events,
            final(window).window_size == old(window).window_size,
            final(window).widget_poses == old(window).widget_poses,
            final(window).widget_sizes == old(window).widget_sizes,
            final(window).focusable == old(window).focusable,
    {
        if left_press(event) {
            window.focused = Some(self.id);
        }
    }
}

/// A frame of a given width around another widget.
pub struct BorderWidget<T> {
    pub inner: T,
    pub border_width: i32,
}

impl<T> BorderWidget<T> {
    pub fn new(inner: T, border_width: i32) -> (border: BorderWidget<T>)
        ensures
            border.inner == inner,
            border.border_width == border_width,
    {
        BorderWidget { inner, border_width }
    }

    /// The minimum size of the bordered widget, given that of the inner one:
    /// larger by the border's width on every side, so by twice the width on
    /// each axis. `None` where that is too large for `i32`.
    pub fn min_size(&self, inner_min: Vec2) -> (size: Option<Vec2>)
        ensures
            size.is_some() <==> in_i32(inner_min.x + 2 * self.border_width) && in_i32(
                inner_min.y + 2 * self.border_width,
            ),
            size.is_some() ==> size.unwrap().x == inner_min.x + 2 * self.border_width,
            size.is_some() ==> size.unwrap().y == inner_min.y + 2 * self.border_width,
    {
        let x: i64 = inner_min.x as i64 + 2 * (self.border_width as i64);
        let y: i64 = inner_min.y as i64 + 2 * (self.border_width as i64);
        if x < i32::MIN as i64 || x > i32::MAX as i64 || y < i32::MIN as i64 || y > i32::MAX as i64 {
            None
        } else {
            Some(Vec2 { x: x as i32, y: y as i32 })
        }
    }

    /// Where the inner widget is drawn when the bordered one is drawn at
    /// `pos` with `size`: moved in by the border's width on both axes, and
    /// smaller by twice the width on each. `None` where that is too large
    /// for `i32`.
    pub fn inner_area(&self, pos: Vec2, size: Vec2) -> (area: Option<(Vec2, Vec2)>)
        ensures
            area.is_some() <==> {
                &&& in_i32(pos.x + self.border_width)
                &&& in_i32(pos.y + self.border_width)
                &&& in_i32(size.x - 2 * self.border_width)
                &&& in_i32(size.y - 2 * self.border_width)
            },
            area.is_some() ==> {
                let (inner_pos, inner_size) = area.unwrap();
                &&& inner_pos.x == pos.x + self.border_width
                &&& inner_pos.y == pos.y + self.border_width
                &&& inner_size.x == size.x - 2 * self.border_width
                &&& inner_size.y == size.y - 2 * self.border_width
            },
    {
        let width: i64 = self.border_width as i64;
        let x: i64 = pos.x as i64 + width;
        let y: i64 = pos.y as i64 + width;
        let w: i64 = size.x as i64 - 2 * width;
        let h: i64 = size.y as i64 - 2 * width;
        if x < i32::MIN as i64 || x > i32::MAX as i64 || y < i32::MIN as i64 || y > i32::MAX as i64
            || w < i32::MIN as i64 || w > i32::MAX as i64 || h < i32::MIN as i64 || h
            > i32::MAX as i64 {
            None
        } else {
            Some((Vec2 { x: x as i32, y: y as i32 }, Vec2 { x: w as i32, y: h as i32 }))
        }
    }
}

/// How an image fills the room of its widget.
#[derive(Clone, Copy, Debug, PartialEq, Eq, Structural)]
pub enum ImageResizeMode {
    /// The image fills the room, whatever that does to its proportions.
    FillContainer,
    /// The image fills as much of the room as its proportions allow;
    /// `resize_smaller` says whether it may grow beyond its own size.
    KeepAspect { resize_smaller: bool },
    /// The image keeps its own size and sits in the middle of the room.
    NativeSize,
}

/// Half of `excess`, rounded towards zero.
pub open spec fn half_towards_zero(excess: int) -> int {
    if excess >= 0 {
        excess / 2
    } else {
        -((-excess) / 2)
    }
}

/// An image in a layout.
pub struct ImageWidget {
    pub id: Id,
    /// The size of the image itself, in pixels.
    pub image_size: Vec2,
    pub resize_mode: ImageResizeMode,
}

impl ImageWidget {
    pub fn new(id: Id, image_size: Vec2, resize_mode: ImageResizeMode) -> (widget: ImageWidget)
        ensures
            widget.id == id,
            widget.image_size == image_size,
            widget.resize_mode == resize_mode,
    {
        ImageWidget { id, image_size, resize_mode }
    }

    /// Takes another image, of the given size.
    pub fn set_image(&mut self, image_size: Vec2)
        ensures
            final(self).image_size == image_size,
            final(self).id == old(self).id,
            final(self).resize_mode == old(self).resize_mode,
    {
        self.image_size = image_size;
    }

    /// The size of the image where it keeps its own size, else nothing.
    pub fn min_size(&self) -> (size: Vec2)
        ensures
            size == (if self.resize_mode is NativeSize {
                self.image_size
            } else {
                Vec2::spec_zero()
            }),
    {
        match self.resize_mode {
            ImageResizeMode::NativeSize => self.image_size,
            _ => Vec2::zero(),
        }
    }

    /// Where an image that fills its room is drawn: from `pos` over all of
    /// `size`. `None` where the far corner is too large for `i32`.
    pub fn fill_rect(pos: Vec2, size: Vec2) -> (rect: Option<Rect>)
        ensures
            rect.is_some() <==> pos.can_add(size),
            rect.is_some() ==> rect.unwrap().start == pos,
            rect.is_some() ==> rect.unwrap().end.x == pos.x + size.x,
            rect.is_some() ==> rect.unwrap().end.y == pos.y + size.y,
    {
        let end_x: i64 = pos.x as i64 + size.x as i64;
        let end_y: i64 = pos.y as i64 + size.y as i64;
        if end_x < i32::MIN as i64 || end_x > i32::MAX as i64 || end_y < i32::MIN as i64 || end_y
            > i32::MAX as i64 {
            None
        } else {
            Some(Rect { start: pos, end: Vec2 { x: end_x as i32, y: end_y as i32 } })
        }
    }

    /// Where an image that keeps its own size is drawn in the room at `pos`
    /// of `size`: in the middle, moved in from `pos` by half of what the room
    /// has beyond the image, rounded towards zero. `None` where a corner is
    /// too large for `i32`.
    pub fn native_rect(&self, pos: Vec2, size: Vec2) -> (rect: Option<Rect>)
        ensures
            rect.is_some() <==> {
                &&& in_i32(pos.x + half_towards_zero(size.x - self.image_size.x))
                &&& in_i32(pos.y + half_towards_zero(size.y - self.image_size.y))
                &&& in_i32(
                    pos.x + half_towards_zero(size.x - self.image_size.x)
                        + self.image_size.x,
                )
                &&& in_i32(
                    pos.y + half_towards_zero(size.y - self.image_size.y)
                        + self.image_size.y,
                )
            },
            rect.is_some() ==> {
                let r = rect.unwrap();
                &&& r.start.x == pos.x + half_towards_zero(size.x - self.image_size.x)
                &&& r.start.y == pos.y + half_towards_zero(size.y - self.image_size.y)
                &&& r.end.x == r.start.x + self.image_size.x
                &&& r.end.y == r.start.y + self.image_size.y
            },
    {
        let excess_x: i64 = size.x as i64 - self.image_size.x as i64;
        let excess_y: i64 = size.y as i64 - self.image_size.y as i64;
        let offset_x: i64 = if excess_x >= 0 {
            excess_x / 2
        } else {
            -((-excess_x) / 2)
        };
        let offset_y: i64 = if excess_y >= 0 {
            excess_y / 2
        } else {
            -((-excess_y) / 2)
        };
        let start_x: i64 = pos.x as i64 + offset_x;
        let start_y: i64 = pos.y as i64 + offset_y;
        let end_x: i64 = start_x + self.image_size.x as i64;
        let end_y: i64 = start_y + self.image_size.y as i64;
        if start_x < i32::MIN as i64 || start_x > i32::MAX as i64 || start_y < i32::MIN as i64
            || start_y > i32::MAX as i64 || end_x < i32::MIN as i64 || end_x > i32::MAX as i64
            || end_y < i32::MIN as i64 || end_y > i32::MAX as i64 {
            None
        } else {
            Some(
                Rect {
                    start: Vec2 { x: start_x as i32, y: start_y as i32 },
                    end: Vec2 { x: end_x as i32, y: end_y as i32 },
                },
            )
        }
    }
}

} // verus!
