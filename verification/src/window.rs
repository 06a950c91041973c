//! The state that a window keeps from frame to frame, and the decisions of a
//! frame.

use vstd::prelude::*;
use std::collections::HashMap;
use crate::dispatch::{
    deliveries_of_first, delivery_views, dispatch, event_views, hits, Delivery,
};
use crate::event::{Event, EventView};
use crate::geometry::{box_contains, Vec2};
use crate::resolved::LayoutMinSize;
use crate::solver::{area_of, enter_places, with_positions, with_sizes, Placement};
use crate::util::Id;

verus! {

/// How a window takes its size.
pub enum GUIWindowMode {
    /// The window covers the screen.
    Fullscreen,
    /// The user may resize the window, down to `min_size` and to what the
    /// layout needs.
    Windowed { title: String, min_size: Vec2 },
    /// The window has one size.
    FixedWindowed { title: String, size: Vec2 },
}

impl GUIWindowMode {
    pub open spec fn spec_fixed_size(&self) -> bool {
        !(self is Windowed)
    }

    /// Whether the toolkit leaves the window's size alone.
    #[verifier::when_used_as_spec(spec_fixed_size)]
    pub fn fixed_size(&self) -> (fixed: bool)
        ensures
            fixed == self.spec_fixed_size(),
    {
        match self {
            GUIWindowMode::Fullscreen => true,
            GUIWindowMode::FixedWindowed { .. } => true,
            GUIWindowMode::Windowed { .. } => false,
        }
    }

    /// Whether the user may resize the window.
    pub fn resizable(&self) -> (resizable: bool)
        ensures
            resizable == (self is Windowed),
    {
        match self {
            GUIWindowMode::Windowed { .. } => true,
            _ => false,
        }
    }

    /// The size that the window is created with: the mode's own, or none
    /// where the window covers the screen.
    pub fn initial_size(&self) -> (size: Option<Vec2>)
        ensures
            size == (match self {
                GUIWindowMode::Fullscreen => None,
                GUIWindowMode::Windowed { min_size, .. } => Some(*min_size),
                GUIWindowMode::FixedWindowed { size, .. } => Some(*size),
            }),
    {
        match self {
            GUIWindowMode::Fullscreen => None,
            GUIWindowMode::Windowed { min_size, .. } => Some(*min_size),
            GUIWindowMode::FixedWindowed { size, .. } => Some(*size),
        }
    }

    /// The smallest size the window may have in this mode, given the
    /// layout's minimum size and the size the window has now.
    pub open spec fn spec_min_window_size(&self, layout_min: Vec2, current: Vec2) -> Vec2 {
        match self {
            GUIWindowMode::Fullscreen => current,
            GUIWindowMode::FixedWindowed { size, .. } => *size,
            GUIWindowMode::Windowed { min_size, .. } => layout_min.spec_component_max(*min_size),
        }
    }

    /// The smallest size the window may have in this mode: its one size
    /// where it is fixed, the size it has where it covers the screen, and
    /// otherwise the larger, axis by axis, of the layout's minimum size and
    /// the mode's own.
    #[verifier::when_used_as_spec(spec_min_window_size)]
    pub fn min_window_size(&self, layout_min: Vec2, current: Vec2) -> (size: Vec2)
        ensures
            size == self.spec_min_window_size(layout_min, current),
    {
        match self {
            GUIWindowMode::Fullscreen => current,
            GUIWindowMode::FixedWindowed { size, .. } => *size,
            GUIWindowMode::Windowed { min_size, .. } => layout_min.component_max(*min_size),
        }
    }

    /// The room that the layout is given: the larger, axis by axis, of the
    /// size the window has now and the smallest it may have.
    pub open spec fn spec_real_size(&self, layout_min: Vec2, current: Vec2) -> Vec2 {
        current.spec_component_max(self.spec_min_window_size(layout_min, current))
    }

    /// The room that the layout is given.
    #[verifier::when_used_as_spec(spec_real_size)]
    pub fn real_size(&self, layout_min: Vec2, current: Vec2) -> (size: Vec2)
        ensures
            size == self.spec_real_size(layout_min, current),
    {
        current.component_max(self.min_window_size(layout_min, current))
    }

    /// The size the window is to have after the frame: the size it has,
    /// grown to the layout's room unless the mode fixes the size. It is on
    /// neither axis smaller than the size the window has now.
    pub open spec fn spec_new_window_size(&self, layout_min: Vec2, current: Vec2) -> Vec2 {
        if self.spec_fixed_size() {
            current
        } else {
            self.spec_real_size(layout_min, current)
        }
    }

    /// The size the window is to have after the frame.
    #[verifier::when_used_as_spec(spec_new_window_size)]
    pub fn new_window_size(&self, layout_min: Vec2, current: Vec2) -> (size: Vec2)
        ensures
            size == self.spec_new_window_size(layout_min, current),
            size.x >= current.x,
            size.y >= current.y,
    {
        let desired: Vec2 = if self.fixed_size() {
            current
        } else {
            self.real_size(layout_min, current)
        };
        current.component_max(desired)
    }
}

/// Where a window of `width` by `height` pixels is put so that it sits in the
/// middle of a screen of `screen_width` by `screen_height`; `None` where the
/// window is larger than the screen.
pub fn centered_pos(screen_width: u32, screen_height: u32, width: u32, height: u32) -> (pos:
    Option<Vec2>)
    ensures
        pos.is_some() <==> width <= screen_width && height <= screen_height,
        pos.is_some() ==> pos.unwrap().x == (screen_width - width) / 2,
        pos.is_some() ==> pos.unwrap().y == (screen_height - height) / 2,
{
    if width > screen_width || height > screen_height {
        return None;
    }
    let x: u32 = (screen_width - width) / 2;
    let y: u32 = (screen_height - height) / 2;
    Some(Vec2 { x: x as i32, y: y as i32 })
}

/// What a window keeps from one frame to the next.
pub struct GUIWindow {
    pub id: Id,
    pub mode: GUIWindowMode,
    /// The events of the last frame.
    pub events: Vec<Event>,
    /// The size of the window as of the last frame.
    pub window_size: Vec2,
    /// Where the last frame put each widget.
    pub widget_poses: HashMap<Id, Vec2>,
    /// How large the last frame made each widget.
    pub widget_sizes: HashMap<Id, Vec2>,
    /// The widget that has the keyboard focus, if any.
    pub focused: Option<Id>,
    /// The widgets that can take the focus, in the order in which it moves.
    pub focusable: Vec<Id>,
}

/// What a frame has settled before anything is drawn.
pub struct Frame {
    /// The layout of the frame, with its minimum sizes.
    pub layout: LayoutMinSize,
    /// The room that the layout was given.
    pub real_size: Vec2,
    /// The size the window is to have.
    pub new_window_size: Vec2,
    /// Whether the window has to be resized to `new_window_size`.
    pub resize: bool,
    /// The place of every widget, in the order in which they are drawn.
    pub places: Vec<Placement>,
    /// The position of every widget.
    pub widget_poses: HashMap<Id, Vec2>,
    /// The size of every widget.
    pub widget_sizes: HashMap<Id, Vec2>,
}

/// Whether `i` is the first index at which `id` occurs in `list`.
pub open spec fn is_first_index(list: Seq<Id>, id: Id, i: int) -> bool {
    &&& 0 <= i < list.len()
    &&& list[i] == id
    &&& forall|j: int| 0 <= j < i ==> list[j] != id
}

/// The events of the first `n` of `events` that carry a pointer position in
/// the place of `widget`, each with its position counted from the corner of
/// that place.
pub open spec fn widget_events_of_first(
    events: Seq<EventView>,
    n: nat,
    widget: Id,
    poses: Map<Id, Vec2>,
    sizes: Map<Id, Vec2>,
) -> Seq<EventView>
    decreases n,
{
    if n == 0 || n > events.len() {
        Seq::empty()
    } else {
        let before = widget_events_of_first(events, (n - 1) as nat, widget, poses, sizes);
        let event = events[n - 1];
        if event.position().is_some() && hits(widget, event.position().unwrap(), poses, sizes) {
            before.push(event.for_widget(poses[widget]))
        } else {
            before
        }
    }
}

impl GUIWindow {
    /// The state of a window that has shown no frame yet.
    pub fn new(id: Id, mode: GUIWindowMode, current_window_size: Vec2) -> (window: GUIWindow)
        ensures
            window.id == id,
            window.mode == mode,
            window.events@.len() == 0,
            window.window_size == current_window_size,
            window.widget_poses@ == Map::<Id, Vec2>::empty(),
            window.widget_sizes@ == Map::<Id, Vec2>::empty(),
            window.focused.is_none(),
            window.focusable@.len() == 0,
    {
        GUIWindow {
            id,
            mode,
            events: Vec::new(),
            window_size: current_window_size,
            widget_poses: HashMap::new(),
            widget_sizes: HashMap::new(),
            focused: None,
            focusable: Vec::new(),
        }
    }

    /// Moves the focus on by one: to the first focusable widget where nothing
    /// has the focus, else to the widget after the focused one in the list of
    /// focusable widgets, and from the last one back to the first. Where the
    /// list is empty or lacks the focused widget, the focus stays.
    pub fn focus_next(&mut self)
        ensures
            final(self).id == old(self).id,
            final(self).mode == old(self).mode,
            final(self).events == old(self).events,
            final(self).window_size == old(self).window_size,
            final(self).widget_poses == old(self).widget_poses,
            final(self).widget_sizes == old(self).widget_sizes,
            final(self).focusable == old(self).focusable,
            old(self).focusable@.len() == 0 ==> final(self).focused == old(self).focused,
            old(self).focusable@.len() > 0 && old(self).focused.is_none() ==> final(self).focused
                == Some(old(self).focusable@[0]),
            old(self).focused.is_some() && !old(self).focusable@.contains(
                old(self).focused.unwrap(),
            ) ==> final(self).focused == old(self).focused,
            forall|i: int|
                old(self).focused.is_some() && is_first_index(
                    old(self).focusable@,
                    old(self).focused.unwrap(),
                    i,
                ) ==> final(self).focused == Some(
                    old(self).focusable@[(i + 1) % (old(self).focusable@.len() as int)],
                ),
    {
        let n: usize = self.focusable.len();
        if n == 0 {
            return ;
        }
        match self.focused {
            None => {
                self.focused = Some(self.focusable[0]);
            },
            Some(id) => {
                let mut i: usize = 0;
                while i < n
                    invariant
                        n == self.focusable@.len(),
                        i <= n,
                        forall|j: int| 0 <= j < i ==> self.focusable@[j] != id,
                        *self == *old(self),
                        old(self).focused == Some(id),
                    decreases n - i,
                {
                    if self.focusable[i] == id {
                        let next: usize = if i + 1 == n {
                            0
                        } else {
                            i + 1
                        };
                        assert(next == (i + 1) % (n as int)) by {
                            if i + 1 < n {
                                vstd::arithmetic::div_mod::lemma_small_mod((i + 1) as nat, n as nat);
                            } else {
                                vstd::arithmetic::div_mod::lemma_mod_self_0(n as int);
                            }
                        }
                        assert(is_first_index(self.focusable@, id, i as int));
                        self.focused = Some(self.focusable[next]);
                        return ;
                    }
                    i = i + 1;
                }
            },
        }
    }

    /// Settles a frame before anything is drawn: gives the layout the room
    /// that the mode and the window's size `current_window_size` allow,
    /// places every widget in it, and takes over the size that the window is
    /// to have. Where the widgets cannot be placed in `i32` there is no frame
    /// and the window's state stays as it was.
    pub fn begin_frame(&mut self, layout: LayoutMinSize, current_window_size: Vec2) -> (frame:
        Option<Frame>)
        ensures
            final(self).id == old(self).id,
            final(self).mode == old(self).mode,
            final(self).events == old(self).events,
            final(self).widget_poses == old(self).widget_poses,
            final(self).widget_sizes == old(self).widget_sizes,
            final(self).focused == old(self).focused,
            final(self).focusable == old(self).focusable,
            frame.is_some() <==> layout.solvable(
                area_of(
                    Vec2::spec_zero(),
                    old(self).mode.spec_real_size(layout.spec_min_size(), current_window_size),
                ),
            ),
            frame.is_none() ==> final(self).window_size == old(self).window_size,
            frame.is_some() ==> {
                let f = frame.unwrap();
                &&& f.layout == layout
                &&& f.real_size == old(self).mode.spec_real_size(
                    layout.spec_min_size(),
                    current_window_size,
                )
                &&& f.new_window_size == old(self).mode.spec_new_window_size(
                    layout.spec_min_size(),
                    current_window_size,
                )
                &&& f.resize == (f.new_window_size != current_window_size)
                &&& f.places@ == layout.placed(area_of(Vec2::spec_zero(), f.real_size))
                &&& f.widget_poses@ == with_positions(Map::<Id, Vec2>::empty(), f.places@)
                &&& f.widget_sizes@ == with_sizes(Map::<Id, Vec2>::empty(), f.places@)
                &&& final(self).window_size == f.new_window_size
            },
    {
        let min_size: Vec2 = layout.min_size();
        let real_size: Vec2 = self.mode.real_size(min_size, current_window_size);
        let places: Vec<Placement> = match layout.calc_placements(Vec2::zero(), real_size) {
            Some(places) => places,
            None => {
                return None;
            },
        };
        let mut widget_poses: HashMap<Id, Vec2> = HashMap::new();
        let mut widget_sizes: HashMap<Id, Vec2> = HashMap::new();
        enter_places(&places, &mut widget_poses, &mut widget_sizes);
        let new_window_size: Vec2 = self.mode.new_window_size(min_size, current_window_size);
        self.window_size = new_window_size;
        let resize: bool = new_window_size.x != current_window_size.x || new_window_size.y
            != current_window_size.y;
        Some(
            Frame {
                layout,
                real_size,
                new_window_size,
                resize,
                places,
                widget_poses,
                widget_sizes,
            },
        )
    }

    /// Closes a frame after it was drawn and shown: keeps `events`, the
    /// input that has come in, and the frame's places in the stead of the
    /// last frame's, and says which widget is to get which event, going by
    /// the places of this frame.
    pub fn end_frame(&mut self, frame: Frame, events: Vec<Event>) -> (deliveries: Vec<Delivery>)
        ensures
            final(self).id == old(self).id,
            final(self).mode == old(self).mode,
            final(self).window_size == old(self).window_size,
            final(self).focused == old(self).focused,
            final(self).focusable == old(self).focusable,
            final(self).events == events,
            final(self).widget_poses == frame.widget_poses,
            final(self).widget_sizes == frame.widget_sizes,
            delivery_views(deliveries@) == deliveries_of_first(
                event_views(events@),
                events@.len(),
                frame.layout.widget_ids(),
                frame.widget_poses@,
                frame.widget_sizes@,
            ),
    {
        let mut all_widgets: Vec<Id> = Vec::new();
        frame.layout.collect_widgets(&mut all_widgets);
        assert(all_widgets@ =~= frame.layout.widget_ids());
        let deliveries = dispatch(&events, &all_widgets, &frame.widget_poses, &frame.widget_sizes);
        self.events = events;
        self.widget_poses = frame.widget_poses;
        self.widget_sizes = frame.widget_sizes;
        deliveries
    }

    /// The events of the last frame.
    pub fn get_events(&self) -> (events: Vec<Event>)
        ensures
            event_views(events@) == event_views(self.events@),
    {
        let mut events: Vec<Event> = Vec::new();
        let mut i: usize = 0;
        while i < self.events.len()
            invariant
                i <= self.events@.len(),
                events@.len() == i,
                forall|j: int| 0 <= j < i ==> events@[j]@ == self.events@[j]@,
            decreases self.events@.len() - i,
        {
            events.push(self.events[i].duplicate());
            i = i + 1;
        }
        assert(event_views(events@) =~= event_views(self.events@));
        events
    }

    /// The events of the last frame that carry a pointer position in the
    /// place of `widget`, as that widget sees them. A widget that the last
    /// frame did not place has none.
    pub fn get_widget_events(&self, widget: Id) -> (events: Vec<Event>)
        ensures
            event_views(events@) == widget_events_of_first(
                event_views(self.events@),
                self.events@.len(),
                widget,
                self.widget_poses@,
                self.widget_sizes@,
            ),
    {
        broadcast use vstd::std_specs::hash::group_hash_axioms;

        let ghost views = event_views(self.events@);
        let mut events: Vec<Event> = Vec::new();
        let mut i: usize = 0;
        assert(event_views(events@) =~= Seq::empty());
        while i < self.events.len()
            invariant
                i <= self.events@.len(),
                views == event_views(self.events@),
                event_views(events@) == widget_events_of_first(
                    views,
                    i as nat,
                    widget,
                    self.widget_poses@,
                    self.widget_sizes@,
                ),
            decreases self.events@.len() - i,
        {
            let ghost so_far = event_views(events@);
            match self.events[i].position() {
                Some(point) => {
                    match (self.widget_poses.get(&widget), self.widget_sizes.get(&widget)) {
                        (Some(widget_pos), Some(widget_size)) => {
                            if box_contains(*widget_pos, *widget_size, point) {
                                let event = self.events[i].for_widget(*widget_pos);
                                events.push(event);
                                assert(event_views(events@) =~= so_far.push(event@));
                            }
                        },
                        _ => {},
                    }
                },
                None => {},
            }
            i = i + 1;
        }
        events
    }
}

} // verus!
