//! Which widget gets which event.

use vstd::prelude::*;
use std::collections::HashMap;
use crate::event::{Event, EventView};
use crate::geometry::{box_contains, spec_box_contains, Vec2};
use crate::util::Id;

verus! {

/// An event on its way to a widget, as that widget is to see it.
#[derive(Clone, Debug, PartialEq, Eq)]
pub struct Delivery {
    pub widget: Id,
    pub event: Event,
}

impl View for Delivery {
    type V = (Id, EventView);

    open spec fn view(&self) -> (Id, EventView) {
        (self.widget, self.event@)
    }
}

/// What a list of events says.
pub open spec fn event_views(events: Seq<Event>) -> Seq<EventView> {
    Seq::new(events.len(), |i: int| events[i]@)
}

/// What a list of deliveries says.
pub open spec fn delivery_views(deliveries: Seq<Delivery>) -> Seq<(Id, EventView)> {
    Seq::new(deliveries.len(), |i: int| deliveries[i]@)
}

/// Whether the pointer position `point` lies in the place that the maps
/// hold for `widget`, which is so for no widget that a map lacks.
pub open spec fn hits(widget: Id, point: Vec2, poses: Map<Id, Vec2>, sizes: Map<Id, Vec2>) -> bool {
    &&& poses.contains_key(widget)
    &&& sizes.contains_key(widget)
    &&& spec_box_contains(poses[widget], sizes[widget], point)
}

/// What `widget` gets of `event`: an event without a pointer position as it
/// is; one with a position only where the position lies in the widget's
/// place, and then counted from the corner of that place.
pub open spec fn delivered(
    event: EventView,
    widget: Id,
    poses: Map<Id, Vec2>,
    sizes: Map<Id, Vec2>,
) -> Option<EventView> {
    match event.position() {
        None => Some(event),
        Some(point) => if hits(widget, point, poses, sizes) {
            Some(event.for_widget(poses[widget]))
        } else {
            None
        },
    }
}

/// What the first `n` widgets of `widgets` get of `event`, in their order.
pub open spec fn deliveries_to_first(
    event: EventView,
    widgets: Seq<Id>,
    n: nat,
    poses: Map<Id, Vec2>,
    sizes: Map<Id, Vec2>,
) -> Seq<(Id, EventView)>
    decreases n,
{
    if n == 0 || n > widgets.len() {
        Seq::empty()
    } else {
        let before = deliveries_to_first(event, widgets, (n - 1) as nat, poses, sizes);
        match delivered(event, widgets[n - 1], poses, sizes) {
            Some(seen) => before.push((widgets[n - 1], seen)),
            None => before,
        }
    }
}

/// What the widgets get of the first `m` events: event by event, and for each
/// event widget by widget.
pub open spec fn deliveries_of_first(
    events: Seq<EventView>,
    m: nat,
    widgets: Seq<Id>,
    poses: Map<Id, Vec2>,
    sizes: Map<Id, Vec2>,
) -> Seq<(Id, EventView)>
    decreases m,
{
    if m == 0 || m > events.len() {
        Seq::empty()
    } else {
        deliveries_of_first(events, (m - 1) as nat, widgets, poses, sizes) + deliveries_to_first(
            events[m - 1],
            widgets,
            widgets.len(),
            poses,
            sizes,
        )
    }
}

/// What `widget` is to see of `event`, if anything: see `delivered`.
pub fn deliver(
    event: &Event,
    widget: Id,
    widget_poses: &HashMap<Id, Vec2>,
    widget_sizes: &HashMap<Id, Vec2>,
) -> (seen: Option<Event>)
    ensures
        seen.is_some() == delivered(event@, widget, widget_poses@, widget_sizes@).is_some(),
        seen.is_some() ==> seen.unwrap()@ == delivered(
            event@,
            widget,
            widget_poses@,
            widget_sizes@,
        ).unwrap(),
{
    broadcast use vstd::std_specs::hash::group_hash_axioms;

    match event.position() {
        None => Some(event.duplicate()),
        Some(point) => {
            let widget_pos: Vec2 = match widget_poses.get(&widget) {
                Some(pos) => *pos,
                None => {
                    return None;
                },
            };
            let widget_size: Vec2 = match widget_sizes.get(&widget) {
                Some(size) => *size,
                None => {
                    return None;
                },
            };
            if box_contains(widget_pos, widget_size, point) {
                Some(event.for_widget(widget_pos))
            } else {
                None
            }
        },
    }
}

/// Hands every event to every widget that is to see it: event by event in
/// the order of `events`, and for each event widget by widget in the order
/// of `widgets`.
pub fn dispatch(
    events: &Vec<Event>,
    widgets: &Vec<Id>,
    widget_poses: &HashMap<Id, Vec2>,
    widget_sizes: &HashMap<Id, Vec2>,
) -> (deliveries: Vec<Delivery>)
    ensures
        delivery_views(deliveries@) == deliveries_of_first(
            event_views(events@),
            events@.len(),
            widgets@,
            widget_poses@,
            widget_sizes@,
        ),
{
    let ghost views = event_views(events@);
    let mut deliveries: Vec<Delivery> = Vec::new();
    let mut e: usize = 0;
    assert(delivery_views(deliveries@) =~= Seq::empty());
    while e < events.len()
        invariant
            e <= events@.len(),
            views == event_views(events@),
            delivery_views(deliveries@) == deliveries_of_first(
                views,
                e as nat,
                widgets@,
                widget_poses@,
                widget_sizes@,
            ),
        decreases events@.len() - e,
    {
        let ghost done = delivery_views(deliveries@);
        let mut w: usize = 0;
        while w < widgets.len()
            invariant
                e < events@.len(),
                w <= widgets@.len(),
                views == event_views(events@),
                delivery_views(deliveries@) == done + deliveries_to_first(
                    views[e as int],
                    widgets@,
                    w as nat,
                    widget_poses@,
                    widget_sizes@,
                ),
            decreases widgets@.len() - w,
        {
            let ghost so_far = delivery_views(deliveries@);
            match deliver(&events[e], widgets[w], widget_poses, widget_sizes) {
                Some(event) => {
                    let delivery = Delivery { widget: widgets[w], event };
                    deliveries.push(delivery);
                    assert(delivery_views(deliveries@) =~= so_far.push(delivery@));
                },
                None => {},
            }
            assert(delivery_views(deliveries@) =~= done + deliveries_to_first(
                views[e as int],
                widgets@,
                (w + 1) as nat,
                widget_poses@,
                widget_sizes@,
            ));
            w = w + 1;
        }
        e = e + 1;
    }
    deliveries
}

} // verus!
