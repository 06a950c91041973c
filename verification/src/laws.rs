//! What holds of the two passes together.

use vstd::prelude::*;
use crate::dispatch::{deliveries_to_first, hits};
use crate::event::EventView;
use crate::geometry::Vec2;
use crate::layout::Layout;
use crate::resolved::LayoutMinSize;
use crate::solver::{with_positions, with_sizes, Area, Placement};
use crate::util::Id;

verus! {

/// The sum of a sequence of integers.
pub open spec fn sum_ints(s: Seq<int>) -> int
    decreases s.len(),
{
    if s.len() == 0 {
        0
    } else {
        sum_ints(s.drop_last()) + s.last()
    }
}

/// Whether `m` is the largest member of `s`, or zero where `s` has no member
/// above zero.
pub open spec fn is_largest_or_zero(m: int, s: Seq<int>) -> bool {
    &&& m >= 0
    &&& forall|i: int| 0 <= i < s.len() ==> s[i] <= m
    &&& (m == 0 || exists|i: int| 0 <= i < s.len() && s[i] == m)
}

/// The minimum sizes of a node's children on one axis, in order.
pub open spec fn child_minimums(node: LayoutMinSize, horizontal: bool) -> Seq<int> {
    Seq::new(
        node.child_count(),
        |i: int|
            if horizontal {
                node.child(i).spec_min_size().x as int
            } else {
                node.child(i).spec_min_size().y as int
            },
    )
}

/// What the first pass works out for the first `n` children is the sum of
/// their minimum sizes along the panel's direction and the largest of them
/// across it.
proof fn lemma_min_of_first(node: LayoutMinSize, layout: Layout, n: nat, horizontal: bool)
    requires
        node.resolves(&layout),
        n <= layout.child_count(),
    ensures
        layout.sums_along(horizontal) ==> layout.min_of_first(n, horizontal) == sum_ints(
            child_minimums(node, horizontal).take(n as int),
        ),
        !layout.sums_along(horizontal) ==> is_largest_or_zero(
            layout.min_of_first(n, horizontal),
            child_minimums(node, horizontal).take(n as int),
        ),
    decreases n,
{
    let all = child_minimums(node, horizontal);
    if n > 0 {
        let i = n - 1;
        lemma_min_of_first(node, layout, (n - 1) as nat, horizontal);
        assert(node.child(i).resolves(&layout.child(i)));
        assert(all.take(n as int).drop_last() =~= all.take(i));
        assert(all.take(n as int).last() == layout.child(i).min_along(horizontal));
        if !layout.sums_along(horizontal) {
            let before = layout.min_of_first((n - 1) as nat, horizontal);
            let now = layout.min_of_first(n, horizontal);
            assert forall|j: int| 0 <= j < n implies all.take(n as int)[j] <= now by {
                if j < i {
                    assert(all.take(i)[j] <= before);
                }
            }
            if now != 0 {
                if now == before {
                    let j = choose|j: int| 0 <= j < all.take(i).len() && all.take(i)[j] == before;
                    assert(all.take(n as int)[j] == now);
                } else {
                    assert(all.take(n as int)[i] == now);
                }
            }
        }
    }
}

/// The minimum height of a vertical panel is the sum of its children's
/// minimum heights, and its minimum width the largest of their minimum
/// widths, whatever its alignment. Of a horizontal panel the same holds
/// with the axes exchanged.
pub proof fn lemma_stack_min_size(node: LayoutMinSize, layout: Layout)
    requires
        node.resolves(&layout),
    ensures
        node is VPanel_ ==> node.spec_min_size().y == sum_ints(child_minimums(node, false)),
        node is VPanel_ ==> is_largest_or_zero(
            node.spec_min_size().x as int,
            child_minimums(node, true),
        ),
        node is HPanel_ ==> node.spec_min_size().x == sum_ints(child_minimums(node, true)),
        node is HPanel_ ==> is_largest_or_zero(
            node.spec_min_size().y as int,
            child_minimums(node, false),
        ),
{
    let n = layout.child_count();
    lemma_min_of_first(node, layout, n, true);
    lemma_min_of_first(node, layout, n, false);
    assert(child_minimums(node, true).take(n as int) =~= child_minimums(node, true));
    assert(child_minimums(node, false).take(n as int) =~= child_minimums(node, false));
}

/// The minimum size of an overlap panel is, on each axis, the largest of its
/// children's minimum sizes, and in the second pass every child gets the
/// very region that the panel gets.
pub proof fn lemma_overlap_panel(node: LayoutMinSize, layout: Layout, area: Area)
    requires
        node.resolves(&layout),
        node is OverlapPanel_,
    ensures
        is_largest_or_zero(node.spec_min_size().x as int, child_minimums(node, true)),
        is_largest_or_zero(node.spec_min_size().y as int, child_minimums(node, false)),
        forall|i: int| 0 <= i < node.child_count() ==> node.child_area(i, area) == area,
{
    let n = layout.child_count();
    lemma_min_of_first(node, layout, n, true);
    lemma_min_of_first(node, layout, n, false);
    assert(child_minimums(node, true).take(n as int) =~= child_minimums(node, true));
    assert(child_minimums(node, false).take(n as int) =~= child_minimums(node, false));
}

/// A child of a vertical panel gets the panel's full width and starts at the
/// panel's left edge, whatever the alignment, since it leaves no width
/// over; a child of a horizontal panel gets the full height and starts at
/// the upper edge.
pub proof fn lemma_children_span_the_panel(node: LayoutMinSize, area: Area, i: int)
    ensures
        node is VPanel_ ==> node.child_area(i, area).x == area.x && node.child_area(i, area).w
            == area.w,
        node is HPanel_ ==> node.child_area(i, area).y == area.y && node.child_area(i, area).h
            == area.h,
{
}

/// The children of a vertical panel follow each other downwards without a
/// gap: the first starts at the panel's upper edge, and each further one
/// where the one before it ends. Those of a horizontal panel follow each
/// other to the right in the same way.
pub proof fn lemma_children_are_stacked(node: LayoutMinSize, area: Area, i: nat)
    ensures
        node is VPanel_ ==> node.child_area(0, area).y == area.y && node.child_area(
            (i + 1) as int,
            area,
        ).y == node.child_area(i as int, area).y + node.child_area(i as int, area).h,
        node is HPanel_ ==> node.child_area(0, area).x == area.x && node.child_area(
            (i + 1) as int,
            area,
        ).x == node.child_area(i as int, area).x + node.child_area(i as int, area).w,
{
    assert(node.offset(0, area) == 0);
    assert(node.offset((i + 1) as nat, area) == node.offset(i, area) + node.child_extent(
        i as int,
        area,
    ));
}

/// Weights that are all zero add up to zero.
proof fn lemma_zero_weights(layout: Layout, n: nat)
    requires
        n <= layout.child_count(),
        forall|k: int| 0 <= k < layout.child_count() ==> layout.weight(k) == 0,
    ensures
        layout.flex_of_first(n) == 0,
    decreases n,
{
    if n > 0 {
        lemma_zero_weights(layout, (n - 1) as nat);
    }
}

/// Where all flex weights of a vertical or horizontal panel are zero, every
/// child gets the same part of the spare room: that room divided by the
/// number of children, rounded down.
pub proof fn lemma_zero_weights_share_equally(
    node: LayoutMinSize,
    layout: Layout,
    extra: int,
    i: int,
)
    requires
        node.resolves(&layout),
        node is VPanel_ || node is HPanel_,
        forall|k: int| 0 <= k < layout.child_count() ==> layout.weight(k) == 0,
        0 <= i < node.child_count(),
    ensures
        crate::solver::share_extra(extra, node.share(i)) == extra / (node.child_count() as int),
{
    lemma_zero_weights(layout, layout.child_count());
    assert(node.share(i) == layout.share_of(i));
    match layout {
        Layout::VPanel(_, children) => {
            assert(children@.len() == children.len());
        },
        Layout::HPanel(_, children) => {
            assert(children@.len() == children.len());
        },
        _ => {},
    }
}

/// Whether `places` holds, in order, one place for each widget named in
/// `ids`, none of them smaller on either axis than the widget's minimum in
/// `minimums`.
pub open spec fn places_respect(
    places: Seq<Placement>,
    ids: Seq<Id>,
    minimums: Seq<Vec2>,
) -> bool {
    &&& places.len() == ids.len()
    &&& places.len() == minimums.len()
    &&& forall|k: int|
        0 <= k < places.len() ==> {
            &&& (#[trigger] places[k]).id == ids[k]
            &&& places[k].size.x >= minimums[k].x
            &&& places[k].size.y >= minimums[k].y
        }
}

/// The widgets under the first `n` children are placed in order and none is
/// shrunk below its minimum.
proof fn lemma_no_shrink_first(node: LayoutMinSize, n: nat, area: Area)
    requires
        node.solvable(area),
        n <= node.child_count(),
    ensures
        places_respect(
            node.placed_first(n, area),
            node.widget_ids_of_first(n),
            node.leaf_min_sizes_of_first(n),
        ),
    decreases node, n,
{
    if n > 0 {
        let i = n - 1;
        lemma_no_shrink_first(node, (n - 1) as nat, area);
        assert(node.child(i).solvable(node.child_area(i, area)));
        lemma_no_shrink(node.child(i), node.child_area(i, area));
        let head = node.placed_first((n - 1) as nat, area);
        let tail = node.child(i).placed(node.child_area(i, area));
        let all = node.placed_first(n, area);
        assert(all == head + tail);
        assert forall|k: int| 0 <= k < all.len() implies {
            &&& (#[trigger] all[k]).id == node.widget_ids_of_first(n)[k]
            &&& all[k].size.x >= node.leaf_min_sizes_of_first(n)[k].x
            &&& all[k].size.y >= node.leaf_min_sizes_of_first(n)[k].y
        } by {
            if k < head.len() {
                assert(all[k] == head[k]);
            } else {
                assert(all[k] == tail[k - head.len()]);
            }
        }
    }
}

/// No widget is shrunk: whatever room the tree is given, even less than its
/// minimum, every widget is placed, in the order of the tree, with a size
/// that is on neither axis smaller than the minimum size it reported.
pub proof fn lemma_no_shrink(node: LayoutMinSize, area: Area)
    requires
        node.solvable(area),
    ensures
        places_respect(node.placed(area), node.widget_ids(), node.leaf_min_sizes()),
    decreases node, node.child_count() + 1,
{
    match node {
        LayoutMinSize::LWidget_(_, _) => {},
        _ => {
            lemma_no_shrink_first(node, node.child_count(), area);
        },
    }
}

/// After the places of a frame were entered, the two maps hold an entry for
/// every widget that was placed, and for a widget whose identifier does not
/// occur again later in the order, the entry is its place.
pub proof fn lemma_maps_hold_places(
    poses: Map<Id, Vec2>,
    sizes: Map<Id, Vec2>,
    places: Seq<Placement>,
    k: int,
)
    requires
        0 <= k < places.len(),
    ensures
        with_positions(poses, places).contains_key(places[k].id),
        with_sizes(sizes, places).contains_key(places[k].id),
        (forall|j: int| k < j < places.len() ==> places[j].id != places[k].id) ==> {
            &&& with_positions(poses, places)[places[k].id] == places[k].pos
            &&& with_sizes(sizes, places)[places[k].id] == places[k].size
        },
    decreases places.len(),
{
    if k < places.len() - 1 {
        lemma_maps_hold_places(poses, sizes, places.drop_last(), k);
    }
}

/// What the first `n` widgets get of a pointer event that hits the widget at
/// index `a` and no other: nothing before that widget, and after it the one
/// delivery to it.
proof fn lemma_hit_reaches_one_of_first(
    event: EventView,
    widgets: Seq<Id>,
    a: int,
    n: nat,
    poses: Map<Id, Vec2>,
    sizes: Map<Id, Vec2>,
)
    requires
        event.position().is_some(),
        0 <= a < widgets.len(),
        n <= widgets.len(),
        hits(widgets[a], event.position().unwrap(), poses, sizes),
        forall|j: int|
            0 <= j < widgets.len() && j != a ==> !hits(
                widgets[j],
                event.position().unwrap(),
                poses,
                sizes,
            ),
    ensures
        n <= a ==> deliveries_to_first(event, widgets, n, poses, sizes) == Seq::<
            (Id, EventView),
        >::empty(),
        n > a ==> deliveries_to_first(event, widgets, n, poses, sizes) == seq![
            (widgets[a], event.for_widget(poses[widgets[a]])),
        ],
    decreases n,
{
    if n > 0 {
        lemma_hit_reaches_one_of_first(event, widgets, a, (n - 1) as nat, poses, sizes);
        if n - 1 == a {
            assert(Seq::<(Id, EventView)>::empty().push(
                (widgets[a], event.for_widget(poses[widgets[a]])),
            ) =~= seq![(widgets[a], event.for_widget(poses[widgets[a]]))]);
        }
    }
}

/// A pointer event at a position inside the place of one widget and outside
/// the places of all others reaches that widget alone, and its position is
/// then counted from the corner of that widget's place.
pub proof fn lemma_hit_reaches_one(
    event: EventView,
    widgets: Seq<Id>,
    a: int,
    poses: Map<Id, Vec2>,
    sizes: Map<Id, Vec2>,
)
    requires
        event.position().is_some(),
        0 <= a < widgets.len(),
        hits(widgets[a], event.position().unwrap(), poses, sizes),
        forall|j: int|
            0 <= j < widgets.len() && j != a ==> !hits(
                widgets[j],
                event.position().unwrap(),
                poses,
                sizes,
            ),
    ensures
        deliveries_to_first(event, widgets, widgets.len(), poses, sizes) == seq![
            (widgets[a], event.for_widget(poses[widgets[a]])),
        ],
        event.for_widget(poses[widgets[a]]).position() == Some(
            Vec2 {
                x: (event.position().unwrap().x - poses[widgets[a]].x) as i32,
                y: (event.position().unwrap().y - poses[widgets[a]].y) as i32,
            },
        ),
        i32::MIN <= event.position().unwrap().x - poses[widgets[a]].x <= i32::MAX,
        i32::MIN <= event.position().unwrap().y - poses[widgets[a]].y <= i32::MAX,
{
    lemma_hit_reaches_one_of_first(event, widgets, a, widgets.len(), poses, sizes);
}

/// Two resolutions of one layout start every child at the same offset.
proof fn lemma_same_offsets(a: LayoutMinSize, b: LayoutMinSize, layout: Layout, n: nat, area: Area)
    requires
        a.resolves(&layout),
        b.resolves(&layout),
        n <= layout.child_count(),
    ensures
        a.offset(n, area) == b.offset(n, area),
        forall|i: int| 0 <= i < n ==> a.child_extent(i, area) == b.child_extent(i, area),
    decreases n,
{
    if n > 0 {
        lemma_same_offsets(a, b, layout, (n - 1) as nat, area);
        let i = n - 1;
        assert(a.child(i).resolves(&layout.child(i)));
        assert(b.child(i).resolves(&layout.child(i)));
        assert(a.share(i) == b.share(i));
    }
}

/// Two resolutions of one layout give every child the same region.
proof fn lemma_same_child_area(
    a: LayoutMinSize,
    b: LayoutMinSize,
    layout: Layout,
    i: int,
    area: Area,
)
    requires
        a.resolves(&layout),
        b.resolves(&layout),
        0 <= i < layout.child_count(),
    ensures
        a.child_area(i, area) == b.child_area(i, area),
{
    lemma_same_offsets(a, b, layout, (i + 1) as nat, area);
    lemma_same_offsets(a, b, layout, i as nat, area);
}

/// Two resolutions of one layout place the widgets under the first `n`
/// children alike.
proof fn lemma_same_placed_first(
    a: LayoutMinSize,
    b: LayoutMinSize,
    layout: Layout,
    n: nat,
    area: Area,
)
    requires
        a.resolves(&layout),
        b.resolves(&layout),
        n <= layout.child_count(),
    ensures
        a.placed_first(n, area) == b.placed_first(n, area),
    decreases a, n,
{
    if n > 0 {
        let i = n - 1;
        lemma_same_placed_first(a, b, layout, (n - 1) as nat, area);
        lemma_same_child_area(a, b, layout, i, area);
        assert(a.child(i).resolves(&layout.child(i)));
        assert(b.child(i).resolves(&layout.child(i)));
        lemma_solver_is_deterministic(
            a.child(i),
            b.child(i),
            layout.child(i),
            a.child_area(i, area),
        );
    }
}

/// The second pass is a function of the layout and the room it is given:
/// whatever two trees the first pass makes of one layout, the widgets get
/// the same places in the same order.
pub proof fn lemma_solver_is_deterministic(
    a: LayoutMinSize,
    b: LayoutMinSize,
    layout: Layout,
    area: Area,
)
    requires
        a.resolves(&layout),
        b.resolves(&layout),
    ensures
        a.placed(area) == b.placed(area),
    decreases a, a.child_count() + 1,
{
    match a {
        LayoutMinSize::LWidget_(_, _) => {},
        _ => {
            lemma_same_placed_first(a, b, layout, layout.child_count(), area);
        },
    }
}

} // verus!
