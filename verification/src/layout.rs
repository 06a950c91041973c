//! The layout tree and its two passes: minimum sizes bottom-up, then
//! positions and sizes top-down.

use vstd::prelude::*;
use crate::geometry::{in_i32, Vec2};
use crate::resolved::LayoutMinSize;
use crate::util::Id;

verus! {

/// Where a panel puts a child on the axis across its direction when the child
/// is smaller than the room it gets there.
#[derive(Clone, Copy, Debug, PartialEq, Eq, Structural)]
pub enum Alignment {
    Leading,
    Center,
    Trailing,
}

/// A child's part of the room that its panel has to spare: `num` parts out of
/// `den`.
#[derive(Clone, Copy, Debug, PartialEq, Eq, Structural)]
pub struct Share {
    pub num: u32,
    pub den: u128,
}

/// A description of how widgets are arranged. A panel child comes with its
/// flex weight, the child's claim on the room that the panel has to spare.
pub enum Layout {
    /// Children stacked from top to bottom.
    VPanel(Alignment, Vec<(Layout, u32)>),
    /// Children stacked from left to right.
    HPanel(Alignment, Vec<(Layout, u32)>),
    /// Children on top of each other, later ones above earlier ones.
    OverlapPanel(Vec<Layout>),
    /// One widget, by its identifier and the minimum size it reported.
    LWidget(Id, Vec2),
}

impl Layout {
    /// How many children the node has; a widget has none.
    pub open spec fn child_count(&self) -> nat {
        match self {
            Layout::VPanel(_, children) => children@.len(),
            Layout::HPanel(_, children) => children@.len(),
            Layout::OverlapPanel(children) => children@.len(),
            Layout::LWidget(_, _) => 0,
        }
    }

    /// The `i`-th child of a panel.
    pub open spec fn child(&self, i: int) -> Layout
        recommends
            0 <= i < self.child_count(),
    {
        match self {
            Layout::VPanel(_, children) => children@[i].0,
            Layout::HPanel(_, children) => children@[i].0,
            Layout::OverlapPanel(children) => children@[i],
            Layout::LWidget(_, _) => *self,
        }
    }

    /// The flex weight of the `i`-th child of a vertical or horizontal panel.
    pub open spec fn weight(&self, i: int) -> nat
        recommends
            0 <= i < self.child_count(),
    {
        match self {
            Layout::VPanel(_, children) => children@[i].1 as nat,
            Layout::HPanel(_, children) => children@[i].1 as nat,
            _ => 0,
        }
    }

    /// The sum of the flex weights of the first `n` children.
    pub open spec fn flex_of_first(&self, n: nat) -> nat
        decreases n,
    {
        if n == 0 || n > self.child_count() {
            0
        } else {
            self.flex_of_first((n - 1) as nat) + self.weight(n - 1)
        }
    }

    /// The sum of all children's flex weights.
    pub open spec fn total_flex(&self) -> nat {
        self.flex_of_first(self.child_count())
    }

    /// The part of the spare room that goes to the `i`-th child: its weight
    /// out of the total, or, where all weights are zero, one part out of as
    /// many as there are children.
    pub open spec fn share_of(&self, i: int) -> Share
        recommends
            0 <= i < self.child_count(),
    {
        if self.total_flex() == 0 {
            Share { num: 1, den: self.child_count() as u128 }
        } else {
            Share { num: self.weight(i) as u32, den: self.total_flex() as u128 }
        }
    }

    /// Whether the node's minimum size on the given axis is the sum of its
    /// children's: a vertical panel sums heights, a horizontal one widths.
    pub open spec fn sums_along(&self, horizontal: bool) -> bool {
        match self {
            Layout::VPanel(_, _) => !horizontal,
            Layout::HPanel(_, _) => horizontal,
            _ => false,
        }
    }

    /// The minimum size of the node on one axis, as an unbounded integer.
    pub open spec fn min_along(&self, horizontal: bool) -> int
        decreases self, self.child_count() + 1,
    {
        match self {
            Layout::LWidget(_, min_size) => if horizontal {
                min_size.x as int
            } else {
                min_size.y as int
            },
            _ => self.min_of_first(self.child_count(), horizontal),
        }
    }

    /// The minimum size on one axis of a panel that had only the first `n`
    /// children: their sum along the panel's direction, their maximum (and at
    /// least zero) across it.
    pub open spec fn min_of_first(&self, n: nat, horizontal: bool) -> int
        decreases self, n,
    {
        if n == 0 || n > self.child_count() {
            0
        } else {
            let rest = self.min_of_first((n - 1) as nat, horizontal);
            let last = self.child(n - 1).min_along(horizontal);
            if self.sums_along(horizontal) {
                rest + last
            } else if rest >= last {
                rest
            } else {
                last
            }
        }
    }

    /// Whether every minimum size in the tree, and every partial sum on the
    /// way to one, is a value of `i32`.
    pub open spec fn measurable(&self) -> bool
        decreases self,
    {
        match self {
            Layout::LWidget(_, _) => true,
            _ => {
                &&& forall|i: int|
                    0 <= i < self.child_count() ==> (#[trigger] self.child(i)).measurable()
                &&& forall|n: nat|
                    n <= self.child_count() ==> in_i32(#[trigger] self.min_of_first(n, true))
                &&& forall|n: nat|
                    n <= self.child_count() ==> in_i32(#[trigger] self.min_of_first(n, false))
            },
        }
    }

    /// Whether `children` is the child list of this vertical (`horizontal`
    /// unset) or horizontal (`horizontal` set) panel.
    pub open spec fn stacks(&self, children: &Vec<(Layout, u32)>, horizontal: bool) -> bool {
        match self {
            Layout::VPanel(_, of) => of == children && !horizontal,
            Layout::HPanel(_, of) => of == children && horizontal,
            _ => false,
        }
    }

    /// The sum of a panel's flex weights.
    fn sum_flex(&self, children: &Vec<(Layout, u32)>, horizontal: bool) -> (total: u128)
        requires
            self.stacks(children, horizontal),
        ensures
            total == self.total_flex(),
    {
        let n: usize = children.len();
        let mut total: u128 = 0;
        let mut i: usize = 0;
        while i < n
            invariant
                self.stacks(children, horizontal),
                n == children@.len(),
                i <= n,
                total == self.flex_of_first(i as nat),
                total <= i * 0xFFFF_FFFF,
            decreases n - i,
        {
            total = total + children[i].1 as u128;
            i = i + 1;
        }
        total
    }

    /// The first pass over a vertical or horizontal panel: resolves the
    /// children in order and works out the panel's minimum size.
    fn resolve_stack(&self, children: &Vec<(Layout, u32)>, horizontal: bool) -> (resolved: Option<
        (Vec<(LayoutMinSize, Share)>, Vec2),
    >)
        requires
            self.stacks(children, horizontal),
        ensures
            resolved.is_some() <==> self.measurable(),
            resolved.is_some() ==> {
                let (out, min_size) = resolved.unwrap();
                &&& out@.len() == self.child_count()
                &&& forall|j: int|
                    0 <= j < out@.len() ==> (#[trigger] out@[j]).0.resolves(&self.child(j))
                &&& forall|j: int| 0 <= j < out@.len() ==> (#[trigger] out@[j]).1 == self.share_of(j)
                &&& min_size.x == self.min_along(true)
                &&& min_size.y == self.min_along(false)
            },
        decreases self, 0nat,
    {
        let n: usize = children.len();
        let total: u128 = self.sum_flex(children, horizontal);
        let mut out: Vec<(LayoutMinSize, Share)> = Vec::new();
        let mut min_x: i32 = 0;
        let mut min_y: i32 = 0;
        let mut i: usize = 0;
        while i < n
            invariant
                self.stacks(children, horizontal),
                n == children@.len(),
                i <= n,
                total == self.total_flex(),
                out@.len() == i,
                forall|j: int| 0 <= j < i ==> (#[trigger] out@[j]).0.resolves(&self.child(j)),
                forall|j: int| 0 <= j < i ==> (#[trigger] out@[j]).1 == self.share_of(j),
                forall|j: int| 0 <= j < i ==> (#[trigger] self.child(j)).measurable(),
                forall|m: nat| m <= i ==> in_i32(#[trigger] self.min_of_first(m, true)),
                forall|m: nat| m <= i ==> in_i32(#[trigger] self.min_of_first(m, false)),
                min_x == self.min_of_first(i as nat, true),
                min_y == self.min_of_first(i as nat, false),
            decreases n - i,
        {
            let child = match children[i].0.resolve() {
                Some(child) => child,
                None => {
                    assert(!self.child(i as int).measurable());
                    return None;
                },
            };
            let child_min: Vec2 = child.min_size();
            let along: i64 = if horizontal {
                min_x as i64 + child_min.x as i64
            } else {
                min_y as i64 + child_min.y as i64
            };
            assert(along == self.min_of_first((i + 1) as nat, horizontal));
            if along < i32::MIN as i64 || along > i32::MAX as i64 {
                return None;
            }
            if horizontal {
                min_x = along as i32;
                if child_min.y > min_y {
                    min_y = child_min.y;
                }
            } else {
                min_y = along as i32;
                if child_min.x > min_x {
                    min_x = child_min.x;
                }
            }
            let share = if total == 0 {
                Share { num: 1, den: n as u128 }
            } else {
                Share { num: children[i].1, den: total }
            };
            out.push((child, share));
            i = i + 1;
        }
        Some((out, Vec2 { x: min_x, y: min_y }))
    }

    /// The first pass over an overlap panel.
    fn resolve_overlap(&self, children: &Vec<Layout>) -> (resolved: Option<
        (Vec<LayoutMinSize>, Vec2),
    >)
        requires
            *self matches Layout::OverlapPanel(of) && of == children,
        ensures
            resolved.is_some() <==> self.measurable(),
            resolved.is_some() ==> {
                let (out, min_size) = resolved.unwrap();
                &&& out@.len() == self.child_count()
                &&& forall|j: int|
                    0 <= j < out@.len() ==> (#[trigger] out@[j]).resolves(&self.child(j))
                &&& min_size.x == self.min_along(true)
                &&& min_size.y == self.min_along(false)
            },
        decreases self, 0nat,
    {
        let n: usize = children.len();
        let mut out: Vec<LayoutMinSize> = Vec::new();
        let mut min_size: Vec2 = Vec2::zero();
        let mut i: usize = 0;
        while i < n
            invariant
                *self matches Layout::OverlapPanel(of) && of == children,
                n == children@.len(),
                i <= n,
                out@.len() == i,
                forall|j: int| 0 <= j < i ==> (#[trigger] out@[j]).resolves(&self.child(j)),
                forall|j: int| 0 <= j < i ==> (#[trigger] self.child(j)).measurable(),
                forall|m: nat| m <= i ==> in_i32(#[trigger] self.min_of_first(m, true)),
                forall|m: nat| m <= i ==> in_i32(#[trigger] self.min_of_first(m, false)),
                min_size.x == self.min_of_first(i as nat, true),
                min_size.y == self.min_of_first(i as nat, false),
            decreases n - i,
        {
            let child = match children[i].resolve() {
                Some(child) => child,
                None => {
                    assert(!self.child(i as int).measurable());
                    return None;
                },
            };
            min_size = min_size.component_max(child.min_size());
            assert(min_size.x == self.min_of_first((i + 1) as nat, true));
            assert(min_size.y == self.min_of_first((i + 1) as nat, false));
            out.push(child);
            i = i + 1;
        }
        Some((out, min_size))
    }

    /// The first pass: the tree with every node's minimum size and every
    /// panel child's share, or `None` where a minimum size is too large for
    /// `i32`.
    pub fn resolve(&self) -> (resolved: Option<LayoutMinSize>)
        ensures
            resolved.is_some() <==> self.measurable(),
            resolved.is_some() ==> resolved.unwrap().resolves(self),
        decreases self, 1nat,
    {
        match self {
            Layout::LWidget(id, min_size) => Some(LayoutMinSize::LWidget_(*id, *min_size)),
            Layout::VPanel(align, children) => match self.resolve_stack(children, false) {
                Some((out, min_size)) => Some(LayoutMinSize::VPanel_(*align, out, min_size)),
                None => None,
            },
            Layout::HPanel(align, children) => match self.resolve_stack(children, true) {
                Some((out, min_size)) => Some(LayoutMinSize::HPanel_(*align, out, min_size)),
                None => None,
            },
            Layout::OverlapPanel(children) => match self.resolve_overlap(children) {
                Some((out, min_size)) => Some(LayoutMinSize::OverlapPanel_(out, min_size)),
                None => None,
            },
        }
    }

    /// The first pass, giving the layout up: see `resolve`.
    pub fn into_layout_min_size(self) -> (resolved: Option<LayoutMinSize>)
        ensures
            resolved.is_some() <==> self.measurable(),
            resolved.is_some() ==> resolved.unwrap().resolves(&self),
    {
        self.resolve()
    }
}

} // verus!
