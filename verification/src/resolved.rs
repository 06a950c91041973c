//! The layout tree with the minimum size of every node worked out.

use vstd::prelude::*;
use crate::geometry::Vec2;
use crate::layout::{Alignment, Layout, Share};
use crate::util::Id;

verus! {

/// A layout in which every node carries its minimum size and every panel
/// child its share of the panel's spare room.
pub enum LayoutMinSize {
    VPanel_(Alignment, Vec<(LayoutMinSize, Share)>, Vec2),
    HPanel_(Alignment, Vec<(LayoutMinSize, Share)>, Vec2),
    OverlapPanel_(Vec<LayoutMinSize>, Vec2),
    LWidget_(Id, Vec2),
}

impl LayoutMinSize {
    /// The minimum size that the node carries.
    pub open spec fn spec_min_size(&self) -> Vec2 {
        match self {
            LayoutMinSize::VPanel_(_, _, min_size) => *min_size,
            LayoutMinSize::HPanel_(_, _, min_size) => *min_size,
            LayoutMinSize::OverlapPanel_(_, min_size) => *min_size,
            LayoutMinSize::LWidget_(_, min_size) => *min_size,
        }
    }

    /// How many children the node has; a widget has none.
    pub open spec fn child_count(&self) -> nat {
        match self {
            LayoutMinSize::VPanel_(_, children, _) => children@.len(),
            LayoutMinSize::HPanel_(_, children, _) => children@.len(),
            LayoutMinSize::OverlapPanel_(children, _) => children@.len(),
            LayoutMinSize::LWidget_(_, _) => 0,
        }
    }

    /// The `i`-th child of a panel.
    pub open spec fn child(&self, i: int) -> LayoutMinSize
        recommends
            0 <= i < self.child_count(),
    {
        match self {
            LayoutMinSize::VPanel_(_, children, _) => children@[i].0,
            LayoutMinSize::HPanel_(_, children, _) => children@[i].0,
            LayoutMinSize::OverlapPanel_(children, _) => children@[i],
            LayoutMinSize::LWidget_(_, _) => *self,
        }
    }

    /// The share of the `i`-th child of a vertical or horizontal panel.
    pub open spec fn share(&self, i: int) -> Share
        recommends
            0 <= i < self.child_count(),
    {
        match self {
            LayoutMinSize::VPanel_(_, children, _) => children@[i].1,
            LayoutMinSize::HPanel_(_, children, _) => children@[i].1,
            _ => Share { num: 0, den: 1 },
        }
    }

    /// Whether this tree is what the first pass makes of `layout`: the same
    /// shape, widgets and alignments, each panel child with its share, and
    /// each node with its minimum size.
    pub open spec fn resolves(&self, layout: &Layout) -> bool
        decreases self,
    {
        &&& self.spec_min_size().x == layout.min_along(true)
        &&& self.spec_min_size().y == layout.min_along(false)
        &&& self.child_count() == layout.child_count()
        &&& forall|i: int|
            0 <= i < self.child_count() ==> (#[trigger] self.child(i)).resolves(&layout.child(i))
        &&& match (self, layout) {
            (LayoutMinSize::LWidget_(id, _), Layout::LWidget(of, _)) => id == of,
            (LayoutMinSize::VPanel_(align, _, _), Layout::VPanel(of, _)) => {
                &&& align == of
                &&& forall|i: int|
                    0 <= i < self.child_count() ==> #[trigger] self.share(i) == layout.share_of(i)
            },
            (LayoutMinSize::HPanel_(align, _, _), Layout::HPanel(of, _)) => {
                &&& align == of
                &&& forall|i: int|
                    0 <= i < self.child_count() ==> #[trigger] self.share(i) == layout.share_of(i)
            },
            (LayoutMinSize::OverlapPanel_(_, _), Layout::OverlapPanel(_)) => true,
            _ => false,
        }
    }

    /// The identifiers of the tree's widgets, in the order of the tree.
    pub open spec fn widget_ids(&self) -> Seq<Id>
        decreases self, self.child_count() + 1,
    {
        match self {
            LayoutMinSize::LWidget_(id, _) => seq![*id],
            _ => self.widget_ids_of_first(self.child_count()),
        }
    }

    /// The identifiers of the widgets under the first `n` children.
    pub open spec fn widget_ids_of_first(&self, n: nat) -> Seq<Id>
        decreases self, n,
    {
        if n == 0 || n > self.child_count() {
            Seq::empty()
        } else {
            self.widget_ids_of_first((n - 1) as nat) + self.child(n - 1).widget_ids()
        }
    }

    /// The minimum sizes of the tree's widgets, in the order of the tree.
    pub open spec fn leaf_min_sizes(&self) -> Seq<Vec2>
        decreases self, self.child_count() + 1,
    {
        match self {
            LayoutMinSize::LWidget_(_, min_size) => seq![*min_size],
            _ => self.leaf_min_sizes_of_first(self.child_count()),
        }
    }

    /// The minimum sizes of the widgets under the first `n` children.
    pub open spec fn leaf_min_sizes_of_first(&self, n: nat) -> Seq<Vec2>
        decreases self, n,
    {
        if n == 0 || n > self.child_count() {
            Seq::empty()
        } else {
            self.leaf_min_sizes_of_first((n - 1) as nat) + self.child(n - 1).leaf_min_sizes()
        }
    }

    /// Appends the identifiers of the tree's widgets to `widgets`, in the
    /// order of the tree: the order in which they are drawn and in which
    /// events reach them.
    pub fn collect_widgets(&self, widgets: &mut Vec<Id>)
        ensures
            final(widgets)@ == old(widgets)@ + self.widget_ids(),
        decreases self,
    {
        let ghost before = widgets@;
        match self {
            LayoutMinSize::LWidget_(id, _) => {
                widgets.push(*id);
                assert(widgets@ =~= before + self.widget_ids());
            },
            LayoutMinSize::VPanel_(_, children, _) | LayoutMinSize::HPanel_(_, children, _) => {
                let n: usize = children.len();
                let mut i: usize = 0;
                while i < n
                    invariant
                        self.child_count() == n,
                        n == children@.len(),
                        i <= n,
                        forall|j: int| 0 <= j < n ==> self.child(j) == (#[trigger] children@[j]).0,
                        forall|j: int| 0 <= j < n ==> decreases_to!(self => children@[j].0),
                        widgets@ == before + self.widget_ids_of_first(i as nat),
                    decreases n - i,
                {
                    children[i].0.collect_widgets(widgets);
                    assert(widgets@ =~= before + (self.widget_ids_of_first(i as nat) + self.child(
                        i as int,
                    ).widget_ids()));
                    i = i + 1;
                }
            },
            LayoutMinSize::OverlapPanel_(children, _) => {
                let n: usize = children.len();
                let mut i: usize = 0;
                while i < n
                    invariant
                        self.child_count() == n,
                        n == children@.len(),
                        i <= n,
                        forall|j: int| 0 <= j < n ==> self.child(j) == #[trigger] children@[j],
                        forall|j: int| 0 <= j < n ==> decreases_to!(self => children@[j]),
                        widgets@ == before + self.widget_ids_of_first(i as nat),
                    decreases n - i,
                {
                    children[i].collect_widgets(widgets);
                    assert(widgets@ =~= before + (self.widget_ids_of_first(i as nat) + self.child(
                        i as int,
                    ).widget_ids()));
                    i = i + 1;
                }
            },
        }
    }

    /// The minimum size of the node, which the first pass worked out.
    #[verifier::when_used_as_spec(spec_min_size)]
    pub fn min_size(&self) -> (size: Vec2)
        ensures
            size == self.spec_min_size(),
    {
        match self {
            LayoutMinSize::VPanel_(_, _, min_size) => *min_size,
            LayoutMinSize::HPanel_(_, _, min_size) => *min_size,
            LayoutMinSize::OverlapPanel_(_, min_size) => *min_size,
            LayoutMinSize::LWidget_(_, min_size) => *min_size,
        }
    }
}

} // verus!
