//! When the second pass is sure to succeed: a layout of widgets with
//! minimum sizes that are not negative, in room that is large enough.

use vstd::prelude::*;
use vstd::arithmetic::div_mod::{
    lemma_div_is_ordered, lemma_div_multiples_vanish, lemma_fundamental_div_mod, lemma_mod_bound,
};
use crate::layout::Layout;
use crate::resolved::LayoutMinSize;
use crate::solver::{share_extra, Area};

verus! {

/// Two quotients, each rounded down, are together no more than the quotient
/// of the sum.
proof fn lemma_floor_sum(a: int, b: int, d: int)
    requires
        d > 0,
    ensures
        a / d + b / d <= (a + b) / d,
{
    lemma_fundamental_div_mod(a, d);
    lemma_fundamental_div_mod(b, d);
    lemma_mod_bound(a, d);
    lemma_mod_bound(b, d);
    let q = a / d + b / d;
    assert(d * q <= a + b) by (nonlinear_arith)
        requires
            a == d * (a / d) + a % d,
            b == d * (b / d) + b % d,
            a % d >= 0,
            b % d >= 0,
            q == a / d + b / d,
    ;
    lemma_div_is_ordered(d * q, a + b, d);
    lemma_div_multiples_vanish(q, d);
}

/// Of room that is not negative a child gets a part that is not negative,
/// and no more than all of it where the share is no more than the whole.
proof fn lemma_part_bounds(extra: int, num: int, den: int)
    requires
        extra >= 0,
        num >= 0,
        den > 0,
    ensures
        (extra * num) / den >= 0,
        num <= den ==> (extra * num) / den <= extra,
{
    assert(extra * num >= 0) by (nonlinear_arith)
        requires
            extra >= 0,
            num >= 0,
    ;
    lemma_div_is_ordered(0, extra * num, den);
    if num <= den {
        assert(extra * num <= den * extra) by (nonlinear_arith)
            requires
                extra >= 0,
                0 <= num <= den,
        ;
        lemma_div_is_ordered(extra * num, den * extra, den);
        lemma_div_multiples_vanish(extra, den);
    }
}

impl LayoutMinSize {
    /// Whether no node of the tree has a minimum size that is negative on
    /// either axis.
    pub open spec fn nonnegative(&self) -> bool
        decreases self,
    {
        &&& self.spec_min_size().x >= 0
        &&& self.spec_min_size().y >= 0
        &&& forall|i: int| 0 <= i < self.child_count() ==> (#[trigger] self.child(i)).nonnegative()
    }

    /// The parts of `extra` that the first `n` children get, together.
    pub open spec fn parts_of_first(&self, n: nat, extra: int) -> int
        decreases n,
    {
        if n == 0 {
            0
        } else {
            self.parts_of_first((n - 1) as nat, extra) + share_extra(extra, self.share(n - 1))
        }
    }

    /// The minimum sizes of the first `n` children along the panel's
    /// direction, together.
    pub open spec fn minimums_of_first(&self, n: nat) -> int
        decreases n,
    {
        if n == 0 {
            0
        } else {
            self.minimums_of_first((n - 1) as nat) + (if self.stacks_along(true) {
                self.child(n - 1).spec_min_size().x as int
            } else {
                self.child(n - 1).spec_min_size().y as int
            })
        }
    }
}

/// The sum of the shares' parts over the first `n` children.
spec fn nums_of_first(node: LayoutMinSize, n: nat) -> int
    decreases n,
{
    if n == 0 {
        0
    } else {
        nums_of_first(node, (n - 1) as nat) + node.share(n - 1).num
    }
}

/// The parts of the first `n` children are together no more than what the
/// sum of their shares gives, where all shares are of one whole.
proof fn lemma_parts_below_share(node: LayoutMinSize, n: nat, extra: int, den: int)
    requires
        extra >= 0,
        den > 0,
        forall|i: int| 0 <= i < n ==> (#[trigger] node.share(i)).den == den,
    ensures
        0 <= node.parts_of_first(n, extra) <= (extra * nums_of_first(node, n)) / den,
        nums_of_first(node, n) >= 0,
    decreases n,
{
    if n == 0 {
        assert(extra * 0 == 0);
    } else {
        lemma_parts_below_share(node, (n - 1) as nat, extra, den);
        let before = nums_of_first(node, (n - 1) as nat);
        let num = node.share(n - 1).num as int;
        assert(node.share(n - 1).den == den);
        lemma_part_bounds(extra, num, den);
        lemma_floor_sum(extra * before, extra * num, den);
        assert(extra * before + extra * num == extra * (before + num)) by (nonlinear_arith);
    }
}

/// The flex weights of the first children add up to no more than those of
/// all of them.
proof fn lemma_flex_grows(layout: Layout, n: nat, m: nat)
    requires
        n <= m <= layout.child_count(),
    ensures
        layout.flex_of_first(n) <= layout.flex_of_first(m),
    decreases m,
{
    if n < m {
        lemma_flex_grows(layout, n, (m - 1) as nat);
    }
}

/// The total of a panel's flex weights is a value of `u128`.
proof fn lemma_flex_fits(layout: Layout, n: nat)
    requires
        n <= layout.child_count(),
    ensures
        layout.flex_of_first(n) <= n * 0xFFFF_FFFF,
        layout.child_count() <= usize::MAX,
    decreases n,
{
    match layout {
        Layout::VPanel(_, children) => {
            assert(children@.len() == children.len());
        },
        Layout::HPanel(_, children) => {
            assert(children@.len() == children.len());
        },
        Layout::OverlapPanel(children) => {
            assert(children@.len() == children.len());
        },
        Layout::LWidget(_, _) => {},
    }
    if n > 0 {
        lemma_flex_fits(layout, (n - 1) as nat);
    }
}

/// The whole of which every child of a panel has its share.
spec fn whole_of(layout: Layout) -> int {
    if layout.total_flex() == 0 {
        layout.child_count() as int
    } else {
        layout.total_flex() as int
    }
}

/// In a resolved vertical or horizontal panel the shares of the first `n`
/// children are of one whole, and together no more than it.
proof fn lemma_shares_of_first(node: LayoutMinSize, layout: Layout, n: nat)
    requires
        node.resolves(&layout),
        node.stacks_along(true) || node.stacks_along(false),
        n <= layout.child_count(),
    ensures
        forall|i: int| 0 <= i < n ==> (#[trigger] node.share(i)).den == whole_of(layout),
        n > 0 ==> whole_of(layout) > 0,
        nums_of_first(node, n) == (if layout.total_flex() == 0 {
            n as int
        } else {
            layout.flex_of_first(n) as int
        }),
        nums_of_first(node, n) <= whole_of(layout),
    decreases n,
{
    lemma_flex_fits(layout, layout.child_count());
    lemma_flex_grows(layout, n, layout.child_count());
    if n > 0 {
        lemma_shares_of_first(node, layout, (n - 1) as nat);
        assert(node.share(n - 1) == layout.share_of(n - 1));
        lemma_flex_grows(layout, n, layout.child_count());
        lemma_flex_grows(layout, 1, layout.child_count());
    }
}

/// A child starts after the minimum sizes of the children before it and
/// their parts of the spare room.
proof fn lemma_offset_splits(node: LayoutMinSize, n: nat, area: Area)
    ensures
        node.offset(n, area) == node.minimums_of_first(n) + node.parts_of_first(
            n,
            node.extra_space(area),
        ),
    decreases n,
{
    if n > 0 {
        lemma_offset_splits(node, (n - 1) as nat, area);
    }
}

/// Minimum sizes that are not negative add up to more the more there are of
/// them, and those of all children to the panel's own.
proof fn lemma_minimums(node: LayoutMinSize, layout: Layout, n: nat, m: nat)
    requires
        node.resolves(&layout),
        node.nonnegative(),
        node.stacks_along(true) || node.stacks_along(false),
        n <= m <= layout.child_count(),
    ensures
        0 <= node.minimums_of_first(n) <= node.minimums_of_first(m),
        node.minimums_of_first(m) == layout.min_of_first(m, node.stacks_along(true)),
    decreases m,
{
    if m > 0 {
        assert(node.child(m - 1).nonnegative());
        assert(node.child(m - 1).resolves(&layout.child(m - 1)));
        if n < m {
            lemma_minimums(node, layout, n, (m - 1) as nat);
        } else {
            lemma_minimums(node, layout, (m - 1) as nat, (m - 1) as nat);
        }
    }
}

/// Whether `area` is room enough for `node`: it starts at a position that
/// is not negative, is on neither axis smaller than the node's minimum
/// size, and ends within `i32`.
pub open spec fn roomy(node: LayoutMinSize, area: Area) -> bool {
    &&& area.x >= 0
    &&& area.y >= 0
    &&& area.w >= node.spec_min_size().x
    &&& area.h >= node.spec_min_size().y
    &&& area.x + area.w <= i32::MAX
    &&& area.y + area.h <= i32::MAX
}

/// In a vertical or horizontal panel with room enough, every child starts
/// within the panel's room and the last one ends within it, and each child
/// gets at least its minimum along the panel's direction.
proof fn lemma_offsets_in_room(node: LayoutMinSize, layout: Layout, n: nat, area: Area)
    requires
        node.resolves(&layout),
        node.nonnegative(),
        node.stacks_along(true) || node.stacks_along(false),
        roomy(node, area),
        n <= layout.child_count(),
    ensures
        0 <= node.offset(n, area) <= (if node.stacks_along(true) {
            area.w
        } else {
            area.h
        }),
        n > 0 ==> node.child_extent(n - 1, area) >= (if node.stacks_along(true) {
            node.child(n - 1).spec_min_size().x
        } else {
            node.child(n - 1).spec_min_size().y
        }),
{
    let extra = node.extra_space(area);
    let count = layout.child_count();
    lemma_offset_splits(node, n, area);
    lemma_minimums(node, layout, n, count);
    lemma_shares_of_first(node, layout, n);
    if n > 0 {
        let den = whole_of(layout);
        lemma_parts_below_share(node, n, extra, den);
        lemma_part_bounds(extra, nums_of_first(node, n), den);
        assert(node.share(n - 1).den == den);
        lemma_part_bounds(extra, node.share(n - 1).num as int, den);
    }
}

/// A layout whose nodes all have minimum sizes that are not negative can be
/// placed in any room that is enough for it: the second pass then succeeds.
pub proof fn lemma_roomy_is_solvable(node: LayoutMinSize, layout: Layout, area: Area)
    requires
        node.resolves(&layout),
        node.nonnegative(),
        roomy(node, area),
    ensures
        node.solvable(area),
    decreases node,
{
    let count = layout.child_count();
    if node.stacks_along(true) || node.stacks_along(false) {
        crate::laws::lemma_stack_min_size(node, layout);
        assert forall|n: nat| n <= count implies 0 <= #[trigger] node.offset(n, area) <= (if node.stacks_along(
            true,
        ) {
            area.w
        } else {
            area.h
        }) by {
            lemma_offsets_in_room(node, layout, n, area);
        }
        assert forall|i: int| 0 <= i < count implies (#[trigger] node.child(i)).solvable(
            node.child_area(i, area),
        ) by {
            lemma_offsets_in_room(node, layout, (i + 1) as nat, area);
            assert(0 <= node.offset(i as nat, area));
            assert(node.offset((i + 1) as nat, area) == node.offset(i as nat, area)
                + node.child_extent(i, area));
            let across = crate::laws::child_minimums(node, !node.stacks_along(true));
            assert(across[i] <= (if node.stacks_along(true) {
                node.spec_min_size().y
            } else {
                node.spec_min_size().x
            }));
            assert(node.child(i).nonnegative());
            assert(node.child(i).resolves(&layout.child(i)));
            lemma_roomy_is_solvable(node.child(i), layout.child(i), node.child_area(i, area));
        }
    } else {
        if node is OverlapPanel_ {
            crate::laws::lemma_overlap_panel(node, layout, area);
        }
        assert forall|i: int| 0 <= i < count implies (#[trigger] node.child(i)).solvable(
            node.child_area(i, area),
        ) by {
            let widths = crate::laws::child_minimums(node, true);
            let heights = crate::laws::child_minimums(node, false);
            assert(widths[i] <= node.spec_min_size().x);
            assert(heights[i] <= node.spec_min_size().y);
            assert(node.child(i).nonnegative());
            assert(node.child(i).resolves(&layout.child(i)));
            lemma_roomy_is_solvable(node.child(i), layout.child(i), node.child_area(i, area));
        }
    }
}

} // verus!
