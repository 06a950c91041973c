//! The second pass: from a resolved layout and the room it gets to the place
//! of every widget.

use vstd::prelude::*;
use std::collections::HashMap;
use crate::geometry::{in_i32, Vec2};
use crate::layout::{Alignment, Share};
use crate::resolved::LayoutMinSize;
use crate::util::Id;

verus! {

/// A region of the pixel grid in unbounded integers: where it starts and how
/// far it extends.
pub struct Area {
    pub x: int,
    pub y: int,
    pub w: int,
    pub h: int,
}

/// The place of one widget: what the second pass works out for a leaf.
#[derive(Clone, Copy, Debug, PartialEq, Eq, Structural)]
pub struct Placement {
    pub id: Id,
    pub pos: Vec2,
    pub size: Vec2,
    /// Set where the widget's minimum exceeds the room it was given, so that
    /// it may cover its neighbours.
    pub overflows: bool,
}

/// The region that starts at `pos` and extends over `size`.
pub open spec fn area_of(pos: Vec2, size: Vec2) -> Area {
    Area { x: pos.x as int, y: pos.y as int, w: size.x as int, h: size.y as int }
}

/// Whether all four numbers of a region are values of `i32`.
pub open spec fn area_in_i32(area: Area) -> bool {
    in_i32(area.x) && in_i32(area.y) && in_i32(area.w) && in_i32(area.h)
}

/// A child's part of `extra` pixels of spare room (fewer than none where the
/// panel got less than its minimum), rounded down.
pub open spec fn share_extra(extra: int, share: Share) -> int {
    if share.den == 0 {
        0
    } else {
        (extra * share.num) / (share.den as int)
    }
}

/// How far a child is moved on the axis across the panel's direction when
/// `slack` pixels are left over there: not at all, by half of them rounded
/// down, or by all of them.
pub open spec fn spec_align_offset(align: Alignment, slack: int) -> int {
    match align {
        Alignment::Leading => 0,
        Alignment::Center => slack / 2,
        Alignment::Trailing => slack,
    }
}

/// The map of positions after the widgets of `places` were entered in order:
/// where an identifier occurs twice, its last place counts.
pub open spec fn with_positions(map: Map<Id, Vec2>, places: Seq<Placement>) -> Map<Id, Vec2>
    decreases places.len(),
{
    if places.len() == 0 {
        map
    } else {
        with_positions(map, places.drop_last()).insert(places.last().id, places.last().pos)
    }
}

/// The map of sizes after the widgets of `places` were entered in order.
pub open spec fn with_sizes(map: Map<Id, Vec2>, places: Seq<Placement>) -> Map<Id, Vec2>
    decreases places.len(),
{
    if places.len() == 0 {
        map
    } else {
        with_sizes(map, places.drop_last()).insert(places.last().id, places.last().size)
    }
}

/// Enters the position and the size of every widget of `places` into the two
/// maps, under the widget's identifier and in the order of `places`.
pub fn enter_places(
    places: &Vec<Placement>,
    widget_poses: &mut HashMap<Id, Vec2>,
    widget_sizes: &mut HashMap<Id, Vec2>,
)
    ensures
        final(widget_poses)@ == with_positions(old(widget_poses)@, places@),
        final(widget_sizes)@ == with_sizes(old(widget_sizes)@, places@),
{
    broadcast use vstd::std_specs::hash::group_hash_axioms;

    let n: usize = places.len();
    let mut i: usize = 0;
    while i < n
        invariant
            n == places@.len(),
            i <= n,
            widget_poses@ == with_positions(old(widget_poses)@, places@.take(i as int)),
            widget_sizes@ == with_sizes(old(widget_sizes)@, places@.take(i as int)),
        decreases n - i,
    {
        let place: Placement = places[i];
        widget_sizes.insert(place.id, place.size);
        widget_poses.insert(place.id, place.pos);
        proof {
            let next = places@.take(i + 1);
            assert(next.drop_last() =~= places@.take(i as int));
            assert(next.last() == place);
        }
        i = i + 1;
    }
    assert(places@.take(n as int) =~= places@);
}

/// How far a child is moved across the panel's direction: see
/// `spec_align_offset`.
pub fn align_offset(align: Alignment, slack: i32) -> (offset: i32)
    ensures
        offset == spec_align_offset(align, slack as int),
{
    match align {
        Alignment::Leading => 0,
        Alignment::Center => {
            if slack >= 0 {
                slack / 2
            } else {
                let up: i64 = (1 - slack as i64) / 2;
                (-up) as i32
            }
        },
        Alignment::Trailing => slack,
    }
}

/// A child's part of the spare room, rounded down: see `share_extra`.
pub fn share_of_extra(extra: i64, share: Share) -> (part: i128)
    requires
        -0x1_0000_0000 <= extra <= 0x1_0000_0000,
    ensures
        part == share_extra(extra as int, share),
        -0x1_0000_0000 * 0x1_0000_0000 <= part <= 0x1_0000_0000 * 0x1_0000_0000,
{
    if share.den == 0 {
        return 0;
    }
    let num: i128 = share.num as i128;
    assert(-0x1_0000_0000 * 0x1_0000_0000 <= extra * num <= 0x1_0000_0000 * 0x1_0000_0000)
        by (nonlinear_arith)
        requires
            -0x1_0000_0000 <= extra <= 0x1_0000_0000,
            0 <= num <= 0xFFFF_FFFF,
    ;
    let product: i128 = extra as i128 * num;
    let den: u128 = share.den;
    if product >= 0 {
        let whole: u128 = product as u128 / den;
        proof {
            lemma_floor_bounds(product as int, den as int, extra as int, num as int);
        }
        whole as i128
    } else {
        let size: u128 = (-product) as u128;
        let whole: u128 = size / den;
        let rest: u128 = size % den;
        proof {
            lemma_floor_negative(product as int, den as int, whole as int, rest as int);
            lemma_floor_bounds(product as int, den as int, extra as int, num as int);
        }
        if rest == 0 {
            -(whole as i128)
        } else {
            -(whole as i128) - 1
        }
    }
}

/// Rounding a quotient down where the dividend is negative: from the
/// division of the dividend's size.
proof fn lemma_floor_negative(product: int, den: int, whole: int, rest: int)
    requires
        product < 0,
        den > 0,
        whole == (-product) / den,
        rest == (-product) % den,
    ensures
        product / den == (if rest == 0 { -whole } else { -whole - 1 }),
{
    vstd::arithmetic::div_mod::lemma_fundamental_div_mod(-product, den);
    if rest == 0 {
        assert(product == (-whole) * den + 0) by (nonlinear_arith)
            requires
                -product == den * whole + rest,
                rest == 0,
        ;
        vstd::arithmetic::div_mod::lemma_fundamental_div_mod_converse(product, den, -whole, 0);
    } else {
        assert(product == (-whole - 1) * den + (den - rest)) by (nonlinear_arith)
            requires
                -product == den * whole + rest,
        ;
        vstd::arithmetic::div_mod::lemma_mod_bound(-product, den);
        vstd::arithmetic::div_mod::lemma_fundamental_div_mod_converse(
            product,
            den,
            -whole - 1,
            den - rest,
        );
    }
}

/// A share of the spare room is no larger in size than the spare room, as
/// long as the share's parts do not exceed `u32`.
proof fn lemma_floor_bounds(product: int, den: int, extra: int, num: int)
    requires
        den > 0,
        product == extra * num,
        -0x1_0000_0000 <= extra <= 0x1_0000_0000,
        0 <= num <= 0xFFFF_FFFF,
    ensures
        -0x1_0000_0000 * 0x1_0000_0000 <= product / den <= 0x1_0000_0000 * 0x1_0000_0000,
        product >= 0 ==> product / den >= 0,
{
    assert(-0x1_0000_0000 * 0x1_0000_0000 <= product <= 0x1_0000_0000 * 0x1_0000_0000)
        by (nonlinear_arith)
        requires
            product == extra * num,
            -0x1_0000_0000 <= extra <= 0x1_0000_0000,
            0 <= num <= 0xFFFF_FFFF,
    ;
    vstd::arithmetic::div_mod::lemma_fundamental_div_mod(product, den);
    vstd::arithmetic::div_mod::lemma_mod_bound(product, den);
    let q = product / den;
    let r = product % den;
    assert(q <= 0x1_0000_0000 * 0x1_0000_0000 && q >= -0x1_0000_0000 * 0x1_0000_0000 && (product
        >= 0 ==> q >= 0)) by (nonlinear_arith)
        requires
            product == den * q + r,
            0 <= r < den,
            den > 0,
            -0x1_0000_0000 * 0x1_0000_0000 <= product <= 0x1_0000_0000 * 0x1_0000_0000,
    ;
}

impl LayoutMinSize {
    /// Whether the node is a panel that stacks its children on the given
    /// axis.
    pub open spec fn stacks_along(&self, horizontal: bool) -> bool {
        match self {
            LayoutMinSize::VPanel_(_, _, _) => !horizontal,
            LayoutMinSize::HPanel_(_, _, _) => horizontal,
            _ => false,
        }
    }

    /// The alignment of a vertical or horizontal panel.
    pub open spec fn alignment(&self) -> Alignment {
        match self {
            LayoutMinSize::VPanel_(align, _, _) => *align,
            LayoutMinSize::HPanel_(align, _, _) => *align,
            _ => Alignment::Leading,
        }
    }

    /// The room that a vertical or horizontal panel has to spare along its
    /// direction when it is given `area`: what it gets less its own minimum.
    pub open spec fn extra_space(&self, area: Area) -> int {
        match self {
            LayoutMinSize::VPanel_(_, _, min_size) => area.h - min_size.y,
            LayoutMinSize::HPanel_(_, _, min_size) => area.w - min_size.x,
            _ => 0,
        }
    }

    /// The extent that the `i`-th child of a vertical or horizontal panel gets
    /// along the panel's direction: its own minimum and its share of the
    /// spare room.
    pub open spec fn child_extent(&self, i: int, area: Area) -> int {
        let min_size = self.child(i).spec_min_size();
        let own = if self.stacks_along(true) {
            min_size.x
        } else {
            min_size.y
        };
        own + share_extra(self.extra_space(area), self.share(i))
    }

    /// How far along the panel's direction its `n`-th child starts: the
    /// extents of the children before it, end to end.
    pub open spec fn offset(&self, n: nat, area: Area) -> int
        decreases n,
    {
        if n == 0 {
            0
        } else {
            self.offset((n - 1) as nat, area) + self.child_extent(n - 1, area)
        }
    }

    /// The region that the `i`-th child of a panel gets when the panel is
    /// given `area`. A child of an overlap panel gets all of it. A child of a
    /// vertical panel gets the full width, its extent in height, and starts
    /// where the child before it ends; a horizontal panel does the same with
    /// the axes exchanged. Across the panel's direction the child is moved by
    /// the alignment's part of what it leaves free there.
    pub open spec fn child_area(&self, i: int, area: Area) -> Area {
        match self {
            LayoutMinSize::VPanel_(align, _, _) => {
                let w = area.w;
                Area {
                    x: area.x + spec_align_offset(*align, area.w - w),
                    y: area.y + self.offset(i as nat, area),
                    w,
                    h: self.child_extent(i, area),
                }
            },
            LayoutMinSize::HPanel_(align, _, _) => {
                let h = area.h;
                Area {
                    x: area.x + self.offset(i as nat, area),
                    y: area.y + spec_align_offset(*align, area.h - h),
                    w: self.child_extent(i, area),
                    h,
                }
            },
            _ => area,
        }
    }

    /// The place of a widget that is given `area`: it starts where the area
    /// starts and is as large as the area, but on neither axis smaller than
    /// its minimum.
    pub open spec fn leaf_placement(id: Id, min_size: Vec2, area: Area) -> Placement {
        Placement {
            id,
            pos: Vec2 { x: area.x as i32, y: area.y as i32 },
            size: Vec2 {
                x: (if min_size.x >= area.w { min_size.x as int } else { area.w }) as i32,
                y: (if min_size.y >= area.h { min_size.y as int } else { area.h }) as i32,
            },
            overflows: min_size.x > area.w || min_size.y > area.h,
        }
    }

    /// The places of all widgets of the tree, in the order of the tree, when
    /// the root is given `area`.
    pub open spec fn placed(&self, area: Area) -> Seq<Placement>
        decreases self, self.child_count() + 1,
    {
        match self {
            LayoutMinSize::LWidget_(id, min_size) => seq![
                LayoutMinSize::leaf_placement(*id, *min_size, area),
            ],
            _ => self.placed_first(self.child_count(), area),
        }
    }

    /// The places of the widgets under the first `n` children of a panel.
    pub open spec fn placed_first(&self, n: nat, area: Area) -> Seq<Placement>
        decreases self, n,
    {
        if n == 0 || n > self.child_count() {
            Seq::empty()
        } else {
            self.placed_first((n - 1) as nat, area) + self.child(n - 1).placed(
                self.child_area(n - 1, area),
            )
        }
    }

    /// Whether the second pass can be carried out in `i32`: every node of the
    /// tree gets a region of such numbers, and so is every offset at which a
    /// child of a vertical or horizontal panel starts or the last one ends.
    pub open spec fn solvable(&self, area: Area) -> bool
        decreases self,
    {
        &&& area_in_i32(area)
        &&& forall|i: int|
            0 <= i < self.child_count() ==> (#[trigger] self.child(i)).solvable(
                self.child_area(i, area),
            )
        &&& (self.stacks_along(true) ==> forall|n: nat|
            n <= self.child_count() ==> in_i32(area.x + #[trigger] self.offset(n, area)))
        &&& (self.stacks_along(false) ==> forall|n: nat|
            n <= self.child_count() ==> in_i32(area.y + #[trigger] self.offset(n, area)))
    }

    /// Whether `children` is the child list of this vertical (`horizontal`
    /// unset) or horizontal (`horizontal` set) panel.
    pub open spec fn holds_stack(
        &self,
        children: &Vec<(LayoutMinSize, Share)>,
        horizontal: bool,
    ) -> bool {
        match self {
            LayoutMinSize::VPanel_(_, of, _) => of == children && !horizontal,
            LayoutMinSize::HPanel_(_, of, _) => of == children && horizontal,
            _ => false,
        }
    }

    /// The second pass over a vertical or horizontal panel.
    fn place_stack(
        &self,
        children: &Vec<(LayoutMinSize, Share)>,
        horizontal: bool,
        pos: Vec2,
        size: Vec2,
        out: &mut Vec<Placement>,
    ) -> (ok: bool)
        requires
            self.holds_stack(children, horizontal),
        ensures
            ok <==> self.solvable(area_of(pos, size)),
            ok ==> final(out)@ == old(out)@ + self.placed(area_of(pos, size)),
        decreases self, 0nat,
    {
        let ghost area = area_of(pos, size);
        let ghost before = out@;
        let n: usize = children.len();
        let min_size: Vec2 = self.min_size();
        let align: Alignment = match self {
            LayoutMinSize::VPanel_(align, _, _) => *align,
            LayoutMinSize::HPanel_(align, _, _) => *align,
            _ => Alignment::Leading,
        };
        let extra: i64 = if horizontal {
            size.x as i64 - min_size.x as i64
        } else {
            size.y as i64 - min_size.y as i64
        };
        let mut along: i32 = if horizontal {
            pos.x
        } else {
            pos.y
        };
        let ghost base: int = along as int;
        let mut i: usize = 0;
        while i < n
            invariant
                self.holds_stack(children, horizontal),
                area == area_of(pos, size),
                n == children@.len(),
                i <= n,
                extra == self.extra_space(area),
                align == self.alignment(),
                base == (if horizontal { pos.x } else { pos.y }),
                along == base + self.offset(i as nat, area),
                forall|m: nat| m <= i ==> in_i32(base + #[trigger] self.offset(m, area)),
                forall|j: int|
                    0 <= j < i ==> (#[trigger] self.child(j)).solvable(self.child_area(j, area)),
                out@ == before + self.placed_first(i as nat, area),
            decreases n - i,
        {
            let child_min: Vec2 = children[i].0.min_size();
            let part: i128 = share_of_extra(extra, children[i].1);
            let extent: i128 = if horizontal {
                child_min.x as i128 + part
            } else {
                child_min.y as i128 + part
            };
            assert(extent == self.child_extent(i as int, area));
            if extent < i32::MIN as i128 || extent > i32::MAX as i128 {
                assert(!area_in_i32(self.child_area(i as int, area)));
                assert(!self.child(i as int).solvable(self.child_area(i as int, area)));
                return false;
            }
            let child_size: Vec2 = if horizontal {
                Vec2 { x: extent as i32, y: size.y }
            } else {
                Vec2 { x: size.x, y: extent as i32 }
            };
            let child_pos: Vec2 = if horizontal {
                let wiggle_room: i32 = size.y - child_size.y;
                Vec2 { x: along, y: pos.y + align_offset(align, wiggle_room) }
            } else {
                let wiggle_room: i32 = size.x - child_size.x;
                Vec2 { x: pos.x + align_offset(align, wiggle_room), y: along }
            };
            assert(area_of(child_pos, child_size) == self.child_area(i as int, area));
            if !children[i].0.place_into(child_pos, child_size, out) {
                return false;
            }
            assert(out@ == before + self.placed_first((i + 1) as nat, area)) by {
                assert(out@ =~= before + (self.placed_first(i as nat, area) + self.child(
                    i as int,
                ).placed(self.child_area(i as int, area))));
            }
            let next: i64 = along as i64 + extent as i64;
            assert(next == base + self.offset((i + 1) as nat, area));
            if next < i32::MIN as i64 || next > i32::MAX as i64 {
                return false;
            }
            along = next as i32;
            i = i + 1;
        }
        true
    }

    /// The second pass over an overlap panel: every child gets the panel's
    /// own room.
    fn place_overlap(
        &self,
        children: &Vec<LayoutMinSize>,
        pos: Vec2,
        size: Vec2,
        out: &mut Vec<Placement>,
    ) -> (ok: bool)
        requires
            *self matches LayoutMinSize::OverlapPanel_(of, _) && of == children,
        ensures
            ok <==> self.solvable(area_of(pos, size)),
            ok ==> final(out)@ == old(out)@ + self.placed(area_of(pos, size)),
        decreases self, 0nat,
    {
        let ghost area = area_of(pos, size);
        let ghost before = out@;
        let n: usize = children.len();
        let mut i: usize = 0;
        while i < n
            invariant
                *self matches LayoutMinSize::OverlapPanel_(of, _) && of == children,
                area == area_of(pos, size),
                n == children@.len(),
                i <= n,
                forall|j: int|
                    0 <= j < i ==> (#[trigger] self.child(j)).solvable(self.child_area(j, area)),
                out@ == before + self.placed_first(i as nat, area),
            decreases n - i,
        {
            if !children[i].place_into(pos, size, out) {
                return false;
            }
            assert(out@ == before + self.placed_first((i + 1) as nat, area)) by {
                assert(out@ =~= before + (self.placed_first(i as nat, area) + self.child(
                    i as int,
                ).placed(self.child_area(i as int, area))));
            }
            i = i + 1;
        }
        true
    }

    /// The second pass: appends the places of the tree's widgets to `out`, in
    /// the order of the tree, and says whether it could be carried out.
    pub fn place_into(&self, pos: Vec2, size: Vec2, out: &mut Vec<Placement>) -> (ok: bool)
        ensures
            ok <==> self.solvable(area_of(pos, size)),
            ok ==> final(out)@ == old(out)@ + self.placed(area_of(pos, size)),
        decreases self, 1nat,
    {
        match self {
            LayoutMinSize::LWidget_(id, min_size) => {
                let real_size: Vec2 = min_size.component_max(size);
                out.push(
                    Placement {
                        id: *id,
                        pos,
                        size: real_size,
                        overflows: min_size.x > size.x || min_size.y > size.y,
                    },
                );
                assert(out@ =~= old(out)@ + self.placed(area_of(pos, size)));
                true
            },
            LayoutMinSize::VPanel_(_, children, _) => self.place_stack(
                children,
                false,
                pos,
                size,
                out,
            ),
            LayoutMinSize::HPanel_(_, children, _) => self.place_stack(
                children,
                true,
                pos,
                size,
                out,
            ),
            LayoutMinSize::OverlapPanel_(children, _) => self.place_overlap(
                children,
                pos,
                size,
                out,
            ),
        }
    }

    /// The place of every widget of the tree when the root is put at `pos`
    /// and given `size`, in the order of the tree; `None` where a region or an
    /// offset is too large for `i32`.
    pub fn calc_placements(&self, pos: Vec2, size: Vec2) -> (places: Option<Vec<Placement>>)
        ensures
            places.is_some() <==> self.solvable(area_of(pos, size)),
            places.is_some() ==> places.unwrap()@ == self.placed(area_of(pos, size)),
    {
        let mut out: Vec<Placement> = Vec::new();
        if self.place_into(pos, size, &mut out) {
            assert(out@ =~= self.placed(area_of(pos, size)));
            Some(out)
        } else {
            None
        }
    }

    /// The second pass into the two maps of a window: enters the position and
    /// the size of every widget of the tree under the widget's identifier.
    /// Where the pass cannot be carried out in `i32` it says so and leaves
    /// both maps as they were.
    pub fn calc_pos_size(
        &self,
        pos: Vec2,
        size: Vec2,
        widget_poses: &mut HashMap<Id, Vec2>,
        widget_sizes: &mut HashMap<Id, Vec2>,
    ) -> (ok: bool)
        ensures
            ok <==> self.solvable(area_of(pos, size)),
            ok ==> final(widget_poses)@ == with_positions(
                old(widget_poses)@,
                self.placed(area_of(pos, size)),
            ),
            ok ==> final(widget_sizes)@ == with_sizes(
                old(widget_sizes)@,
                self.placed(area_of(pos, size)),
            ),
            !ok ==> final(widget_poses)@ == old(widget_poses)@,
            !ok ==> final(widget_sizes)@ == old(widget_sizes)@,
    {
        match self.calc_placements(pos, size) {
            Some(places) => {
                enter_places(&places, widget_poses, widget_sizes);
                true
            },
            None => false,
        }
    }
}

} // verus!
