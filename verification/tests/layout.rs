use std::collections::HashMap;

use gui_toolkit::geometry::Vec2;
use gui_toolkit::layout::{Alignment, Layout, Share};
use gui_toolkit::resolved::LayoutMinSize;
use gui_toolkit::solver::{align_offset, share_of_extra, Placement};

fn leaf(id: u64, w: i32, h: i32) -> Layout {
    Layout::LWidget(id, Vec2::new(w, h))
}

#[test]
fn two_leaves_in_a_vertical_panel() {
    let layout = Layout::VPanel(
        Alignment::Leading,
        vec![(leaf(1, 50, 20), 1), (leaf(2, 80, 30), 1)],
    );
    let resolved = layout.into_layout_min_size().unwrap();
    assert_eq!(resolved.min_size(), Vec2::new(80, 50));
    let places = resolved
        .calc_placements(Vec2::new(0, 0), Vec2::new(100, 100))
        .unwrap();
    assert_eq!(
        places,
        vec![
            Placement { id: 1, pos: Vec2::new(0, 0), size: Vec2::new(100, 45), overflows: false },
            Placement { id: 2, pos: Vec2::new(0, 45), size: Vec2::new(100, 55), overflows: false },
        ]
    );
}

#[test]
fn weights_one_and_three_split_forty() {
    let quarter = Share { num: 1, den: 4 };
    let rest = Share { num: 3, den: 4 };
    assert_eq!(share_of_extra(40, quarter), 10);
    assert_eq!(share_of_extra(40, rest), 30);
}

#[test]
fn shares_round_down_below_zero() {
    assert_eq!(share_of_extra(-5, Share { num: 1, den: 2 }), -3);
    assert_eq!(share_of_extra(-4, Share { num: 1, den: 2 }), -2);
    assert_eq!(share_of_extra(5, Share { num: 1, den: 2 }), 2);
    assert_eq!(share_of_extra(7, Share { num: 0, den: 0 }), 0);
}

#[test]
fn zero_weights_share_equally() {
    let layout = Layout::HPanel(
        Alignment::Center,
        vec![(leaf(1, 10, 5), 0), (leaf(2, 10, 5), 0), (leaf(3, 10, 5), 0)],
    );
    let resolved = layout.resolve().unwrap();
    match &resolved {
        LayoutMinSize::HPanel_(_, children, min_size) => {
            assert_eq!(*min_size, Vec2::new(30, 5));
            for (_, share) in children.iter() {
                assert_eq!(*share, Share { num: 1, den: 3 });
            }
        }
        _ => panic!("a horizontal panel resolves to a horizontal panel"),
    }
    let places = resolved
        .calc_placements(Vec2::new(0, 0), Vec2::new(60, 20))
        .unwrap();
    let sizes: Vec<Vec2> = places.iter().map(|p| p.size).collect();
    let poses: Vec<Vec2> = places.iter().map(|p| p.pos).collect();
    assert_eq!(sizes, vec![Vec2::new(20, 20), Vec2::new(20, 20), Vec2::new(20, 20)]);
    assert_eq!(poses, vec![Vec2::new(0, 0), Vec2::new(20, 0), Vec2::new(40, 0)]);
}

#[test]
fn overlap_children_share_the_panel_rect() {
    let layout = Layout::OverlapPanel(vec![leaf(1, 10, 40), leaf(2, 30, 20)]);
    let resolved = layout.resolve().unwrap();
    assert_eq!(resolved.min_size(), Vec2::new(30, 40));
    let places = resolved
        .calc_placements(Vec2::new(3, 4), Vec2::new(50, 60))
        .unwrap();
    assert_eq!(places.len(), 2);
    for place in places.iter() {
        assert_eq!(place.pos, Vec2::new(3, 4));
        assert_eq!(place.size, Vec2::new(50, 60));
    }
}

#[test]
fn a_leaf_is_never_smaller_than_its_minimum() {
    let resolved = leaf(7, 50, 20).resolve().unwrap();
    let places = resolved
        .calc_placements(Vec2::new(0, 0), Vec2::new(10, 30))
        .unwrap();
    assert_eq!(
        places,
        vec![Placement { id: 7, pos: Vec2::new(0, 0), size: Vec2::new(50, 30), overflows: true }]
    );
}

#[test]
fn empty_panels_have_no_minimum() {
    let v = Layout::VPanel(Alignment::Leading, vec![]).resolve().unwrap();
    assert_eq!(v.min_size(), Vec2::new(0, 0));
    let o = Layout::OverlapPanel(vec![]).resolve().unwrap();
    assert_eq!(o.min_size(), Vec2::new(0, 0));
    assert_eq!(v.calc_placements(Vec2::new(0, 0), Vec2::new(5, 5)), Some(vec![]));
}

#[test]
fn a_sum_beyond_i32_is_refused() {
    let layout = Layout::VPanel(
        Alignment::Leading,
        vec![(leaf(1, 1, i32::MAX), 1), (leaf(2, 1, 1), 1)],
    );
    assert!(layout.resolve().is_none());
}

#[test]
fn an_offset_beyond_i32_is_refused() {
    let resolved = Layout::VPanel(Alignment::Leading, vec![(leaf(1, 1, 10), 1)])
        .resolve()
        .unwrap();
    assert!(resolved
        .calc_placements(Vec2::new(0, i32::MAX - 5), Vec2::new(1, 10))
        .is_none());
    let mut poses: HashMap<u64, Vec2> = HashMap::new();
    let mut sizes: HashMap<u64, Vec2> = HashMap::new();
    poses.insert(9, Vec2::new(1, 1));
    assert!(!resolved.calc_pos_size(
        Vec2::new(0, i32::MAX - 5),
        Vec2::new(1, 10),
        &mut poses,
        &mut sizes
    ));
    assert_eq!(poses.len(), 1);
    assert!(sizes.is_empty());
}

#[test]
fn the_maps_hold_every_widget() {
    let layout = Layout::VPanel(
        Alignment::Trailing,
        vec![(leaf(1, 50, 20), 1), (leaf(2, 80, 30), 3)],
    );
    let resolved = layout.resolve().unwrap();
    let mut poses: HashMap<u64, Vec2> = HashMap::new();
    let mut sizes: HashMap<u64, Vec2> = HashMap::new();
    assert!(resolved.calc_pos_size(Vec2::new(5, 7), Vec2::new(100, 90), &mut poses, &mut sizes));
    assert_eq!(poses.get(&1), Some(&Vec2::new(5, 7)));
    assert_eq!(sizes.get(&1), Some(&Vec2::new(100, 30)));
    assert_eq!(poses.get(&2), Some(&Vec2::new(5, 37)));
    assert_eq!(sizes.get(&2), Some(&Vec2::new(100, 60)));
}

#[test]
fn centring_rounds_down() {
    assert_eq!(align_offset(Alignment::Leading, 9), 0);
    assert_eq!(align_offset(Alignment::Center, 9), 4);
    assert_eq!(align_offset(Alignment::Center, -3), -2);
    assert_eq!(align_offset(Alignment::Trailing, 9), 9);
}

#[test]
fn weights_one_and_three_in_a_panel() {
    let layout = Layout::VPanel(
        Alignment::Leading,
        vec![(leaf(1, 10, 20), 1), (leaf(2, 10, 20), 3)],
    );
    let places = layout
        .resolve()
        .unwrap()
        .calc_placements(Vec2::new(0, 0), Vec2::new(10, 80))
        .unwrap();
    assert_eq!(places[0].size, Vec2::new(10, 30));
    assert_eq!(places[1].size, Vec2::new(10, 50));
    assert_eq!(places[1].pos, Vec2::new(0, 30));
}

#[test]
fn a_horizontal_panel_sums_widths() {
    for alignment in [Alignment::Leading, Alignment::Center, Alignment::Trailing] {
        let layout = Layout::HPanel(alignment, vec![(leaf(1, 50, 20), 2), (leaf(2, 80, 30), 5)]);
        let resolved = layout.resolve().unwrap();
        assert_eq!(resolved.min_size(), Vec2::new(130, 30));
        let places = resolved
            .calc_placements(Vec2::new(0, 0), Vec2::new(200, 100))
            .unwrap();
        assert_eq!(places[0].pos, Vec2::new(0, 0));
        assert_eq!(places[0].size, Vec2::new(70, 100));
        assert_eq!(places[1].pos, Vec2::new(70, 0));
        assert_eq!(places[1].size, Vec2::new(130, 100));
    }
}

#[test]
fn the_alignment_does_not_change_the_minimum() {
    for alignment in [Alignment::Leading, Alignment::Center, Alignment::Trailing] {
        let layout = Layout::VPanel(alignment, vec![(leaf(1, 50, 20), 1), (leaf(2, 80, 30), 1)]);
        assert_eq!(layout.resolve().unwrap().min_size(), Vec2::new(80, 50));
    }
}

#[test]
fn too_little_room_takes_from_every_child() {
    let layout = Layout::VPanel(
        Alignment::Leading,
        vec![(leaf(1, 10, 20), 1), (leaf(2, 10, 20), 1)],
    );
    let places = layout
        .resolve()
        .unwrap()
        .calc_placements(Vec2::new(0, 0), Vec2::new(10, 35))
        .unwrap();
    assert_eq!(
        places,
        vec![
            Placement { id: 1, pos: Vec2::new(0, 0), size: Vec2::new(10, 20), overflows: true },
            Placement { id: 2, pos: Vec2::new(0, 17), size: Vec2::new(10, 20), overflows: true },
        ]
    );
}

#[test]
fn the_same_layout_gives_the_same_places() {
    let build = || {
        Layout::HPanel(
            Alignment::Center,
            vec![
                (
                    Layout::VPanel(
                        Alignment::Trailing,
                        vec![(leaf(1, 13, 7), 2), (leaf(2, 5, 9), 3)],
                    ),
                    1,
                ),
                (Layout::OverlapPanel(vec![leaf(3, 20, 20), leaf(4, 1, 30)]), 2),
            ],
        )
    };
    let first = build()
        .resolve()
        .unwrap()
        .calc_placements(Vec2::new(3, 4), Vec2::new(101, 77))
        .unwrap();
    let second = build()
        .resolve()
        .unwrap()
        .calc_placements(Vec2::new(3, 4), Vec2::new(101, 77))
        .unwrap();
    assert_eq!(first, second);
    assert_eq!(first.len(), 4);
    let mut poses_a: HashMap<u64, Vec2> = HashMap::new();
    let mut sizes_a: HashMap<u64, Vec2> = HashMap::new();
    let mut poses_b: HashMap<u64, Vec2> = HashMap::new();
    let mut sizes_b: HashMap<u64, Vec2> = HashMap::new();
    let resolved = build().resolve().unwrap();
    assert!(resolved.calc_pos_size(Vec2::new(3, 4), Vec2::new(101, 77), &mut poses_a, &mut sizes_a));
    assert!(resolved.calc_pos_size(Vec2::new(3, 4), Vec2::new(101, 77), &mut poses_b, &mut sizes_b));
    assert_eq!(poses_a, poses_b);
    assert_eq!(sizes_a, sizes_b);
}

#[test]
fn widgets_are_collected_in_the_order_of_the_tree() {
    let layout = Layout::VPanel(
        Alignment::Leading,
        vec![
            (leaf(5, 1, 1), 0),
            (Layout::OverlapPanel(vec![leaf(9, 1, 1), leaf(2, 1, 1)]), 0),
            (Layout::HPanel(Alignment::Leading, vec![(leaf(7, 1, 1), 0)]), 0),
        ],
    );
    let mut widgets = vec![100];
    layout.resolve().unwrap().collect_widgets(&mut widgets);
    assert_eq!(widgets, vec![100, 5, 9, 2, 7]);
}
