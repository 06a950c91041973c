use std::collections::HashMap;

use gui_toolkit::dispatch::{deliver, dispatch, Delivery};
use gui_toolkit::event::{Action, Event, Modifiers, MouseButton};
use gui_toolkit::geometry::{box_contains, Vec2};
use gui_toolkit::layout::{Alignment, Layout, Share};
use gui_toolkit::resolved::LayoutMinSize;
use gui_toolkit::widgets::ButtonWidget;
use gui_toolkit::window::{centered_pos, GUIWindow, GUIWindowMode};

fn press(x: i32, y: i32) -> Event {
    Event::MouseButton(MouseButton::Left, Action::Press, Modifiers { bits: 0 }, Vec2::new(x, y))
}

fn windowed(w: i32, h: i32) -> GUIWindowMode {
    GUIWindowMode::Windowed { title: "test".to_string(), min_size: Vec2::new(w, h) }
}

fn fixed(w: i32, h: i32) -> GUIWindowMode {
    GUIWindowMode::FixedWindowed { title: "test".to_string(), size: Vec2::new(w, h) }
}

fn two_rows() -> Layout {
    Layout::VPanel(
        Alignment::Leading,
        vec![
            (Layout::LWidget(1, Vec2::new(50, 20)), 1),
            (Layout::LWidget(2, Vec2::new(80, 30)), 1),
        ],
    )
}

#[test]
fn a_box_holds_its_first_corner_and_not_its_last() {
    let pos = Vec2::new(10, 20);
    let size = Vec2::new(5, 5);
    assert!(box_contains(pos, size, Vec2::new(10, 20)));
    assert!(box_contains(pos, size, Vec2::new(14, 24)));
    assert!(!box_contains(pos, size, Vec2::new(15, 24)));
    assert!(!box_contains(pos, size, Vec2::new(14, 25)));
    assert!(!box_contains(pos, size, Vec2::new(9, 20)));
    assert!(box_contains(Vec2::new(i32::MAX - 1, 0), Vec2::new(10, 1), Vec2::new(i32::MAX, 0)));
}

#[test]
fn which_modes_fix_the_size() {
    assert!(GUIWindowMode::Fullscreen.fixed_size());
    assert!(fixed(10, 10).fixed_size());
    assert!(!windowed(10, 10).fixed_size());
    assert!(windowed(10, 10).resizable());
    assert!(!fixed(10, 10).resizable());
    assert!(!GUIWindowMode::Fullscreen.resizable());
    assert_eq!(GUIWindowMode::Fullscreen.initial_size(), None);
    assert_eq!(windowed(10, 20).initial_size(), Some(Vec2::new(10, 20)));
    assert_eq!(fixed(30, 40).initial_size(), Some(Vec2::new(30, 40)));
}

#[test]
fn the_sizes_of_a_frame() {
    let layout_min = Vec2::new(80, 50);
    let current = Vec2::new(60, 200);
    let mode = windowed(70, 70);
    assert_eq!(mode.min_window_size(layout_min, current), Vec2::new(80, 70));
    assert_eq!(mode.real_size(layout_min, current), Vec2::new(80, 200));
    assert_eq!(mode.new_window_size(layout_min, current), Vec2::new(80, 200));
    let mode = fixed(300, 100);
    assert_eq!(mode.min_window_size(layout_min, current), Vec2::new(300, 100));
    assert_eq!(mode.real_size(layout_min, current), Vec2::new(300, 200));
    assert_eq!(mode.new_window_size(layout_min, current), current);
    let mode = GUIWindowMode::Fullscreen;
    assert_eq!(mode.min_window_size(layout_min, current), current);
    assert_eq!(mode.real_size(layout_min, current), current);
    assert_eq!(mode.new_window_size(layout_min, current), current);
}

#[test]
fn a_window_in_the_middle_of_the_screen() {
    assert_eq!(centered_pos(1920, 1080, 800, 600), Some(Vec2::new(560, 240)));
    assert_eq!(centered_pos(800, 600, 800, 600), Some(Vec2::new(0, 0)));
    assert_eq!(centered_pos(800, 600, 801, 600), None);
}

#[test]
fn a_frame_grows_a_resizable_window() {
    let mut window = GUIWindow::new(0, windowed(10, 10), Vec2::new(10, 10));
    let resolved = two_rows().into_layout_min_size().unwrap();
    let frame = window.begin_frame(resolved, Vec2::new(10, 10)).unwrap();
    assert_eq!(frame.real_size, Vec2::new(80, 50));
    assert_eq!(frame.new_window_size, Vec2::new(80, 50));
    assert!(frame.resize);
    assert_eq!(window.window_size, Vec2::new(80, 50));
    assert_eq!(frame.widget_poses.get(&2), Some(&Vec2::new(0, 20)));
    assert_eq!(frame.widget_sizes.get(&2), Some(&Vec2::new(80, 30)));
    assert_eq!(frame.places.len(), 2);
    assert!(window.widget_poses.is_empty());
}

#[test]
fn a_frame_leaves_a_fixed_window_alone() {
    let mut window = GUIWindow::new(0, fixed(100, 100), Vec2::new(100, 100));
    let resolved = two_rows().into_layout_min_size().unwrap();
    let frame = window.begin_frame(resolved, Vec2::new(100, 100)).unwrap();
    assert_eq!(frame.real_size, Vec2::new(100, 100));
    assert!(!frame.resize);
    assert_eq!(window.window_size, Vec2::new(100, 100));
    assert_eq!(frame.widget_poses.get(&1), Some(&Vec2::new(0, 0)));
    assert_eq!(frame.widget_sizes.get(&1), Some(&Vec2::new(100, 45)));
    assert_eq!(frame.widget_poses.get(&2), Some(&Vec2::new(0, 45)));
    assert_eq!(frame.widget_sizes.get(&2), Some(&Vec2::new(100, 55)));
}

#[test]
fn a_press_reaches_the_widget_under_it() {
    let mut window = GUIWindow::new(0, fixed(100, 100), Vec2::new(100, 100));
    let resolved = two_rows().into_layout_min_size().unwrap();
    let frame = window.begin_frame(resolved, Vec2::new(100, 100)).unwrap();
    let events = vec![press(30, 50), Event::Char('k'), press(30, 10), press(300, 10)];
    let deliveries = window.end_frame(frame, events.clone());
    assert_eq!(
        deliveries,
        vec![
            Delivery { widget: 2, event: press(30, 5) },
            Delivery { widget: 1, event: Event::Char('k') },
            Delivery { widget: 2, event: Event::Char('k') },
            Delivery { widget: 1, event: press(30, 10) },
        ]
    );
    assert_eq!(window.get_events(), events);
    assert_eq!(window.widget_poses.get(&2), Some(&Vec2::new(0, 45)));
    assert_eq!(window.get_widget_events(2), vec![press(30, 5)]);
    assert_eq!(window.get_widget_events(1), vec![press(30, 10)]);
    assert_eq!(window.get_widget_events(77), vec![]);
}

#[test]
fn a_button_press_round_trip() {
    let mut window = GUIWindow::new(0, fixed(100, 100), Vec2::new(100, 100));
    let mut button = ButtonWidget::new(2, "go");
    let layout = Layout::VPanel(
        Alignment::Leading,
        vec![
            (Layout::LWidget(1, Vec2::new(50, 20)), 1),
            (Layout::LWidget(button.id(), Vec2::new(80, 30)), 1),
        ],
    );
    let frame = window
        .begin_frame(layout.into_layout_min_size().unwrap(), Vec2::new(100, 100))
        .unwrap();
    for place in frame.places.iter() {
        if place.id == button.id() {
            button.draw();
        }
    }
    let deliveries = window.end_frame(frame, vec![press(99, 99)]);
    for delivery in deliveries.iter() {
        if delivery.widget == button.id() {
            button.handle_event(&delivery.event);
        }
    }
    assert!(button.was_pressed());
    button.draw();
    assert!(!button.was_pressed());
}

#[test]
fn a_widget_without_a_place_gets_no_pointer_events() {
    let poses: HashMap<u64, Vec2> = HashMap::new();
    let sizes: HashMap<u64, Vec2> = HashMap::new();
    assert_eq!(deliver(&press(0, 0), 1, &poses, &sizes), None);
    assert_eq!(deliver(&Event::Unknown, 1, &poses, &sizes), Some(Event::Unknown));
    assert_eq!(dispatch(&vec![press(0, 0)], &vec![1, 2], &poses, &sizes), vec![]);
}

#[test]
fn the_focus_goes_round() {
    let mut window = GUIWindow::new(0, GUIWindowMode::Fullscreen, Vec2::new(10, 10));
    window.focus_next();
    assert_eq!(window.focused, None);
    window.focusable = vec![4, 5, 6];
    window.focus_next();
    assert_eq!(window.focused, Some(4));
    window.focus_next();
    assert_eq!(window.focused, Some(5));
    window.focus_next();
    assert_eq!(window.focused, Some(6));
    window.focus_next();
    assert_eq!(window.focused, Some(4));
    window.focused = Some(9);
    window.focus_next();
    assert_eq!(window.focused, Some(9));
    window.focusable = vec![9];
    window.focus_next();
    assert_eq!(window.focused, Some(9));
}

#[test]
fn a_frame_that_does_not_fit_changes_nothing() {
    let mut window = GUIWindow::new(0, windowed(10, 10), Vec2::new(10, 10));
    let resolved = LayoutMinSize::VPanel_(
        Alignment::Leading,
        vec![(LayoutMinSize::LWidget_(1, Vec2::new(1, i32::MAX)), Share { num: 1, den: 1 })],
        Vec2::new(1, 0),
    );
    assert!(window.begin_frame(resolved, Vec2::new(50, 50)).is_none());
    assert_eq!(window.window_size, Vec2::new(10, 10));
    assert!(window.widget_poses.is_empty());
}
