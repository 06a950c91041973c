use gui_toolkit::event::{Action, Event, Key, Modifiers, MouseButton};
use gui_toolkit::geometry::{Rect, Vec2};
use gui_toolkit::widgets::{
    BorderWidget, ButtonWidget, EmptyWidget, FocusTestWidget, ImageResizeMode, ImageWidget,
    LabelWidget,
};
use gui_toolkit::window::{GUIWindow, GUIWindowMode};

fn click(button: MouseButton, action: Action) -> Event {
    Event::MouseButton(button, action, Modifiers { bits: 0 }, Vec2::new(1, 1))
}

#[test]
fn a_button_remembers_a_left_press_until_it_is_drawn() {
    let mut button = ButtonWidget::new(3, "OK");
    assert_eq!(button.id(), 3);
    assert_eq!(button.text(), "OK");
    assert!(!button.was_pressed());
    button.handle_event(&click(MouseButton::Left, Action::Press));
    assert!(button.was_pressed());
    button.handle_event(&Event::Char('x'));
    assert!(button.was_pressed());
    button.draw();
    assert!(!button.was_pressed());
    button.draw();
    assert!(!button.was_pressed());
}

#[test]
fn a_button_ignores_other_events() {
    let mut button = ButtonWidget::new(3, "OK");
    button.handle_event(&click(MouseButton::Right, Action::Press));
    button.handle_event(&click(MouseButton::Left, Action::Release));
    button.handle_event(&Event::MouseMove(Vec2::new(1, 1), vec![MouseButton::Left]));
    button.handle_event(&Event::Key(Key { code: 32 }, 0, Action::Press, Modifiers { bits: 0 }));
    button.handle_event(&Event::Unknown);
    assert!(!button.was_pressed());
    button.set_text("Cancel");
    assert_eq!(button.text(), "Cancel");
    assert_eq!(button.id(), 3);
}

#[test]
fn a_label_keeps_its_text() {
    let mut label = LabelWidget::new(8, "name");
    assert_eq!(label.id(), 8);
    assert_eq!(label.text(), "name");
    label.set_text("");
    assert_eq!(label.text(), "");
}

#[test]
fn an_empty_widget_only_takes_room() {
    let widget = EmptyWidget::new(2, Vec2::new(30, 40));
    assert_eq!(widget.id(), 2);
    assert_eq!(widget.min_size(), Vec2::new(30, 40));
}

#[test]
fn a_border_adds_its_width_on_every_side() {
    let border = BorderWidget::new(EmptyWidget::new(1, Vec2::new(10, 20)), 3);
    assert_eq!(border.min_size(border.inner.min_size()), Some(Vec2::new(16, 26)));
    assert_eq!(
        border.inner_area(Vec2::new(5, 5), Vec2::new(40, 50)),
        Some((Vec2::new(8, 8), Vec2::new(34, 44)))
    );
    assert_eq!(border.min_size(Vec2::new(i32::MAX - 5, 0)), None);
    assert_eq!(border.inner_area(Vec2::new(i32::MAX, 0), Vec2::new(10, 10)), None);
}

#[test]
fn a_click_gives_the_focus() {
    let mut window = GUIWindow::new(0, GUIWindowMode::Fullscreen, Vec2::new(800, 600));
    let widget = FocusTestWidget::new(6);
    assert_eq!(widget.min_size(), Vec2::new(100, 100));
    assert!(!widget.is_focused(&window));
    widget.handle_event(&Event::Char('a'), &mut window);
    assert_eq!(window.focused, None);
    widget.handle_event(&click(MouseButton::Left, Action::Press), &mut window);
    assert_eq!(window.focused, Some(6));
    assert!(widget.is_focused(&window));
    let other = FocusTestWidget::new(7);
    assert!(!other.is_focused(&window));
}

#[test]
fn only_an_image_of_its_own_size_has_a_minimum() {
    let mut image = ImageWidget::new(1, Vec2::new(64, 32), ImageResizeMode::NativeSize);
    assert_eq!(image.min_size(), Vec2::new(64, 32));
    image.set_image(Vec2::new(10, 12));
    assert_eq!(image.min_size(), Vec2::new(10, 12));
    image.resize_mode = ImageResizeMode::FillContainer;
    assert_eq!(image.min_size(), Vec2::new(0, 0));
    image.resize_mode = ImageResizeMode::KeepAspect { resize_smaller: true };
    assert_eq!(image.min_size(), Vec2::new(0, 0));
}

#[test]
fn where_an_image_is_drawn() {
    assert_eq!(
        ImageWidget::fill_rect(Vec2::new(10, 20), Vec2::new(30, 40)),
        Some(Rect { start: Vec2::new(10, 20), end: Vec2::new(40, 60) })
    );
    assert_eq!(ImageWidget::fill_rect(Vec2::new(i32::MAX, 0), Vec2::new(1, 1)), None);
    let image = ImageWidget::new(1, Vec2::new(10, 10), ImageResizeMode::NativeSize);
    assert_eq!(
        image.native_rect(Vec2::new(100, 100), Vec2::new(31, 20)),
        Some(Rect { start: Vec2::new(110, 105), end: Vec2::new(120, 115) })
    );
    assert_eq!(
        image.native_rect(Vec2::new(100, 100), Vec2::new(7, 10)),
        Some(Rect { start: Vec2::new(99, 100), end: Vec2::new(109, 110) })
    );
    assert_eq!(image.native_rect(Vec2::new(i32::MAX - 3, 0), Vec2::new(10, 10)), None);
}
