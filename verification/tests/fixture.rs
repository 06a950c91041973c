use gui_toolkit::fixture::{FixtureEntry, FixtureWork, ImageFixture};
use gui_toolkit::geometry::{Rect, Vec2};

fn rect(x0: i32, y0: i32, x1: i32, y1: i32) -> Rect {
    Rect { start: Vec2::new(x0, y0), end: Vec2::new(x1, y1) }
}

#[test]
fn a_window_needs_everything_the_first_time() {
    let mut fixture = ImageFixture::new(rect(0, 0, 0, 0), rect(0, 0, 8, 8));
    assert_eq!(fixture.rect(), rect(0, 0, 0, 0));
    assert_eq!(fixture.source_rect(), rect(0, 0, 8, 8));
    assert_eq!(fixture.draw(4), FixtureWork { upload_texture: true, rebuild_mesh: true });
    assert_eq!(fixture.draw(4), FixtureWork { upload_texture: false, rebuild_mesh: false });
    assert_eq!(fixture.draw(5), FixtureWork { upload_texture: true, rebuild_mesh: true });
    assert_eq!(
        fixture.entries,
        vec![
            FixtureEntry { window: 4, has_texture: true, mesh_dirty: false },
            FixtureEntry { window: 5, has_texture: true, mesh_dirty: false },
        ]
    );
}

#[test]
fn moving_the_image_outdates_every_mesh() {
    let mut fixture = ImageFixture::new(rect(0, 0, 0, 0), rect(0, 0, 8, 8));
    fixture.draw(1);
    fixture.draw(2);
    fixture.set_rect(rect(0, 0, 0, 0));
    assert_eq!(fixture.draw(1), FixtureWork { upload_texture: false, rebuild_mesh: false });
    fixture.set_rect(rect(1, 1, 9, 9));
    assert_eq!(fixture.rect(), rect(1, 1, 9, 9));
    assert_eq!(fixture.draw(1), FixtureWork { upload_texture: false, rebuild_mesh: true });
    assert_eq!(fixture.draw(2), FixtureWork { upload_texture: false, rebuild_mesh: true });
    fixture.set_source_rect(rect(0, 0, 4, 4));
    assert_eq!(fixture.draw(2), FixtureWork { upload_texture: false, rebuild_mesh: true });
    fixture.set_source_rect(rect(0, 0, 4, 4));
    assert_eq!(fixture.draw(2), FixtureWork { upload_texture: false, rebuild_mesh: false });
}

#[test]
fn another_image_needs_another_texture() {
    let mut fixture = ImageFixture::new(rect(0, 0, 0, 0), rect(0, 0, 8, 8));
    fixture.draw(1);
    fixture.set_image();
    assert_eq!(fixture.draw(1), FixtureWork { upload_texture: true, rebuild_mesh: false });
}
