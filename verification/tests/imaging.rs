use gui_toolkit::geometry::Vec2;
use gui_toolkit::imaging::{image_size, size_from_dimensions};

#[test]
fn the_size_of_a_decoded_image() {
    let image = image::DynamicImage::new_rgb8(64, 48);
    assert_eq!(image_size(&image), Some(Vec2::new(64, 48)));
    let empty = image::DynamicImage::new_luma8(0, 0);
    assert_eq!(image_size(&empty), Some(Vec2::new(0, 0)));
}

#[test]
fn dimensions_beyond_i32_have_no_size() {
    assert_eq!(size_from_dimensions(3, 4), Some(Vec2::new(3, 4)));
    assert_eq!(size_from_dimensions(0x7FFF_FFFF, 1), Some(Vec2::new(i32::MAX, 1)));
    assert_eq!(size_from_dimensions(0x8000_0000, 1), None);
    assert_eq!(size_from_dimensions(1, u32::MAX), None);
}
