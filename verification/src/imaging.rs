//! The size of a decoded image.

use vstd::prelude::*;
use crate::geometry::Vec2;

verus! {

/// A decoded image of the `image` crate. Nothing is known of what it holds.
#[verifier::external_type_specification]
#[verifier::external_body]
pub struct ExDynamicImage(image::DynamicImage);

/// The width of a decoded image in pixels.
pub uninterp spec fn image_width(image: &image::DynamicImage) -> u32;

/// The height of a decoded image in pixels.
pub uninterp spec fn image_height(image: &image::DynamicImage) -> u32;

/// `image::DynamicImage::width`: the width that the image's pixel buffer was
/// made with. The contract gives that number its name and claims no more.
pub assume_specification[ image::DynamicImage::width ](image: &image::DynamicImage) -> (width:
    u32)
    ensures
        width == image_width(image),
;

/// `image::DynamicImage::height`: the height that the image's pixel buffer
/// was made with. The contract gives that number its name and claims no
/// more.
pub assume_specification[ image::DynamicImage::height ](image: &image::DynamicImage) -> (height:
    u32)
    ensures
        height == image_height(image),
;

/// The extent of an image of `width` by `height` pixels, where both are
/// values of `i32`.
pub open spec fn spec_size_from_dimensions(width: u32, height: u32) -> Option<Vec2> {
    if width <= i32::MAX && height <= i32::MAX {
        Some(Vec2 { x: width as i32, y: height as i32 })
    } else {
        None
    }
}

/// The extent of an image of `width` by `height` pixels; `None` where one of
/// the two is too large for `i32`.
#[verifier::when_used_as_spec(spec_size_from_dimensions)]
pub fn size_from_dimensions(width: u32, height: u32) -> (size: Option<Vec2>)
    ensures
        size == spec_size_from_dimensions(width, height),
        size.is_some() <==> width <= i32::MAX && height <= i32::MAX,
        size.is_some() ==> size.unwrap().x == width,
        size.is_some() ==> size.unwrap().y == height,
{
    if width > 0x7FFF_FFFF || height > 0x7FFF_FFFF {
        None
    } else {
        Some(Vec2 { x: width as i32, y: height as i32 })
    }
}

/// The extent of a decoded image: its width and its height in pixels.
/// `None` where one of the two is too large for `i32`.
pub fn image_size(image: &image::DynamicImage) -> (size: Option<Vec2>)
    ensures
        size == spec_size_from_dimensions(image_width(image), image_height(image)),
        size.is_some() <==> image_width(image) <= i32::MAX && image_height(image) <= i32::MAX,
        size.is_some() ==> size.unwrap().x == image_width(image),
        size.is_some() ==> size.unwrap().y == image_height(image),
{
    size_from_dimensions(image.width(), image.height())
}

} // verus!
