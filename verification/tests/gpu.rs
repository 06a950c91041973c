use gui_toolkit::gpu::{attribute_offsets, MinFilter};

#[test]
fn which_filters_need_mipmaps() {
    assert!(!MinFilter::MinNearest.has_mipmap());
    assert!(!MinFilter::MinLinear.has_mipmap());
    assert!(MinFilter::MinNearestMipmapNearest.has_mipmap());
    assert!(MinFilter::MinNearestMipmapLinear.has_mipmap());
    assert!(MinFilter::MinLinearMipmapNearest.has_mipmap());
    assert!(MinFilter::MinLinearMipmapLinear.has_mipmap());
}

#[test]
fn attributes_follow_each_other() {
    assert_eq!(attribute_offsets(&vec![]), Some((vec![], 0)));
    assert_eq!(attribute_offsets(&vec![2, 2, 4]), Some((vec![0, 2, 4], 8)));
    assert_eq!(attribute_offsets(&vec![i32::MAX, 1]), None);
}
