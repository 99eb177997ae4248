use rustrdp::picture::{blank_image, frame};
use rustrdp::session::ToUi;

#[test]
fn blank_picture_has_four_zero_bytes_for_each_pixel() {
    match frame(&blank_image(3, 2)) {
        ToUi::Frame { width, height, rgba } => {
            assert_eq!((width, height), (3, 2));
            assert_eq!(rgba, vec![0; 24]);
        }
        other => panic!("{other:?}"),
    }
}

#[test]
fn picture_may_be_empty() {
    match frame(&blank_image(0, 7)) {
        ToUi::Frame { width, height, rgba } => {
            assert_eq!((width, height), (0, 7));
            assert!(rgba.is_empty());
        }
        other => panic!("{other:?}"),
    }
}
