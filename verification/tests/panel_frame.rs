use hmi::graphics::{BinaryColor, Point};
use hmi::st7305::{FrameBuffer, FRAME_BYTES};

#[test]
fn framebuffer_is_exact_panel_size_and_white_by_default() {
    let frame = FrameBuffer::new();
    assert_eq!(frame.bytes().len(), 15_000);
    assert!(frame.bytes().iter().all(|byte| *byte == 0xff));
}

#[test]
fn portrait_packing_matches_native_panel_mapping() {
    let mut frame = FrameBuffer::new();
    frame.set_pixel(Point::new(0, 0), BinaryColor::Off);
    assert_eq!(frame.bytes()[0], 0x7f);
    frame.set_pixel(Point::new(1, 0), BinaryColor::Off);
    assert_eq!(frame.bytes()[0], 0x5f);
    frame.set_pixel(Point::new(0, 1), BinaryColor::Off);
    assert_eq!(frame.bytes()[0], 0x1f);
    frame.set_pixel(Point::new(299, 399), BinaryColor::Off);
    assert_eq!(frame.bytes()[FRAME_BYTES - 1], 0xfe);
}

#[test]
fn out_of_bounds_pixels_are_ignored() {
    let mut frame = FrameBuffer::new();
    frame.set_pixel(Point::new(-1, 0), BinaryColor::Off);
    frame.set_pixel(Point::new(300, 0), BinaryColor::Off);
    assert!(frame.bytes().iter().all(|byte| *byte == 0xff));
}
