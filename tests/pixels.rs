use bgroot::pixel::encode_pixels;
use bgroot::{BackgroundHandle, Pixel};

#[test]
fn pixel_new_sets_channels() {
    let p = Pixel::new(1, 2, 3);
    assert_eq!(p, Pixel { r: 1, g: 2, b: 3 });
}

#[test]
fn pixel_default_is_black() {
    assert_eq!(Pixel::default(), Pixel::new(0, 0, 0));
}

#[test]
fn encode_pixels_keeps_channel_order() {
    let frame = vec![Pixel::new(10, 20, 30), Pixel::new(40, 50, 60)];
    assert_eq!(encode_pixels(&frame), vec![10, 20, 30, 40, 50, 60]);
}

#[test]
fn encode_pixels_of_empty_frame_is_empty() {
    assert!(encode_pixels(&Vec::new()).is_empty());
}

#[test]
fn new_handle_has_one_black_pixel_per_point() {
    let h = BackgroundHandle::new(5, 6, 7, 3, 2, 24);
    for y in 0..2 {
        for x in 0..3 {
            assert_eq!(h.pixel(x, y), Pixel::default());
        }
    }
    assert_eq!((h.width(), h.height(), h.depth()), (3, 2, 24));
    assert_eq!((h.context(), h.pixmap(), h.root()), (5, 6, 7));
}

#[test]
fn frame_length_is_width_times_height_times_three() {
    for (w, h) in [(0u16, 0u16), (1, 1), (3, 2), (640, 480), (1920, 1080)] {
        let handle = BackgroundHandle::new(1, 2, 3, w, h, 24);
        assert_eq!(handle.put_image().data.len(), w as usize * h as usize * 3);
    }
}

#[test]
fn put_image_uploads_written_pattern() {
    let mut h = BackgroundHandle::new(5, 6, 7, 2, 2, 24);
    h.set_pixel(1, 0, Pixel::new(1, 2, 3));
    h.set_pixel(0, 1, Pixel::new(4, 5, 6));
    h.set_pixel(1, 1, Pixel::new(255, 128, 7));
    let req = h.put_image();
    assert_eq!(req.drawable, 6);
    assert_eq!(req.gc, 5);
    assert_eq!((req.width, req.height, req.depth), (2, 2, 24));
    assert_eq!(req.data, vec![0, 0, 0, 1, 2, 3, 4, 5, 6, 255, 128, 7]);
}

#[test]
fn set_pixel_changes_only_its_point() {
    let mut h = BackgroundHandle::new(0, 0, 0, 4, 3, 24);
    h.set_pixel(2, 1, Pixel::new(9, 9, 9));
    assert_eq!(h.pixel(2, 1), Pixel::new(9, 9, 9));
    assert_eq!(h.pixel(1, 2), Pixel::default());
    assert_eq!(h.pixel(2, 0), Pixel::default());
}
