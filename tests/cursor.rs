use anchor::cursor::{CursorImage, CursorImageStatus, CursorRender, PointerElement};

// An Xcursor file with a single 4x4 image of nominal size 4, delay 1.
const FILE_CONTENTS: [u8; 128] = [
    0x58, 0x63, 0x75, 0x72, 0x10, 0x00, 0x00, 0x00, 0x00, 0x00, 0x01, 0x00, 0x01, 0x00, 0x00,
    0x00, 0x02, 0x00, 0xFD, 0xFF, 0x04, 0x00, 0x00, 0x00, 0x1C, 0x00, 0x00, 0x00, 0x24, 0x00,
    0x00, 0x00, 0x02, 0x00, 0xFD, 0xFF, 0x04, 0x00, 0x00, 0x00, 0x01, 0x00, 0x00, 0x00, 0x04,
    0x00, 0x00, 0x00, 0x04, 0x00, 0x00, 0x00, 0x01, 0x00, 0x00, 0x00, 0x01, 0x00, 0x00, 0x00,
    0x01, 0x00, 0x00, 0x00, 0x00, 0x00, 0x00, 0x80, 0x00, 0x00, 0x00, 0x80, 0x00, 0x00, 0x00,
    0x80, 0x00, 0x00, 0x00, 0x80, 0x00, 0x00, 0x00, 0x80, 0x00, 0x00, 0x00, 0x80, 0x00, 0x00,
    0x00, 0x80, 0x00, 0x00, 0x00, 0x80, 0x00, 0x00, 0x00, 0x80, 0x00, 0x00, 0x00, 0x80, 0x00,
    0x00, 0x00, 0x80, 0x00, 0x00, 0x00, 0x80, 0x00, 0x00, 0x00, 0x80, 0x00, 0x00, 0x00, 0x80,
    0x00, 0x00, 0x00, 0x80, 0x00, 0x00, 0x00, 0x80,
];

fn image(size: u32, delay: u32, fill: u8) -> CursorImage {
    CursorImage { width: size, height: size, delay, pixels_rgba: vec![fill; (4 * size * size) as usize] }
}

#[test]
fn parses_an_xcursor_file() {
    let p = PointerElement::new(&FILE_CONTENTS, 4);
    assert_eq!(p.frames.len(), 1);
    assert_eq!(p.frames[0].end_delay, 1);
    assert_eq!(p.frames[0].width, 4);
    assert_eq!(p.frames[0].height, 4);
    let expected: Vec<u8> = [0u8, 0, 0, 0x80].repeat(16);
    assert_eq!(p.frames[0].pixels_rgba, expected);
    assert_eq!(p.total_delay, 1);
    assert_eq!(p.current_delay, 0);
    assert!(matches!(&p.status, CursorImageStatus::Named(n) if n == "default"));
}

#[test]
fn other_sizes_are_left_out() {
    let p = PointerElement::try_new(&FILE_CONTENTS, 24).unwrap();
    assert!(p.frames.is_empty());
    assert_eq!(p.total_delay, 0);
}

#[test]
fn malformed_file_is_rejected() {
    assert!(PointerElement::try_new(&FILE_CONTENTS[..40], 4).is_none());
    assert!(PointerElement::try_new(&[], 4).is_none());
    assert_eq!(PointerElement::try_new(&FILE_CONTENTS, 4).unwrap().total_delay, 1);
}

#[test]
fn delays_accumulate_over_matching_images() {
    let images = vec![image(2, 10, 1), image(3, 99, 2), image(2, 20, 3), image(2, 5, 4)];
    let p = PointerElement::from_images(images, 2).unwrap();
    let ends: Vec<u64> = p.frames.iter().map(|f| f.end_delay).collect();
    assert_eq!(ends, vec![10, 30, 35]);
    assert_eq!(p.total_delay, 35);
    assert_eq!(p.frames[1].pixels_rgba[0], 3);
}

#[test]
fn long_delays_still_fit() {
    let mut images = Vec::new();
    for _ in 0..3 {
        images.push(image(1, u32::MAX, 0));
    }
    assert!(PointerElement::from_images(images, 1).is_some());
}

#[test]
fn current_frame_follows_the_delay() {
    let images = vec![image(2, 10, 1), image(2, 20, 3), image(2, 5, 4)];
    let mut p = PointerElement::from_images(images, 2).unwrap();
    assert_eq!(p.render_elements(), CursorRender::Frame(0));
    p.set_current_delay(20);
    assert_eq!(p.current_delay, 15);
    assert_eq!(p.render_elements(), CursorRender::Frame(1));
    p.set_current_delay(1000);
    assert_eq!(p.current_delay, 35);
    assert_eq!(p.render_elements(), CursorRender::Nothing);
    p.set_status(CursorImageStatus::Hidden);
    assert_eq!(p.render_elements(), CursorRender::Nothing);
    p.set_status(CursorImageStatus::Surface(7));
    assert_eq!(p.render_elements(), CursorRender::Surface(7));
}

#[test]
fn images_ending_together_keep_the_last() {
    let images = vec![image(2, 0, 1), image(2, 0, 2), image(2, 10, 3), image(2, 0, 4), image(2, 5, 5)];
    let p = PointerElement::from_images(images, 2).unwrap();
    let frames: Vec<(u64, u8)> = p.frames.iter().map(|f| (f.end_delay, f.pixels_rgba[0])).collect();
    assert_eq!(frames, vec![(0, 2), (10, 4), (15, 5)]);
    assert_eq!(p.total_delay, 15);
}
