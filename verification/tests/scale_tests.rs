use gifterm::Frame;
use gifterm::Still;
use gifterm::ZOOM;

fn solid_frame(w: u16, h: u16) -> Frame {
    let pixels = vec![200u8; w as usize * h as usize * 4];
    Frame::new(w, h, pixels).unwrap()
}

#[test]
fn frame_new_accepts_exact_buffer() {
    let f = Frame::new(10, 10, vec![0u8; 400]).unwrap();
    assert_eq!(f.width, 10);
    assert_eq!(f.height, 10);
    assert_eq!(f.pixels.len(), 400);
}

#[test]
fn frame_new_rejects_short_buffer() {
    assert!(Frame::new(10, 10, vec![0u8; 399]).is_none());
}

#[test]
fn frame_new_rejects_long_buffer() {
    assert!(Frame::new(2, 2, vec![0u8; 17]).is_none());
}

#[test]
fn from_frame_keeps_dimensions_and_pixels() {
    let f = solid_frame(10, 10);
    let pixels = f.pixels.clone();
    let s = Still::from_frame(&f);
    assert_eq!(s.width, 10);
    assert_eq!(s.height, 10);
    let (img, w, h) = s.into_image();
    assert_eq!((w, h), (10, 10));
    assert_eq!(img.width(), 10);
    assert_eq!(img.height(), 10);
    assert_eq!(img.as_bytes(), &pixels[..]);
}

#[test]
fn prescale_doubles_both_dimensions() {
    let f = solid_frame(10, 10);
    let s = Still::from_frame(&f).prescale(ZOOM);
    assert_eq!(s.width, 20);
    assert_eq!(s.height, 20);
    let (img, w, h) = s.into_image();
    assert_eq!((w, h), (20, 20));
    assert_eq!(img.width(), 20);
    assert_eq!(img.height(), 20);
}

#[test]
fn prescale_exact_factor_three() {
    let f = solid_frame(7, 3);
    let s = Still::from_frame(&f).prescale(3);
    assert_eq!(s.width, 21);
    assert_eq!(s.height, 9);
    let (img, _, _) = s.into_image();
    assert_eq!((img.width(), img.height()), (21, 9));
}

#[test]
fn prescale_leaves_empty_image_alone() {
    let f = Frame::new(0, 5, Vec::new()).unwrap();
    let s = Still::from_frame(&f).prescale(ZOOM);
    assert_eq!(s.width, 0);
    assert_eq!(s.height, 5);
}
