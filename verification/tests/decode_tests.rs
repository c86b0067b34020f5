use gifterm::DecodeError;
use gifterm::decode_gif;

/// Encodes an animation of `n` solid frames, `w` by `h` pixels, into GIF
/// container bytes.
fn make_gif(n: usize, w: u16, h: u16) -> Vec<u8> {
    let mut bytes: Vec<u8> = Vec::new();
    {
        let mut enc = gif::Encoder::new(&mut bytes, w, h, &[]).unwrap();
        for k in 0..n {
            let mut pixels: Vec<u8> = Vec::new();
            for _ in 0..(w as usize * h as usize) {
                pixels.push((40 * k) as u8);
                pixels.push(0);
                pixels.push(0);
                pixels.push(255);
            }
            let frame = gif::Frame::from_rgba(w, h, &mut pixels);
            enc.write_frame(&frame).unwrap();
        }
    }
    bytes
}

#[test]
fn decode_three_frames() {
    let bytes = make_gif(3, 10, 10);
    let frames = decode_gif(bytes).unwrap();
    assert_eq!(frames.len(), 3);
    for f in &frames {
        assert_eq!(f.width, 10);
        assert_eq!(f.height, 10);
        assert_eq!(f.pixels.len(), 400);
    }
}

#[test]
fn decode_single_frame() {
    let bytes = make_gif(1, 4, 7);
    let frames = decode_gif(bytes).unwrap();
    assert_eq!(frames.len(), 1);
    assert_eq!(frames[0].width, 4);
    assert_eq!(frames[0].height, 7);
    assert_eq!(frames[0].pixels.len(), 4 * 7 * 4);
}

#[test]
fn decode_empty_fails() {
    let r = decode_gif(Vec::new());
    assert_eq!(r.unwrap_err(), DecodeError::Container);
}

#[test]
fn decode_truncated_header_fails() {
    let bytes = make_gif(2, 10, 10);
    let r = decode_gif(bytes[..10].to_vec());
    assert_eq!(r.unwrap_err(), DecodeError::Container);
}

#[test]
fn decode_truncated_stream_fails() {
    let bytes = make_gif(2, 10, 10);
    let cut = bytes.len() / 2;
    let r = decode_gif(bytes[..cut].to_vec());
    assert!(r.is_err());
}

#[test]
fn decode_garbage_fails() {
    let r = decode_gif(vec![1, 2, 3, 4, 5, 6, 7, 8]);
    assert!(r.is_err());
}
