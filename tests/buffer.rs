use wl_decor::buffer::{buffer_len, BufferError, PixelBuffer, Pixels};

#[test]
fn buffer_len_is_four_bytes_a_pixel() {
    assert_eq!(buffer_len(400, 300), Ok(480_000));
    assert_eq!(buffer_len(1, 1), Ok(4));
    assert_eq!(buffer_len(0, 10), Err(BufferError::EmptySize));
    assert_eq!(buffer_len(10, -1), Err(BufferError::EmptySize));
    assert_eq!(buffer_len(40_000, 40_000), Err(BufferError::TooLarge));
    assert_eq!(buffer_len(i32::MAX, i32::MAX), Err(BufferError::TooLarge));
}

#[test]
fn buffer_len_at_the_limit() {
    assert_eq!(buffer_len(0x1fff_ffff, 1), Ok(0x7fff_fffc));
    assert_eq!(buffer_len(0x2000_0000, 1), Err(BufferError::TooLarge));
}

#[test]
fn filled_buffer_has_exact_size() {
    let b = PixelBuffer::filled(40, 30, 0xff).unwrap();
    assert_eq!(b.width, 40);
    assert_eq!(b.height, 30);
    assert_eq!(b.data.len(), 40 * 30 * 4);
    assert!(b.data.iter().all(|&x| x == 0xff));
    assert_eq!(PixelBuffer::filled(0, 30, 0xff).err(), Some(BufferError::EmptySize));
}

#[test]
fn gradient_buffer_pixels() {
    let b = PixelBuffer::gradient(2, 2).unwrap();
    assert_eq!(b.data, vec![255, 0, 0, 0, 128, 63, 127, 0, 255, 127, 0, 0, 128, 191, 127, 0]);
}

#[test]
fn gradient_buffer_has_exact_size() {
    let b = PixelBuffer::gradient(320, 320).unwrap();
    assert_eq!(b.data.len(), 320 * 320 * 4);
    let last = 320 * 320 - 1;
    assert_eq!(&b.data[4 * last..4 * last + 4], &[1, 254, 254, 0]);
    assert_eq!(PixelBuffer::gradient(5, 0).err(), Some(BufferError::EmptySize));
    assert_eq!(PixelBuffer::gradient(50_000, 50_000).err(), Some(BufferError::TooLarge));
}

#[test]
fn pixels_height_follows_length() {
    let p = Pixels { buf: vec![0; 4 * 3 * 5], width: 3 };
    assert_eq!(p.height(), 5);
    let q = Pixels { buf: vec![0; 4 * 3 * 5 + 7], width: 3 };
    assert_eq!(q.height(), 5);
}
