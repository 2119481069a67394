use painters::{DecodeError, PixelBuffer};

fn png_bytes(width: u32, height: u32, color: [u8; 4]) -> Vec<u8> {
    let img = image::RgbaImage::from_pixel(width, height, image::Rgba(color));
    let mut bytes: Vec<u8> = Vec::new();
    img.write_to(&mut std::io::Cursor::new(&mut bytes), image::ImageOutputFormat::Png)
        .unwrap();
    bytes
}

#[test]
fn filled_buffer_repeats_the_color() {
    let b = PixelBuffer::filled(3, 2, [1, 2, 3, 4]);
    assert_eq!(b.width(), 3);
    assert_eq!(b.height(), 2);
    assert_eq!(b.rgba().len(), 24);
    for px in b.rgba().chunks(4) {
        assert_eq!(px, &[1, 2, 3, 4]);
    }
}

#[test]
fn filled_buffer_of_zero_size_is_empty() {
    let b = PixelBuffer::filled(0, 5, [9, 9, 9, 9]);
    assert_eq!(b.width(), 0);
    assert_eq!(b.height(), 5);
    assert!(b.rgba().is_empty());
}

#[test]
fn from_rgba_accepts_four_bytes_per_pixel() {
    let b = PixelBuffer::from_rgba(2, 1, vec![1, 2, 3, 4, 5, 6, 7, 8]).unwrap();
    assert_eq!(b.width(), 2);
    assert_eq!(b.height(), 1);
    assert_eq!(b.rgba(), &vec![1, 2, 3, 4, 5, 6, 7, 8]);
}

#[test]
fn from_rgba_refuses_a_wrong_length() {
    assert!(PixelBuffer::from_rgba(2, 1, vec![1, 2, 3, 4, 5, 6, 7]).is_none());
    assert!(PixelBuffer::from_rgba(2, 1, vec![0; 12]).is_none());
    assert!(PixelBuffer::from_rgba(u32::MAX, u32::MAX, vec![]).is_none());
}

#[test]
fn decode_red_png() {
    let bytes = png_bytes(10, 10, [255, 0, 0, 255]);
    let b = PixelBuffer::decode(&bytes).unwrap();
    assert_eq!(b.width(), 10);
    assert_eq!(b.height(), 10);
    assert_eq!(b.rgba().len(), 10 * 10 * 4);
    for px in b.rgba().chunks(4) {
        assert_eq!(px, &[255, 0, 0, 255]);
    }
}

#[test]
fn decode_keeps_source_dimensions() {
    let bytes = png_bytes(7, 3, [10, 20, 30, 40]);
    let b = PixelBuffer::decode(&bytes).unwrap();
    assert_eq!(b.width(), 7);
    assert_eq!(b.height(), 3);
    assert_eq!(b.rgba().len(), 7 * 3 * 4);
    assert_eq!(&b.rgba()[0..4], &[10, 20, 30, 40]);
}

#[test]
fn decode_converts_rgb_to_opaque_rgba() {
    let img = image::RgbImage::from_pixel(2, 2, image::Rgb([5, 6, 7]));
    let mut bytes: Vec<u8> = Vec::new();
    img.write_to(&mut std::io::Cursor::new(&mut bytes), image::ImageOutputFormat::Png)
        .unwrap();
    let b = PixelBuffer::decode(&bytes).unwrap();
    assert_eq!(b.rgba(), &vec![5, 6, 7, 255, 5, 6, 7, 255, 5, 6, 7, 255, 5, 6, 7, 255]);
}

#[test]
fn decode_refuses_non_image_bytes() {
    assert_eq!(
        PixelBuffer::decode(b"this is plain text, not an image").err(),
        Some(DecodeError::Unrecognized)
    );
    assert_eq!(PixelBuffer::decode(&[]).err(), Some(DecodeError::Unrecognized));
}

#[test]
fn decode_refuses_a_truncated_png() {
    let bytes = png_bytes(10, 10, [255, 0, 0, 255]);
    let cut = &bytes[..bytes.len() / 2];
    assert_eq!(PixelBuffer::decode(cut).err(), Some(DecodeError::Unrecognized));
}
