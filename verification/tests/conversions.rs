use tgar::header::{push_bytes, push_u16_le, HEADER_SIZE};
use tgar::pixel::BYTES_PER_PIXEL;
use tgar::{PixelBGRA, BGRA};

#[test]
fn default_pixel_is_all_zero() {
    let p = PixelBGRA::default();
    assert_eq!(p, PixelBGRA { b: 0, g: 0, r: 0, a: 0 });
}

#[test]
fn pixel_from_tuple_is_r_g_b_a() {
    let p = PixelBGRA::from((1u8, 2u8, 3u8, 4u8));
    assert_eq!(p.r, 1);
    assert_eq!(p.g, 2);
    assert_eq!(p.b, 3);
    assert_eq!(p.a, 4);
}

#[test]
fn tuple_from_pixel_is_r_g_b_a() {
    let t: (u8, u8, u8, u8) = PixelBGRA { b: 3, g: 2, r: 1, a: 4 }.into();
    assert_eq!(t, (1, 2, 3, 4));
}

#[test]
fn tuple_round_trip() {
    for t in [(0u8, 0u8, 0u8, 0u8), (255, 254, 253, 252), (1, 0, 0, 0), (0, 0, 0, 1)] {
        let back: (u8, u8, u8, u8) = PixelBGRA::from(t).into();
        assert_eq!(back, t);
    }
}

#[test]
fn pixel_is_four_bytes() {
    assert_eq!(BYTES_PER_PIXEL, 4);
}

#[test]
fn default_image_is_empty() {
    let image = BGRA::default();
    assert_eq!(image.as_ref().len(), 0);
    assert_eq!(image.into_data().len(), 0);
}

#[test]
fn image_from_bytes_keeps_them() {
    let bytes: Box<[u8]> = vec![5u8, 4, 3, 2, 1].into_boxed_slice();
    let image = BGRA::from(bytes.clone());
    assert_eq!(image.as_ref(), &[5, 4, 3, 2, 1]);
    assert_eq!(image.into_data(), bytes);
}

#[test]
fn bytes_from_image() {
    let image = BGRA::new(1, 1, &[PixelBGRA { b: 9, g: 8, r: 7, a: 6 }]);
    let expected = image.clone().into_data();
    let bytes: Box<[u8]> = image.into();
    assert_eq!(bytes, expected);
    assert_eq!(&bytes[HEADER_SIZE..], &[9, 8, 7, 6]);
}

#[test]
fn bytes_can_be_overwritten_in_place() {
    let mut image = BGRA::new(1, 1, &[PixelBGRA { b: 9, g: 8, r: 7, a: 6 }]);
    image.as_mut()[HEADER_SIZE + 3] = 255;
    assert_eq!(image.as_ref().len(), HEADER_SIZE + 4);
    assert_eq!(&image.as_ref()[HEADER_SIZE..], &[9, 8, 7, 255]);
    assert_eq!(image, BGRA::new(1, 1, &[PixelBGRA { b: 9, g: 8, r: 7, a: 255 }]));
}

#[test]
fn clone_has_the_same_bytes() {
    let image = BGRA::new(2, 1, &[PixelBGRA::default(), PixelBGRA { b: 1, g: 1, r: 1, a: 1 }]);
    let copy = image.clone();
    assert_eq!(copy, image);
    assert_eq!(copy.into_data(), image.into_data());
}

#[test]
fn images_differ_when_bytes_differ() {
    let one = BGRA::new(1, 1, &[PixelBGRA { b: 1, g: 0, r: 0, a: 0 }]);
    let other = BGRA::new(1, 1, &[PixelBGRA { b: 2, g: 0, r: 0, a: 0 }]);
    assert_ne!(one, other);
    assert_ne!(BGRA::new(0, 1, &[]), BGRA::new(1, 0, &[]));
}

#[test]
fn u16_is_pushed_low_byte_first() {
    let mut buf: Vec<u8> = vec![7];
    push_u16_le(&mut buf, 0x1234);
    push_u16_le(&mut buf, 0);
    push_u16_le(&mut buf, 0xffff);
    push_u16_le(&mut buf, 256);
    assert_eq!(buf, vec![7, 0x34, 0x12, 0, 0, 0xff, 0xff, 0, 1]);
}

#[test]
fn bytes_are_pushed_in_order() {
    let mut buf: Vec<u8> = vec![1, 2];
    push_bytes(&mut buf, &[3, 4, 5]);
    push_bytes(&mut buf, &[]);
    assert_eq!(buf, vec![1, 2, 3, 4, 5]);
}
