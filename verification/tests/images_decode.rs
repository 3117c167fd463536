use image::ImageEncoder;
use nanabobo::images::{decode, image_from_pixels, premultiply};

fn png(width: u32, height: u32, pixels: &[u8]) -> Vec<u8> {
    let mut bytes = Vec::new();
    image::codecs::png::PngEncoder::new(&mut bytes)
        .write_image(pixels, width, height, image::ExtendedColorType::Rgba8)
        .unwrap();
    bytes
}

#[test]
fn decodes_premultiplied_pixels_and_rejects_oversized_dimensions() {
    let decoded = decode("test", &png(1, 1, &[200, 100, 50, 128])).unwrap();
    assert_eq!(decoded.rgba, vec![100, 50, 25, 128]);
    assert_eq!((decoded.width, decoded.height), (1, 1));
    let wide = png(4097, 1, &vec![0; 4097 * 4]);
    assert!(decode("test", &wide).is_none());
    assert!(decode("test", b"invalid").is_none());
}

#[test]
fn empty_downloads_are_not_decoded() {
    assert!(decode("test", &[]).is_none());
}

#[test]
fn premultiplying_keeps_alpha_and_trailing_bytes() {
    let mut px = vec![255, 255, 255, 0, 10, 20, 30, 255, 7];
    premultiply(&mut px);
    assert_eq!(px, vec![0, 0, 0, 0, 10, 20, 30, 255, 7]);
}

#[test]
fn decoded_images_carry_their_slot_and_size() {
    let decoded = decode("room-cover", &png(2, 1, &[0, 0, 0, 255, 255, 255, 255, 255])).unwrap();
    assert_eq!(decoded.slot, "room-cover");
    assert_eq!((decoded.width, decoded.height), (2, 1));
    assert_eq!(decoded.rgba, vec![0, 0, 0, 255, 255, 255, 255, 255]);
}

#[test]
fn images_from_pixels_are_premultiplied_for_their_slot() {
    let image = image_from_pixels("account-avatar", 1, 1, vec![200, 100, 50, 128]);
    assert_eq!(image.slot, "account-avatar");
    assert_eq!((image.width, image.height), (1, 1));
    assert_eq!(image.rgba, vec![100, 50, 25, 128]);
}
