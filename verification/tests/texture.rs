use image::{DynamicImage, GrayAlphaImage, GrayImage, ImageBuffer, RgbImage, RgbaImage};
use quad_renderer::{texture_extent, Texture, TextureError};

#[test]
fn extent_is_the_image_size() {
    assert_eq!(texture_extent(800, 600), Some((800, 600)));
    assert_eq!(texture_extent(1, 1), Some((1, 1)));
    assert_eq!(texture_extent(0, 0), Some((0, 0)));
    assert_eq!(texture_extent(0, 7), Some((0, 7)));
}

#[test]
fn extent_reaches_the_longest_side() {
    assert_eq!(texture_extent(65535, 1), Some((65535, 1)));
    assert_eq!(texture_extent(1, 65535), Some((1, 65535)));
}

#[test]
fn no_extent_for_a_side_too_long() {
    assert_eq!(texture_extent(65536, 1), None);
    assert_eq!(texture_extent(1, 65536), None);
    assert_eq!(texture_extent(65536, 0), None);
    assert_eq!(texture_extent(70000, 70000), None);
    assert_eq!(texture_extent(u32::MAX, u32::MAX), None);
}

#[test]
fn grey_image_becomes_opaque_rgba() {
    let grey = GrayImage::from_raw(2, 1, vec![7, 9]).unwrap();
    let texture = Texture::from_image(&DynamicImage::ImageLuma8(grey)).unwrap();
    assert_eq!(texture.width, 2);
    assert_eq!(texture.height, 1);
    assert_eq!(texture.pixels, vec![7, 7, 7, 255, 9, 9, 9, 255]);
}

#[test]
fn grey_image_with_alpha_keeps_its_alpha() {
    let grey = GrayAlphaImage::from_raw(1, 2, vec![7, 100, 9, 0]).unwrap();
    let texture = Texture::from_image(&DynamicImage::ImageLumaA8(grey)).unwrap();
    assert_eq!(
        texture,
        Texture { width: 1, height: 2, pixels: vec![7, 7, 7, 100, 9, 9, 9, 0] }
    );
}

#[test]
fn rgb_image_becomes_opaque_rgba() {
    let rgb = RgbImage::from_raw(1, 2, vec![1, 2, 3, 4, 5, 6]).unwrap();
    let texture = Texture::from_image(&DynamicImage::ImageRgb8(rgb)).unwrap();
    assert_eq!(
        texture,
        Texture { width: 1, height: 2, pixels: vec![1, 2, 3, 255, 4, 5, 6, 255] }
    );
}

#[test]
fn rgba_image_keeps_its_bytes() {
    let bytes = vec![1, 2, 3, 4, 5, 6, 7, 8, 9, 10, 11, 12, 13, 14, 15, 16];
    let rgba = RgbaImage::from_raw(2, 2, bytes.clone()).unwrap();
    let texture = Texture::from_image(&DynamicImage::ImageRgba8(rgba)).unwrap();
    assert_eq!(texture, Texture { width: 2, height: 2, pixels: bytes });
}

#[test]
fn sixteen_bit_image_keeps_the_high_bytes() {
    let deep = ImageBuffer::from_raw(1, 1, vec![0x1234u16, 0xabcd, 0x00ff]).unwrap();
    let texture = Texture::from_image(&DynamicImage::ImageRgb16(deep)).unwrap();
    assert_eq!(texture, Texture { width: 1, height: 1, pixels: vec![0x12, 0xab, 0x00, 255] });
}

#[test]
fn texture_holds_four_bytes_a_texel() {
    let texture = Texture::from_image(&DynamicImage::new_rgb8(37, 11)).unwrap();
    assert_eq!(texture.width, 37);
    assert_eq!(texture.height, 11);
    assert_eq!(texture.pixels.len(), 4 * 37 * 11);
}

#[test]
fn empty_image_becomes_an_empty_texture() {
    let texture = Texture::from_image(&DynamicImage::new_rgba8(0, 0)).unwrap();
    assert_eq!(texture, Texture { width: 0, height: 0, pixels: Vec::new() });
}

#[test]
fn widest_image_that_fits() {
    let texture = Texture::from_image(&DynamicImage::new_luma8(65535, 1)).unwrap();
    assert_eq!(texture.width, 65535);
    assert_eq!(texture.height, 1);
    assert_eq!(texture.pixels.len(), 4 * 65535);
}

#[test]
fn image_too_wide_gives_no_texture() {
    let outcome = Texture::from_image(&DynamicImage::new_luma8(65536, 1));
    assert!(matches!(outcome, Err(TextureError::TooLarge)));
}

#[test]
fn image_too_tall_gives_no_texture() {
    let outcome = Texture::from_image(&DynamicImage::new_luma8(1, 65536));
    assert!(matches!(outcome, Err(TextureError::TooLarge)));
}

#[test]
fn opened_image_goes_through() {
    let rgb = RgbImage::from_raw(1, 1, vec![10, 20, 30]).unwrap();
    let texture = Texture::from_opened(Ok(DynamicImage::ImageRgb8(rgb))).unwrap();
    assert_eq!(texture, Texture { width: 1, height: 1, pixels: vec![10, 20, 30, 255] });
}

#[test]
fn opened_image_too_large_gives_no_texture() {
    let outcome = Texture::from_opened(Ok(DynamicImage::new_luma8(65536, 1)));
    assert!(matches!(outcome, Err(TextureError::TooLarge)));
}

#[test]
fn missing_file_gives_no_texture() {
    let outcome = Texture::from_opened(image::open("assets/no-such-image.png"));
    assert!(matches!(outcome, Err(TextureError::Decode(_))));
}

#[test]
fn undecodable_bytes_give_no_texture() {
    let outcome = Texture::from_opened(image::load_from_memory(b"this is no image"));
    assert!(matches!(outcome, Err(TextureError::Decode(_))));
}

#[test]
fn decoded_file_becomes_a_texture() {
    let source = RgbaImage::from_raw(2, 1, vec![255, 0, 0, 255, 0, 0, 255, 128]).unwrap();
    let mut encoded = Vec::new();
    image::png::PngEncoder::new(&mut encoded)
        .encode(source.as_raw(), 2, 1, image::ColorType::Rgba8)
        .unwrap();
    let texture = Texture::from_opened(image::load_from_memory(&encoded)).unwrap();
    assert_eq!(
        texture,
        Texture { width: 2, height: 1, pixels: vec![255, 0, 0, 255, 0, 0, 255, 128] }
    );
}
