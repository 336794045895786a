use starry_engine::texture::{StarryTexture, TextureError};

fn encode_rgba(width: u32, height: u32, pixels: &[u8]) -> Vec<u8> {
    let mut out = Vec::new();
    {
        let mut enc = png::Encoder::new(&mut out, width, height);
        enc.set_color(png::ColorType::Rgba);
        enc.set_depth(png::BitDepth::Eight);
        let mut w = enc.write_header().unwrap();
        w.write_image_data(pixels).unwrap();
    }
    out
}

#[test]
fn byte_count_is_four_per_pixel() {
    assert_eq!(StarryTexture::rgba_byte_count(1024, 1024), Some(4_194_304));
    assert_eq!(StarryTexture::rgba_byte_count(3, 5), Some(60));
    assert_eq!(StarryTexture::rgba_byte_count(0, 7), Some(0));
    assert_eq!(StarryTexture::rgba_byte_count(32768, 32767), Some(4_294_836_224));
    assert_eq!(StarryTexture::rgba_byte_count(32768, 32768), None);
    assert_eq!(StarryTexture::rgba_byte_count(u32::MAX, u32::MAX), None);
}

#[test]
fn decodes_rgba_png() {
    let pixels: Vec<u8> = (0u8..24).collect();
    let data = encode_rgba(3, 2, &pixels);
    let img = StarryTexture::decode_rgba(&data).unwrap();
    assert_eq!((img.width, img.height), (3, 2));
    assert_eq!(img.pixels, pixels);
}

#[test]
fn rejects_data_that_is_not_png() {
    let data = b"not an image at all".to_vec();
    assert!(matches!(StarryTexture::decode_rgba(&data), Err(TextureError::Decode)));
}

#[test]
fn header_too_large_for_32_bit_count() {
    let mut out = Vec::new();
    {
        let mut enc = png::Encoder::new(&mut out, 40000, 40000);
        enc.set_color(png::ColorType::Rgba);
        enc.set_depth(png::BitDepth::Eight);
        let mut w = enc.write_header().unwrap();
        w.write_chunk(png::chunk::IDAT, &[0x78, 0x9c]).unwrap();
    }
    assert!(matches!(
        StarryTexture::decode_rgba(&out),
        Err(TextureError::TooLarge { width: 40000, height: 40000 })
    ));
}
