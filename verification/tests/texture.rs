use bitfont::texture::load_pixels_of_png;

fn encode_rgb_png(width: u32, height: u32, pixels: &[u8]) -> Vec<u8> {
    let mut out: Vec<u8> = Vec::new();
    {
        let mut encoder = png::Encoder::new(&mut out, width, height);
        encoder.set_color(png::ColorType::Rgb);
        encoder.set_depth(png::BitDepth::Eight);
        let mut writer = encoder.write_header().unwrap();
        writer.write_image_data(pixels).unwrap();
    }
    out
}

#[test]
fn decodes_an_encoded_image() {
    let pixels: Vec<u8> = vec![
        255, 0, 0, 0, 255, 0, // first row: red, green
        0, 0, 255, 255, 255, 255, // second row: blue, white
    ];
    let data = encode_rgb_png(2, 2, &pixels);
    let (decoded, width, height) = load_pixels_of_png(&data).unwrap();
    assert_eq!(width, 2);
    assert_eq!(height, 2);
    assert_eq!(decoded, pixels);
}

#[test]
fn decodes_a_single_row() {
    let pixels: Vec<u8> = vec![10, 20, 30, 40, 50, 60, 70, 80, 90];
    let data = encode_rgb_png(3, 1, &pixels);
    let (decoded, width, height) = load_pixels_of_png(&data).unwrap();
    assert_eq!(width, 3);
    assert_eq!(height, 1);
    assert_eq!(decoded, pixels);
}

#[test]
fn rejects_bytes_that_are_no_png() {
    assert!(load_pixels_of_png(b"not a png at all").is_none());
    assert!(load_pixels_of_png(&[]).is_none());
}

#[test]
fn rejects_a_truncated_stream() {
    let pixels: Vec<u8> = vec![1, 2, 3];
    let data = encode_rgb_png(1, 1, &pixels);
    assert!(load_pixels_of_png(&data[0..data.len() / 2]).is_none());
}
