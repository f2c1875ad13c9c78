use corrupted_gif::errors::{GlitchError, MutationError, SniffError};
use corrupted_gif::formats::{sniff, ImgFormat};
use corrupted_gif::generate;
use corrupted_gif::mutate::generate_candidates;

fn gray_jpeg(width: u32, height: u32) -> Vec<u8> {
    let img = image::RgbImage::from_pixel(width, height, image::Rgb([128, 128, 128]));
    let mut buf = std::io::Cursor::new(Vec::new());
    image::DynamicImage::ImageRgb8(img)
        .write_to(&mut buf, image::ImageFormat::Jpeg)
        .expect("encoding a synthetic JPEG should work");
    buf.into_inner()
}

fn checker_png(width: u32, height: u32) -> Vec<u8> {
    let img = image::RgbaImage::from_fn(width, height, |x, y| {
        if (x + y) % 2 == 0 {
            image::Rgba([200, 30, 30, 255])
        } else {
            image::Rgba([30, 30, 200, 255])
        }
    });
    let mut buf = std::io::Cursor::new(Vec::new());
    image::DynamicImage::ImageRgba8(img)
        .write_to(&mut buf, image::ImageFormat::Png)
        .expect("encoding a synthetic PNG should work");
    buf.into_inner()
}

#[test]
fn empty_input_fails_fast() {
    let out = generate(&[]);
    assert_eq!(out, Err(GlitchError::Sniff(SniffError::UnknownFormat)));
}

#[test]
fn empty_source_rejected_by_generator() {
    let cands = generate_candidates(&[], &[]);
    assert!(matches!(cands, Err(MutationError::EmptySource)));
}

#[test]
fn unknown_format_is_reported() {
    let out = generate(b"definitely not an image at all.....");
    assert_eq!(out, Err(GlitchError::Sniff(SniffError::UnknownFormat)));
}

#[test]
fn recognized_header_with_garbage_fails_decode() {
    let mut bytes = vec![0x89u8, 0x50, 0x4E, 0x47, 0x0D, 0x0A, 0x1A, 0x0A];
    bytes.extend_from_slice(&[0xAB; 64]);
    assert_eq!(sniff(&bytes), Err(SniffError::DecodeFailed));
    assert_eq!(generate(&bytes), Err(GlitchError::Sniff(SniffError::DecodeFailed)));
}

#[test]
fn oversized_dimensions_are_rejected() {
    let wide = image::RgbaImage::from_pixel(70000, 1, image::Rgba([1, 2, 3, 255]));
    let mut buf = std::io::Cursor::new(Vec::new());
    image::DynamicImage::ImageRgba8(wide)
        .write_to(&mut buf, image::ImageFormat::Png)
        .expect("encoding a wide PNG should work");
    let bytes = buf.into_inner();
    assert_eq!(sniff(&bytes), Err(SniffError::DimensionsOutOfRange));
    assert_eq!(
        generate(&bytes),
        Err(GlitchError::Sniff(SniffError::DimensionsOutOfRange))
    );
}

#[test]
fn sniff_reports_format_and_dimensions() {
    let jpeg = gray_jpeg(100, 100);
    assert_eq!(sniff(&jpeg), Ok((ImgFormat::Jpeg, 100, 100)));

    let png = checker_png(12, 7);
    assert_eq!(sniff(&png), Ok((ImgFormat::Png, 12, 7)));
}
