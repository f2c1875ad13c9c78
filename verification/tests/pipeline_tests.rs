use corrupted_gif::generate_with_picks;
use corrupted_gif::generate_with_report;

fn gray_jpeg(width: u32, height: u32) -> Vec<u8> {
    let img = image::RgbImage::from_pixel(width, height, image::Rgb([128, 128, 128]));
    let mut buf = std::io::Cursor::new(Vec::new());
    image::DynamicImage::ImageRgb8(img)
        .write_to(&mut buf, image::ImageFormat::Jpeg)
        .expect("encoding a synthetic JPEG should work");
    buf.into_inner()
}

fn checker_png(width: u32, height: u32) -> Vec<u8> {
    let img = image::RgbaImage::from_fn(width, height, |x, y| {
        if (x + y) % 2 == 0 {
            image::Rgba([200, 30, 30, 255])
        } else {
            image::Rgba([30, 30, 200, 255])
        }
    });
    let mut buf = std::io::Cursor::new(Vec::new());
    image::DynamicImage::ImageRgba8(img)
        .write_to(&mut buf, image::ImageFormat::Png)
        .expect("encoding a synthetic PNG should work");
    buf.into_inner()
}

fn decode_gif_rgba(bytes: &[u8]) -> (u16, u16, Vec<Vec<u8>>) {
    let mut options = gif::DecodeOptions::new();
    options.set_color_output(gif::ColorOutput::RGBA);
    let mut decoder = options
        .read_info(std::io::Cursor::new(bytes))
        .expect("the output should be a decodable gif");
    let width = decoder.width();
    let height = decoder.height();
    let mut frames = Vec::new();
    while let Some(frame) = decoder.read_next_frame().expect("every frame should decode") {
        assert_eq!(frame.delay, 10);
        frames.push(frame.buffer.to_vec());
    }
    (width, height, frames)
}

#[test]
fn jpeg_round_trip_keeps_original_pixels() {
    let source = gray_jpeg(100, 100);
    let source_pixels = image::load_from_memory(&source)
        .expect("the synthetic JPEG should decode")
        .to_rgba8()
        .into_raw();

    // One pick that breaks the header, one that rewrites a byte to itself.
    let last = source.len() - 1;
    let picks = [(0usize, 0u8), (last, source[last])];
    let (out, report) =
        generate_with_picks(&source, &picks, 100).expect("a decodable source must produce output");

    assert!(report.valid >= 1);
    assert_eq!(report.candidates, 3);
    assert!(!report.format_warning);

    let (width, height, frames) = decode_gif_rgba(&out);
    assert_eq!((width, height), (100, 100));
    assert_eq!(frames.len(), report.written);
    assert_eq!(frames[0], source_pixels);
}

#[test]
fn frame_count_is_capped() {
    let source = gray_jpeg(32, 32);
    let last = source.len() - 1;
    // Three picks that rewrite the last byte to itself: all valid.
    let picks = [(last, source[last]), (last, source[last]), (last, source[last])];
    let (out, report) =
        generate_with_picks(&source, &picks, 2).expect("a decodable source must produce output");
    assert_eq!(report.valid, 4);
    assert_eq!(report.written, 2);
    let (_, _, frames) = decode_gif_rgba(&out);
    assert_eq!(frames.len(), 2);
}

#[test]
fn valid_frames_keep_generation_order() {
    let source = gray_jpeg(16, 16);
    let source_pixels = image::load_from_memory(&source)
        .expect("the synthetic JPEG should decode")
        .to_rgba8()
        .into_raw();
    let last = source.len() - 1;
    // Generation order: original (valid), broken header (dropped),
    // identity rewrite (valid), broken header again (dropped).
    let picks = [(0usize, 0u8), (last, source[last]), (0, 1u8)];
    let (out, report) =
        generate_with_picks(&source, &picks, 100).expect("a decodable source must produce output");
    assert_eq!(report.candidates, 4);
    assert_eq!(report.valid, 2);
    assert_eq!(report.written, 2);
    let (_, _, frames) = decode_gif_rgba(&out);
    assert_eq!(frames.len(), 2);
    assert_eq!(frames[0], source_pixels);
    assert_eq!(frames[1], source_pixels);
}

#[test]
fn alternate_format_degrades_to_warning() {
    let source = checker_png(10, 10);
    let (out, report) =
        generate_with_report(&source).expect("a decodable PNG must still produce output");
    assert!(report.format_warning);
    assert!(report.valid >= 1);
    assert_eq!(report.candidates, 120);
    assert!(!out.is_empty());
    let (width, height, frames) = decode_gif_rgba(&out);
    assert_eq!((width, height), (10, 10));
    assert!(!frames.is_empty());
    let source_pixels = image::load_from_memory(&source)
        .expect("the synthetic PNG should decode")
        .to_rgba8()
        .into_raw();
    assert_eq!(frames[0], source_pixels);
}

#[test]
fn random_run_on_jpeg_produces_animation() {
    let source = gray_jpeg(24, 24);
    let (out, report) =
        generate_with_report(&source).expect("a decodable JPEG must produce output");
    assert_eq!(report.candidates, 120);
    assert!(report.valid >= 1);
    assert_eq!(report.written, report.valid.min(100));
    assert!(!report.format_warning);
    let (width, height, frames) = decode_gif_rgba(&out);
    assert_eq!((width, height), (24, 24));
    assert_eq!(frames.len(), report.written);
}
