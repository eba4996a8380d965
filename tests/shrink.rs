use shrink_img::{
    decode, encode, frame_layout, resample, shrink_png, shrink_raster, shrink_size, PixelFormat, PngHeader,
    RasterImage, ShrinkError,
};

fn make_png(width: u32, height: u32, color: png::ColorType, depth: png::BitDepth, data: &[u8]) -> Vec<u8> {
    let mut out: Vec<u8> = Vec::new();
    {
        let mut encoder = png::Encoder::new(&mut out, width, height);
        encoder.set_color(color);
        encoder.set_depth(depth);
        if color == png::ColorType::Indexed {
            encoder.set_palette(vec![0u8, 0, 0, 255, 255, 255]);
        }
        let mut writer = encoder.write_header().unwrap();
        writer.write_image_data(data).unwrap();
        writer.finish().unwrap();
    }
    out
}

fn read_png(bytes: &[u8]) -> (png::OutputInfo, Vec<u8>) {
    let mut reader = png::Decoder::new(bytes).read_info().unwrap();
    let mut buf = vec![0u8; reader.output_buffer_size()];
    let info = reader.next_frame(&mut buf).unwrap();
    (info, buf)
}

fn image(width: usize, height: usize, format: PixelFormat, samples: Vec<u8>) -> RasterImage {
    RasterImage { width, height, format, bit_depth: 8, samples }
}

#[test]
fn shrink_size_halves_wide_image() {
    assert_eq!(shrink_size(100, 50, 50, 50), (50, 25));
}

#[test]
fn shrink_size_never_upscales() {
    assert_eq!(shrink_size(10, 10, 100, 100), (10, 10));
    assert_eq!(shrink_size(10, 10, 10, 10), (10, 10));
}

#[test]
fn shrink_size_rounds_up() {
    assert_eq!(shrink_size(10, 3, 5, 5), (5, 2));
    assert_eq!(shrink_size(3, 3, 1, 1), (1, 1));
}

#[test]
fn shrink_size_height_limited() {
    assert_eq!(shrink_size(40, 80, 100, 20), (10, 20));
}

#[test]
fn shrink_size_stays_in_box() {
    for sw in 1..30usize {
        for sh in 1..30usize {
            for (mw, mh) in [(7usize, 11usize), (13, 5), (1, 1), (29, 2)] {
                let (w, h) = shrink_size(sw, sh, mw, mh);
                assert!(w <= sw && h <= sh);
                assert!(w <= mw && h <= mh);
                assert!(w > 0 && h > 0);
            }
        }
    }
}

#[test]
fn shrink_size_zero_box() {
    assert_eq!(shrink_size(10, 10, 0, 5), (0, 0));
}

#[test]
fn shrink_png_rgb_to_half() {
    let data = vec![200u8; 100 * 50 * 3];
    let src = make_png(100, 50, png::ColorType::Rgb, png::BitDepth::Eight, &data);
    let out = shrink_png(&src, 50, 50).unwrap();
    let (info, buf) = read_png(&out);
    assert_eq!((info.width, info.height), (50, 25));
    assert_eq!(info.color_type, png::ColorType::Rgb);
    assert_eq!(info.bit_depth, png::BitDepth::Eight);
    assert_eq!(buf.len(), 50 * 25 * 3);
    assert!(buf.iter().all(|&s| s == 200));
}

#[test]
fn shrink_png_small_gray_passes_through() {
    let data: Vec<u8> = (0..100u32).map(|i| (i * 2) as u8).collect();
    let src = make_png(10, 10, png::ColorType::Grayscale, png::BitDepth::Eight, &data);
    let out = shrink_png(&src, 100, 100).unwrap();
    let (info, buf) = read_png(&out);
    assert_eq!((info.width, info.height), (10, 10));
    assert_eq!(info.color_type, png::ColorType::Grayscale);
    assert_eq!(info.bit_depth, png::BitDepth::Eight);
    assert_eq!(buf, data);
}

#[test]
fn shrink_png_rgba_keeps_format() {
    let data = vec![77u8; 8 * 4 * 4];
    let src = make_png(8, 4, png::ColorType::Rgba, png::BitDepth::Eight, &data);
    let out = shrink_png(&src, 4, 4).unwrap();
    let (info, buf) = read_png(&out);
    assert_eq!((info.width, info.height), (4, 2));
    assert_eq!(info.color_type, png::ColorType::Rgba);
    assert_eq!(buf, vec![77u8; 4 * 2 * 4]);
}

#[test]
fn shrink_png_rejects_sixteen_bit() {
    let data = vec![0u8; 4 * 4 * 2];
    let src = make_png(4, 4, png::ColorType::Grayscale, png::BitDepth::Sixteen, &data);
    assert_eq!(shrink_png(&src, 2, 2), Err(ShrinkError::UnsupportedFormat));
    assert_eq!(decode(&src).err(), Some(ShrinkError::UnsupportedFormat));
}

#[test]
fn shrink_png_rejects_indexed() {
    let data = vec![1u8; 4 * 4];
    let src = make_png(4, 4, png::ColorType::Indexed, png::BitDepth::Eight, &data);
    assert_eq!(shrink_png(&src, 2, 2), Err(ShrinkError::UnsupportedFormat));
}

#[test]
fn shrink_png_rejects_gray_alpha() {
    let data = vec![1u8; 4 * 4 * 2];
    let src = make_png(4, 4, png::ColorType::GrayscaleAlpha, png::BitDepth::Eight, &data);
    assert_eq!(shrink_png(&src, 2, 2), Err(ShrinkError::UnsupportedFormat));
}

#[test]
fn shrink_png_rejects_truncated() {
    let data = vec![9u8; 16 * 16 * 3];
    let src = make_png(16, 16, png::ColorType::Rgb, png::BitDepth::Eight, &data);
    assert_eq!(shrink_png(&src[..20], 8, 8), Err(ShrinkError::DecodeError));
    assert_eq!(shrink_png(&src[..src.len() - 30], 8, 8), Err(ShrinkError::DecodeError));
}

#[test]
fn shrink_png_rejects_garbage() {
    assert_eq!(shrink_png(b"not a png at all", 8, 8), Err(ShrinkError::DecodeError));
    assert_eq!(shrink_png(&[], 8, 8), Err(ShrinkError::DecodeError));
}

#[test]
fn shrink_png_zero_box_is_resample_error() {
    let data = vec![5u8; 4 * 4];
    let src = make_png(4, 4, png::ColorType::Grayscale, png::BitDepth::Eight, &data);
    assert_eq!(shrink_png(&src, 0, 4), Err(ShrinkError::ResampleError));
    assert_eq!(shrink_png(&src, 4, 0), Err(ShrinkError::ResampleError));
}

#[test]
fn decode_reads_samples() {
    let data: Vec<u8> = (0..12u8).collect();
    let src = make_png(2, 2, png::ColorType::Rgb, png::BitDepth::Eight, &data);
    let img = decode(&src).unwrap();
    assert_eq!((img.width, img.height), (2, 2));
    assert_eq!(img.format, PixelFormat::Rgb);
    assert_eq!(img.bit_depth, 8);
    assert_eq!(img.samples, data);
}

#[test]
fn encode_round_trips() {
    let data: Vec<u8> = (0..24u8).collect();
    let img = image(3, 2, PixelFormat::Rgba, data.clone());
    let bytes = encode(&img).unwrap();
    let back = decode(&bytes).unwrap();
    assert_eq!((back.width, back.height, back.format), (3, 2, PixelFormat::Rgba));
    assert_eq!(back.samples, data);
}

#[test]
fn encode_rejects_wrong_length() {
    let img = image(3, 2, PixelFormat::Rgb, vec![0u8; 17]);
    assert_eq!(encode(&img), Err(ShrinkError::EncodeError));
}

#[test]
fn encode_rejects_other_depth() {
    let mut img = image(2, 2, PixelFormat::Grayscale, vec![0u8; 4]);
    img.bit_depth = 16;
    assert_eq!(encode(&img), Err(ShrinkError::EncodeError));
}

#[test]
fn resample_same_size_is_identity() {
    let data: Vec<u8> = (0..48u8).collect();
    let img = image(4, 4, PixelFormat::Rgb, data.clone());
    assert_eq!(resample(&img, 4, 4), Ok(data));
}

#[test]
fn resample_shrinks_uniform_gray() {
    let img = image(4, 4, PixelFormat::Grayscale, vec![100u8; 16]);
    assert_eq!(resample(&img, 2, 2), Ok(vec![100u8; 4]));
}

#[test]
fn resample_averages_columns() {
    // two black columns then two white ones, shrunk to two columns
    let row = [0u8, 0, 255, 255];
    let samples: Vec<u8> = row.iter().cycle().take(8).copied().collect();
    let img = image(4, 2, PixelFormat::Grayscale, samples);
    let out = resample(&img, 2, 2).unwrap();
    assert_eq!(out.len(), 4);
    assert!(out[0] < 128 && out[1] > 128);
    assert!(out[2] < 128 && out[3] > 128);
}

#[test]
fn resample_errors() {
    let img = image(4, 4, PixelFormat::Grayscale, vec![1u8; 16]);
    assert_eq!(resample(&img, 0, 2), Err(ShrinkError::ResampleError));
    assert_eq!(resample(&img, 2, 0), Err(ShrinkError::ResampleError));
    let bad = image(4, 4, PixelFormat::Grayscale, vec![1u8; 15]);
    assert_eq!(resample(&bad, 2, 2), Err(ShrinkError::ResampleError));
    let indexed = image(4, 4, PixelFormat::Indexed, vec![1u8; 16]);
    assert_eq!(resample(&indexed, 2, 2), Err(ShrinkError::UnsupportedFormat));
    let gray_alpha = image(4, 4, PixelFormat::GrayscaleAlpha, vec![1u8; 32]);
    assert_eq!(resample(&gray_alpha, 2, 2), Err(ShrinkError::UnsupportedFormat));
}

#[test]
fn shrink_raster_plans_and_keeps_format() {
    let img = image(100, 50, PixelFormat::Rgb, vec![10u8; 100 * 50 * 3]);
    let out = shrink_raster(&img, 50, 50).unwrap();
    assert_eq!((out.width, out.height), (50, 25));
    assert_eq!(out.format, PixelFormat::Rgb);
    assert_eq!(out.bit_depth, 8);
    assert_eq!(out.samples.len(), 50 * 25 * 3);
}

#[test]
fn shrink_raster_passthrough() {
    let data: Vec<u8> = (0..100u8).collect();
    let img = image(10, 10, PixelFormat::Grayscale, data.clone());
    let out = shrink_raster(&img, 100, 100).unwrap();
    assert_eq!((out.width, out.height), (10, 10));
    assert_eq!(out.samples, data);
}

#[test]
fn shrink_raster_errors() {
    let mut img = image(4, 4, PixelFormat::Grayscale, vec![1u8; 16]);
    assert_eq!(shrink_raster(&img, 0, 0).err(), Some(ShrinkError::ResampleError));
    img.bit_depth = 16;
    assert_eq!(shrink_raster(&img, 2, 2).err(), Some(ShrinkError::UnsupportedFormat));
    let bad = image(0, 4, PixelFormat::Grayscale, vec![]);
    assert_eq!(shrink_raster(&bad, 2, 2).err(), Some(ShrinkError::ResampleError));
}

#[test]
fn frame_layout_cases() {
    let header = PngHeader { width: 3, height: 2, color_code: 6, bit_depth: 8 };
    assert_eq!(frame_layout(&header), Ok((3, 2, PixelFormat::Rgba, 24)));
    let sixteen = PngHeader { width: 3, height: 2, color_code: 0, bit_depth: 16 };
    assert_eq!(frame_layout(&sixteen), Err(ShrinkError::UnsupportedFormat));
    let unknown = PngHeader { width: 3, height: 2, color_code: 5, bit_depth: 8 };
    assert_eq!(frame_layout(&unknown), Err(ShrinkError::DecodeError));
    let empty = PngHeader { width: 0, height: 2, color_code: 0, bit_depth: 8 };
    assert_eq!(frame_layout(&empty), Err(ShrinkError::DecodeError));
}

#[test]
fn pixel_format_codes() {
    for code in 0..=255u8 {
        match PixelFormat::from_png_code(code) {
            Some(format) => assert_eq!(format.png_code(), code),
            None => assert!(![0u8, 2, 3, 4, 6].contains(&code)),
        }
    }
    assert_eq!(PixelFormat::Rgb.samples_per_pixel(), 3);
    assert_eq!(PixelFormat::GrayscaleAlpha.samples_per_pixel(), 2);
    assert!(!PixelFormat::Indexed.is_supported());
}

#[test]
fn encode_gray_alpha_succeeds() {
    let data: Vec<u8> = (0..8u8).collect();
    let img = image(2, 2, PixelFormat::GrayscaleAlpha, data.clone());
    let bytes = encode(&img).unwrap();
    let (info, buf) = read_png(&bytes);
    assert_eq!(info.color_type, png::ColorType::GrayscaleAlpha);
    assert_eq!(buf, data);
}

#[test]
fn encode_indexed_without_palette_fails() {
    let img = image(2, 2, PixelFormat::Indexed, vec![0u8; 4]);
    assert_eq!(encode(&img), Err(ShrinkError::EncodeError));
}
