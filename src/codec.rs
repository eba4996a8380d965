//! The PNG container: decoding a stream into a [`RasterImage`] and encoding
//! one back, through the `png` crate.

use vstd::prelude::*;

use crate::raster::{is_png_bit_depth, is_png_color_code, spec_format_of_code, PixelFormat, RasterImage, ShrinkError, SUPPORTED_BIT_DEPTH};

verus! {

#[verifier::external_type_specification]
#[verifier::external_body]
pub struct ExPngDecodingError(png::DecodingError);

#[verifier::external_type_specification]
#[verifier::external_body]
pub struct ExPngEncodingError(png::EncodingError);

/// The header fields of a PNG stream, with the color type and the bit depth
/// as their PNG codes.
#[derive(Clone, Copy, Debug, PartialEq, Eq, Structural)]
pub struct PngHeader {
    pub width: u32,
    pub height: u32,
    pub color_code: u8,
    pub bit_depth: u8,
}

/// The header that `png` reads from `bytes` as (width, height, color type
/// code, bit depth), or `None` where it cannot read one.
pub uninterp spec fn png_header_of(bytes: Seq<u8>) -> Option<(u32, u32, u8, u8)>;

/// The samples that `png` decodes from the first frame of `bytes` into a
/// zero-filled buffer of the image's size, or `None` where decoding fails.
pub uninterp spec fn png_frame_of(bytes: Seq<u8>) -> Option<Seq<u8>>;

/// The bytes of the PNG stream that `png` writes for an image of `width` by
/// `height` pixels of color type `color_code` and `bit_depth` bits per sample,
/// from the row-major `samples`.
pub uninterp spec fn png_encoded(width: u32, height: u32, color_code: u8, bit_depth: u8, samples: Seq<u8>) -> Seq<u8>;

/// Relies on `png::Decoder::new`, `Decoder::read_info` and `Reader::info`:
/// reads the signature and the chunks up to the image data, and gives the
/// header. `ColorType` and `BitDepth` are `repr(u8)` enums whose
/// discriminants are the PNG codes.
#[verifier::external_body]
fn png_read_header(bytes: &[u8]) -> (r: Result<PngHeader, png::DecodingError>)
    ensures
        r is Ok <==> png_header_of(bytes@) is Some,
        r is Ok ==> png_header_of(bytes@) == Some(
            (r->Ok_0.width, r->Ok_0.height, r->Ok_0.color_code, r->Ok_0.bit_depth),
        ),
        r is Ok ==> is_png_color_code(r->Ok_0.color_code) && is_png_bit_depth(r->Ok_0.bit_depth),
{
    let reader = png::Decoder::new(bytes).read_info()?;
    let info = reader.info();
    Ok(PngHeader {
        width: info.width,
        height: info.height,
        color_code: info.color_type as u8,
        bit_depth: info.bit_depth as u8,
    })
}

/// Relies on `png::Decoder::new`, `Decoder::read_info` and
/// `Reader::next_frame`, with no output transformation. For an 8-bit header
/// the full image is `width * height * samples` bytes
/// (`Reader::output_buffer_size`). `next_frame` writes the rows of the first
/// frame, which an animated stream may make smaller than the image; the rows
/// and columns outside it keep the zeros that the buffer starts with.
#[verifier::external_body]
fn png_read_frame(bytes: &[u8], buf: &mut Vec<u8>) -> (r: Result<(), png::DecodingError>)
    requires
        png_header_of(bytes@) matches Some((w, h, code, depth)) && depth == SUPPORTED_BIT_DEPTH
            && old(buf)@.len() == w * h * color_code_samples(code),
        forall|i: int| 0 <= i < old(buf)@.len() ==> old(buf)@[i] == 0u8,
    ensures
        final(buf)@.len() == old(buf)@.len(),
        r is Ok <==> png_frame_of(bytes@) is Some,
        r is Ok ==> png_frame_of(bytes@) == Some(final(buf)@),
{
    let mut reader = png::Decoder::new(bytes).read_info()?;
    reader.next_frame(buf.as_mut_slice()).map(|_| ())
}

/// Relies on `png::Encoder` (`new`, `set_color`, `set_depth`, `write_header`)
/// and on `png::Writer` (`write_image_data`, `finish`), writing to memory:
/// on success the output is the complete stream for these arguments. The
/// header is refused only for a zero side or a color type and depth that do
/// not combine; the data only for a wrong length or, for indexed color, a
/// missing palette; a `Vec` takes every write.
/// `ColorType::from_u8` and `BitDepth::from_u8` return `Some` for every PNG
/// code.
#[verifier::external_body]
fn png_encode(width: u32, height: u32, color_code: u8, bit_depth: u8, samples: &[u8]) -> (r: Result<Vec<u8>, png::EncodingError>)
    requires
        is_png_color_code(color_code),
        is_png_bit_depth(bit_depth),
        width * height * color_code_samples(color_code) * (if bit_depth == 16 {
            2nat
        } else {
            1nat
        }) <= usize::MAX,
    ensures
        r is Ok ==> r->Ok_0@ == png_encoded(width, height, color_code, bit_depth, samples@),
        width > 0 && height > 0 && color_code != 3 && bit_depth == SUPPORTED_BIT_DEPTH && samples@.len()
            == width * height * color_code_samples(color_code) ==> r is Ok,
{
    let mut out: Vec<u8> = Vec::new();
    let mut encoder = png::Encoder::new(&mut out, width, height);
    encoder.set_color(png::ColorType::from_u8(color_code).unwrap());
    encoder.set_depth(png::BitDepth::from_u8(bit_depth).unwrap());
    let mut writer = encoder.write_header()?;
    writer.write_image_data(samples)?;
    writer.finish()?;
    Ok(out)
}

/// The number of samples per pixel of a PNG color type.
pub open spec fn color_code_samples(code: u8) -> nat {
    if code == 2 {
        3
    } else if code == 4 {
        2
    } else if code == 6 {
        4
    } else {
        1
    }
}

/// Checks a decoded header and gives the layout of its image: width, height,
/// pixel format and the number of 8-bit samples.
///
/// A bit depth other than 8 is unsupported; an unknown color type, a zero
/// side, or a sample count that does not fit in memory is a decode error.
pub fn frame_layout(header: &PngHeader) -> (r: Result<(usize, usize, PixelFormat, usize), ShrinkError>)
    ensures
        header.bit_depth != SUPPORTED_BIT_DEPTH ==> r matches Err(ShrinkError::UnsupportedFormat),
        header.bit_depth == SUPPORTED_BIT_DEPTH ==> (r is Ok <==> (is_png_color_code(header.color_code)
            && header.width > 0 && header.height > 0 && header.width * header.height * color_code_samples(
            header.color_code,
        ) <= usize::MAX)),
        header.bit_depth == SUPPORTED_BIT_DEPTH && r is Err ==> r matches Err(ShrinkError::DecodeError),
        r is Ok ==> ({
            let (w, h, format, len) = r->Ok_0;
            &&& w == header.width && h == header.height
            &&& format.spec_png_code() == header.color_code
            &&& format == spec_format_of_code(header.color_code)
            &&& format.spec_samples_per_pixel() == color_code_samples(header.color_code)
            &&& len == w * h * format.spec_samples_per_pixel()
        }),
{
    if header.bit_depth != SUPPORTED_BIT_DEPTH {
        return Err(ShrinkError::UnsupportedFormat);
    }
    let format = match PixelFormat::from_png_code(header.color_code) {
        Some(format) => format,
        None => {
            return Err(ShrinkError::DecodeError);
        },
    };
    if header.width == 0 || header.height == 0 {
        return Err(ShrinkError::DecodeError);
    }
    let width = header.width as usize;
    let height = header.height as usize;
    let channels = format.samples_per_pixel();
    let len = match width.checked_mul(height) {
        None => {
            proof {
                assert(width * height * channels >= width * height) by (nonlinear_arith)
                    requires channels >= 1;
            }
            return Err(ShrinkError::DecodeError);
        },
        Some(pixels) => match pixels.checked_mul(channels) {
            None => {
                return Err(ShrinkError::DecodeError);
            },
            Some(len) => len,
        },
    };
    Ok((width, height, format, len))
}

/// What decoding `bytes` gives: the width, height, pixel format and samples
/// of an 8-bit image, or the error of the step that fails.
pub open spec fn decoded_image(bytes: Seq<u8>) -> Result<(nat, nat, PixelFormat, Seq<u8>), ShrinkError> {
    match png_header_of(bytes) {
        None => Err(ShrinkError::DecodeError),
        Some((w, h, code, depth)) => {
            if depth != SUPPORTED_BIT_DEPTH {
                Err(ShrinkError::UnsupportedFormat)
            } else if !(is_png_color_code(code) && w > 0 && h > 0 && w * h * color_code_samples(code)
                <= usize::MAX) {
                Err(ShrinkError::DecodeError)
            } else {
                match png_frame_of(bytes) {
                    None => Err(ShrinkError::DecodeError),
                    Some(frame) => Ok((w as nat, h as nat, spec_format_of_code(code), frame)),
                }
            }
        },
    }
}

/// Decodes a PNG stream into an 8-bit image.
///
/// A stream whose header `png` cannot read is a decode error; a bit depth
/// other than 8 is refused as unsupported once the header is read, before
/// any pixel data; image data that `png` cannot decode is a decode error. A
/// decoded image is always well formed.
pub fn decode(bytes: &[u8]) -> (r: Result<RasterImage, ShrinkError>)
    ensures
        match decoded_image(bytes@) {
            Ok((w, h, format, samples)) => r is Ok && r->Ok_0.width == w && r->Ok_0.height == h
                && r->Ok_0.format == format && r->Ok_0.samples@ == samples,
            Err(e) => r matches Err(x) && x == e,
        },
        r is Ok ==> r->Ok_0.wf() && r->Ok_0.bit_depth == SUPPORTED_BIT_DEPTH,
{
    let header = match png_read_header(bytes) {
        Ok(header) => header,
        Err(_) => {
            return Err(ShrinkError::DecodeError);
        },
    };
    let (width, height, format, len) = match frame_layout(&header) {
        Ok(layout) => layout,
        Err(e) => {
            return Err(e);
        },
    };
    let mut samples: Vec<u8> = vec![0u8; len];
    match png_read_frame(bytes, &mut samples) {
        Ok(()) => {},
        Err(_) => {
            return Err(ShrinkError::DecodeError);
        },
    }
    Ok(RasterImage { width, height, format, bit_depth: header.bit_depth, samples })
}

/// Encodes an 8-bit image as a PNG stream of the same color type.
///
/// An image that is not well formed, not 8-bit, or too large for a PNG
/// header is an encode error, checked before anything is written; so is a
/// failure of `png` itself.
pub fn encode(image: &RasterImage) -> (r: Result<Vec<u8>, ShrinkError>)
    ensures
        !image.wf() || image.bit_depth != SUPPORTED_BIT_DEPTH || image.width > u32::MAX || image.height
            > u32::MAX ==> r matches Err(ShrinkError::EncodeError),
        r is Ok ==> image.wf() && image.bit_depth == SUPPORTED_BIT_DEPTH && r->Ok_0@ == png_encoded(
            image.width as u32,
            image.height as u32,
            image.format.spec_png_code(),
            image.bit_depth,
            image.samples@,
        ),
        image.wf() && image.bit_depth == SUPPORTED_BIT_DEPTH && image.format != PixelFormat::Indexed
            && image.width <= u32::MAX && image.height <= u32::MAX ==> r is Ok,
        r is Err ==> r->Err_0 == ShrinkError::EncodeError,
{
    if !image.is_well_formed() || image.bit_depth != SUPPORTED_BIT_DEPTH || image.width > u32::MAX as usize
        || image.height > u32::MAX as usize {
        return Err(ShrinkError::EncodeError);
    }
    // a Vec length fits in usize, which bounds the size below
    let _ = image.samples.len();
    proof {
        assert(color_code_samples(image.format.spec_png_code()) == image.format.spec_samples_per_pixel());
    }
    match png_encode(
        image.width as u32,
        image.height as u32,
        image.format.png_code(),
        image.bit_depth,
        image.samples.as_slice(),
    ) {
        Ok(bytes) => Ok(bytes),
        Err(_) => Err(ShrinkError::EncodeError),
    }
}

} // verus!
