//! The resampler: a triangle filter, per pixel format, through the `resize`
//! crate; and the shrink of a decoded image to its planned size.

use rgb::FromSlice;
use vstd::prelude::*;

use crate::geometry::{planned_size, shrink_size};
use crate::raster::{PixelFormat, RasterImage, ShrinkError};

verus! {

#[verifier::external_type_specification]
#[verifier::external_body]
pub struct ExResizeError(resize::Error);

/// What `resize` writes when it resamples `src`, an image of `src_width` by
/// `src_height` pixels of `channels` 8-bit samples each, to `dst_width` by
/// `dst_height` pixels with the triangle filter.
pub uninterp spec fn triangle_resampled(
    src: Seq<u8>,
    channels: nat,
    src_width: nat,
    src_height: nat,
    dst_width: nat,
    dst_height: nat,
) -> Seq<u8>;

/// Relies on `resize::new` with `Pixel::Gray8` and `Type::Triangle`, then
/// `Resizer::resize`: with positive sides, a source of at least the source
/// size and a destination of exactly the target size, it succeeds (given
/// memory for its coefficient tables) and writes every destination pixel from
/// the source alone.
#[verifier::external_body]
fn resize_gray8(src: &[u8], src_width: usize, src_height: usize, dst_width: usize, dst_height: usize, dst: &mut Vec<u8>) -> (r: Result<(), resize::Error>)
    requires
        src_width * src_height * 1 <= usize::MAX,
        old(dst)@.len() == dst_width * dst_height * 1,
    ensures
        final(dst)@.len() == old(dst)@.len(),
        src_width > 0 && src_height > 0 && dst_width > 0 && dst_height > 0 && src@.len() >= src_width
            * src_height * 1 ==> r is Ok,
        r is Ok ==> final(dst)@ == triangle_resampled(src@, 1, src_width as nat, src_height as nat, dst_width as nat, dst_height as nat),
{
    let mut resizer = resize::new(src_width, src_height, dst_width, dst_height, resize::Pixel::Gray8, resize::Type::Triangle)?;
    resizer.resize(src.as_gray(), dst.as_gray_mut())
}

/// Relies on `resize::new` with `Pixel::RGB8` and `Type::Triangle`, then
/// `Resizer::resize`: with positive sides, a source of at least the source
/// size and a destination of exactly the target size, it succeeds (given
/// memory for its coefficient tables) and writes every destination pixel from
/// the source alone.
#[verifier::external_body]
fn resize_rgb8(src: &[u8], src_width: usize, src_height: usize, dst_width: usize, dst_height: usize, dst: &mut Vec<u8>) -> (r: Result<(), resize::Error>)
    requires
        src_width * src_height * 3 <= usize::MAX,
        old(dst)@.len() == dst_width * dst_height * 3,
    ensures
        final(dst)@.len() == old(dst)@.len(),
        src_width > 0 && src_height > 0 && dst_width > 0 && dst_height > 0 && src@.len() >= src_width
            * src_height * 3 ==> r is Ok,
        r is Ok ==> final(dst)@ == triangle_resampled(src@, 3, src_width as nat, src_height as nat, dst_width as nat, dst_height as nat),
{
    let mut resizer = resize::new(src_width, src_height, dst_width, dst_height, resize::Pixel::RGB8, resize::Type::Triangle)?;
    resizer.resize(src.as_rgb(), dst.as_rgb_mut())
}

/// Relies on `resize::new` with `Pixel::RGBA8` and `Type::Triangle`, then
/// `Resizer::resize`: with positive sides, a source of at least the source
/// size and a destination of exactly the target size, it succeeds (given
/// memory for its coefficient tables) and writes every destination pixel from
/// the source alone.
#[verifier::external_body]
fn resize_rgba8(src: &[u8], src_width: usize, src_height: usize, dst_width: usize, dst_height: usize, dst: &mut Vec<u8>) -> (r: Result<(), resize::Error>)
    requires
        src_width * src_height * 4 <= usize::MAX,
        old(dst)@.len() == dst_width * dst_height * 4,
    ensures
        final(dst)@.len() == old(dst)@.len(),
        src_width > 0 && src_height > 0 && dst_width > 0 && dst_height > 0 && src@.len() >= src_width
            * src_height * 4 ==> r is Ok,
        r is Ok ==> final(dst)@ == triangle_resampled(src@, 4, src_width as nat, src_height as nat, dst_width as nat, dst_height as nat),
{
    let mut resizer = resize::new(src_width, src_height, dst_width, dst_height, resize::Pixel::RGBA8, resize::Type::Triangle)?;
    resizer.resize(src.as_rgba(), dst.as_rgba_mut())
}

/// The samples of `image` brought to `dst_width` by `dst_height`: the samples
/// themselves when the size is unchanged, else the triangle filter's output.
pub open spec fn resampled_samples(image: RasterImage, dst_width: nat, dst_height: nat) -> Seq<u8> {
    resampled(image.samples@, image.format, image.width as nat, image.height as nat, dst_width, dst_height)
}

/// The same, for an image of `width` by `height` pixels of `format` given by
/// its samples.
pub open spec fn resampled(
    samples: Seq<u8>,
    format: PixelFormat,
    width: nat,
    height: nat,
    dst_width: nat,
    dst_height: nat,
) -> Seq<u8> {
    if dst_width == width && dst_height == height {
        samples
    } else {
        triangle_resampled(samples, format.spec_samples_per_pixel(), width, height, dst_width, dst_height)
    }
}

/// Resamples the pixels of `image` to `dst_width` by `dst_height`.
///
/// An image that is not 8-bit grayscale, RGB or RGBA is refused as
/// unsupported; a malformed image, a target with a zero side, or a target
/// buffer that would not fit in memory is a resample error. An unchanged size
/// returns the samples as they are; otherwise the triangle filter runs, and
/// its own failure is a resample error.
pub fn resample(image: &RasterImage, dst_width: usize, dst_height: usize) -> (r: Result<Vec<u8>, ShrinkError>)
    ensures
        !image.spec_is_supported() ==> r == Err::<Vec<u8>, ShrinkError>(ShrinkError::UnsupportedFormat),
        image.spec_is_supported() && (!image.wf() || dst_width == 0 || dst_height == 0 || dst_width
            * dst_height * image.format.spec_samples_per_pixel() > usize::MAX) ==> r == Err::<
            Vec<u8>,
            ShrinkError,
        >(ShrinkError::ResampleError),
        image.spec_is_supported() && image.wf() && dst_width > 0 && dst_height > 0 && dst_width * dst_height
            * image.format.spec_samples_per_pixel() <= usize::MAX ==> r is Ok,
        r is Ok ==> image.spec_is_supported() && image.wf() && r->Ok_0@ == resampled_samples(
            *image,
            dst_width as nat,
            dst_height as nat,
        ) && r->Ok_0@.len() == dst_width * dst_height * image.format.spec_samples_per_pixel(),
        r is Err ==> r->Err_0 == ShrinkError::UnsupportedFormat || r->Err_0 == ShrinkError::ResampleError,
{
    if !image.is_supported() {
        return Err(ShrinkError::UnsupportedFormat);
    }
    if !image.is_well_formed() || dst_width == 0 || dst_height == 0 {
        return Err(ShrinkError::ResampleError);
    }
    let channels = image.format.samples_per_pixel();
    // a Vec length fits in usize, which bounds the sizes below
    let _ = image.samples.len();
    let len = match dst_width.checked_mul(dst_height) {
        None => {
            proof {
                assert(dst_width * dst_height * channels >= dst_width * dst_height) by (nonlinear_arith)
                    requires channels >= 1;
            }
            return Err(ShrinkError::ResampleError);
        },
        Some(pixels) => match pixels.checked_mul(channels) {
            None => {
                return Err(ShrinkError::ResampleError);
            },
            Some(len) => len,
        },
    };
    if dst_width == image.width && dst_height == image.height {
        return Ok(image.samples.clone());
    }
    let mut dst: Vec<u8> = vec![0u8; len];
    let src = image.samples.as_slice();
    let outcome = match image.format {
        PixelFormat::Grayscale => resize_gray8(src, image.width, image.height, dst_width, dst_height, &mut dst),
        PixelFormat::Rgb => resize_rgb8(src, image.width, image.height, dst_width, dst_height, &mut dst),
        _ => resize_rgba8(src, image.width, image.height, dst_width, dst_height, &mut dst),
    };
    match outcome {
        Ok(()) => Ok(dst),
        Err(_) => Err(ShrinkError::ResampleError),
    }
}

/// `out` is `src` shrunk into a `max_width` by `max_height` box: of the planned
/// size, of the same format and bit depth, well formed, and holding the
/// resampled samples of `src`.
pub open spec fn is_shrink_of(out: RasterImage, src: RasterImage, max_width: nat, max_height: nat) -> bool {
    &&& (out.width as nat, out.height as nat) == planned_size(
        src.width as nat,
        src.height as nat,
        max_width,
        max_height,
    )
    &&& out.format == src.format
    &&& out.bit_depth == src.bit_depth
    &&& out.wf()
    &&& out.samples@ == resampled_samples(src, out.width as nat, out.height as nat)
}

/// Shrinks `image` to fit in `max_width` by `max_height`, keeping its aspect
/// ratio, format and bit depth.
///
/// An unsupported image is refused first; a malformed image, or a bounding
/// box with a zero side, is a resample error. When the box holds the image
/// already, the image comes back unchanged.
pub fn shrink_raster(image: &RasterImage, max_width: usize, max_height: usize) -> (r: Result<RasterImage, ShrinkError>)
    ensures
        !image.spec_is_supported() ==> r matches Err(ShrinkError::UnsupportedFormat),
        image.spec_is_supported() && !image.wf() ==> r matches Err(ShrinkError::ResampleError),
        image.spec_is_supported() && image.wf() && (max_width == 0 || max_height == 0) ==> r matches Err(
            ShrinkError::ResampleError,
        ),
        image.spec_is_supported() && image.wf() && max_width > 0 && max_height > 0 ==> r is Ok,
        image.spec_is_supported() && image.wf() && max_width >= image.width && max_height >= image.height
            ==> r is Ok && r->Ok_0.width == image.width && r->Ok_0.height == image.height
            && r->Ok_0.samples@ == image.samples@,
        r is Ok ==> image.spec_is_supported() && image.wf() && is_shrink_of(
            r->Ok_0,
            *image,
            max_width as nat,
            max_height as nat,
        ),
        r is Ok ==> r->Ok_0.format == image.format && r->Ok_0.bit_depth == image.bit_depth,
        r is Ok ==> r->Ok_0.samples@.len() == r->Ok_0.width * r->Ok_0.height
            * image.format.spec_samples_per_pixel(),
        r is Ok ==> r->Ok_0.width <= image.width && r->Ok_0.height <= image.height,
        r is Ok ==> r->Ok_0.width <= max_width && r->Ok_0.height <= max_height,
        r is Err ==> r->Err_0 == ShrinkError::UnsupportedFormat || r->Err_0 == ShrinkError::ResampleError,
{
    if !image.is_supported() {
        return Err(ShrinkError::UnsupportedFormat);
    }
    if !image.is_well_formed() {
        return Err(ShrinkError::ResampleError);
    }
    let (dst_width, dst_height) = shrink_size(image.width, image.height, max_width, max_height);
    // a Vec length fits in usize, which bounds the sizes below
    let _ = image.samples.len();
    proof {
        let k = image.format.spec_samples_per_pixel();
        assert(dst_width * dst_height * k <= image.width * image.height * k) by (nonlinear_arith)
            requires dst_width <= image.width, dst_height <= image.height, dst_width >= 0, dst_height >= 0;
    }
    let samples = match resample(image, dst_width, dst_height) {
        Ok(samples) => samples,
        Err(e) => {
            return Err(e);
        },
    };
    proof {
        assert(dst_width > 0 && dst_height > 0);
    }
    Ok(RasterImage { width: dst_width, height: dst_height, format: image.format, bit_depth: image.bit_depth, samples })
}

} // verus!
