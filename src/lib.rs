//! Shrinks a PNG image to fit a bounding box, keeping its aspect ratio, its
//! color model and its bit depth.
//!
//! The pipeline runs in four steps: [`codec::decode`], [`shrink_size`],
//! [`resample::resample`] and [`codec::encode`]; each step fails with its own
//! [`ShrinkError`].

pub mod codec;
pub mod geometry;
pub mod raster;
pub mod resample;

pub use codec::{decode, encode, frame_layout, PngHeader};
pub use geometry::shrink_size;
pub use raster::{PixelFormat, RasterImage, ShrinkError};
pub use resample::{resample, shrink_raster};

use vstd::prelude::*;

use crate::codec::{decoded_image, png_encoded};
use crate::geometry::planned_size;
use crate::raster::SUPPORTED_BIT_DEPTH;
use crate::resample::{is_shrink_of, resampled};

verus! {

/// The PNG stream that shrinking an 8-bit image of `width` by `height`
/// pixels of `format`, given by its `samples`, into a `max_width` by
/// `max_height` box gives: the planned size, the same color type and bit
/// depth, and the resampled samples.
pub open spec fn shrunk_png(
    width: nat,
    height: nat,
    format: PixelFormat,
    samples: Seq<u8>,
    max_width: nat,
    max_height: nat,
) -> Seq<u8> {
    let (w, h) = planned_size(width, height, max_width, max_height);
    png_encoded(
        w as u32,
        h as u32,
        format.spec_png_code(),
        SUPPORTED_BIT_DEPTH,
        resampled(samples, format, width, height, w, h),
    )
}

/// Decodes the PNG stream `src_image`, shrinks it to fit in `max_width` by
/// `max_height` pixels, and encodes the result as a PNG stream of the same
/// color type and bit depth.
///
/// Fails with the error of the first step that fails; a bounding box with a
/// zero side always fails.
pub fn shrink_png(src_image: &[u8], max_width: usize, max_height: usize) -> (r: Result<Vec<u8>, ShrinkError>)
    ensures
        match decoded_image(src_image@) {
            Err(e) => r matches Err(x) && x == e,
            Ok((w, h, format, samples)) => {
                if !format.spec_is_supported() {
                    r matches Err(ShrinkError::UnsupportedFormat)
                } else if max_width == 0 || max_height == 0 {
                    r matches Err(ShrinkError::ResampleError)
                } else {
                    r is Ok && r->Ok_0@ == shrunk_png(
                        w,
                        h,
                        format,
                        samples,
                        max_width as nat,
                        max_height as nat,
                    )
                }
            },
        },
{
    let image = match decode(src_image) {
        Ok(image) => image,
        Err(e) => {
            return Err(e);
        },
    };
    let shrunk = match shrink_raster(&image, max_width, max_height) {
        Ok(shrunk) => shrunk,
        Err(e) => {
            return Err(e);
        },
    };
    let out = match encode(&shrunk) {
        Ok(out) => out,
        Err(e) => {
            return Err(e);
        },
    };
    proof {
        assert(is_shrink_of(shrunk, image, max_width as nat, max_height as nat));
    }
    Ok(out)
}

} // verus!
