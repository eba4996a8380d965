//! The decoded image: its pixel format, its samples, and the errors of the
//! pipeline.

use vstd::prelude::*;

verus! {

/// The channel layout of a pixel, as PNG color types name them.
#[derive(Clone, Copy, Debug, PartialEq, Eq, Structural)]
pub enum PixelFormat {
    Grayscale,
    Rgb,
    Indexed,
    GrayscaleAlpha,
    Rgba,
}

/// The PNG color type codes: 0, 2, 3, 4 and 6.
pub open spec fn is_png_color_code(code: u8) -> bool {
    code == 0 || code == 2 || code == 3 || code == 4 || code == 6
}

/// The PNG bit depths: 1, 2, 4, 8 and 16 bits per sample.
pub open spec fn is_png_bit_depth(bits: u8) -> bool {
    bits == 1 || bits == 2 || bits == 4 || bits == 8 || bits == 16
}

/// The pixel format of a PNG color type code.
pub open spec fn spec_format_of_code(code: u8) -> PixelFormat {
    if code == 0 {
        PixelFormat::Grayscale
    } else if code == 2 {
        PixelFormat::Rgb
    } else if code == 3 {
        PixelFormat::Indexed
    } else if code == 4 {
        PixelFormat::GrayscaleAlpha
    } else {
        PixelFormat::Rgba
    }
}

/// The one bit depth this library handles.
pub const SUPPORTED_BIT_DEPTH: u8 = 8;

impl PixelFormat {
    pub open spec fn spec_samples_per_pixel(self) -> nat {
        match self {
            PixelFormat::Grayscale => 1,
            PixelFormat::Rgb => 3,
            PixelFormat::Indexed => 1,
            PixelFormat::GrayscaleAlpha => 2,
            PixelFormat::Rgba => 4,
        }
    }

    pub open spec fn spec_png_code(self) -> u8 {
        match self {
            PixelFormat::Grayscale => 0,
            PixelFormat::Rgb => 2,
            PixelFormat::Indexed => 3,
            PixelFormat::GrayscaleAlpha => 4,
            PixelFormat::Rgba => 6,
        }
    }

    /// Grayscale, RGB and RGBA are resampled; indexed color and grayscale
    /// with alpha are not.
    pub open spec fn spec_is_supported(self) -> bool {
        self == PixelFormat::Grayscale || self == PixelFormat::Rgb || self == PixelFormat::Rgba
    }

    /// The number of samples that make up one pixel.
    pub fn samples_per_pixel(&self) -> (r: usize)
        ensures
            r == self.spec_samples_per_pixel(),
    {
        match self {
            PixelFormat::Grayscale => 1,
            PixelFormat::Rgb => 3,
            PixelFormat::Indexed => 1,
            PixelFormat::GrayscaleAlpha => 2,
            PixelFormat::Rgba => 4,
        }
    }

    /// The PNG color type code of this format.
    pub fn png_code(&self) -> (r: u8)
        ensures
            r == self.spec_png_code(),
            is_png_color_code(r),
    {
        match self {
            PixelFormat::Grayscale => 0,
            PixelFormat::Rgb => 2,
            PixelFormat::Indexed => 3,
            PixelFormat::GrayscaleAlpha => 4,
            PixelFormat::Rgba => 6,
        }
    }

    /// The format with the given PNG color type code, if there is one.
    pub fn from_png_code(code: u8) -> (r: Option<PixelFormat>)
        ensures
            r is Some <==> is_png_color_code(code),
            r is Some ==> r->Some_0.spec_png_code() == code && r->Some_0 == spec_format_of_code(code),
    {
        match code {
            0 => Some(PixelFormat::Grayscale),
            2 => Some(PixelFormat::Rgb),
            3 => Some(PixelFormat::Indexed),
            4 => Some(PixelFormat::GrayscaleAlpha),
            6 => Some(PixelFormat::Rgba),
            _ => None,
        }
    }

    /// Whether images of this format can be resampled.
    pub fn is_supported(&self) -> (r: bool)
        ensures
            r == self.spec_is_supported(),
    {
        match self {
            PixelFormat::Grayscale | PixelFormat::Rgb | PixelFormat::Rgba => true,
            PixelFormat::Indexed | PixelFormat::GrayscaleAlpha => false,
        }
    }
}

/// Why a shrink failed, by the stage that failed.
#[derive(Clone, Copy, Debug, PartialEq, Eq, Structural)]
pub enum ShrinkError {
    /// The input is not a well-formed PNG stream.
    DecodeError,
    /// The input is a PNG stream of a bit depth or color model that is not handled.
    UnsupportedFormat,
    /// The target geometry is unusable, or the resampler failed.
    ResampleError,
    /// The image to encode breaks its size invariant, or the encoder failed.
    EncodeError,
}

/// A decoded image: `samples` holds the rows one after the other, each pixel
/// as `format.samples_per_pixel()` samples of `bit_depth` bits.
#[derive(Clone, Debug)]
pub struct RasterImage {
    pub width: usize,
    pub height: usize,
    pub format: PixelFormat,
    pub bit_depth: u8,
    pub samples: Vec<u8>,
}

impl RasterImage {
    /// Both sides are positive and there is one byte sample per channel of
    /// each pixel.
    pub open spec fn wf(&self) -> bool {
        &&& self.width > 0
        &&& self.height > 0
        &&& self.samples@.len() == self.width * self.height * self.format.spec_samples_per_pixel()
    }

    /// An 8-bit image of a format that the resampler handles.
    pub open spec fn spec_is_supported(&self) -> bool {
        self.bit_depth == SUPPORTED_BIT_DEPTH && self.format.spec_is_supported()
    }

    /// Whether this image has a bit depth and format that can be resampled.
    pub fn is_supported(&self) -> (r: bool)
        ensures
            r == self.spec_is_supported(),
    {
        self.bit_depth == SUPPORTED_BIT_DEPTH && self.format.is_supported()
    }

    /// Whether the sample buffer has the length that the size and format call
    /// for, and both sides are positive.
    pub fn is_well_formed(&self) -> (r: bool)
        ensures
            r == self.wf(),
    {
        let n = self.samples.len();
        if self.width == 0 || self.height == 0 {
            return false;
        }
        match self.width.checked_mul(self.height) {
            None => {
                proof {
                    assert(self.width * self.height * self.format.spec_samples_per_pixel() >= self.width
                        * self.height) by (nonlinear_arith)
                        requires self.format.spec_samples_per_pixel() >= 1;
                }
                false
            },
            Some(pixels) => match pixels.checked_mul(self.format.samples_per_pixel()) {
                None => false,
                Some(len) => n == len,
            },
        }
    }
}

} // verus!
