//! Pixel formats a hosted core can declare for its frame buffers.

use vstd::prelude::*;

verus! {

/// ABI code for the 15-bit 0RGB1555 layout.
pub const RETRO_PIXEL_FORMAT_0RGB1555: u32 = 0;

/// ABI code for the 32-bit XRGB8888 layout.
pub const RETRO_PIXEL_FORMAT_XRGB8888: u32 = 1;

/// ABI code for the 16-bit RGB565 layout.
pub const RETRO_PIXEL_FORMAT_RGB565: u32 = 2;

/// In-memory bit layout of the pixels of a captured frame, declared by the
/// hosted core through the set-pixel-format environment query. Before a core
/// declares one, the format is unknown.
#[derive(Clone, Copy, Debug, PartialEq, Eq, Structural)]
pub enum PixelFormat {
    RetroPixelFormatRgb1555,
    RetroPixelFormatXrgb8888,
    RetroPixelFormatRgb565,
    RetroPixelFormatUnknown,
}

impl PixelFormat {
    /// Format named by a 4-byte code of the core ABI; an unrecognized code
    /// maps to the unknown format.
    pub open spec fn spec_from_code(code: u32) -> PixelFormat {
        if code == RETRO_PIXEL_FORMAT_RGB565 {
            PixelFormat::RetroPixelFormatRgb565
        } else if code == RETRO_PIXEL_FORMAT_0RGB1555 {
            PixelFormat::RetroPixelFormatRgb1555
        } else if code == RETRO_PIXEL_FORMAT_XRGB8888 {
            PixelFormat::RetroPixelFormatXrgb8888
        } else {
            PixelFormat::RetroPixelFormatUnknown
        }
    }

    /// Bytes each pixel occupies in a raw frame of this format; none for the
    /// unknown format, whose raw layout the host cannot interpret.
    pub open spec fn spec_bytes_per_pixel(self) -> Option<usize> {
        match self {
            PixelFormat::RetroPixelFormatRgb1555 => Some(2usize),
            PixelFormat::RetroPixelFormatXrgb8888 => Some(4usize),
            PixelFormat::RetroPixelFormatRgb565 => Some(2usize),
            PixelFormat::RetroPixelFormatUnknown => None,
        }
    }

    /// Executable twin of [`PixelFormat::spec_bytes_per_pixel`].
    pub fn bytes_per_pixel(&self) -> (r: Option<usize>)
        ensures
            r == self.spec_bytes_per_pixel(),
    {
        match self {
            PixelFormat::RetroPixelFormatRgb1555 => Some(2usize),
            PixelFormat::RetroPixelFormatXrgb8888 => Some(4usize),
            PixelFormat::RetroPixelFormatRgb565 => Some(2usize),
            PixelFormat::RetroPixelFormatUnknown => None,
        }
    }
}

impl core::convert::From<u32> for PixelFormat {
    /// Decode the 4-byte format code a core wrote through the set-pixel-format
    /// environment query.
    fn from(code: u32) -> (r: PixelFormat) {
        if code == RETRO_PIXEL_FORMAT_RGB565 {
            PixelFormat::RetroPixelFormatRgb565
        } else if code == RETRO_PIXEL_FORMAT_0RGB1555 {
            PixelFormat::RetroPixelFormatRgb1555
        } else if code == RETRO_PIXEL_FORMAT_XRGB8888 {
            PixelFormat::RetroPixelFormatXrgb8888
        } else {
            PixelFormat::RetroPixelFormatUnknown
        }
    }
}

impl vstd::std_specs::convert::FromSpecImpl<u32> for PixelFormat {
    open spec fn obeys_from_spec() -> bool {
        true
    }

    open spec fn from_spec(code: u32) -> PixelFormat {
        PixelFormat::spec_from_code(code)
    }
}

} // verus!
