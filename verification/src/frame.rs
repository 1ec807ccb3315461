//! Captured frames and their normalization to the canonical layout.
//!
//! A raw frame is one step's pixel output as the core delivered it. The
//! normalizer turns a raw frame plus its declared pixel format into a
//! canonical buffer of four bytes per pixel in (unused, blue, green, red)
//! order, whose pitch is always `width * 4` whatever row stride the core
//! reported.

use vstd::prelude::*;
use crate::pixel::PixelFormat;

verus! {

/// One step's raw pixel output as delivered by the core: owned bytes plus
/// the dimensions and the row stride the core reported. Replaced wholesale
/// on each video refresh, never mutated in place.
#[derive(Clone, Debug)]
pub struct FrameBuffer {
    pub buffer: Vec<u8>,
    pub width: u32,
    pub height: u32,
    pub pitch: usize,
}

/// Mathematical value of a raw frame.
pub struct FrameView {
    pub bytes: Seq<u8>,
    pub width: u32,
    pub height: u32,
    pub pitch: usize,
}

impl View for FrameBuffer {
    type V = FrameView;

    open spec fn view(&self) -> FrameView {
        FrameView {
            bytes: self.buffer@,
            width: self.width,
            height: self.height,
            pitch: self.pitch,
        }
    }
}

/// A raw frame is well formed for the format it is held under when its byte
/// count is exactly `width * height` times the format's pixel size, and the
/// canonical output sizes fit the machine. The unknown format constrains the
/// bytes in no way: its normalization reads no input byte.
pub open spec fn frame_wf(format: PixelFormat, f: FrameView) -> bool {
    &&& f.width * f.height * 4 <= usize::MAX
    &&& f.width * 4 <= usize::MAX
    &&& match format.spec_bytes_per_pixel() {
        Some(b) => f.bytes.len() == f.width * f.height * b,
        None => true,
    }
}

/// Scale a 5-bit color field to 8 bits, with integer truncation.
pub open spec fn spec_scale5(f: u16) -> u8
    recommends
        f < 32,
{
    ((f * 255) / 31) as u8
}

/// Scale a 6-bit color field to 8 bits, with integer truncation.
pub open spec fn spec_scale6(f: u16) -> u8
    recommends
        f < 64,
{
    ((f * 255) / 63) as u8
}

/// 16-bit pixel word combined from its high and low bytes.
pub open spec fn spec_word(hi: u8, lo: u8) -> u16 {
    ((hi as u16) << 8) | (lo as u16)
}

/// The four canonical bytes (unused, blue, green, red) of an RGB565 word:
/// red is bits 15..11, green bits 10..5, blue bits 4..0.
pub open spec fn spec_rgb565_pixel(w: u16) -> Seq<u8> {
    seq![
        0u8,
        spec_scale5(w & 0x1f),
        spec_scale6((w >> 5) & 0x3f),
        spec_scale5((w >> 11) & 0x1f),
    ]
}

/// The four canonical bytes (unused, blue, green, red) of an RGB1555 word:
/// bit 15 is reserved and discarded; red is bits 14..10, green bits 9..5,
/// blue bits 4..0.
pub open spec fn spec_rgb1555_pixel(w: u16) -> Seq<u8> {
    seq![
        0u8,
        spec_scale5(w & 0x1f),
        spec_scale5((w >> 5) & 0x1f),
        spec_scale5((w >> 10) & 0x1f),
    ]
}

/// The four canonical bytes of pixel `p` of a raw frame. The 16-bit formats
/// read the pixel's two bytes; the unknown format yields a blank pixel.
pub open spec fn spec_pixel_bytes(format: PixelFormat, bytes: Seq<u8>, p: int) -> Seq<u8> {
    match format {
        PixelFormat::RetroPixelFormatRgb565 => spec_rgb565_pixel(
            spec_word(bytes[2 * p], bytes[2 * p + 1]),
        ),
        PixelFormat::RetroPixelFormatRgb1555 => spec_rgb1555_pixel(
            spec_word(bytes[2 * p], bytes[2 * p + 1]),
        ),
        _ => seq![0u8, 0u8, 0u8, 0u8],
    }
}

/// Canonical bytes of the first `npix` pixels of a raw frame, in pixel order.
pub open spec fn spec_converted(format: PixelFormat, bytes: Seq<u8>, npix: nat) -> Seq<u8>
    decreases npix,
{
    if npix == 0 {
        Seq::empty()
    } else {
        spec_converted(format, bytes, (npix - 1) as nat) + spec_pixel_bytes(
            format,
            bytes,
            npix - 1,
        )
    }
}

/// Canonical normalization of a raw frame: XRGB8888 passes through
/// byte-identically; the 16-bit formats are decoded pixel by pixel; the
/// unknown format yields a blank frame of the canonical size.
pub open spec fn spec_normalized(format: PixelFormat, bytes: Seq<u8>, w: nat, h: nat) -> Seq<u8> {
    if format is RetroPixelFormatXrgb8888 {
        bytes
    } else {
        spec_converted(format, bytes, w * h)
    }
}

proof fn lemma_converted_len(format: PixelFormat, bytes: Seq<u8>, npix: nat)
    ensures
        spec_converted(format, bytes, npix).len() == 4 * npix,
    decreases npix,
{
    if npix > 0 {
        lemma_converted_len(format, bytes, (npix - 1) as nat);
    }
}

/// For every pixel format, normalization of a well-formed raw frame yields
/// exactly `width * height * 4` bytes.
pub proof fn lemma_normalized_len(format: PixelFormat, bytes: Seq<u8>, w: nat, h: nat)
    requires
        match format.spec_bytes_per_pixel() {
            Some(b) => bytes.len() == w * h * b,
            None => true,
        },
    ensures
        spec_normalized(format, bytes, w, h).len() == w * h * 4,
{
    if format is RetroPixelFormatXrgb8888 {
    } else {
        lemma_converted_len(format, bytes, w * h);
    }
}

proof fn lemma_mask5(x: u16)
    ensures
        x & 0x1f < 32,
{
    assert(x & 0x1f < 32) by (bit_vector);
}

proof fn lemma_mask6(x: u16)
    ensures
        x & 0x3f < 64,
{
    assert(x & 0x3f < 64) by (bit_vector);
}

/// Scale a 5-bit color field to 8 bits, with integer truncation.
fn scale5(f: u16) -> (r: u8)
    requires
        f < 32,
    ensures
        r == spec_scale5(f),
{
    proof {
        vstd::arithmetic::div_mod::lemma_div_is_ordered((f * 255) as int, 7905, 31);
    }
    ((f * 255) / 31) as u8
}

/// Scale a 6-bit color field to 8 bits, with integer truncation.
fn scale6(f: u16) -> (r: u8)
    requires
        f < 64,
    ensures
        r == spec_scale6(f),
{
    proof {
        vstd::arithmetic::div_mod::lemma_div_is_ordered((f * 255) as int, 16065, 63);
    }
    ((f * 255) / 63) as u8
}

/// Byte-for-byte copy of a raw buffer.
fn copy_bytes(v: &Vec<u8>) -> (r: Vec<u8>)
    ensures
        r@ == v@,
{
    let mut r: Vec<u8> = Vec::new();
    let n = v.len();
    let mut i: usize = 0;
    while i < n
        invariant
            i <= n,
            n == v@.len(),
            r@ == v@.subrange(0, i as int),
        decreases n - i,
    {
        r.push(v[i]);
        i = i + 1;
        proof {
            assert(r@ =~= v@.subrange(0, i as int));
        }
    }
    proof {
        assert(r@ =~= v@);
    }
    r
}

impl FrameBuffer {
    /// Owned copy of this frame.
    pub fn duplicate(&self) -> (r: FrameBuffer)
        ensures
            r@ == self@,
    {
        FrameBuffer {
            buffer: copy_bytes(&self.buffer),
            width: self.width,
            height: self.height,
            pitch: self.pitch,
        }
    }
}

/// A frame normalized to the canonical 32-bit layout: four bytes per pixel
/// in (unused, blue, green, red) order. The pitch is always `width * 4`,
/// independent of the source-reported pitch.
#[derive(Clone, Debug)]
pub struct ProcessedFrameBuffer {
    pub buffer: Vec<u8>,
    pub width: u32,
    pub height: u32,
    pub pitch: usize,
}

/// Mathematical value of a normalized frame.
pub struct ProcessedFrameView {
    pub bytes: Seq<u8>,
    pub width: u32,
    pub height: u32,
    pub pitch: usize,
}

impl View for ProcessedFrameBuffer {
    type V = ProcessedFrameView;

    open spec fn view(&self) -> ProcessedFrameView {
        ProcessedFrameView {
            bytes: self.buffer@,
            width: self.width,
            height: self.height,
            pitch: self.pitch,
        }
    }
}

impl ProcessedFrameBuffer {
    /// Normalize a captured raw frame of the given declared pixel format.
    pub fn from(format: PixelFormat, frame: &FrameBuffer) -> (r: ProcessedFrameBuffer)
        requires
            frame_wf(format, frame@),
        ensures
            r@.bytes == spec_normalized(
                format,
                frame@.bytes,
                frame@.width as nat,
                frame@.height as nat,
            ),
            r@.bytes.len() == frame@.width * frame@.height * 4,
            r@.width == frame@.width,
            r@.height == frame@.height,
            r@.pitch == frame@.width * 4,
    {
        proof {
            lemma_normalized_len(
                format,
                frame@.bytes,
                frame@.width as nat,
                frame@.height as nat,
            );
        }
        let width = frame.width;
        let height = frame.height;
        let pitch: usize = (width as usize) * 4;
        let buffer: Vec<u8> = match format {
            PixelFormat::RetroPixelFormatXrgb8888 => copy_bytes(&frame.buffer),
            _ => {
                let npix: usize = (width as usize) * (height as usize);
                let mut out: Vec<u8> = Vec::new();
                let mut p: usize = 0;
                while p < npix
                    invariant
                        p <= npix,
                        npix == frame@.width * frame@.height,
                        frame_wf(format, frame@),
                        !(format is RetroPixelFormatXrgb8888),
                        out@ == spec_converted(format, frame@.bytes, p as nat),
                        out@.len() == 4 * p,
                    decreases npix - p,
                {
                    match format {
                        PixelFormat::RetroPixelFormatRgb565 => {
                            let hi = frame.buffer[2 * p];
                            let lo = frame.buffer[2 * p + 1];
                            let w: u16 = ((hi as u16) << 8) | (lo as u16);
                            proof {
                                lemma_mask5(w);
                                lemma_mask6(w >> 5);
                                lemma_mask5(w >> 11);
                            }
                            out.push(0);
                            out.push(scale5(w & 0x1f));
                            out.push(scale6((w >> 5) & 0x3f));
                            out.push(scale5((w >> 11) & 0x1f));
                        },
                        PixelFormat::RetroPixelFormatRgb1555 => {
                            let hi = frame.buffer[2 * p];
                            let lo = frame.buffer[2 * p + 1];
                            let w: u16 = ((hi as u16) << 8) | (lo as u16);
                            proof {
                                lemma_mask5(w);
                                lemma_mask5(w >> 5);
                                lemma_mask5(w >> 10);
                            }
                            out.push(0);
                            out.push(scale5(w & 0x1f));
                            out.push(scale5((w >> 5) & 0x1f));
                            out.push(scale5((w >> 10) & 0x1f));
                        },
                        _ => {
                            out.push(0);
                            out.push(0);
                            out.push(0);
                            out.push(0);
                        },
                    }
                    p = p + 1;
                    proof {
                        assert(out@ =~= spec_converted(format, frame@.bytes, p as nat));
                    }
                }
                out
            },
        };
        ProcessedFrameBuffer { buffer, width, height, pitch }
    }
}

} // verus!
