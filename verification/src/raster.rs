use vstd::prelude::*;
use vstd::string::StringSliceAdditionalSpecFns;
use crate::color::{Rgb, color_of, parse_hex_color, valid_hex_color};

verus! {

/// A raster image as plain values: row-major pixels, four bytes (red, green,
/// blue, alpha) per pixel.
pub struct Raster {
    pub width: u32,
    pub height: u32,
    pub rgba: Vec<u8>,
}

/// Tracing fails only on a malformed target colour; images are decoded
/// before they reach this library.
#[derive(Clone, Copy, PartialEq, Eq, Structural, Debug)]
pub enum TraceError {
    InvalidColor,
}

impl Raster {
    /// The pixel buffer holds exactly four bytes for every pixel.
    pub open spec fn wf(self) -> bool {
        self.rgba@.len() == self.width as int * self.height as int * 4
    }

    pub open spec fn pixel_count(self) -> int {
        self.width as int * self.height as int
    }

    /// The pixel at row-major index `i` equals the target colour on its red,
    /// green and blue channels; alpha is ignored.
    pub open spec fn pixel_matches(self, i: int, c: Rgb) -> bool {
        &&& self.rgba@[4 * i] == c.r
        &&& self.rgba@[4 * i + 1] == c.g
        &&& self.rgba@[4 * i + 2] == c.b
    }

    /// Build a raster from its dimensions and pixel bytes; `None` when the
    /// buffer does not hold exactly four bytes per pixel.
    pub fn new(width: u32, height: u32, rgba: Vec<u8>) -> (res: Option<Raster>)
        ensures
            res is Some <==> rgba@.len() == width as int * height as int * 4,
            res matches Some(r) ==> r.width == width && r.height == height && r.rgba@ == rgba@
                && r.wf(),
    {
        proof {
            assert(width as int * height as int <= 0xFFFF_FFFFint * 0xFFFF_FFFFint)
                by (nonlinear_arith)
                requires
                    width <= 0xFFFF_FFFFu32,
                    height <= 0xFFFF_FFFFu32,
            ;
        }
        let wh: u64 = width as u64 * height as u64;
        if rgba.len() as u128 == wh as u128 * 4 {
            Some(Raster { width, height, rgba })
        } else {
            None
        }
    }

    /// The binary mask the tracer consumes: one byte per pixel, 1 exactly
    /// where the pixel equals the target colour, 0 everywhere else.
    pub fn build_mask(&self, target: Rgb) -> (mask: Vec<u8>)
        requires
            self.wf(),
        ensures
            mask@.len() == self.pixel_count(),
            forall|i: int|
                0 <= i < mask@.len() ==> mask@[i] == (if self.pixel_matches(i, target) {
                    1u8
                } else {
                    0u8
                }),
    {
        let len: usize = self.rgba.len();
        let n: usize = len / 4;
        let mut mask: Vec<u8> = Vec::new();
        let mut i: usize = 0;
        while i < n
            invariant
                self.wf(),
                n == self.pixel_count(),
                4 * n == self.rgba@.len(),
                4 * (n as int) <= usize::MAX as int,
                i <= n,
                mask@.len() == i,
                forall|j: int|
                    0 <= j < i ==> mask@[j] == (if self.pixel_matches(j, target) {
                        1u8
                    } else {
                        0u8
                    }),
            decreases n - i,
        {
            let base: usize = 4 * i;
            let pr = self.rgba[base];
            let pg = self.rgba[base + 1];
            let pb = self.rgba[base + 2];
            let v: u8 = if pr == target.r && pg == target.g && pb == target.b {
                1
            } else {
                0
            };
            mask.push(v);
            i += 1;
        }
        mask
    }
}

/// The verified heart of the tracing command: parse the target colour and
/// threshold the image into the tracer's mask. A malformed colour is
/// rejected before any tracing work.
pub fn color_mask(img: &Raster, color: &str) -> (res: Result<Vec<u8>, TraceError>)
    requires
        img.wf(),
    ensures
        res is Ok <==> valid_hex_color(color.spec_bytes()),
        res matches Ok(mask) ==> {
            &&& mask@.len() == img.pixel_count()
            &&& forall|i: int|
                0 <= i < mask@.len() ==> mask@[i] == (if img.pixel_matches(
                    i,
                    color_of(color.spec_bytes()),
                ) {
                    1u8
                } else {
                    0u8
                })
        },
        res matches Err(e) ==> e == TraceError::InvalidColor,
{
    match parse_hex_color(color) {
        Some(c) => Ok(img.build_mask(c)),
        None => Err(TraceError::InvalidColor),
    }
}

} // verus!
