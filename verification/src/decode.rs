//! The decode step: raw camera bytes to a displayable frame.
//!
//! The camera side hands over raw frames of three bytes per pixel in red,
//! green, blue order; the viewer renders four bytes per pixel with an opaque
//! alpha channel. Decoding inserts that alpha byte after every pixel.

use vstd::prelude::*;

use crate::frame::{FrameBuffer, BYTES_PER_PIXEL};

verus! {

/// Bytes per pixel of a raw camera frame: red, green, blue.
pub const RAW_BYTES_PER_PIXEL: usize = 3;

/// The alpha value written for every decoded pixel: fully opaque.
pub const ALPHA_OPAQUE: u8 = 255;

/// Why a raw frame was rejected by the decode step.
#[derive(Debug, PartialEq, Eq, Structural)]
pub enum DecodeError {
    /// The raw byte count does not fill the requested dimensions.
    RawSizeMismatch,
}

/// The decoded image of a raw frame: pixel by pixel, the three colour bytes
/// are kept in order and an opaque alpha byte is appended to each.
pub open spec fn rgba_of_rgb(raw: Seq<u8>) -> Seq<u8> {
    Seq::new(
        raw.len() / 3 * 4,
        |j: int|
            if j % 4 == 3 {
                255u8
            } else {
                raw[j / 4 * 3 + j % 4]
            },
    )
}

/// Decodes one raw frame into a frame buffer of the given dimensions.
/// Succeeds exactly when the raw bytes fill those dimensions at three bytes
/// per pixel; the result then holds four bytes per pixel in red, green,
/// blue, alpha order with every alpha byte opaque.
pub fn decode_rgb_frame(width: usize, height: usize, raw: &Vec<u8>) -> (result: Result<
    FrameBuffer,
    DecodeError,
>)
    requires
        width * height * BYTES_PER_PIXEL <= usize::MAX,
    ensures
        result is Ok <==> raw@.len() == width * height * RAW_BYTES_PER_PIXEL,
        result matches Ok(frame) ==> frame.wf() && frame.spec_width() == width
            && frame.spec_height() == height && frame@ == rgba_of_rgb(raw@),
        result matches Err(e) ==> e == DecodeError::RawSizeMismatch,
{
    let pixels: usize = width * height;
    let expected: usize = pixels * RAW_BYTES_PER_PIXEL;
    if raw.len() != expected {
        return Err(DecodeError::RawSizeMismatch);
    }
    let ghost decoded: Seq<u8> = rgba_of_rgb(raw@);
    let mut data: Vec<u8> = Vec::new();
    let mut i: usize = 0;
    while i < pixels
        invariant
            i <= pixels,
            pixels == width * height,
            pixels * BYTES_PER_PIXEL <= usize::MAX,
            raw@.len() == pixels * RAW_BYTES_PER_PIXEL,
            decoded == rgba_of_rgb(raw@),
            data@.len() == i * BYTES_PER_PIXEL,
            forall|j: int| 0 <= j < data@.len() ==> data@[j] == decoded[j],
        decreases pixels - i,
    {
        let base: usize = i * RAW_BYTES_PER_PIXEL;
        data.push(raw[base]);
        data.push(raw[base + 1]);
        data.push(raw[base + 2]);
        data.push(ALPHA_OPAQUE);
        proof {
            assert forall|j: int| 0 <= j < data@.len() implies data@[j] == decoded[j] by {
                if j < 4 * i {
                } else {
                    assert(j / 4 == i && j % 4 == j - 4 * i) by (nonlinear_arith)
                        requires 4 * i <= j < 4 * i + 4, 0 <= i;
                }
            }
        }
        i = i + 1;
    }
    proof {
        assert(data@ =~= decoded);
    }
    match FrameBuffer::from_rgba(width, height, data) {
        Some(frame) => Ok(frame),
        None => unreached(),
    }
}

} // verus!
