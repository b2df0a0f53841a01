//! The frame buffer: one decoded image as an owned byte sequence.

use vstd::prelude::*;

verus! {

/// Width, in pixels, of the canvas the viewer renders to.
pub const CANVAS_WIDTH: usize = 1280;

/// Height, in pixels, of the canvas the viewer renders to.
pub const CANVAS_HEIGHT: usize = 720;

/// Bytes per pixel of a decoded frame: red, green, blue, alpha.
pub const BYTES_PER_PIXEL: usize = 4;

/// One decoded image: a contiguous byte buffer holding `width * height`
/// pixels of four bytes each, in red, green, blue, alpha order. Produced by
/// the capture side, transferred by value, read by the display side.
pub struct FrameBuffer {
    width: usize,
    height: usize,
    data: Vec<u8>,
}

impl View for FrameBuffer {
    type V = Seq<u8>;

    closed spec fn view(&self) -> Seq<u8> {
        self.data@
    }
}

impl FrameBuffer {
    /// The pixel width this buffer was built for.
    pub closed spec fn spec_width(&self) -> usize {
        self.width
    }

    /// The pixel height this buffer was built for.
    pub closed spec fn spec_height(&self) -> usize {
        self.height
    }

    /// A well-formed frame holds exactly four bytes for every pixel of its
    /// dimensions. Every constructor establishes this and no method breaks
    /// it.
    pub closed spec fn wf(&self) -> bool {
        self.data@.len() == self.width * self.height * BYTES_PER_PIXEL
    }

    /// A fully populated all-zero frame: the image shown before the first
    /// camera frame arrives.
    pub fn zeroed(width: usize, height: usize) -> (frame: FrameBuffer)
        requires
            width * height * BYTES_PER_PIXEL <= usize::MAX,
        ensures
            frame.wf(),
            frame.spec_width() == width,
            frame.spec_height() == height,
            frame@.len() == width * height * BYTES_PER_PIXEL,
            forall|j: int| 0 <= j < frame@.len() ==> frame@[j] == 0u8,
    {
        let total: usize = width * height * BYTES_PER_PIXEL;
        let mut data: Vec<u8> = Vec::new();
        let mut i: usize = 0;
        while i < total
            invariant
                i <= total,
                data@.len() == i,
                forall|j: int| 0 <= j < i ==> data@[j] == 0u8,
            decreases total - i,
        {
            data.push(0u8);
            i = i + 1;
        }
        FrameBuffer { width, height, data }
    }

    /// Builds a frame from already-decoded pixel bytes, accepted exactly
    /// when they fill the given dimensions.
    pub fn from_rgba(width: usize, height: usize, data: Vec<u8>) -> (frame: Option<FrameBuffer>)
        requires
            width * height * BYTES_PER_PIXEL <= usize::MAX,
        ensures
            frame is Some <==> data@.len() == width * height * BYTES_PER_PIXEL,
            frame matches Some(f) ==> f.wf() && f.spec_width() == width && f.spec_height() == height
                && f@ == data@,
    {
        let total: usize = width * height * BYTES_PER_PIXEL;
        if data.len() == total {
            Some(FrameBuffer { width, height, data })
        } else {
            None
        }
    }

    /// The pixel width, for callers outside the proof.
    pub fn width(&self) -> (w: usize)
        ensures
            w == self.spec_width(),
    {
        self.width
    }

    /// The pixel height, for callers outside the proof.
    pub fn height(&self) -> (h: usize)
        ensures
            h == self.spec_height(),
    {
        self.height
    }

    /// Read-only access to the pixel bytes.
    pub fn data(&self) -> (d: &Vec<u8>)
        ensures
            d@ == self@,
    {
        &self.data
    }
}

} // verus!
