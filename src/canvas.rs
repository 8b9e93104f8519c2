//! The shared canvas: the latest known state of the remote screen.
use vstd::prelude::*;

use crate::composite::{fast_bitmap_transfer, transfer_outcome, BitmapUpdate, UpdateError};

verus! {

/// One snapshot of the canvas, as it is sent to every client: `buffer` holds
/// `width * height` pixels, row by row.
pub struct Frame {
    pub width: u16,
    pub height: u16,
    pub buffer: Vec<u32>,
}

/// Why a canvas could not be made.
#[derive(Debug, Clone, Copy, PartialEq, Eq, Structural)]
pub enum CanvasError {
    ZeroWidth,
    ZeroHeight,
}

/// A fixed-size pixel buffer, one 32-bit word per pixel, row by row.
///
/// Its size is fixed when it is made. It remembers whether any update has
/// been merged into it yet: until one has, it has nothing to show.
pub struct Canvas {
    width: u16,
    height: u16,
    pixels: Vec<u32>,
    composited: bool,
}

impl Canvas {
    /// The canvas holds one pixel for each of its positions.
    pub closed spec fn wf(&self) -> bool {
        &&& self.width > 0
        &&& self.height > 0
        &&& self.pixels@.len() == self.width * self.height
    }

    /// Width of the canvas in pixels.
    pub closed spec fn spec_width(&self) -> u16 {
        self.width
    }

    /// Height of the canvas in pixels.
    pub closed spec fn spec_height(&self) -> u16 {
        self.height
    }

    /// The pixels of the canvas, row by row.
    pub closed spec fn spec_pixels(&self) -> Seq<u32> {
        self.pixels@
    }

    /// Whether an update has been merged into the canvas.
    pub closed spec fn spec_composited(&self) -> bool {
        self.composited
    }

    /// Makes a canvas of `width` by `height` pixels, all zero, into which
    /// nothing has been merged yet. Both dimensions must be positive.
    pub fn new(width: u16, height: u16) -> (r: Result<Canvas, CanvasError>)
        ensures
            width == 0 ==> r == Err::<Canvas, CanvasError>(CanvasError::ZeroWidth),
            width > 0 && height == 0 ==> r == Err::<Canvas, CanvasError>(CanvasError::ZeroHeight),
            width > 0 && height > 0 ==> (r matches Ok(c) && c.spec_width() == width
                && c.spec_height() == height && c.spec_pixels() == Seq::new(
                (width * height) as nat,
                |k: int| 0u32,
            ) && !c.spec_composited() && c.wf()),
    {
        if width == 0 {
            return Err(CanvasError::ZeroWidth);
        }
        if height == 0 {
            return Err(CanvasError::ZeroHeight);
        }
        assert(width as int * height as int <= 0xffff * 0xffff) by (nonlinear_arith)
            requires
                width <= 0xffff,
                height <= 0xffff,
        ;
        let count: usize = width as usize * height as usize;
        let mut pixels: Vec<u32> = Vec::with_capacity(count);
        let mut i: usize = 0;
        while i < count
            invariant
                i <= count,
                pixels@ == Seq::new(i as nat, |k: int| 0u32),
            decreases count - i,
        {
            pixels.push(0);
            i = i + 1;
            assert(pixels@ =~= Seq::new(i as nat, |k: int| 0u32));
        }
        Ok(Canvas { width, height, pixels, composited: false })
    }

    /// Width of the canvas in pixels.
    pub fn width(&self) -> (r: u16)
        ensures
            r == self.spec_width(),
    {
        self.width
    }

    /// Height of the canvas in pixels.
    pub fn height(&self) -> (r: u16)
        ensures
            r == self.spec_height(),
    {
        self.height
    }

    /// The pixels of the canvas, row by row.
    pub fn pixels(&self) -> (r: &Vec<u32>)
        requires
            self.wf(),
        ensures
            r@ == self.spec_pixels(),
            r@.len() == self.spec_width() * self.spec_height(),
    {
        &self.pixels
    }

    /// Whether an update has been merged into the canvas.
    pub fn has_composite(&self) -> (r: bool)
        ensures
            r == self.spec_composited(),
    {
        self.composited
    }

    /// Merges `update` into the canvas (see `fast_bitmap_transfer`).
    ///
    /// On success the canvas holds the merged pixels and has a composite. A
    /// refused update changes nothing.
    pub fn composite(&mut self, update: &BitmapUpdate) -> (r: Result<(), UpdateError>)
        requires
            old(self).wf(),
        ensures
            final(self).wf(),
            final(self).spec_width() == old(self).spec_width(),
            final(self).spec_height() == old(self).spec_height(),
            match transfer_outcome(old(self).spec_pixels(), old(self).spec_width() as int, update) {
                Ok(s) => r is Ok && final(self).spec_pixels() == s && final(self).spec_composited(),
                Err(e) => r == Err::<(), UpdateError>(e) && final(self).spec_pixels() == old(
                    self,
                ).spec_pixels() && final(self).spec_composited() == old(self).spec_composited(),
            },
    {
        let r = fast_bitmap_transfer(&mut self.pixels, self.width as usize, update);
        if r.is_ok() {
            self.composited = true;
        }
        r
    }

    /// A copy of the canvas to send to clients, or `None` while nothing has
    /// been merged into it.
    pub fn snapshot(&self) -> (r: Option<Frame>)
        ensures
            r is Some <==> self.spec_composited(),
            r matches Some(f) ==> f.width == self.spec_width() && f.height == self.spec_height()
                && f.buffer@ == self.spec_pixels(),
    {
        if !self.composited {
            return None;
        }
        let mut buffer: Vec<u32> = Vec::with_capacity(self.pixels.len());
        let mut i: usize = 0;
        while i < self.pixels.len()
            invariant
                i <= self.pixels@.len(),
                buffer@ == self.pixels@.take(i as int),
            decreases self.pixels@.len() - i,
        {
            buffer.push(self.pixels[i]);
            i = i + 1;
            assert(buffer@ =~= self.pixels@.take(i as int));
        }
        assert(buffer@ =~= self.pixels@);
        Some(Frame { width: self.width, height: self.height, buffer })
    }
}

} // verus!
