use vstd::prelude::*;

use crate::color::Color;

verus! {

/// Largest canvas side the library accepts, in pixels.  Keeps every index
/// and coordinate computation comfortably inside the machine integer types.
pub const MAX_CANVAS_DIM: usize = 8000;

/// All-zero frame contents of length `n`: every pixel fully transparent.
pub open spec fn zero_frame(n: nat) -> Seq<u8> {
    Seq::new(n, |i: int| 0u8)
}

/// The frame sink: an RGBA pixel buffer (byte order R, G, B, A), row-major,
/// `width * height * 4` bytes.  The loop clears it and entities draw into
/// it; presenting it to a display is the host's business.
pub struct FrameBuffer {
    data: Vec<u8>,
    width: usize,
    height: usize,
}

impl View for FrameBuffer {
    type V = Seq<u8>;

    closed spec fn view(&self) -> Seq<u8> {
        self.data@
    }
}

impl FrameBuffer {
    /// Width of the canvas, in pixels.
    pub closed spec fn spec_width(&self) -> int {
        self.width as int
    }

    /// Height of the canvas, in pixels.
    pub closed spec fn spec_height(&self) -> int {
        self.height as int
    }

    pub open spec fn wf(&self) -> bool {
        &&& 1 <= self.spec_width() <= MAX_CANVAS_DIM as int
        &&& 1 <= self.spec_height() <= MAX_CANVAS_DIM as int
        &&& self@.len() == self.spec_width() * self.spec_height() * 4
    }

    /// A fully transparent (all-zero) buffer of the given dimensions.
    pub fn new(width: usize, height: usize) -> (frame: FrameBuffer)
        requires
            1 <= width <= MAX_CANVAS_DIM,
            1 <= height <= MAX_CANVAS_DIM,
        ensures
            frame.wf(),
            frame.spec_width() == width as int,
            frame.spec_height() == height as int,
            frame@ == zero_frame((width * height * 4) as nat),
    {
        proof {
            vstd::arithmetic::mul::lemma_mul_upper_bound(
                width as int,
                MAX_CANVAS_DIM as int,
                height as int,
                MAX_CANVAS_DIM as int,
            );
        }
        let len = width * height * 4;
        let data = vec![0u8; len];
        proof {
            assert(data@ =~= zero_frame((width * height * 4) as nat));
        }
        FrameBuffer { data, width, height }
    }

    pub fn width(&self) -> (w: usize)
        ensures
            w as int == self.spec_width(),
    {
        self.width
    }

    pub fn height(&self) -> (h: usize)
        ensures
            h as int == self.spec_height(),
    {
        self.height
    }

    /// The raw bytes, for tests and for handing the frame to a display.
    pub fn bytes(&self) -> (bytes: &Vec<u8>)
        ensures
            bytes@ == self@,
    {
        &self.data
    }

    /// Resets every byte to zero: a fully transparent background.
    pub fn clear(&mut self)
        requires
            old(self).wf(),
        ensures
            final(self).wf(),
            final(self).spec_width() == old(self).spec_width(),
            final(self).spec_height() == old(self).spec_height(),
            final(self)@ == zero_frame(old(self)@.len() as nat),
    {
        let len = self.data.len();
        let mut i: usize = 0;
        while i < len
            invariant
                i <= len,
                self.data.len() == len,
                self.width == old(self).width,
                self.height == old(self).height,
                forall|j: int| 0 <= j < i ==> self.data@[j] == 0u8,
            decreases len - i,
        {
            self.data.set(i, 0u8);
            i = i + 1;
        }
        proof {
            assert(self@ =~= zero_frame(old(self)@.len() as nat));
        }
    }

    /// Writes one pixel's four bytes with the given color.
    pub fn set_pixel(&mut self, x: usize, y: usize, color: Color)
        requires
            old(self).wf(),
            x < old(self).spec_width(),
            y < old(self).spec_height(),
        ensures
            final(self).wf(),
            final(self).spec_width() == old(self).spec_width(),
            final(self).spec_height() == old(self).spec_height(),
            final(self)@ == old(self)@
                .update(4 * (y * old(self).spec_width() + x), color.r)
                .update(4 * (y * old(self).spec_width() + x) + 1, color.g)
                .update(4 * (y * old(self).spec_width() + x) + 2, color.b)
                .update(4 * (y * old(self).spec_width() + x) + 3, color.a),
    {
        proof {
            vstd::arithmetic::mul::lemma_mul_inequality(
                y as int + 1,
                self.height as int,
                self.width as int,
            );
            assert((y as int + 1) * (self.width as int)
                == y as int * self.width as int + self.width as int) by (nonlinear_arith);
            vstd::arithmetic::mul::lemma_mul_upper_bound(
                self.height as int,
                MAX_CANVAS_DIM as int,
                self.width as int,
                MAX_CANVAS_DIM as int,
            );
            assert(y as int * self.width as int + x < self.spec_width() * self.spec_height() * 4);
        }
        let base = 4 * (y * self.width + x);
        self.data.set(base, color.r);
        self.data.set(base + 1, color.g);
        self.data.set(base + 2, color.b);
        self.data.set(base + 3, color.a);
    }
}

} // verus!
