use vstd::prelude::*;

use crate::color::Color;
use crate::frame::FrameBuffer;
use crate::game_object::{iter_update, GameObject};
use vstd::arithmetic::div_mod::{lemma_fundamental_div_mod, lemma_fundamental_div_mod_converse};
use vstd::arithmetic::mul::lemma_mul_inequality;
use vstd::math::abs;

verus! {

/// A square that drifts with constant velocity and reflects off the edges
/// of its canvas.  The reflection checks the trailing edge after the move,
/// so the box may overshoot the edge by up to one step; the position is
/// never clamped back.
#[derive(Clone, Copy, PartialEq, Eq, Structural, Debug)]
pub struct MovingBox {
    pub box_x: i16,
    pub box_y: i16,
    pub size: i16,
    pub velocity_x: i16,
    pub velocity_y: i16,
    pub color: Color,
    pub canvas_width: i16,
    pub canvas_height: i16,
}

/// The velocity of one axis after a step that moved the position to `pos`:
/// it turns around when the trailing edge `pos + size` passed `limit`, and
/// again when the leading edge fell below zero.
pub open spec fn stepped_velocity(pos: int, v: int, size: int, limit: int) -> int {
    let v1 = if pos + size > limit {
        -v
    } else {
        v
    };
    if pos + size < size {
        -v1
    } else {
        v1
    }
}

/// One axis of the box invariant: the box either lies fully between 0 and
/// `limit`, or overshoots one edge by at most one step with its velocity
/// already turned back toward the canvas.
pub open spec fn axis_ok(pos: int, v: int, size: int, limit: int) -> bool {
    &&& 0 <= size
    &&& size + abs(v) <= limit
    &&& ((0 <= pos && pos + size <= limit) || (pos < 0 && v > 0 && 0 <= pos + v && pos + v
        + size <= limit) || (pos + size > limit && v < 0 && 0 <= pos + v && pos + v + size
        <= limit))
}

impl MovingBox {
    /// Does the box cover pixel `(x, y)`?
    pub open spec fn covers(self, x: int, y: int) -> bool {
        &&& self.box_x <= x < self.box_x + self.size
        &&& self.box_y <= y < self.box_y + self.size
    }

    pub fn new(
        box_x: i16,
        box_y: i16,
        size: i16,
        velocity_x: i16,
        velocity_y: i16,
        color: Color,
        canvas_width: i16,
        canvas_height: i16,
    ) -> (b: MovingBox)
        requires
            1 <= canvas_width <= 8000,
            1 <= canvas_height <= 8000,
            0 <= size,
            size + abs(velocity_x as int) <= canvas_width as int,
            size + abs(velocity_y as int) <= canvas_height as int,
            0 <= box_x,
            box_x + size <= canvas_width,
            0 <= box_y,
            box_y + size <= canvas_height,
        ensures
            b == (MovingBox {
                box_x,
                box_y,
                size,
                velocity_x,
                velocity_y,
                color,
                canvas_width,
                canvas_height,
            }),
            b.wf(),
    {
        MovingBox { box_x, box_y, size, velocity_x, velocity_y, color, canvas_width, canvas_height }
    }
}

/// The frame after the box has been tested against the first `upto` pixels
/// of `frame` (row-major order), covered ones repainted with its color.
pub open spec fn rendered_upto(b: MovingBox, frame: Seq<u8>, width: int, upto: int) -> Seq<u8> {
    Seq::new(
        frame.len(),
        |j: int|
            if j / 4 < upto && b.covers((j / 4) % width, (j / 4) / width) {
                b.color.channel(j % 4)
            } else {
                frame[j]
            },
    )
}

proof fn lemma_pixel_in_range(x: int, y: int, w: int, h: int)
    requires
        0 <= x < w,
        0 <= y < h,
    ensures
        0 <= y * w + x,
        y * w + x < h * w,
{
    lemma_mul_inequality(y + 1, h, w);
    assert((y + 1) * w == y * w + w) by (nonlinear_arith);
    assert(y * w >= 0) by (nonlinear_arith)
        requires
            y >= 0,
            w >= 1,
    ;
}

/// Passing over a pixel the box does not cover leaves the frame as it was.
proof fn lemma_rendered_upto_skip(b: MovingBox, frame: Seq<u8>, w: int, x: int, y: int)
    requires
        w >= 1,
        0 <= x < w,
        0 <= y,
        !b.covers(x, y),
    ensures
        rendered_upto(b, frame, w, y * w + x + 1) =~= rendered_upto(b, frame, w, y * w + x),
{
    let p = y * w + x;
    assert(p >= x) by (nonlinear_arith)
        requires
            y >= 0,
            w >= 1,
            p == y * w + x,
    ;
    assert forall|j: int| 0 <= j < frame.len() implies #[trigger] rendered_upto(b, frame, w, p + 1)[j]
        == rendered_upto(b, frame, w, p)[j] by {
        if j / 4 == p {
            lemma_fundamental_div_mod_converse(p, w, y, x);
        }
    }
}

/// Painting a covered pixel extends the rendered prefix by that pixel.
proof fn lemma_rendered_upto_write(b: MovingBox, frame: Seq<u8>, w: int, x: int, y: int)
    requires
        w >= 1,
        0 <= x < w,
        0 <= y,
        b.covers(x, y),
        4 * (y * w + x) + 4 <= frame.len(),
    ensures
        rendered_upto(b, frame, w, y * w + x + 1) =~= rendered_upto(b, frame, w, y * w + x).update(
            4 * (y * w + x),
            b.color.r,
        ).update(4 * (y * w + x) + 1, b.color.g).update(4 * (y * w + x) + 2, b.color.b).update(
            4 * (y * w + x) + 3,
            b.color.a,
        ),
{
    let p = y * w + x;
    assert(p >= x) by (nonlinear_arith)
        requires
            y >= 0,
            w >= 1,
            p == y * w + x,
    ;
    lemma_fundamental_div_mod_converse(p, w, y, x);
    assert forall|j: int| 0 <= j < frame.len() implies #[trigger] rendered_upto(b, frame, w, p + 1)[j]
        == rendered_upto(b, frame, w, p).update(4 * p, b.color.r).update(
        4 * p + 1,
        b.color.g,
    ).update(4 * p + 2, b.color.b).update(4 * p + 3, b.color.a)[j] by {
        lemma_fundamental_div_mod(j, 4);
        if 4 * p <= j < 4 * p + 4 {
            lemma_fundamental_div_mod_converse(j, 4, p, j - 4 * p);
        }
    }
}

/// Once every pixel of the canvas has been tested, the prefix rendering is
/// the box's whole draw pass.
proof fn lemma_rendered_complete(b: MovingBox, frame: Seq<u8>, w: int, h: int)
    requires
        w >= 1,
        h >= 1,
        frame.len() == w * h * 4,
    ensures
        rendered_upto(b, frame, w, h * w) =~= b.render_spec(frame, w),
{
    assert forall|j: int| 0 <= j < frame.len() implies #[trigger] rendered_upto(b, frame, w, h * w)[j]
        == b.render_spec(frame, w)[j] by {
        lemma_fundamental_div_mod(j, 4);
        assert(4 * (j / 4) <= j < w * h * 4);
        assert(j / 4 < w * h);
    }
}

impl GameObject for MovingBox {
    open spec fn wf(&self) -> bool {
        &&& 1 <= self.canvas_width <= 8000
        &&& 1 <= self.canvas_height <= 8000
        &&& axis_ok(
            self.box_x as int,
            self.velocity_x as int,
            self.size as int,
            self.canvas_width as int,
        )
        &&& axis_ok(
            self.box_y as int,
            self.velocity_y as int,
            self.size as int,
            self.canvas_height as int,
        )
    }

    open spec fn update_spec(&self) -> MovingBox {
        let nx = self.box_x + self.velocity_x;
        let ny = self.box_y + self.velocity_y;
        MovingBox {
            box_x: nx as i16,
            box_y: ny as i16,
            size: self.size,
            velocity_x: stepped_velocity(
                nx,
                self.velocity_x as int,
                self.size as int,
                self.canvas_width as int,
            ) as i16,
            velocity_y: stepped_velocity(
                ny,
                self.velocity_y as int,
                self.size as int,
                self.canvas_height as int,
            ) as i16,
            color: self.color,
            canvas_width: self.canvas_width,
            canvas_height: self.canvas_height,
        }
    }

    open spec fn render_spec(&self, frame: Seq<u8>, width: int) -> Seq<u8> {
        Seq::new(
            frame.len(),
            |j: int|
                if self.covers((j / 4) % width, (j / 4) / width) {
                    self.color.channel(j % 4)
                } else {
                    frame[j]
                },
        )
    }

    /// Moves the box one step and turns a velocity component around when
    /// the trailing edge crossed the far boundary or the leading edge
    /// crossed zero; the position keeps any overshoot.
    fn update(&mut self) {
        self.box_x = self.box_x + self.velocity_x;
        self.box_y = self.box_y + self.velocity_y;
        if self.box_x + self.size > self.canvas_width {
            self.velocity_x = -self.velocity_x;
        }
        if self.box_y + self.size > self.canvas_height {
            self.velocity_y = -self.velocity_y;
        }
        if self.box_x + self.size < self.size {
            self.velocity_x = -self.velocity_x;
        }
        if self.box_y + self.size < self.size {
            self.velocity_y = -self.velocity_y;
        }
    }

    /// Tests every pixel of the frame for membership in the box's
    /// rectangle; covered pixels get the box's color, the rest stay.
    fn render(&self, frame: &mut FrameBuffer) {
        let width = frame.width();
        let height = frame.height();
        let ghost w = frame.spec_width();
        let ghost h = frame.spec_height();
        let ghost f0 = frame@;
        let mut y: usize = 0;
        while y < height
            invariant
                y <= height,
                self.wf(),
                frame.wf(),
                frame.spec_width() == w,
                frame.spec_height() == h,
                width as int == w,
                height as int == h,
                frame@.len() == f0.len(),
                frame@ == rendered_upto(*self, f0, w, y as int * w),
            decreases height - y,
        {
            let mut x: usize = 0;
            while x < width
                invariant
                    x <= width,
                    y < height,
                    self.wf(),
                    frame.wf(),
                    frame.spec_width() == w,
                    frame.spec_height() == h,
                    width as int == w,
                    height as int == h,
                    frame@.len() == f0.len(),
                    frame@ == rendered_upto(*self, f0, w, y as int * w + x as int),
                decreases width - x,
            {
                let xi = x as i16;
                let yi = y as i16;
                let inside_the_box = xi >= self.box_x && xi < self.box_x + self.size && yi
                    >= self.box_y && yi < self.box_y + self.size;
                proof {
                    lemma_pixel_in_range(x as int, y as int, w, h);
                    assert(inside_the_box == self.covers(x as int, y as int));
                }
                if inside_the_box {
                    frame.set_pixel(x, y, self.color);
                    proof {
                        lemma_rendered_upto_write(*self, f0, w, x as int, y as int);
                    }
                } else {
                    proof {
                        lemma_rendered_upto_skip(*self, f0, w, x as int, y as int);
                    }
                }
                x = x + 1;
            }
            proof {
                assert((y as int + 1) * w == y as int * w + w) by (nonlinear_arith);
            }
            y = y + 1;
        }
        proof {
            lemma_rendered_complete(*self, f0, w, h);
        }
    }
}

/// A box at rest never changes: with both velocity components zero, one
/// update step returns the very same state, so every tick renders the
/// identical rectangle.
pub proof fn lemma_resting_box_is_fixed(b: MovingBox)
    requires
        b.wf(),
        b.velocity_x == 0,
        b.velocity_y == 0,
    ensures
        b.update_spec() == b,
{
}

/// A box at rest stays at rest through any number of update steps, so its
/// draw pass is the same on every tick.
pub proof fn lemma_resting_box_stays(b: MovingBox, n: nat, frame: Seq<u8>, width: int)
    requires
        b.wf(),
        b.velocity_x == 0,
        b.velocity_y == 0,
    ensures
        iter_update(b, n) == b,
        iter_update(b, n).render_spec(frame, width) == b.render_spec(frame, width),
    decreases n,
{
    if n > 0 {
        lemma_resting_box_stays(b, (n - 1) as nat, frame, width);
        lemma_resting_box_is_fixed(b);
    }
}

/// A box whose trailing edge sits exactly on the right boundary and moves
/// right overshoots by one step, has its horizontal velocity inverted, and
/// is never clamped back inside.
pub proof fn lemma_right_edge_reflects(b: MovingBox)
    requires
        b.wf(),
        b.velocity_x > 0,
        b.box_x + b.size == b.canvas_width,
    ensures
        b.update_spec().box_x as int == b.box_x + b.velocity_x,
        b.update_spec().velocity_x as int == -(b.velocity_x as int),
{
}

} // verus!
