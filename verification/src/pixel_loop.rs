use vstd::prelude::*;

use crate::clock::{Clock, MAX_FRAME_DELTA_NANOS};
use crate::frame::{zero_frame, FrameBuffer};
use crate::game_object::{iter_update, lemma_render_all_push, render_all, GameObject};
use vstd::arithmetic::div_mod::{
    lemma_fundamental_div_mod, lemma_fundamental_div_mod_converse,
    lemma_mod_division_less_than_divisor,
};

verus! {

/// One second, in nanoseconds: the length of a throughput-report window.
pub const NANOS_PER_SECOND: u64 = 1_000_000_000;

/// One throughput report: how many update steps ran and how many frames
/// were rendered during the elapsed window of simulated time.
#[derive(Clone, Copy, PartialEq, Eq, Structural, Debug)]
pub struct FpsReport {
    pub updates: u64,
    pub renders: u64,
}

/// The mathematical state of the loop engine: everything its contracts
/// speak about.  Durations are in whole nanoseconds.
pub struct LoopModel<T> {
    /// The registered entities, in insertion (= update and render) order.
    pub objects: Seq<T>,
    /// Elapsed time not yet consumed by whole update steps.
    pub accumulator: int,
    /// The fixed timestep: simulated time advanced by one update step.
    pub dt: int,
    /// Simulated time consumed since the last throughput report.
    pub time: int,
    /// Update steps run since the last report.
    pub update_called: int,
    /// Render passes issued since the last report.
    pub render_called: int,
    /// The frame sink's bytes.
    pub frame: Seq<u8>,
    /// The frame sink's width, in pixels.
    pub width: int,
    /// The frame sink's height, in pixels.
    pub height: int,
}

impl<T: GameObject> LoopModel<T> {
    pub open spec fn wf(self) -> bool {
        &&& 1 <= self.dt <= NANOS_PER_SECOND as int
        &&& 0 <= self.accumulator < self.dt
        &&& 0 <= self.time <= NANOS_PER_SECOND as int
        &&& 0 <= self.update_called <= self.time
        &&& 0 <= self.render_called
        &&& 1 <= self.width <= 8000
        &&& 1 <= self.height <= 8000
        &&& self.frame.len() == self.width * self.height * 4
        &&& forall|i: int| 0 <= i < self.objects.len() ==> (#[trigger] self.objects[i]).wf()
    }
}

/// What one `tick` fed the frame delta `delta` does: the accumulator grows
/// by the delta and is drained in whole `dt` steps, each stepping every
/// object once in order; then the frame is cleared and every object draws
/// over it once, in order; and once more than a second of simulated time
/// has been consumed, the counters are reported and reset.
pub open spec fn tick_rel<T: GameObject>(
    pre: LoopModel<T>,
    post: LoopModel<T>,
    report: Option<FpsReport>,
    delta: u64,
) -> bool {
    let acc0 = pre.accumulator + delta as int;
    let steps = acc0 / pre.dt;
    let updates = pre.update_called + steps;
    let renders = pre.render_called + 1;
    let time = pre.time + steps * pre.dt;
    &&& post.dt == pre.dt
    &&& post.width == pre.width
    &&& post.height == pre.height
    &&& post.accumulator == acc0 % pre.dt
    &&& post.objects == Seq::new(
        pre.objects.len(),
        |i: int| iter_update(pre.objects[i], steps as nat),
    )
    &&& post.frame == render_all(post.objects, zero_frame(pre.frame.len()), pre.width)
    &&& (if time > NANOS_PER_SECOND as int {
        &&& report == Some((FpsReport { updates: updates as u64, renders: renders as u64 }))
        &&& post.update_called == 0
        &&& post.render_called == 0
        &&& post.time == 0
    } else {
        &&& report is None
        &&& post.update_called == updates
        &&& post.render_called == renders
        &&& post.time == time
    })
}

/// The fixed-timestep loop engine.  Each `next_loop` measures the frame
/// delta, folds it into the accumulator, runs zero or more whole update
/// steps over all registered objects, then renders every object into the
/// frame exactly once, and reports throughput once per simulated second.
pub struct PixelLoop<T: GameObject> {
    objects: Vec<T>,
    clock: Clock,
    accumulator: u64,
    time: u64,
    dt: u64,
    update_called: u64,
    render_called: u64,
    frame: FrameBuffer,
}

impl<T: GameObject> View for PixelLoop<T> {
    type V = LoopModel<T>;

    closed spec fn view(&self) -> LoopModel<T> {
        LoopModel {
            objects: self.objects@,
            accumulator: self.accumulator as int,
            dt: self.dt as int,
            time: self.time as int,
            update_called: self.update_called as int,
            render_called: self.render_called as int,
            frame: self.frame@,
            width: self.frame.spec_width(),
            height: self.frame.spec_height(),
        }
    }
}

impl<T: GameObject> PixelLoop<T> {
    pub open spec fn wf(&self) -> bool {
        self@.wf()
    }

    /// A loop that will advance the simulation `update_fps` times per
    /// simulated second (the fixed timestep is `1s / update_fps`,
    /// truncated to whole nanoseconds) and render into `frame`.
    pub fn new(update_fps: u64, frame: FrameBuffer) -> (pl: PixelLoop<T>)
        requires
            1 <= update_fps <= NANOS_PER_SECOND,
            frame.wf(),
        ensures
            pl.wf(),
            pl@.objects == Seq::<T>::empty(),
            pl@.accumulator == 0,
            pl@.time == 0,
            pl@.update_called == 0,
            pl@.render_called == 0,
            pl@.dt == NANOS_PER_SECOND as int / update_fps as int,
            pl@.frame == frame@,
            pl@.width == frame.spec_width(),
            pl@.height == frame.spec_height(),
    {
        proof {
            vstd::arithmetic::div_mod::lemma_div_non_zero(
                NANOS_PER_SECOND as int,
                update_fps as int,
            );
            vstd::arithmetic::div_mod::lemma_div_nonincreasing(
                NANOS_PER_SECOND as int,
                update_fps as int,
            );
        }
        PixelLoop {
            objects: Vec::new(),
            clock: Clock::new(),
            accumulator: 0,
            time: 0,
            dt: NANOS_PER_SECOND / update_fps,
            update_called: 0,
            render_called: 0,
            frame,
        }
    }

    /// Hands an entity to the loop; it is updated and rendered after all
    /// previously added ones, from the next tick on.
    pub fn add_object(&mut self, object: T)
        requires
            old(self).wf(),
            object.wf(),
        ensures
            final(self).wf(),
            final(self)@.objects == old(self)@.objects.push(object),
            final(self)@.accumulator == old(self)@.accumulator,
            final(self)@.dt == old(self)@.dt,
            final(self)@.time == old(self)@.time,
            final(self)@.update_called == old(self)@.update_called,
            final(self)@.render_called == old(self)@.render_called,
            final(self)@.frame == old(self)@.frame,
            final(self)@.width == old(self)@.width,
            final(self)@.height == old(self)@.height,
    {
        self.objects.push(object);
        proof {
            assert forall|i: int| 0 <= i < self.objects@.len() implies (
            #[trigger] self.objects@[i]).wf() by {
                if i < old(self)@.objects.len() {
                    assert(self.objects@[i] == old(self)@.objects[i]);
                }
            }
        }
    }

    /// One loop iteration driven by the real clock: samples the frame
    /// delta (clamped, so a stall never causes an unbounded burst of
    /// catch-up work) and advances by it.
    pub fn next_loop(&mut self) -> (report: Option<FpsReport>)
        requires
            old(self).wf(),
            old(self)@.render_called < u64::MAX as int,
        ensures
            final(self).wf(),
            final(self)@.accumulator < final(self)@.dt,
            exists|delta: u64|
                delta <= MAX_FRAME_DELTA_NANOS && #[trigger] tick_rel(
                    old(self)@,
                    final(self)@,
                    report,
                    delta,
                ),
    {
        let delta = self.clock.sample();
        let report = self.advance(delta);
        proof {
            assert(tick_rel(old(self)@, self@, report, delta));
        }
        report
    }

    /// One loop iteration fed an externally measured frame delta: the
    /// whole tick except the clock read, deterministic in `frame_delta`.
    #[verifier::loop_isolation(false)]
    pub fn advance(&mut self, frame_delta: u64) -> (report: Option<FpsReport>)
        requires
            old(self).wf(),
            frame_delta <= MAX_FRAME_DELTA_NANOS,
            old(self)@.render_called < u64::MAX as int,
        ensures
            final(self).wf(),
            final(self)@.accumulator < final(self)@.dt,
            tick_rel(old(self)@, final(self)@, report, frame_delta),
    {
        let ghost m0 = self@;
        let ghost acc0 = m0.accumulator + frame_delta as int;
        self.accumulator = self.accumulator + frame_delta;
        let ghost mut steps: int = 0;
        while self.accumulator >= self.dt
            invariant
                0 <= steps,
                self.dt as int == m0.dt,
                self.accumulator as int == acc0 - steps * m0.dt,
                self.time as int == m0.time + steps * m0.dt,
                self.update_called as int == m0.update_called + steps,
                self.render_called as int == m0.render_called,
                self.frame@ == m0.frame,
                self.frame.spec_width() == m0.width,
                self.frame.spec_height() == m0.height,
                self.objects@.len() == m0.objects.len(),
                self.objects@ == Seq::new(
                    m0.objects.len(),
                    |k: int| iter_update(m0.objects[k], steps as nat),
                ),
                forall|k: int|
                    0 <= k < self.objects@.len() ==> (#[trigger] self.objects@[k]).wf(),
            decreases self.accumulator,
        {
            let ghost before_inner = *self;
            let n = self.objects.len();
            let mut i: usize = 0;
            while i < n
                invariant
                    i <= n,
                    self.objects@.len() == n,
                    self.dt == before_inner.dt,
                    self.accumulator == before_inner.accumulator,
                    self.time == before_inner.time,
                    self.update_called == before_inner.update_called,
                    self.render_called == before_inner.render_called,
                    self.clock == before_inner.clock,
                    self.frame == before_inner.frame,
                    forall|k: int|
                        0 <= k < i ==> #[trigger] self.objects@[k]
                            == before_inner.objects@[k].update_spec(),
                    forall|k: int| i <= k < n ==> #[trigger] self.objects@[k]
                        == before_inner.objects@[k],
                    forall|k: int|
                        0 <= k < n ==> (#[trigger] self.objects@[k]).wf(),
                decreases n - i,
            {
                let obj = &mut self.objects[i];
                obj.update();
                i = i + 1;
            }
            proof {
                assert(steps <= steps * m0.dt) by (nonlinear_arith)
                    requires
                        steps >= 0,
                        m0.dt >= 1,
                ;
                assert(steps * m0.dt <= acc0);
            }
            self.update_called = self.update_called + 1;
            self.accumulator = self.accumulator - self.dt;
            self.time = self.time + self.dt;
            proof {
                assert((steps + 1) * m0.dt == steps * m0.dt + m0.dt) by (nonlinear_arith);
                assert forall|k: int| 0 <= k < m0.objects.len() implies #[trigger] self.objects@[k]
                    == iter_update(m0.objects[k], (steps + 1) as nat) by {
                    assert(iter_update(m0.objects[k], (steps + 1) as nat) == iter_update(
                        m0.objects[k],
                        steps as nat,
                    ).update_spec());
                    assert(before_inner.objects@[k] == iter_update(m0.objects[k], steps as nat));
                }
                steps = steps + 1;
                assert(self.objects@ =~= Seq::new(
                    m0.objects.len(),
                    |k: int| iter_update(m0.objects[k], steps as nat),
                ));
            }
        }
        proof {
            lemma_fundamental_div_mod_converse(acc0, m0.dt, steps, self.accumulator as int);
        }
        self.frame.clear();
        let ghost mid = *self;
        let n = self.objects.len();
        let mut i: usize = 0;
        while i < n
            invariant
                i <= n,
                self.objects@.len() == n,
                self.dt == mid.dt,
                self.accumulator == mid.accumulator,
                self.time == mid.time,
                self.update_called == mid.update_called,
                self.render_called == mid.render_called,
                self.clock == mid.clock,
                self.objects@ == mid.objects@,
                self.frame.wf(),
                self.frame.spec_width() == m0.width,
                self.frame.spec_height() == m0.height,
                self.frame@ == render_all(
                    self.objects@.subrange(0, i as int),
                    zero_frame(m0.frame.len()),
                    m0.width,
                ),
            decreases n - i,
        {
            let obj = &self.objects[i];
            obj.render(&mut self.frame);
            proof {
                lemma_render_all_push(
                    mid.objects@.subrange(0, i as int),
                    mid.objects@[i as int],
                    zero_frame(m0.frame.len()),
                    m0.width,
                );
                assert(mid.objects@.subrange(0, i as int + 1) =~= mid.objects@.subrange(
                    0,
                    i as int,
                ).push(mid.objects@[i as int]));
            }
            i = i + 1;
        }
        proof {
            assert(self.objects@.subrange(0, n as int) =~= self.objects@);
        }
        self.render_called = self.render_called + 1;
        proof {
            assert(steps <= steps * m0.dt) by (nonlinear_arith)
                requires
                    steps >= 0,
                    m0.dt >= 1,
            ;
        }
        if self.time > NANOS_PER_SECOND {
            let rep = self.display_fps();
            Some(rep)
        } else {
            None
        }
    }

    /// Closes the current throughput window: returns how many updates ran
    /// and how many renders were issued during it, and starts a fresh
    /// window with zeroed counters.  Formatting or emitting the report is
    /// the caller's business: the loop only says when and what.
    pub fn display_fps(&mut self) -> (report: FpsReport)
        ensures
            report.updates as int == old(self)@.update_called,
            report.renders as int == old(self)@.render_called,
            final(self)@.update_called == 0,
            final(self)@.render_called == 0,
            final(self)@.time == 0,
            final(self)@.objects == old(self)@.objects,
            final(self)@.accumulator == old(self)@.accumulator,
            final(self)@.dt == old(self)@.dt,
            final(self)@.frame == old(self)@.frame,
            final(self)@.width == old(self)@.width,
            final(self)@.height == old(self)@.height,
    {
        let report = FpsReport { updates: self.update_called, renders: self.render_called };
        self.time = 0;
        self.update_called = 0;
        self.render_called = 0;
        report
    }

    pub fn update_count(&self) -> (n: u64)
        ensures
            n as int == self@.update_called,
    {
        self.update_called
    }

    pub fn render_count(&self) -> (n: u64)
        ensures
            n as int == self@.render_called,
    {
        self.render_called
    }

    pub fn accumulator_nanos(&self) -> (n: u64)
        ensures
            n as int == self@.accumulator,
    {
        self.accumulator
    }

    pub fn dt_nanos(&self) -> (n: u64)
        ensures
            n as int == self@.dt,
    {
        self.dt
    }

    pub fn object_count(&self) -> (n: usize)
        ensures
            n as int == self@.objects.len(),
    {
        self.objects.len()
    }

    pub fn get_object(&self, i: usize) -> (object: &T)
        requires
            i < self@.objects.len(),
        ensures
            *object == self@.objects[i as int],
    {
        &self.objects[i]
    }

    pub fn frame_buffer(&self) -> (frame: &FrameBuffer)
        ensures
            frame@ == self@.frame,
            frame.spec_width() == self@.width,
            frame.spec_height() == self@.height,
    {
        &self.frame
    }
}

/// One tick that reports nothing conserves the accounting quantity
/// dt·updates + accumulator, growing it by exactly the delta fed in, and
/// renders exactly once.
pub proof fn lemma_tick_accounting<T: GameObject>(
    pre: LoopModel<T>,
    post: LoopModel<T>,
    delta: u64,
)
    requires
        pre.dt >= 1,
        pre.accumulator >= 0,
        tick_rel(pre, post, None, delta),
    ensures
        post.dt == pre.dt,
        post.update_called * pre.dt + post.accumulator == pre.update_called * pre.dt
            + pre.accumulator + delta,
        post.render_called == pre.render_called + 1,
        0 <= post.accumulator < pre.dt,
{
    let acc0 = pre.accumulator + delta as int;
    let steps = acc0 / pre.dt;
    lemma_fundamental_div_mod(acc0, pre.dt);
    lemma_mod_division_less_than_divisor(acc0, pre.dt);
    assert((pre.update_called + steps) * pre.dt == pre.update_called * pre.dt + steps * pre.dt)
        by (nonlinear_arith);
    assert(steps * pre.dt == pre.dt * steps) by (nonlinear_arith);
}

/// Relates a starting state to the state after feeding each delta of
/// `deltas`, in order, to one tick, none of which reported.
pub open spec fn run_rel<T: GameObject>(
    pre: LoopModel<T>,
    post: LoopModel<T>,
    deltas: Seq<u64>,
) -> bool
    decreases deltas.len(),
{
    if deltas.len() == 0 {
        post == pre
    } else {
        exists|mid: LoopModel<T>|
            #[trigger] tick_rel(pre, mid, None, deltas[0]) && run_rel(
                mid,
                post,
                deltas.subrange(1, deltas.len() as int),
            )
    }
}

/// Total of a sequence of frame deltas, in nanoseconds.
pub open spec fn sum_deltas(deltas: Seq<u64>) -> int
    decreases deltas.len(),
{
    if deltas.len() == 0 {
        0
    } else {
        deltas[0] + sum_deltas(deltas.subrange(1, deltas.len() as int))
    }
}

/// Determinism of the accumulator arithmetic, accounting form: over any
/// run of ticks none of which reported, dt·updates + accumulator grows by
/// exactly the summed deltas, and the render count by exactly one per
/// tick, whatever the deltas were.
pub proof fn lemma_run_accounting<T: GameObject>(
    pre: LoopModel<T>,
    post: LoopModel<T>,
    deltas: Seq<u64>,
)
    requires
        pre.dt >= 1,
        pre.accumulator >= 0,
        run_rel(pre, post, deltas),
    ensures
        post.dt == pre.dt,
        post.update_called * pre.dt + post.accumulator == pre.update_called * pre.dt
            + pre.accumulator + sum_deltas(deltas),
        post.render_called == pre.render_called + deltas.len(),
        post.accumulator >= 0,
        deltas.len() > 0 ==> post.accumulator < pre.dt,
    decreases deltas.len(),
{
    if deltas.len() > 0 {
        let rest = deltas.subrange(1, deltas.len() as int);
        let mid = choose|mid: LoopModel<T>|
            #[trigger] tick_rel(pre, mid, None, deltas[0]) && run_rel(mid, post, rest);
        lemma_tick_accounting(pre, mid, deltas[0]);
        lemma_run_accounting(mid, post, rest);
        if rest.len() == 0 {
            assert(post == mid);
        }
    }
}

/// Throughput determinism: a freshly started scheduler (empty accumulator,
/// zeroed counters) that consumes frame deltas summing to `S` simulated
/// nanoseconds without closing a report window has run exactly `S / dt`
/// update steps — for an update rate whose step count `n` satisfies
/// `n·dt <= S < (n+1)·dt`, exactly `n` — and has rendered exactly once per
/// tick.
pub proof fn lemma_one_second_throughput<T: GameObject>(
    pre: LoopModel<T>,
    post: LoopModel<T>,
    deltas: Seq<u64>,
    n: int,
)
    requires
        pre.dt >= 1,
        pre.accumulator == 0,
        pre.update_called == 0,
        pre.render_called == 0,
        run_rel(pre, post, deltas),
        n * pre.dt <= sum_deltas(deltas),
        sum_deltas(deltas) < (n + 1) * pre.dt,
    ensures
        post.update_called == n,
        post.render_called == deltas.len(),
        post.accumulator == sum_deltas(deltas) - n * pre.dt,
{
    lemma_run_accounting(pre, post, deltas);
    if deltas.len() == 0 {
        assert(post.update_called == n) by (nonlinear_arith)
            requires
                post == pre,
                pre.update_called == 0,
                pre.accumulator == 0,
                pre.dt >= 1,
                n * pre.dt <= 0,
                0 < (n + 1) * pre.dt,
        ;
    } else {
        assert(post.update_called == n) by (nonlinear_arith)
            requires
                post.update_called * pre.dt + post.accumulator == sum_deltas(deltas),
                n * pre.dt <= sum_deltas(deltas),
                sum_deltas(deltas) < (n + 1) * pre.dt,
                0 <= post.accumulator < pre.dt,
                pre.dt >= 1,
        ;
    }
}

} // verus!
