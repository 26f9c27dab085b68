use pixel_loop::{Clock, Color, FrameBuffer, MovingBox, PixelLoop};

const DT_120: u64 = 1_000_000_000 / 120;

fn fresh_loop(fps: u64) -> PixelLoop<MovingBox> {
    PixelLoop::new(fps, FrameBuffer::new(320, 240))
}

#[test]
fn clock_samples_never_exceed_the_ceiling() {
    let mut clock = Clock::new();
    assert!(clock.sample() <= 100_000_000);
    assert!(clock.sample() <= 100_000_000);
}

#[test]
fn new_loop_has_truncated_timestep_and_zeroed_counters() {
    let pl = fresh_loop(120);
    assert_eq!(pl.dt_nanos(), 8_333_333);
    assert_eq!(pl.update_count(), 0);
    assert_eq!(pl.render_count(), 0);
    assert_eq!(pl.accumulator_nanos(), 0);
    assert_eq!(pl.object_count(), 0);
}

#[test]
fn highest_update_rate_gives_one_nanosecond_steps() {
    let pl = fresh_loop(1_000_000_000);
    assert_eq!(pl.dt_nanos(), 1);
}

#[test]
fn exactly_one_second_of_deltas_gives_exactly_120_updates() {
    // 80 ticks of dt and 40 of dt + 1 sum to exactly one second.
    let mut pl = fresh_loop(120);
    let mut fed: u64 = 0;
    for i in 0..120 {
        let delta = if i < 80 { DT_120 } else { DT_120 + 1 };
        fed += delta;
        assert!(pl.advance(delta).is_none());
    }
    assert_eq!(fed, 1_000_000_000);
    assert_eq!(pl.update_count(), 120);
    assert_eq!(pl.render_count(), 120);
    assert_eq!(pl.accumulator_nanos(), 40);
}

#[test]
fn render_runs_once_per_tick_even_with_zero_updates() {
    let mut pl = fresh_loop(120);
    assert!(pl.advance(0).is_none());
    assert_eq!(pl.update_count(), 0);
    assert_eq!(pl.render_count(), 1);
    assert!(pl.advance(100).is_none());
    assert_eq!(pl.update_count(), 0);
    assert_eq!(pl.render_count(), 2);
}

#[test]
fn accumulator_never_retains_a_whole_step() {
    let mut pl = fresh_loop(120);
    for delta in [0u64, 1, DT_120, 3 * DT_120 + 7, 100_000_000, 99_999_999] {
        pl.advance(delta);
        assert!(pl.accumulator_nanos() < pl.dt_nanos());
    }
}

#[test]
fn report_comes_once_simulated_time_passes_one_second() {
    // 10 updates per second: each tick of 100 ms consumes one whole step.
    let mut pl = fresh_loop(10);
    for _ in 0..10 {
        assert!(pl.advance(100_000_000).is_none());
    }
    // The 11th tick pushes consumed time to 1.1 s > 1 s: report and reset.
    let report = pl.advance(100_000_000).expect("a report is due");
    assert_eq!(report.updates, 11);
    assert_eq!(report.renders, 11);
    assert_eq!(pl.update_count(), 0);
    assert_eq!(pl.render_count(), 0);
    assert!(pl.advance(0).is_none());
    assert_eq!(pl.render_count(), 1);
}

#[test]
fn resting_box_renders_the_identical_rectangle_every_tick() {
    let mut pl = fresh_loop(120);
    pl.add_object(MovingBox::new(30, 40, 25, 0, 0, Color::new(5, 6, 7, 255), 320, 240));
    pl.advance(DT_120);
    let first = pl.frame_buffer().bytes().clone();
    pl.advance(DT_120);
    let second = pl.frame_buffer().bytes().clone();
    assert_eq!(first, second);
    let b = pl.get_object(0);
    assert_eq!((b.box_x, b.box_y), (30, 40));
    let idx = 4 * (40 * 320 + 30);
    assert_eq!(&first[idx..idx + 4], &[5, 6, 7, 255]);
}

#[test]
fn later_objects_win_overlapping_pixels() {
    let mut pl = fresh_loop(120);
    pl.add_object(MovingBox::new(10, 10, 20, 0, 0, Color::new(1, 0, 0, 255), 320, 240));
    pl.add_object(MovingBox::new(10, 10, 5, 0, 0, Color::new(2, 0, 0, 255), 320, 240));
    pl.advance(0);
    let bytes = pl.frame_buffer().bytes();
    let overlap = 4 * (12 * 320 + 12);
    assert_eq!(&bytes[overlap..overlap + 4], &[2, 0, 0, 255]);
    let only_first = 4 * (20 * 320 + 20);
    assert_eq!(&bytes[only_first..only_first + 4], &[1, 0, 0, 255]);
}

#[test]
fn end_to_end_box_reflects_off_the_boundaries() {
    // Canvas 320x240, one 50-pixel box at the origin moving (+1, +1) at
    // 120 updates per second, one whole step per tick.
    let mut pl = fresh_loop(120);
    pl.add_object(MovingBox::new(0, 0, 50, 1, 1, Color::new(9, 9, 9, 255), 320, 240));
    for _ in 0..270 {
        pl.advance(DT_120);
    }
    {
        let b = pl.get_object(0);
        // The bottom edge was crossed at step 191 (190 + 50 + 1 > 240):
        // the vertical velocity has flipped and the box is on its way up.
        assert_eq!(b.velocity_y, -1);
        assert_eq!(b.box_y, 112);
        // The trailing edge sits exactly on the right boundary: 270 + 50
        // is not yet past 320, so the horizontal velocity has not flipped.
        assert_eq!(b.box_x, 270);
        assert_eq!(b.velocity_x, 1);
    }
    pl.advance(DT_120);
    let b = pl.get_object(0);
    // One more step crosses the right boundary: overshoot kept, velocity
    // inverted.
    assert_eq!(b.box_x, 271);
    assert!(b.box_x + b.size > 320);
    assert_eq!(b.velocity_x, -1);
    assert_eq!(b.box_y, 111);
}
