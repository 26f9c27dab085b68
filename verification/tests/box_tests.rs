use pixel_loop::{Color, FrameBuffer, GameObject, MovingBox};

fn color() -> Color {
    Color::new(10, 20, 30, 255)
}

#[test]
fn color_as_list_gives_rgba_bytes() {
    let c = Color::new(1, 2, 3, 4);
    assert_eq!(c.as_list(), [1, 2, 3, 4]);
}

#[test]
fn box_moves_by_velocity_each_step() {
    let mut b = MovingBox::new(0, 0, 50, 1, 1, color(), 320, 240);
    b.update();
    assert_eq!((b.box_x, b.box_y), (1, 1));
    assert_eq!((b.velocity_x, b.velocity_y), (1, 1));
    b.update();
    assert_eq!((b.box_x, b.box_y), (2, 2));
}

#[test]
fn right_edge_reflects_and_keeps_overshoot() {
    // Trailing edge exactly on the right boundary, moving right: the next
    // step overshoots by the velocity, inverts it, and never clamps back.
    let mut b = MovingBox::new(270, 100, 50, 3, 0, color(), 320, 240);
    b.update();
    assert_eq!(b.box_x, 273);
    assert!(b.box_x + b.size > 320);
    assert_eq!(b.velocity_x, -3);
    b.update();
    assert_eq!(b.box_x, 270);
    assert_eq!(b.velocity_x, -3);
}

#[test]
fn left_edge_reflects_and_keeps_overshoot() {
    let mut b = MovingBox::new(0, 100, 50, -2, 0, color(), 320, 240);
    b.update();
    assert_eq!(b.box_x, -2);
    assert_eq!(b.velocity_x, 2);
    b.update();
    assert_eq!(b.box_x, 0);
    assert_eq!(b.velocity_x, 2);
}

#[test]
fn bottom_edge_reflects() {
    let mut b = MovingBox::new(0, 190, 50, 0, 1, color(), 320, 240);
    b.update();
    assert_eq!(b.box_y, 191);
    assert!(b.box_y + b.size > 240);
    assert_eq!(b.velocity_y, -1);
}

#[test]
fn render_paints_exactly_the_rectangle() {
    let mut frame = FrameBuffer::new(8, 6);
    let b = MovingBox::new(2, 1, 3, 0, 0, Color::new(9, 8, 7, 6), 8, 6);
    b.render(&mut frame);
    let bytes = frame.bytes();
    // Covered: x in 2..5, y in 1..4.
    let covered = 4 * (1 * 8 + 2);
    assert_eq!(&bytes[covered..covered + 4], &[9, 8, 7, 6]);
    let corner = 4 * (3 * 8 + 4);
    assert_eq!(&bytes[corner..corner + 4], &[9, 8, 7, 6]);
    // Just outside the rectangle: untouched zeroes.
    let left_of = 4 * (1 * 8 + 1);
    assert_eq!(&bytes[left_of..left_of + 4], &[0, 0, 0, 0]);
    let right_of = 4 * (1 * 8 + 5);
    assert_eq!(&bytes[right_of..right_of + 4], &[0, 0, 0, 0]);
    let above = 4 * (0 * 8 + 2);
    assert_eq!(&bytes[above..above + 4], &[0, 0, 0, 0]);
}

#[test]
fn render_leaves_uncovered_pixels_as_they_were() {
    let mut frame = FrameBuffer::new(8, 6);
    frame.set_pixel(0, 0, Color::new(1, 1, 1, 1));
    let b = MovingBox::new(2, 1, 3, 0, 0, Color::new(9, 8, 7, 6), 8, 6);
    b.render(&mut frame);
    assert_eq!(&frame.bytes()[0..4], &[1, 1, 1, 1]);
}

#[test]
fn clear_zeroes_every_byte() {
    let mut frame = FrameBuffer::new(8, 6);
    frame.set_pixel(3, 2, Color::new(1, 2, 3, 4));
    frame.clear();
    assert!(frame.bytes().iter().all(|&byte| byte == 0));
    assert_eq!(frame.bytes().len(), 8 * 6 * 4);
}
