//! A fixed-timestep simulation-and-render loop.
//!
//! The loop engine (`PixelLoop`) decouples the simulation update rate from
//! the render rate with an accumulator, bounds worst-case catch-up work by
//! clamping frame deltas, and counts updates and renders per simulated
//! second.  Entities implement the `GameObject` capability (update one fixed
//! step; render into a frame buffer) and are driven in insertion order.

pub mod clock;
pub mod color;
pub mod frame;
pub mod game_object;
pub mod moving_box;
pub mod pixel_loop;

pub use clock::Clock;
pub use color::Color;
pub use frame::FrameBuffer;
pub use game_object::GameObject;
pub use moving_box::MovingBox;
pub use pixel_loop::{FpsReport, LoopModel, PixelLoop};
