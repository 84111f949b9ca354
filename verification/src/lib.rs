//! Escape-time Julia set renderer.
//!
//! The library evaluates the quadratic recurrence `z <- z^2 + c` over a
//! fixed-point model of the complex plane, renders the escape times of a
//! rectangular grid of starting points into a packed color buffer, and
//! drives an adaptive quality controller that trades resolution and
//! iteration budget for responsiveness while the viewport is changing.

pub mod color;
pub mod control;
pub mod escape;
pub mod fixed;
pub mod params;
pub mod render;

pub use color::{combine_color, get_component};
pub use control::{advance_tick, tier_for, CommandsArgs, Point};
pub use escape::{is_in, Complex};
pub use params::{ConfigError, JuliaArgs};
pub use render::{full_buffer, julia, pixel_color};
