//! A deterministic, per-frame 2D point-mass physics stepper and a small
//! geometric hit-region classifier.
//!
//! All quantities are fixed-point numbers: an `i64` counts thousandths of a
//! unit (`x == 1500` means one and a half units). Contracts state the result
//! of every step exactly, over mathematical integers.

pub mod num;
pub mod physics;
pub mod region;

pub use physics::Square;
pub use physics::calculate_position;
pub use region::check_on_image_map;
