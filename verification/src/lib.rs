//! Fixed-point kinematics of a keyboard-driven car.
//!
//! All quantities are integers in fixed units, so that every update is exact:
//! speeds are counted in thousandths of a length unit per tick, headings in
//! steering steps of 0.02 radians about the vertical axis, direction
//! components in millionths, and positions in billionths of a length unit
//! (the product of the speed and direction units).

pub mod keys;
pub mod laws;
pub mod motion;
pub mod player;
pub mod scene;
pub mod vector;
pub mod velocity;
