//! Fixed-point CORDIC: sine and cosine by coordinate rotation, using only
//! additions, subtractions and power-of-two scalings of sign-magnitude numbers.
//!
//! Coordinates are held in units of 2^-62, angles in units of 2^-60 radian.

pub mod angles;
pub mod pipeline;
pub mod power;
pub mod rotation;
pub mod sign_magnitude;
