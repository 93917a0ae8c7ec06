//! Camera calibration by Levenberg–Marquardt: the verified part.
//!
//! The parameter vector of a calibration holds the four pinhole intrinsics
//! `(fx, fy, cx, cy)` followed by six minimal SE(3) coordinates per image.
//! This crate fixes that layout, the layout of the residual vector and of the
//! block-structured Jacobian, validates problem dimensions, and drives the
//! damped Gauss-Newton iteration as an explicit state machine. The numeric
//! kernels (projection, Lie-group maps, the dense linear solve) run on
//! floating-point values outside this crate and hand their outcomes back.
pub mod error;
pub mod layout;
pub mod solver;
