//! A pixel-perfect camera compositor and a camera-follow rig for a small 3D
//! game, with every computation verified.
//!
//! The library owns the decision logic only: which integer zoom fits a window,
//! what scale the display camera gets, where the follow camera wants to be and
//! how it eases there.  The host engine (rendering, windowing, physics) runs
//! around it and hands in plain values.
//!
//! World-space quantities are carried in thousandths of a world unit
//! ("milli-units") so that all camera arithmetic is exact integer arithmetic;
//! interpolation factors are integer rationals.  The host converts to and from
//! its own floating-point types at the boundary.

pub mod compositor;
pub mod error;
pub mod milli;
pub mod player;
pub mod rig;
pub mod scale;
pub mod vec3;
