//! A mathematics foundation: vectors of two, three and four components over
//! any scalar type, and quantities tagged with a physical unit (lengths and
//! plane angles) with the conversions between them.
//!
//! Scalars are described by the traits they implement: std's operator and
//! comparison traits, and this crate's `Zero`, `One`, `ScalarConst` and
//! `Clamp`. The contracts are stated over the specifications that Verus gives
//! those traits, so they pin results down for every scalar whose arithmetic
//! is specified, the integer types among them.
use vstd::prelude::*;

pub mod clamp;
pub mod lemmas;
pub mod scalar;
pub mod unit;
mod vec2;
mod vec3;
mod vec4;

pub use clamp::Clamp;
pub use scalar::{lerp, One, ScalarConst, Zero};
pub use vec2::{Vec2, Vec2Iterator};
pub use vec3::{Vec3, Vec3Iterator};
pub use vec4::{Vec4, Vec4Iterator};

verus! {

} // verus!
