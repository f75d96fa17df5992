//! Quantities tagged with a physical unit, and the conversions between the
//! units of one dimension: lengths (MM, CM, M, KM) and plane angles (Rad, Deg).
//! Each unit converts to every other unit of its dimension in one step, so a
//! conversion factor is applied once whatever the path.
use vstd::prelude::*;

pub mod cm;
pub mod deg;
pub mod km;
pub mod m;
pub mod mm;
pub mod rad;

pub use cm::{ToCM, CM};
pub use deg::{Deg, ToDeg};
pub use km::{ToKM, KM};
pub use m::{ToM, M};
pub use mm::{ToMM, MM};
pub use rad::{Rad, ToRad};

verus! {

} // verus!
