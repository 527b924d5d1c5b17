//! The speeds of the gearbox, for code that speaks of speeds where the rest
//! of the crate speaks of gears.

use vstd::prelude::*;
use crate::gear_stick::Gear;

pub use crate::gear_stick::{expected_kmh, expected_rpm};

verus! {

/// One of the speeds of the gearbox: another name for [`Gear`].
pub type Speed = Gear;

} // verus!
