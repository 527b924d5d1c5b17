//! A manual gearbox on a fixed-point grid: the stick, the hand that moves
//! it, the engine and the road speed, advanced one tick at a time.
//!
//! Every quantity is an `i64` that counts thousandths: an offset of `-0.95`
//! is `-950`, an engine speed of 700 rpm is `700_000`. Whoever reads devices
//! or draws to a screen feeds [`input::Input`] and executes what
//! [`draw::all`] lays out; everything in between is decided here.

pub mod draw;
pub mod fixed;
pub mod gear;
pub mod gear_stick;
pub mod hand;
pub mod input;
pub mod key_map;
pub mod lerp;
pub mod powertrain;
pub mod simulation;
pub mod utils;
