//! Laws of the library: what holds of its regulators and of its controller beyond
//! a single call. Those that speak of the values that are set are stated for all number
//! types that compute without rounding (`reals`), or that can be read as integers
//! (`integers`); those of the barometer also for all whose arithmetic respects the
//! order; and the others for every number type.
pub mod barometer;
pub mod control;
pub mod determinacy;
pub mod events;
pub mod flight;
pub mod integers;
pub mod outset;
pub mod reals;
pub mod regulators;
pub mod sensing;
pub mod steering;
pub mod sticks;
pub mod thrusting;
