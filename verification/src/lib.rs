//! On-board software of a blimp with four motors, each on a pair of servos: the
//! event handling and the control step of the flight controller, and the
//! regulators that it flies with.
pub mod attitude;
pub mod elementary;
pub mod laws;
pub mod layout;
pub mod manual;
pub mod messages;
pub mod number;
pub mod obsw_algo;
pub mod obsw_interface;
pub mod pid;
pub mod sensors;
pub mod thrust;
pub mod vector;
