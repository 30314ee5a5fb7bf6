//! Robstride servo motors on CAN.
//!
//! The layout of the frames is a [`codec::Codec`]; the rules of the driver, which
//! do not depend on it, are here.
pub mod actuator;
pub mod bus;
pub mod codec;
pub mod driver;
pub mod error;
pub mod plan;
pub mod scan;
