//! LKMTech V3 servo motors (MG, MS, RMD-X) on RS485.
pub mod bus;
pub mod command;
pub mod driver;
pub mod error;
pub mod frame;
pub mod lk_motor;
pub mod motor;
pub mod motor_id;
pub mod request;
pub mod response;
