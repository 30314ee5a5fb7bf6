//! DAMIAO servo motors on CAN and CAN-FD.
pub mod actuator;
pub mod bus;
pub mod can_id;
pub mod cli;
pub mod driver;
pub mod error;
pub mod feedback;
pub mod frame;
pub mod limits;
pub mod register;
pub mod scan;
