//! Drivers for networked actuators: wire formats, protocol rules and the state
//! machines of the tools around them.
pub mod bytes;
pub mod canbus;
pub mod clock;
pub mod damiao;
pub mod error;
pub mod feedback;
pub mod ids;
pub mod lkmotor;
pub mod progress;
pub mod robstride;
pub mod text;
pub mod tui;
