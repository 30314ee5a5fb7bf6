//! The error type that all actuator drivers share.
use crate::text;
use vstd::prelude::*;
use vstd::string::StringExecFns;

verus! {

/// What went wrong with an actuator.
#[derive(Debug)]
pub enum Error {
    /// The transport (serial port, CAN socket, ...) failed.
    Bus(String),
    /// A frame could not be encoded, decoded or parsed.
    Protocol(String),
    /// No reply came from the motor in time.
    Timeout { motor_id: u8 },
    /// The motor reports a fault.
    MotorFault { motor_id: u8, code: u32 },
    /// A control command was issued before the motor was enabled.
    NotEnabled { motor_id: u8 },
    /// A position command was issued before a position anchor was set.
    PositionNotAnchored { motor_id: u8 },
    /// The motor id is outside the range that the firmware allows.
    InvalidMotorId(u8),
    /// The driver does not support the operation.
    Unsupported(&'static str),
    /// Any other failure of a driver.
    Other(String),
}

/// An [`Error`] with its texts as character sequences.
pub enum ErrorView {
    Bus(Seq<char>),
    Protocol(Seq<char>),
    Timeout { motor_id: u8 },
    MotorFault { motor_id: u8, code: u32 },
    NotEnabled { motor_id: u8 },
    PositionNotAnchored { motor_id: u8 },
    InvalidMotorId(u8),
    Unsupported(Seq<char>),
    Other(Seq<char>),
}

impl View for Error {
    type V = ErrorView;

    open spec fn view(&self) -> ErrorView {
        match self {
            Error::Bus(s) => ErrorView::Bus(s@),
            Error::Protocol(s) => ErrorView::Protocol(s@),
            Error::Timeout { motor_id } => ErrorView::Timeout { motor_id: *motor_id },
            Error::MotorFault { motor_id, code } => ErrorView::MotorFault {
                motor_id: *motor_id,
                code: *code,
            },
            Error::NotEnabled { motor_id } => ErrorView::NotEnabled { motor_id: *motor_id },
            Error::PositionNotAnchored { motor_id } => ErrorView::PositionNotAnchored {
                motor_id: *motor_id,
            },
            Error::InvalidMotorId(id) => ErrorView::InvalidMotorId(*id),
            Error::Unsupported(s) => ErrorView::Unsupported(s@),
            Error::Other(s) => ErrorView::Other(s@),
        }
    }
}

/// What an error says to a person.
pub open spec fn error_text(e: ErrorView) -> Seq<char> {
    match e {
        ErrorView::Bus(s) => "bus/transport: "@ + s,
        ErrorView::Protocol(s) => "protocol: "@ + s,
        ErrorView::Timeout { motor_id } => "timeout waiting for response from motor "@ + text::dec(
            motor_id as nat,
        ),
        ErrorView::MotorFault { motor_id, code } => "motor "@ + text::dec(motor_id as nat)
            + " reported a fault (code 0x"@ + text::hex(code as nat, 8) + ")"@,
        ErrorView::NotEnabled { motor_id } => "motor "@ + text::dec(motor_id as nat)
            + " is not enabled — call enable() first"@,
        ErrorView::PositionNotAnchored { motor_id } => "motor "@ + text::dec(motor_id as nat)
            + ": position not anchored — call set_zero() first"@,
        ErrorView::InvalidMotorId(id) => "invalid motor id "@ + text::dec(id as nat),
        ErrorView::Unsupported(s) => "operation not supported by this driver: "@ + s,
        ErrorView::Other(s) => "driver: "@ + s,
    }
}

impl Error {
    /// A transport error with the text of `e`.
    pub fn bus<E: core::fmt::Display>(e: E) -> (r: Self)
        ensures
            r matches Error::Bus(s) && vstd::string::to_string_from_display_ensures::<E>(&e, s),
    {
        Error::Bus(e.to_string())
    }

    /// A protocol error with the text of `e`.
    pub fn protocol<E: core::fmt::Display>(e: E) -> (r: Self)
        ensures
            r matches Error::Protocol(s) && vstd::string::to_string_from_display_ensures::<E>(
                &e,
                s,
            ),
    {
        Error::Protocol(e.to_string())
    }

    /// A driver error with the text of `e`.
    pub fn other<E: core::fmt::Display>(e: E) -> (r: Self)
        ensures
            r matches Error::Other(s) && vstd::string::to_string_from_display_ensures::<E>(&e, s),
    {
        Error::Other(e.to_string())
    }

    /// The error as a sentence.
    pub fn message(&self) -> (r: String)
        ensures
            r@ == error_text(self@),
    {
        let mut out: String = String::new();
        match self {
            Error::Bus(s) => {
                out.append("bus/transport: ");
                out.append(s.as_str());
            },
            Error::Protocol(s) => {
                out.append("protocol: ");
                out.append(s.as_str());
            },
            Error::Timeout { motor_id } => {
                out.append("timeout waiting for response from motor ");
                text::push_dec(&mut out, *motor_id as u64);
            },
            Error::MotorFault { motor_id, code } => {
                out.append("motor ");
                text::push_dec(&mut out, *motor_id as u64);
                out.append(" reported a fault (code 0x");
                text::push_hex(&mut out, *code as u64, 8);
                out.append(")");
            },
            Error::NotEnabled { motor_id } => {
                out.append("motor ");
                text::push_dec(&mut out, *motor_id as u64);
                out.append(" is not enabled — call enable() first");
            },
            Error::PositionNotAnchored { motor_id } => {
                out.append("motor ");
                text::push_dec(&mut out, *motor_id as u64);
                out.append(": position not anchored — call set_zero() first");
            },
            Error::InvalidMotorId(id) => {
                out.append("invalid motor id ");
                text::push_dec(&mut out, *id as u64);
            },
            Error::Unsupported(s) => {
                out.append("operation not supported by this driver: ");
                out.append(s);
            },
            Error::Other(s) => {
                out.append("driver: ");
                out.append(s.as_str());
            },
        }
        assert(out@ =~= error_text(self@));
        out
    }
}

} // verus!
