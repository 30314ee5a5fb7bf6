//! Errors of the DAMIAO driver.
use crate::error;
use crate::text;
use vstd::prelude::*;
use vstd::string::StringExecFns;

verus! {

/// What went wrong on the way to or from a DAMIAO motor.
#[derive(Debug)]
pub enum Error {
    /// The CAN socket failed.
    CanSocket(String),
    /// No response came in time.
    Timeout { motor_id: u8 },
    /// A response makes no sense here.
    InvalidResponse(String),
    /// The motor reports a fault.
    MotorFault { motor_id: u8, code: u8 },
    /// A control command was issued before the motor was enabled.
    NotEnabled { motor_id: u8 },
    /// The motor stays in another mode than the one asked for.
    ModeSwitchFailed { motor_id: u8, requested: i32, actual: i32 },
    /// A frame cannot be sent.
    InvalidFrame(&'static str),
    /// The model cannot do this.
    Unsupported { motor_id: u8, model: &'static str, op: &'static str },
}

/// What an error says to a person.
pub open spec fn error_text(e: Error) -> Seq<char> {
    match e {
        Error::CanSocket(s) => "CAN socket error: "@ + s@,
        Error::Timeout { motor_id } => "timeout waiting for response from motor "@ + text::dec(
            motor_id as nat,
        ),
        Error::InvalidResponse(s) => "invalid response: "@ + s@,
        Error::MotorFault { motor_id, code } => "motor "@ + text::dec(motor_id as nat)
            + " reported a fault (code 0x"@ + text::hex(code as nat, 1) + ")"@,
        Error::NotEnabled { motor_id } => "motor "@ + text::dec(motor_id as nat)
            + " is not enabled — call enable() before sending control commands"@,
        Error::ModeSwitchFailed { motor_id, requested, actual } => "mode switch to "@
            + text::dec_int(requested as int) + " not confirmed (motor "@ + text::dec(
            motor_id as nat,
        ) + " still reports "@ + text::dec_int(actual as int) + ")"@,
        Error::InvalidFrame(s) => "invalid CAN frame: "@ + s@,
        Error::Unsupported { motor_id, model, op } => "motor "@ + text::dec(motor_id as nat) + " ("@
            + model@ + ") does not support operation: "@ + op@,
    }
}

/// The common error that a driver error becomes.
pub open spec fn common_error(e: Error) -> error::ErrorView {
    match e {
        Error::CanSocket(s) => error::ErrorView::Bus(s@),
        Error::Timeout { motor_id } => error::ErrorView::Timeout { motor_id },
        Error::InvalidResponse(s) => error::ErrorView::Protocol(s@),
        Error::MotorFault { motor_id, code } => error::ErrorView::MotorFault {
            motor_id,
            code: code as u32,
        },
        Error::NotEnabled { motor_id } => error::ErrorView::NotEnabled { motor_id },
        Error::ModeSwitchFailed { motor_id, requested, actual } => error::ErrorView::Other(
            "motor "@ + text::dec(motor_id as nat) + ": mode switch to "@ + text::dec_int(
                requested as int,
            ) + " failed (still "@ + text::dec_int(actual as int) + ")"@,
        ),
        Error::InvalidFrame(s) => error::ErrorView::Protocol(s@),
        Error::Unsupported { op, .. } => error::ErrorView::Unsupported(op@),
    }
}

impl Error {
    /// The error as a sentence.
    pub fn message(&self) -> (r: String)
        ensures
            r@ == error_text(*self),
    {
        let mut out: String = String::new();
        match self {
            Error::CanSocket(s) => {
                out.append("CAN socket error: ");
                out.append(s.as_str());
            },
            Error::Timeout { motor_id } => {
                out.append("timeout waiting for response from motor ");
                text::push_dec(&mut out, *motor_id as u64);
            },
            Error::InvalidResponse(s) => {
                out.append("invalid response: ");
                out.append(s.as_str());
            },
            Error::MotorFault { motor_id, code } => {
                out.append("motor ");
                text::push_dec(&mut out, *motor_id as u64);
                out.append(" reported a fault (code 0x");
                text::push_hex(&mut out, *code as u64, 1);
                out.append(")");
            },
            Error::NotEnabled { motor_id } => {
                out.append("motor ");
                text::push_dec(&mut out, *motor_id as u64);
                out.append(" is not enabled — call enable() before sending control commands");
            },
            Error::ModeSwitchFailed { motor_id, requested, actual } => {
                out.append("mode switch to ");
                text::push_int(&mut out, *requested as i64);
                out.append(" not confirmed (motor ");
                text::push_dec(&mut out, *motor_id as u64);
                out.append(" still reports ");
                text::push_int(&mut out, *actual as i64);
                out.append(")");
            },
            Error::InvalidFrame(s) => {
                out.append("invalid CAN frame: ");
                out.append(s);
            },
            Error::Unsupported { motor_id, model, op } => {
                out.append("motor ");
                text::push_dec(&mut out, *motor_id as u64);
                out.append(" (");
                out.append(model);
                out.append(") does not support operation: ");
                out.append(op);
            },
        }
        assert(out@ =~= error_text(*self));
        out
    }
}

/// The text of a common error is not a value of the specification language, so
/// what [`From`] promises stands in its own `ensures`.
impl vstd::std_specs::convert::FromSpecImpl<Error> for error::Error {
    open spec fn obeys_from_spec() -> bool {
        false
    }

    open spec fn from_spec(e: Error) -> Self {
        arbitrary()
    }
}

impl From<Error> for error::Error {
    fn from(e: Error) -> (r: Self)
        ensures
            r@ == common_error(e),
    {
        match e {
            Error::CanSocket(s) => error::Error::Bus(s),
            Error::Timeout { motor_id } => error::Error::Timeout { motor_id },
            Error::InvalidResponse(s) => error::Error::Protocol(s),
            Error::MotorFault { motor_id, code } => error::Error::MotorFault {
                motor_id,
                code: code as u32,
            },
            Error::NotEnabled { motor_id } => error::Error::NotEnabled { motor_id },
            Error::ModeSwitchFailed { motor_id, requested, actual } => {
                let mut out: String = String::new();
                out.append("motor ");
                text::push_dec(&mut out, motor_id as u64);
                out.append(": mode switch to ");
                text::push_int(&mut out, requested as i64);
                out.append(" failed (still ");
                text::push_int(&mut out, actual as i64);
                out.append(")");
                assert(error::ErrorView::Other(out@) =~= common_error(e));
                error::Error::Other(out)
            },
            Error::InvalidFrame(s) => error::Error::Protocol(s.to_owned()),
            Error::Unsupported { op, .. } => error::Error::Unsupported(op),
        }
    }
}

/// A failure stays what it is: a silent motor is a timeout of that motor, a fault is a
/// fault of that motor with its code, a motor that is off is told as such, and texts
/// are kept.
pub proof fn law_errors_keep_their_meaning(e: Error)
    ensures
        e matches Error::Timeout { motor_id: id } ==> (common_error(e)
            matches error::ErrorView::Timeout { motor_id } && motor_id == id),
        e matches Error::NotEnabled { motor_id: id } ==> (common_error(e)
            matches error::ErrorView::NotEnabled { motor_id } && motor_id == id),
        e matches Error::MotorFault { motor_id: id, code: c } ==> (common_error(e)
            matches error::ErrorView::MotorFault { motor_id, code } && motor_id == id && code == c),
        e matches Error::CanSocket(s) ==> common_error(e) == error::ErrorView::Bus(s@),
        e matches Error::InvalidResponse(s) ==> common_error(e) == error::ErrorView::Protocol(s@),
        e matches Error::InvalidFrame(s) ==> common_error(e) == error::ErrorView::Protocol(s@),
        e matches Error::Unsupported { op, .. } ==> common_error(e)
            == error::ErrorView::Unsupported(op@),
        e is ModeSwitchFailed ==> common_error(e) is Other,
{
}

} // verus!
