//! Errors of the Robstride driver.
use crate::error;
use vstd::prelude::*;
use vstd::string::*;

verus! {

/// What went wrong on the way to or from a Robstride motor.
#[derive(Debug)]
pub enum Error {
    /// The CAN socket failed.
    CanSocket(String),
    /// No response came in time.
    Timeout { motor_id: u8 },
    /// A response makes no sense.
    InvalidResponse(String),
    /// A frame cannot be sent.
    InvalidFrame(&'static str),
    /// The motor reports a fault.
    MotorFault { motor_id: u8, extra_data: u16 },
    /// A control command was issued before the motor was enabled.
    NotEnabled { motor_id: u8 },
}

/// The common error that a driver error becomes.
pub open spec fn common_error(e: Error) -> error::ErrorView {
    match e {
        Error::CanSocket(s) => error::ErrorView::Bus(s@),
        Error::Timeout { motor_id } => error::ErrorView::Timeout { motor_id },
        Error::InvalidResponse(s) => error::ErrorView::Protocol(s@),
        Error::InvalidFrame(s) => error::ErrorView::Protocol(s@),
        Error::MotorFault { motor_id, extra_data } => error::ErrorView::MotorFault {
            motor_id,
            code: extra_data as u32,
        },
        Error::NotEnabled { motor_id } => error::ErrorView::NotEnabled { motor_id },
    }
}

/// The text of a common error is not a value of the specification language, so
/// what [`From`] promises stands in its own `ensures`.
impl vstd::std_specs::convert::FromSpecImpl<Error> for error::Error {
    open spec fn obeys_from_spec() -> bool {
        false
    }

    open spec fn from_spec(e: Error) -> Self {
        arbitrary()
    }
}

impl From<Error> for error::Error {
    fn from(e: Error) -> (r: Self)
        ensures
            r@ == common_error(e),
    {
        match e {
            Error::CanSocket(s) => error::Error::Bus(s),
            Error::Timeout { motor_id } => error::Error::Timeout { motor_id },
            Error::InvalidResponse(s) => error::Error::Protocol(s),
            Error::InvalidFrame(s) => error::Error::Protocol(s.to_owned()),
            Error::MotorFault { motor_id, extra_data } => error::Error::MotorFault {
                motor_id,
                code: extra_data as u32,
            },
            Error::NotEnabled { motor_id } => error::Error::NotEnabled { motor_id },
        }
    }
}

/// A failure stays what it is: a silent motor is a timeout of that motor, a fault is a
/// fault of that motor with its data, a motor that is off is told as such, and texts
/// are kept.
pub proof fn law_errors_keep_their_meaning(e: Error)
    ensures
        e matches Error::Timeout { motor_id: id } ==> (common_error(e)
            matches error::ErrorView::Timeout { motor_id } && motor_id == id),
        e matches Error::NotEnabled { motor_id: id } ==> (common_error(e)
            matches error::ErrorView::NotEnabled { motor_id } && motor_id == id),
        e matches Error::MotorFault { motor_id: id, extra_data } ==> (common_error(e)
            matches error::ErrorView::MotorFault { motor_id, code } && motor_id == id && code
            == extra_data),
        e matches Error::CanSocket(s) ==> common_error(e) == error::ErrorView::Bus(s@),
        e matches Error::InvalidResponse(s) ==> common_error(e) == error::ErrorView::Protocol(s@),
        e matches Error::InvalidFrame(s) ==> common_error(e) == error::ErrorView::Protocol(s@),
{
}

} // verus!
