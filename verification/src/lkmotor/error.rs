//! Errors of the LK motor driver.
use crate::error;
use crate::lkmotor::frame::{DecodeError, EncodeError};
use crate::lkmotor::response::ParseError;
use crate::text;
use vstd::prelude::*;
use vstd::string::StringExecFns;

verus! {

/// What went wrong on the way to or from an LK motor.
#[derive(Debug)]
pub enum Error {
    /// The serial port could not be opened or set up.
    SerialPort(String),
    /// Reading or writing failed.
    Io(String),
    /// A request could not be encoded.
    Encode(EncodeError),
    /// A response could not be decoded.
    Decode(DecodeError),
    /// A response could not be read.
    Parse(ParseError),
    /// No response came in time.
    Timeout { motor_id: u8 },
    /// A response came from a motor that was not asked.
    UnexpectedResponse { command: u8, motor_id: u8, expected_motor_id: u8 },
    /// Not a motor address.
    InvalidMotorId(u8),
    /// A position command came before the zero anchor was set.
    PositionNotAnchored { motor_id: u8 },
}

/// `name { a: x, b: y }`, with both values in decimal.
pub open spec fn two_fields(name: Seq<char>, a: Seq<char>, x: nat, b: Seq<char>, y: nat) -> Seq<
    char,
> {
    name + " { "@ + a + ": "@ + text::dec(x) + ", "@ + b + ": "@ + text::dec(y) + " }"@
}

/// `name { a: x }`, with the value in decimal.
pub open spec fn one_field(name: Seq<char>, a: Seq<char>, x: nat) -> Seq<char> {
    name + " { "@ + a + ": "@ + text::dec(x) + " }"@
}

/// An [`EncodeError`] by its name and fields.
pub open spec fn encode_error_text(e: EncodeError) -> Seq<char> {
    match e {
        EncodeError::BufferTooSmall { needed, got } => two_fields(
            "BufferTooSmall"@,
            "needed"@,
            needed as nat,
            "got"@,
            got as nat,
        ),
        EncodeError::DataTooLong { got } => one_field("DataTooLong"@, "got"@, got as nat),
    }
}

/// A [`DecodeError`] by its name and fields.
pub open spec fn decode_error_text(e: DecodeError) -> Seq<char> {
    match e {
        DecodeError::NeedMore { needed } => one_field("NeedMore"@, "needed"@, needed as nat),
        DecodeError::BadHeader { found } => one_field("BadHeader"@, "found"@, found as nat),
        DecodeError::HeaderChecksum { expected, found } => two_fields(
            "HeaderChecksum"@,
            "expected"@,
            expected as nat,
            "found"@,
            found as nat,
        ),
        DecodeError::DataChecksum { expected, found } => two_fields(
            "DataChecksum"@,
            "expected"@,
            expected as nat,
            "found"@,
            found as nat,
        ),
    }
}

/// A [`ParseError`] by its name and fields.
pub open spec fn parse_error_text(e: ParseError) -> Seq<char> {
    match e {
        ParseError::TooShort { expected, got } => two_fields(
            "TooShort"@,
            "expected"@,
            expected as nat,
            "got"@,
            got as nat,
        ),
        ParseError::CommandMismatch { expected, found } => two_fields(
            "CommandMismatch"@,
            "expected"@,
            expected as nat,
            "found"@,
            found as nat,
        ),
        ParseError::ParamIdMismatch { expected, found } => two_fields(
            "ParamIdMismatch"@,
            "expected"@,
            expected as nat,
            "found"@,
            found as nat,
        ),
    }
}

/// What an error says to a person.
pub open spec fn error_text(e: Error) -> Seq<char> {
    match e {
        Error::SerialPort(s) => "serial port: "@ + s@,
        Error::Io(s) => "io: "@ + s@,
        Error::Encode(e) => "encode: "@ + encode_error_text(e),
        Error::Decode(e) => "decode: "@ + decode_error_text(e),
        Error::Parse(e) => "parse: "@ + parse_error_text(e),
        Error::Timeout { motor_id } => "timeout waiting for response from motor "@ + text::dec(
            motor_id as nat,
        ),
        Error::UnexpectedResponse { command, motor_id, expected_motor_id } =>
        "unexpected response: command=0x"@ + text::hex(command as nat, 2) + " motor_id="@
            + text::dec(motor_id as nat) + " (expected motor "@ + text::dec(
            expected_motor_id as nat,
        ) + ")"@,
        Error::InvalidMotorId(id) => "invalid motor id "@ + text::dec(id as nat)
            + " (must be 1..=32)"@,
        Error::PositionNotAnchored { motor_id } =>
        "Motor::set_position called before rezero() — absolute zero anchor not set for motor "@
            + text::dec(motor_id as nat),
    }
}

/// The common error that a driver error becomes.
pub open spec fn common_error(e: Error) -> error::ErrorView {
    match e {
        Error::SerialPort(s) => error::ErrorView::Bus(s@),
        Error::Io(s) => error::ErrorView::Bus(s@),
        Error::Encode(e) => error::ErrorView::Protocol(encode_error_text(e)),
        Error::Decode(e) => error::ErrorView::Protocol(decode_error_text(e)),
        Error::Parse(e) => error::ErrorView::Protocol(parse_error_text(e)),
        Error::Timeout { motor_id } => error::ErrorView::Timeout { motor_id },
        Error::UnexpectedResponse { command, motor_id, expected_motor_id } =>
        error::ErrorView::Protocol(
            "unexpected response cmd=0x"@ + text::hex(command as nat, 2) + " from motor "@
                + text::dec(motor_id as nat) + " (expected "@ + text::dec(expected_motor_id as nat)
                + ")"@,
        ),
        Error::InvalidMotorId(id) => error::ErrorView::InvalidMotorId(id),
        Error::PositionNotAnchored { motor_id } => error::ErrorView::PositionNotAnchored {
            motor_id,
        },
    }
}

impl vstd::std_specs::convert::FromSpecImpl<EncodeError> for Error {
    open spec fn obeys_from_spec() -> bool {
        true
    }

    open spec fn from_spec(e: EncodeError) -> Self {
        Error::Encode(e)
    }
}

impl From<EncodeError> for Error {
    fn from(e: EncodeError) -> (r: Self) {
        Error::Encode(e)
    }
}

impl vstd::std_specs::convert::FromSpecImpl<DecodeError> for Error {
    open spec fn obeys_from_spec() -> bool {
        true
    }

    open spec fn from_spec(e: DecodeError) -> Self {
        Error::Decode(e)
    }
}

impl From<DecodeError> for Error {
    fn from(e: DecodeError) -> (r: Self) {
        Error::Decode(e)
    }
}

impl vstd::std_specs::convert::FromSpecImpl<ParseError> for Error {
    open spec fn obeys_from_spec() -> bool {
        true
    }

    open spec fn from_spec(e: ParseError) -> Self {
        Error::Parse(e)
    }
}

impl From<ParseError> for Error {
    fn from(e: ParseError) -> (r: Self) {
        Error::Parse(e)
    }
}

/// Appends `name { a: x, b: y }`.
fn push_two_fields(out: &mut String, name: &str, a: &str, x: u64, b: &str, y: u64)
    ensures
        final(out)@ == old(out)@ + two_fields(name@, a@, x as nat, b@, y as nat),
{
    out.append(name);
    out.append(" { ");
    out.append(a);
    out.append(": ");
    text::push_dec(out, x);
    out.append(", ");
    out.append(b);
    out.append(": ");
    text::push_dec(out, y);
    out.append(" }");
    assert(out@ =~= old(out)@ + two_fields(name@, a@, x as nat, b@, y as nat));
}

/// Appends `name { a: x }`.
fn push_one_field(out: &mut String, name: &str, a: &str, x: u64)
    ensures
        final(out)@ == old(out)@ + one_field(name@, a@, x as nat),
{
    out.append(name);
    out.append(" { ");
    out.append(a);
    out.append(": ");
    text::push_dec(out, x);
    out.append(" }");
    assert(out@ =~= old(out)@ + one_field(name@, a@, x as nat));
}

/// Appends an [`EncodeError`] by its name and fields.
fn push_encode_error(out: &mut String, e: EncodeError)
    ensures
        final(out)@ == old(out)@ + encode_error_text(e),
{
    match e {
        EncodeError::BufferTooSmall { needed, got } => {
            push_two_fields(out, "BufferTooSmall", "needed", needed as u64, "got", got as u64);
        },
        EncodeError::DataTooLong { got } => {
            push_one_field(out, "DataTooLong", "got", got as u64);
        },
    }
}

/// Appends a [`DecodeError`] by its name and fields.
fn push_decode_error(out: &mut String, e: DecodeError)
    ensures
        final(out)@ == old(out)@ + decode_error_text(e),
{
    match e {
        DecodeError::NeedMore { needed } => {
            push_one_field(out, "NeedMore", "needed", needed as u64);
        },
        DecodeError::BadHeader { found } => {
            push_one_field(out, "BadHeader", "found", found as u64);
        },
        DecodeError::HeaderChecksum { expected, found } => {
            push_two_fields(
                out,
                "HeaderChecksum",
                "expected",
                expected as u64,
                "found",
                found as u64,
            );
        },
        DecodeError::DataChecksum { expected, found } => {
            push_two_fields(
                out,
                "DataChecksum",
                "expected",
                expected as u64,
                "found",
                found as u64,
            );
        },
    }
}

/// Appends a [`ParseError`] by its name and fields.
fn push_parse_error(out: &mut String, e: ParseError)
    ensures
        final(out)@ == old(out)@ + parse_error_text(e),
{
    match e {
        ParseError::TooShort { expected, got } => {
            push_two_fields(out, "TooShort", "expected", expected as u64, "got", got as u64);
        },
        ParseError::CommandMismatch { expected, found } => {
            push_two_fields(
                out,
                "CommandMismatch",
                "expected",
                expected as u64,
                "found",
                found as u64,
            );
        },
        ParseError::ParamIdMismatch { expected, found } => {
            push_two_fields(
                out,
                "ParamIdMismatch",
                "expected",
                expected as u64,
                "found",
                found as u64,
            );
        },
    }
}

impl Error {
    /// The error as a sentence.
    pub fn message(&self) -> (r: String)
        ensures
            r@ == error_text(*self),
    {
        let mut out: String = String::new();
        match self {
            Error::SerialPort(s) => {
                out.append("serial port: ");
                out.append(s.as_str());
            },
            Error::Io(s) => {
                out.append("io: ");
                out.append(s.as_str());
            },
            Error::Encode(e) => {
                out.append("encode: ");
                push_encode_error(&mut out, *e);
            },
            Error::Decode(e) => {
                out.append("decode: ");
                push_decode_error(&mut out, *e);
            },
            Error::Parse(e) => {
                out.append("parse: ");
                push_parse_error(&mut out, *e);
            },
            Error::Timeout { motor_id } => {
                out.append("timeout waiting for response from motor ");
                text::push_dec(&mut out, *motor_id as u64);
            },
            Error::UnexpectedResponse { command, motor_id, expected_motor_id } => {
                out.append("unexpected response: command=0x");
                text::push_hex(&mut out, *command as u64, 2);
                out.append(" motor_id=");
                text::push_dec(&mut out, *motor_id as u64);
                out.append(" (expected motor ");
                text::push_dec(&mut out, *expected_motor_id as u64);
                out.append(")");
            },
            Error::InvalidMotorId(id) => {
                out.append("invalid motor id ");
                text::push_dec(&mut out, *id as u64);
                out.append(" (must be 1..=32)");
            },
            Error::PositionNotAnchored { motor_id } => {
                out.append(
                    "Motor::set_position called before rezero() — absolute zero anchor not set for motor ",
                );
                text::push_dec(&mut out, *motor_id as u64);
            },
        }
        assert(out@ =~= error_text(*self));
        out
    }
}

/// The text of a common error is not a value of the specification language, so
/// what [`From`] promises stands in its own `ensures`.
impl vstd::std_specs::convert::FromSpecImpl<Error> for error::Error {
    open spec fn obeys_from_spec() -> bool {
        false
    }

    open spec fn from_spec(e: Error) -> Self {
        arbitrary()
    }
}

impl From<Error> for error::Error {
    fn from(e: Error) -> (r: Self)
        ensures
            r@ == common_error(e),
    {
        match e {
            Error::SerialPort(s) => error::Error::Bus(s),
            Error::Io(s) => error::Error::Bus(s),
            Error::Encode(e) => {
                let mut out: String = String::new();
                push_encode_error(&mut out, e);
                assert(out@ =~= encode_error_text(e));
                error::Error::Protocol(out)
            },
            Error::Decode(e) => {
                let mut out: String = String::new();
                push_decode_error(&mut out, e);
                assert(out@ =~= decode_error_text(e));
                error::Error::Protocol(out)
            },
            Error::Parse(e) => {
                let mut out: String = String::new();
                push_parse_error(&mut out, e);
                assert(out@ =~= parse_error_text(e));
                error::Error::Protocol(out)
            },
            Error::Timeout { motor_id } => error::Error::Timeout { motor_id },
            Error::UnexpectedResponse { command, motor_id, expected_motor_id } => {
                let mut out: String = String::new();
                out.append("unexpected response cmd=0x");
                text::push_hex(&mut out, command as u64, 2);
                out.append(" from motor ");
                text::push_dec(&mut out, motor_id as u64);
                out.append(" (expected ");
                text::push_dec(&mut out, expected_motor_id as u64);
                out.append(")");
                assert(error::ErrorView::Protocol(out@) =~= common_error(e));
                error::Error::Protocol(out)
            },
            Error::InvalidMotorId(id) => error::Error::InvalidMotorId(id),
            Error::PositionNotAnchored { motor_id } => error::Error::PositionNotAnchored {
                motor_id,
            },
        }
    }
}

/// A failure stays what it is: a silent motor is a timeout of that motor, a missing zero
/// is one of that motor, an id that is none is told, what failed on the port is a
/// failure of the bus with its text, and what makes no sense one of the protocol.
pub proof fn law_errors_keep_their_meaning(e: Error)
    ensures
        e matches Error::Timeout { motor_id: id } ==> (common_error(e)
            matches error::ErrorView::Timeout { motor_id } && motor_id == id),
        e matches Error::PositionNotAnchored { motor_id: id } ==> (common_error(e)
            matches error::ErrorView::PositionNotAnchored { motor_id } && motor_id == id),
        e matches Error::InvalidMotorId(id) ==> common_error(e) == error::ErrorView::InvalidMotorId(
            id,
        ),
        e matches Error::SerialPort(s) ==> common_error(e) == error::ErrorView::Bus(s@),
        e matches Error::Io(s) ==> common_error(e) == error::ErrorView::Bus(s@),
        e is Encode || e is Decode || e is Parse || e is UnexpectedResponse ==> common_error(e)
            is Protocol,
{
}

} // verus!
