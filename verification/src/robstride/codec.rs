//! What is said between driver and motor, and the codec that turns it into frames
//! and back.
use crate::robstride::bus::CanFrame;
use vstd::prelude::*;

verus! {

/// Run mode of the firmware.
#[derive(Debug, Clone, Copy, PartialEq, Eq, Structural)]
pub enum RunMode {
    Mit,
    Position,
    Velocity,
    Torque,
}

/// A parameter of the firmware.
#[derive(Debug, Clone, Copy, PartialEq, Eq, Structural)]
pub enum Param {
    LocRef,
    LimitSpd,
    LimitTorque,
    LimitCur,
    SpdRef,
    IqRef,
    MechPos,
    MechVel,
    IqFilt,
    Vbus,
    MeasuredTorque,
}

/// The five quantities of an MIT command, by their bit patterns.
#[derive(Debug, Clone, Copy, PartialEq, Eq, Structural)]
pub struct MitBits {
    pub position: u32,
    pub velocity: u32,
    pub kp: u32,
    pub kd: u32,
    pub torque: u32,
}

/// A frame to send to the motor.
#[derive(Debug, Clone, Copy, PartialEq, Eq, Structural)]
pub enum Request {
    Enable,
    Disable,
    SetZero,
    SetRunMode(RunMode),
    Mit(MitBits),
    Read(Param),
    /// Write the float with this bit pattern.
    Write(Param, u32),
}

/// What comes after a request was sent.
#[derive(Debug, Clone, Copy, PartialEq, Eq, Structural)]
pub enum FollowUp {
    /// Wait for any frame.
    Anything,
    /// Wait for a status frame.
    Status,
    /// Wait for the value of a parameter.
    Value(Param),
    /// Give the motor this long.
    Pause { ms: u64 },
}

impl Request {
    /// What comes after the request was sent: commands and reads are answered,
    /// writes only need time.
    pub open spec fn followed_by(self) -> FollowUp {
        match self {
            Request::Enable | Request::Disable | Request::Mit(_) => FollowUp::Status,
            Request::Read(p) => FollowUp::Value(p),
            Request::SetZero => FollowUp::Pause { ms: 50 },
            Request::SetRunMode(_) => FollowUp::Pause { ms: 10 },
            Request::Write(_, _) => FollowUp::Pause { ms: 5 },
        }
    }

    /// What comes after the request was sent.
    pub fn follow_up(self) -> (r: FollowUp)
        ensures
            r == self.followed_by(),
    {
        match self {
            Request::Enable | Request::Disable | Request::Mit(_) => FollowUp::Status,
            Request::Read(p) => FollowUp::Value(p),
            Request::SetZero => FollowUp::Pause { ms: 50 },
            Request::SetRunMode(_) => FollowUp::Pause { ms: 10 },
            Request::Write(_, _) => FollowUp::Pause { ms: 5 },
        }
    }
}

/// What kind of frame was received.
#[derive(Debug, Clone, Copy, PartialEq, Eq, Structural)]
pub enum FrameKind {
    OperationStatus,
    FaultReport,
    ReadParameter,
    Other,
}

impl FollowUp {
    /// Whether a frame of this kind ends the wait.
    pub open spec fn ends_with(self, kind: FrameKind) -> bool {
        match self {
            FollowUp::Anything => true,
            FollowUp::Status => kind == FrameKind::OperationStatus || kind
                == FrameKind::FaultReport,
            FollowUp::Value(_) => kind == FrameKind::ReadParameter,
            FollowUp::Pause { .. } => false,
        }
    }

    /// Whether a frame of this kind ends the wait; all others are dropped.
    pub fn accepts(self, kind: FrameKind) -> (r: bool)
        ensures
            r == self.ends_with(kind),
    {
        match self {
            FollowUp::Anything => true,
            FollowUp::Status => kind == FrameKind::OperationStatus || kind
                == FrameKind::FaultReport,
            FollowUp::Value(_) => kind == FrameKind::ReadParameter,
            FollowUp::Pause { .. } => false,
        }
    }
}

/// The status bits of a status frame.
#[derive(Debug, Clone, Copy, PartialEq, Eq, Structural)]
pub struct StatusBits {
    pub mode: u8,
    pub uncalibrated: bool,
    pub stall: bool,
    pub magnetic_encoder_fault: bool,
    pub overtemperature: bool,
    pub overcurrent: bool,
    pub undervoltage: bool,
    pub device_id: u8,
}

/// No status: nothing is set.
pub open spec fn no_status() -> StatusBits {
    StatusBits {
        mode: 0,
        uncalibrated: false,
        stall: false,
        magnetic_encoder_fault: false,
        overtemperature: false,
        overcurrent: false,
        undervoltage: false,
        device_id: 0,
    }
}

/// A measurement: quantities by their bit patterns, nothing where there is none.
#[derive(Debug, Clone, Copy, PartialEq, Eq, Structural)]
pub struct Feedback {
    pub motor_id: u8,
    pub position: u32,
    pub velocity: u32,
    pub torque: Option<u32>,
    pub temperature: Option<u32>,
    pub status: StatusBits,
}

/// The parts of a frame's id.
#[derive(Debug, Clone, Copy, PartialEq, Eq, Structural)]
pub struct IdParts {
    /// The number of the communication type.
    pub comm_type: u8,
    /// The communication type, where it is one that matters.
    pub kind: FrameKind,
    /// The data field of the id.
    pub extra: u16,
    pub device_id: u8,
}

/// The layout of the frames, and the time that passes between them. Nothing is
/// required of it: the driver's contracts hold of whatever it answers.
pub trait Codec {
    /// The frame that asks a motor for its device id.
    fn ping(&self, host_id: u8, motor_id: u8) -> (u32, [u8; 8]);

    /// The frame of a request.
    fn encode(&self, host_id: u8, motor_id: u8, request: Request) -> (u32, [u8; 8]);

    /// The parts of an id.
    fn split(&self, can_id: u32) -> IdParts;

    /// The feedback in a status frame.
    fn status(&self, frame: &CanFrame) -> Option<Feedback>;

    /// The parameter number in an answer to a read, and the value by its bit
    /// pattern.
    fn value(&self, frame: &CanFrame) -> Option<(u16, u32)>;

    /// The number of a parameter.
    fn index(&self, param: Param) -> u16;

    /// Lets this many milliseconds pass.
    fn pause(&self, ms: u64);
}

/// A request is answered by what it asks for: commands by the status, a read by the
/// value of the same parameter. Writes, modes and zeros are not answered; they are
/// given 5, 10 and 50 ms.
pub proof fn law_what_follows_a_request(request: Request, param: Param, ms: u64)
    ensures
        request.followed_by() is Status <==> (request is Enable || request is Disable
            || request is Mit),
        request.followed_by() == FollowUp::Value(param) <==> request == Request::Read(param),
        request.followed_by() == (FollowUp::Pause { ms }) <==> {
            ||| ms == 50 && request is SetZero
            ||| ms == 10 && request is SetRunMode
            ||| ms == 5 && request is Write
        },
        !(request.followed_by() is Anything),
{
}

/// A wait for the status ends with a status or a fault report, a wait for a value
/// with an answer to a read, and a wait for anything with any frame.
pub proof fn law_what_ends_a_wait(wait: FollowUp, kind: FrameKind)
    ensures
        wait is Status ==> (wait.ends_with(kind) <==> kind is OperationStatus || kind
            is FaultReport),
        wait is Value ==> (wait.ends_with(kind) <==> kind is ReadParameter),
        wait is Anything ==> wait.ends_with(kind),
        wait is Pause ==> !wait.ends_with(kind),
{
}

} // verus!
