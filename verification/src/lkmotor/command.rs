//! Command codes of the RS485 protocol.
use vstd::prelude::*;

verus! {

/// The commands that a motor understands.
#[derive(Debug, Clone, Copy, PartialEq, Eq, Structural)]
pub enum Command {
    /// Read PID parameters.
    ReadPid,
    /// Write PID parameters to RAM.
    WritePidRam,
    /// Write PID parameters to ROM.
    WritePidRom,
    /// Read the acceleration.
    ReadAccel,
    /// Write the acceleration to RAM.
    WriteAccelRam,
    /// Read the absolute encoder position.
    ReadEncoder,
    /// Write the encoder offset.
    WriteEncoderOffset,
    /// Make the current encoder position the zero offset (writes ROM).
    WriteCurrentPosAsZero,
    /// Read the multi-turn angle.
    ReadMultiTurnAngle,
    /// Read the single-turn angle.
    ReadSingleTurnAngle,
    /// Clear the stored motor angle.
    ClearMotorAngle,
    /// Read motor state 1: temperature, voltage, error flags.
    ReadMotorState1,
    /// Clear the error flag.
    ClearError,
    /// Read motor state 2: temperature, current, speed, position.
    ReadMotorState2,
    /// Read motor state 3: phase currents.
    ReadMotorState3,
    /// Power off the motor, clearing the running flag.
    MotorOff,
    /// Stop the motor, keeping the running flag.
    MotorStop,
    /// Resume after a stop.
    MotorRun,
    /// Closed-loop torque control.
    TorqueClosedLoop,
    /// Closed-loop speed control.
    SpeedClosedLoop,
    /// Position control: multi-turn absolute.
    PositionClosedLoop1,
    /// Position control: multi-turn absolute with a speed limit.
    PositionClosedLoop2,
    /// Position control: single-turn with direction.
    PositionClosedLoop3,
    /// Position control: single-turn with direction and a speed limit.
    PositionClosedLoop4,
    /// Read a control parameter, selected by the first data byte.
    ReadControlParam,
    /// Write a control parameter to RAM.
    WriteControlParamRam,
}

/// The control parameters that can be read or written, as the first data byte
/// of the command selects them.
#[derive(Debug, Clone, Copy, PartialEq, Eq, Structural)]
pub enum ControlParamId {
    /// Position-loop PID.
    PositionLoopPid,
    /// Speed-loop PID.
    SpeedLoopPid,
    /// Current-loop PID.
    CurrentLoopPid,
    /// Torque (current) limit.
    TorqueLimit,
    /// Speed limit, 0.01 deg/s.
    SpeedLimit,
    /// Angle limit, 0.01 deg.
    AngleLimit,
    /// Current ramp.
    CurrentRamp,
    /// Speed ramp, 1 dps/s.
    SpeedRamp,
}

impl ControlParamId {
    /// The selector byte.
    pub open spec fn spec_code(self) -> u8 {
        match self {
            ControlParamId::PositionLoopPid => 0x0A,
            ControlParamId::SpeedLoopPid => 0x0B,
            ControlParamId::CurrentLoopPid => 0x0C,
            ControlParamId::TorqueLimit => 0x1E,
            ControlParamId::SpeedLimit => 0x20,
            ControlParamId::AngleLimit => 0x22,
            ControlParamId::CurrentRamp => 0x24,
            ControlParamId::SpeedRamp => 0x26,
        }
    }

    /// The selector byte.
    #[verifier::when_used_as_spec(spec_code)]
    pub fn code(self) -> (r: u8)
        ensures
            r == self.spec_code(),
    {
        match self {
            ControlParamId::PositionLoopPid => 0x0A,
            ControlParamId::SpeedLoopPid => 0x0B,
            ControlParamId::CurrentLoopPid => 0x0C,
            ControlParamId::TorqueLimit => 0x1E,
            ControlParamId::SpeedLimit => 0x20,
            ControlParamId::AngleLimit => 0x22,
            ControlParamId::CurrentRamp => 0x24,
            ControlParamId::SpeedRamp => 0x26,
        }
    }
}

impl Command {
    /// The command byte.
    pub open spec fn spec_code(self) -> u8 {
        match self {
            Command::ReadPid => 0x30,
            Command::WritePidRam => 0x31,
            Command::WritePidRom => 0x32,
            Command::ReadAccel => 0x33,
            Command::WriteAccelRam => 0x34,
            Command::ReadEncoder => 0x90,
            Command::WriteEncoderOffset => 0x91,
            Command::WriteCurrentPosAsZero => 0x19,
            Command::ReadMultiTurnAngle => 0x92,
            Command::ReadSingleTurnAngle => 0x94,
            Command::ClearMotorAngle => 0x95,
            Command::ReadMotorState1 => 0x9A,
            Command::ClearError => 0x9B,
            Command::ReadMotorState2 => 0x9C,
            Command::ReadMotorState3 => 0x9D,
            Command::MotorOff => 0x80,
            Command::MotorStop => 0x81,
            Command::MotorRun => 0x88,
            Command::TorqueClosedLoop => 0xA1,
            Command::SpeedClosedLoop => 0xA2,
            Command::PositionClosedLoop1 => 0xA3,
            Command::PositionClosedLoop2 => 0xA4,
            Command::PositionClosedLoop3 => 0xA5,
            Command::PositionClosedLoop4 => 0xA6,
            Command::ReadControlParam => 0xC0,
            Command::WriteControlParamRam => 0xC1,
        }
    }

    /// The command byte.
    #[verifier::when_used_as_spec(spec_code)]
    pub fn code(self) -> (r: u8)
        ensures
            r == self.spec_code(),
    {
        match self {
            Command::ReadPid => 0x30,
            Command::WritePidRam => 0x31,
            Command::WritePidRom => 0x32,
            Command::ReadAccel => 0x33,
            Command::WriteAccelRam => 0x34,
            Command::ReadEncoder => 0x90,
            Command::WriteEncoderOffset => 0x91,
            Command::WriteCurrentPosAsZero => 0x19,
            Command::ReadMultiTurnAngle => 0x92,
            Command::ReadSingleTurnAngle => 0x94,
            Command::ClearMotorAngle => 0x95,
            Command::ReadMotorState1 => 0x9A,
            Command::ClearError => 0x9B,
            Command::ReadMotorState2 => 0x9C,
            Command::ReadMotorState3 => 0x9D,
            Command::MotorOff => 0x80,
            Command::MotorStop => 0x81,
            Command::MotorRun => 0x88,
            Command::TorqueClosedLoop => 0xA1,
            Command::SpeedClosedLoop => 0xA2,
            Command::PositionClosedLoop1 => 0xA3,
            Command::PositionClosedLoop2 => 0xA4,
            Command::PositionClosedLoop3 => 0xA5,
            Command::PositionClosedLoop4 => 0xA6,
            Command::ReadControlParam => 0xC0,
            Command::WriteControlParamRam => 0xC1,
        }
    }
}

impl vstd::std_specs::convert::FromSpecImpl<Command> for u8 {
    open spec fn obeys_from_spec() -> bool {
        true
    }

    open spec fn from_spec(c: Command) -> u8 {
        c.spec_code()
    }
}

impl From<Command> for u8 {
    fn from(c: Command) -> (r: u8) {
        c.code()
    }
}

/// No two commands share a code.
pub proof fn law_command_codes_distinct(a: Command, b: Command)
    ensures
        a.code() == b.code() ==> a == b,
{
}

/// No two control parameters share a selector.
pub proof fn law_param_codes_distinct(a: ControlParamId, b: ControlParamId)
    ensures
        a.code() == b.code() ==> a == b,
{
}

/// The commands that move, stop and observe a motor have these codes on the wire,
/// and no other command has one of them.
pub proof fn law_codes_on_the_wire(c: Command)
    ensures
        c.code() == 0x80 <==> c == Command::MotorOff,
        c.code() == 0x81 <==> c == Command::MotorStop,
        c.code() == 0x88 <==> c == Command::MotorRun,
        c.code() == 0x92 <==> c == Command::ReadMultiTurnAngle,
        c.code() == 0x9A <==> c == Command::ReadMotorState1,
        c.code() == 0x9B <==> c == Command::ClearError,
        c.code() == 0x9C <==> c == Command::ReadMotorState2,
        c.code() == 0x9D <==> c == Command::ReadMotorState3,
        c.code() == 0xA1 <==> c == Command::TorqueClosedLoop,
        c.code() == 0xA2 <==> c == Command::SpeedClosedLoop,
        c.code() == 0xA3 <==> c == Command::PositionClosedLoop1,
        c.code() == 0xA4 <==> c == Command::PositionClosedLoop2,
        c.code() == 0xA5 <==> c == Command::PositionClosedLoop3,
        c.code() == 0xA6 <==> c == Command::PositionClosedLoop4,
        c.code() == 0xC0 <==> c == Command::ReadControlParam,
        c.code() == 0xC1 <==> c == Command::WriteControlParamRam,
        c.code() == 0x30 <==> c == Command::ReadPid,
        c.code() == 0x31 <==> c == Command::WritePidRam,
        c.code() == 0x32 <==> c == Command::WritePidRom,
        c.code() == 0x33 <==> c == Command::ReadAccel,
        c.code() == 0x34 <==> c == Command::WriteAccelRam,
        c.code() == 0x90 <==> c == Command::ReadEncoder,
        c.code() == 0x91 <==> c == Command::WriteEncoderOffset,
        c.code() == 0x19 <==> c == Command::WriteCurrentPosAsZero,
        c.code() == 0x94 <==> c == Command::ReadSingleTurnAngle,
        c.code() == 0x95 <==> c == Command::ClearMotorAngle,
{
}

/// The control parameters have these numbers on the wire, and no other has one of
/// them.
pub proof fn law_parameter_numbers_on_the_wire(p: ControlParamId)
    ensures
        p.code() == 0x0A <==> p == ControlParamId::PositionLoopPid,
        p.code() == 0x0B <==> p == ControlParamId::SpeedLoopPid,
        p.code() == 0x0C <==> p == ControlParamId::CurrentLoopPid,
        p.code() == 0x1E <==> p == ControlParamId::TorqueLimit,
        p.code() == 0x20 <==> p == ControlParamId::SpeedLimit,
        p.code() == 0x22 <==> p == ControlParamId::AngleLimit,
        p.code() == 0x24 <==> p == ControlParamId::CurrentRamp,
        p.code() == 0x26 <==> p == ControlParamId::SpeedRamp,
{
}

} // verus!
