//! Feedback of a motor and the status code in it.
use vstd::prelude::*;

verus! {

/// One feedback frame, decoded to the codes of the wire: position over 16 bits,
/// velocity and torque over 12, each spanning the range of the motor's limits.
#[derive(Debug, Clone, Copy, PartialEq, Eq, Structural)]
pub struct Feedback {
    /// Low nibble of the motor's id.
    pub motor_id: u8,
    /// Position code, 16 bits.
    pub position: u16,
    /// Velocity code, 12 bits.
    pub velocity: u16,
    /// Torque code, 12 bits.
    pub torque: u16,
    /// MOSFET temperature, deg C.
    pub t_mos: u8,
    /// Rotor temperature, deg C.
    pub t_rotor: u8,
    /// Status code.
    pub err: ErrorCode,
}

/// The status code in the high nibble of the first feedback byte.
#[derive(Debug, Clone, Copy, PartialEq, Eq, Structural)]
pub enum ErrorCode {
    /// `0x0`: disabled.
    Disabled,
    /// `0x1`: enabled.
    Enabled,
    /// `0x8`: over-voltage.
    OverVoltage,
    /// `0x9`: under-voltage.
    UnderVoltage,
    /// `0xA`: over-current.
    OverCurrent,
    /// `0xB`: MOSFET over-temperature.
    MosOverTemp,
    /// `0xC`: coil over-temperature.
    CoilOverTemp,
    /// `0xD`: communication lost.
    CommLost,
    /// `0xE`: overload.
    Overload,
    /// Any other code.
    Unknown(u8),
}

/// The status that a nibble stands for.
pub open spec fn code_of(n: u8) -> ErrorCode {
    if n == 0x0 {
        ErrorCode::Disabled
    } else if n == 0x1 {
        ErrorCode::Enabled
    } else if n == 0x8 {
        ErrorCode::OverVoltage
    } else if n == 0x9 {
        ErrorCode::UnderVoltage
    } else if n == 0xA {
        ErrorCode::OverCurrent
    } else if n == 0xB {
        ErrorCode::MosOverTemp
    } else if n == 0xC {
        ErrorCode::CoilOverTemp
    } else if n == 0xD {
        ErrorCode::CommLost
    } else if n == 0xE {
        ErrorCode::Overload
    } else {
        ErrorCode::Unknown(n)
    }
}

impl ErrorCode {
    /// The nibble of a status.
    pub open spec fn nibble(self) -> u8 {
        match self {
            ErrorCode::Disabled => 0x0,
            ErrorCode::Enabled => 0x1,
            ErrorCode::OverVoltage => 0x8,
            ErrorCode::UnderVoltage => 0x9,
            ErrorCode::OverCurrent => 0xA,
            ErrorCode::MosOverTemp => 0xB,
            ErrorCode::CoilOverTemp => 0xC,
            ErrorCode::CommLost => 0xD,
            ErrorCode::Overload => 0xE,
            ErrorCode::Unknown(v) => v,
        }
    }

    /// The status in the low four bits of `n`.
    pub fn from_nibble(n: u8) -> (r: Self)
        ensures
            r == code_of((n % 16) as u8),
    {
        match n % 16 {
            0x0 => ErrorCode::Disabled,
            0x1 => ErrorCode::Enabled,
            0x8 => ErrorCode::OverVoltage,
            0x9 => ErrorCode::UnderVoltage,
            0xA => ErrorCode::OverCurrent,
            0xB => ErrorCode::MosOverTemp,
            0xC => ErrorCode::CoilOverTemp,
            0xD => ErrorCode::CommLost,
            0xE => ErrorCode::Overload,
            other => ErrorCode::Unknown(other),
        }
    }

    /// The nibble of the status.
    pub fn raw(self) -> (r: u8)
        ensures
            r == self.nibble(),
    {
        match self {
            ErrorCode::Disabled => 0x0,
            ErrorCode::Enabled => 0x1,
            ErrorCode::OverVoltage => 0x8,
            ErrorCode::UnderVoltage => 0x9,
            ErrorCode::OverCurrent => 0xA,
            ErrorCode::MosOverTemp => 0xB,
            ErrorCode::CoilOverTemp => 0xC,
            ErrorCode::CommLost => 0xD,
            ErrorCode::Overload => 0xE,
            ErrorCode::Unknown(v) => v,
        }
    }

    /// Whether the status is one of the named faults, `0x8..=0xE`.
    pub fn is_fault(self) -> (r: bool)
        ensures
            r == (!(self is Unknown) && 0x8 <= self.nibble() <= 0xE),
    {
        match self {
            ErrorCode::OverVoltage
            | ErrorCode::UnderVoltage
            | ErrorCode::OverCurrent
            | ErrorCode::MosOverTemp
            | ErrorCode::CoilOverTemp
            | ErrorCode::CommLost
            | ErrorCode::Overload => true,
            _ => false,
        }
    }
}

/// Decoding a nibble loses nothing.
pub proof fn law_nibble_round_trip(n: u8)
    ensures
        code_of(n).nibble() == n,
{
}

/// A status that was decoded is a fault if and only if its nibble lies in
/// `0x8..=0xE`.
pub proof fn law_fault_range(n: u8)
    ensures
        (!(code_of(n) is Unknown) && 0x8 <= code_of(n).nibble() <= 0xE) <==> 0x8 <= n <= 0xE,
{
}

/// Every status has its own nibble, and only the named ones are named.
pub proof fn law_status_of_each_nibble(n: u8)
    ensures
        code_of(n) == ErrorCode::Disabled <==> n == 0x0,
        code_of(n) == ErrorCode::Enabled <==> n == 0x1,
        code_of(n) == ErrorCode::OverVoltage <==> n == 0x8,
        code_of(n) == ErrorCode::UnderVoltage <==> n == 0x9,
        code_of(n) == ErrorCode::OverCurrent <==> n == 0xA,
        code_of(n) == ErrorCode::MosOverTemp <==> n == 0xB,
        code_of(n) == ErrorCode::CoilOverTemp <==> n == 0xC,
        code_of(n) == ErrorCode::CommLost <==> n == 0xD,
        code_of(n) == ErrorCode::Overload <==> n == 0xE,
        code_of(n) is Unknown <==> 0x1 < n < 0x8 || n > 0xE,
{
}

} // verus!
