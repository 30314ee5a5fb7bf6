//! Status flags and run modes that all actuator drivers share.
use vstd::prelude::*;

verus! {

/// Motor faults and warnings in common bits, with the driver's own bits beside
/// them.
#[derive(Debug, Clone, Copy, PartialEq, Eq, Structural)]
pub struct ErrorFlags {
    bits: u32,
    raw: u32,
}

impl Default for ErrorFlags {
    fn default() -> (r: Self)
        ensures
            r.common_bits() == 0,
            r.raw_bits() == 0,
    {
        ErrorFlags { bits: 0, raw: 0 }
    }
}

impl ErrorFlags {
    pub const UNDER_VOLTAGE: u32 = 0x001;

    pub const OVER_VOLTAGE: u32 = 0x002;

    pub const OVER_CURRENT: u32 = 0x004;

    pub const MOTOR_OVERHEAT: u32 = 0x008;

    pub const DRIVER_OVERHEAT: u32 = 0x010;

    pub const STALL: u32 = 0x020;

    pub const MOTOR_SHORT: u32 = 0x040;

    pub const SIGNAL_TIMEOUT: u32 = 0x080;

    pub const ENCODER_FAULT: u32 = 0x100;

    pub const UNCALIBRATED: u32 = 0x200;

    /// The common bits.
    pub closed spec fn common_bits(self) -> u32 {
        self.bits
    }

    /// The driver's own bits.
    pub closed spec fn raw_bits(self) -> u32 {
        self.raw
    }

    /// Whether one of the common bits in `mask` is set.
    pub open spec fn has(self, mask: u32) -> bool {
        self.common_bits() & mask != 0
    }

    /// Flags from common bits and the driver's own bits.
    pub fn new(bits: u32, raw: u32) -> (r: Self)
        ensures
            r.common_bits() == bits,
            r.raw_bits() == raw,
    {
        ErrorFlags { bits, raw }
    }

    /// The common bits.
    pub fn bits(self) -> (r: u32)
        ensures
            r == self.common_bits(),
    {
        self.bits
    }

    /// The driver's own bits, for diagnostics.
    pub fn raw(self) -> (r: u32)
        ensures
            r == self.raw_bits(),
    {
        self.raw
    }

    /// Whether any common flag is set.
    pub fn any(self) -> (r: bool)
        ensures
            r == (self.common_bits() != 0),
    {
        self.bits != 0
    }

    pub fn under_voltage(self) -> (r: bool)
        ensures
            r == self.has(Self::UNDER_VOLTAGE),
    {
        self.bits & Self::UNDER_VOLTAGE != 0
    }

    pub fn over_voltage(self) -> (r: bool)
        ensures
            r == self.has(Self::OVER_VOLTAGE),
    {
        self.bits & Self::OVER_VOLTAGE != 0
    }

    pub fn over_current(self) -> (r: bool)
        ensures
            r == self.has(Self::OVER_CURRENT),
    {
        self.bits & Self::OVER_CURRENT != 0
    }

    pub fn motor_overheat(self) -> (r: bool)
        ensures
            r == self.has(Self::MOTOR_OVERHEAT),
    {
        self.bits & Self::MOTOR_OVERHEAT != 0
    }

    pub fn driver_overheat(self) -> (r: bool)
        ensures
            r == self.has(Self::DRIVER_OVERHEAT),
    {
        self.bits & Self::DRIVER_OVERHEAT != 0
    }

    pub fn stall(self) -> (r: bool)
        ensures
            r == self.has(Self::STALL),
    {
        self.bits & Self::STALL != 0
    }

    pub fn motor_short(self) -> (r: bool)
        ensures
            r == self.has(Self::MOTOR_SHORT),
    {
        self.bits & Self::MOTOR_SHORT != 0
    }

    pub fn signal_timeout(self) -> (r: bool)
        ensures
            r == self.has(Self::SIGNAL_TIMEOUT),
    {
        self.bits & Self::SIGNAL_TIMEOUT != 0
    }

    pub fn encoder_fault(self) -> (r: bool)
        ensures
            r == self.has(Self::ENCODER_FAULT),
    {
        self.bits & Self::ENCODER_FAULT != 0
    }

    pub fn uncalibrated(self) -> (r: bool)
        ensures
            r == self.has(Self::UNCALIBRATED),
    {
        self.bits & Self::UNCALIBRATED != 0
    }
}

/// The sum of the ten common bits of which a flag each is given.
pub open spec fn flag_bits(
    under_voltage: bool,
    over_voltage: bool,
    over_current: bool,
    motor_overheat: bool,
    driver_overheat: bool,
    stall: bool,
    motor_short: bool,
    signal_timeout: bool,
    encoder_fault: bool,
    uncalibrated: bool,
) -> u32 {
    (if under_voltage { 0x001u32 } else { 0 })
    | (if over_voltage { 0x002u32 } else { 0 })
    | (if over_current { 0x004u32 } else { 0 })
    | (if motor_overheat { 0x008u32 } else { 0 })
    | (if driver_overheat { 0x010u32 } else { 0 })
    | (if stall { 0x020u32 } else { 0 })
    | (if motor_short { 0x040u32 } else { 0 })
    | (if signal_timeout { 0x080u32 } else { 0 })
    | (if encoder_fault { 0x100u32 } else { 0 })
    | (if uncalibrated { 0x200u32 } else { 0 })
}

/// Adding no bits changes nothing.
pub proof fn lemma_or_zero()
    ensures
        forall|x: u32| #[trigger] (x | 0) == x,
        forall|x: u32| #[trigger] (0u32 | x) == x,
{
    assert(forall|x: u32| #[trigger] (x | 0) == x) by (bit_vector);
    assert(forall|x: u32| #[trigger] (0u32 | x) == x) by (bit_vector);
}

/// Each flag is read back from the bits as it was given, and no flag shows in
/// another's place.
pub proof fn law_flags_read_back(
    under_voltage: bool,
    over_voltage: bool,
    over_current: bool,
    motor_overheat: bool,
    driver_overheat: bool,
    stall: bool,
    motor_short: bool,
    signal_timeout: bool,
    encoder_fault: bool,
    uncalibrated: bool,
    flags: ErrorFlags,
)
    requires
        flags.common_bits() == flag_bits(
            under_voltage,
            over_voltage,
            over_current,
            motor_overheat,
            driver_overheat,
            stall,
            motor_short,
            signal_timeout,
            encoder_fault,
            uncalibrated,
        ),
    ensures
        flags.has(ErrorFlags::UNDER_VOLTAGE) == under_voltage,
        flags.has(ErrorFlags::OVER_VOLTAGE) == over_voltage,
        flags.has(ErrorFlags::OVER_CURRENT) == over_current,
        flags.has(ErrorFlags::MOTOR_OVERHEAT) == motor_overheat,
        flags.has(ErrorFlags::DRIVER_OVERHEAT) == driver_overheat,
        flags.has(ErrorFlags::STALL) == stall,
        flags.has(ErrorFlags::MOTOR_SHORT) == motor_short,
        flags.has(ErrorFlags::SIGNAL_TIMEOUT) == signal_timeout,
        flags.has(ErrorFlags::ENCODER_FAULT) == encoder_fault,
        flags.has(ErrorFlags::UNCALIBRATED) == uncalibrated,
        flags.common_bits() == 0 <==> !(under_voltage || over_voltage || over_current
            || motor_overheat || driver_overheat || stall || motor_short || signal_timeout
            || encoder_fault || uncalibrated),
{
    let a: u32 = if under_voltage { 0x001 } else { 0 };
    let b: u32 = if over_voltage { 0x002 } else { 0 };
    let c: u32 = if over_current { 0x004 } else { 0 };
    let d: u32 = if motor_overheat { 0x008 } else { 0 };
    let e: u32 = if driver_overheat { 0x010 } else { 0 };
    let f: u32 = if stall { 0x020 } else { 0 };
    let g: u32 = if motor_short { 0x040 } else { 0 };
    let h: u32 = if signal_timeout { 0x080 } else { 0 };
    let i: u32 = if encoder_fault { 0x100 } else { 0 };
    let j: u32 = if uncalibrated { 0x200 } else { 0 };
    let all: u32 = a | b | c | d | e | f | g | h | i | j;
    assert(all & 0x001 == a && all & 0x002 == b && all & 0x004 == c && all & 0x008 == d && all
        & 0x010 == e && all & 0x020 == f && all & 0x040 == g && all & 0x080 == h && all & 0x100 == i
        && all & 0x200 == j && (all == 0) == (a == 0 && b == 0 && c == 0 && d == 0 && e == 0 && f
        == 0 && g == 0 && h == 0 && i == 0 && j == 0)) by (bit_vector)
        requires
            all == a | b | c | d | e | f | g | h | i | j,
            a == 0 || a == 0x001,
            b == 0 || b == 0x002,
            c == 0 || c == 0x004,
            d == 0 || d == 0x008,
            e == 0 || e == 0x010,
            f == 0 || f == 0x020,
            g == 0 || g == 0x040,
            h == 0 || h == 0x080,
            i == 0 || i == 0x100,
            j == 0 || j == 0x200,
    ;
}

/// The control mode that a driver is asked to prepare.
#[derive(Debug, Clone, Copy, PartialEq, Eq, Structural)]
pub enum RunMode {
    /// Position, velocity and torque feedforward with PD gains.
    Mit,
    /// Closed-loop position control.
    Position,
    /// Closed-loop velocity control.
    Velocity,
    /// Closed-loop torque (current) control.
    Torque,
}

} // verus!
