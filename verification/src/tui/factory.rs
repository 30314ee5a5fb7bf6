//! Which driver the tool opens, and what it says where that fails.
use crate::damiao::limits;
use crate::damiao::limits::MotorModel;
use crate::lkmotor::motor_id;
use crate::lkmotor::motor_id::MotorId;
use crate::text;
use vstd::prelude::*;
use vstd::string::*;

verus! {

/// A motor family.
#[derive(Debug, Clone, Copy, PartialEq, Eq, Structural)]
pub enum DriverKind {
    /// Robstride on a SocketCAN interface.
    Robstride,
    /// LK motor on an RS485 serial port.
    Lkmotor,
    /// DAMIAO on a SocketCAN interface.
    Damiao,
}

/// The physical layer of a CAN bus.
#[derive(Debug, Clone, Copy, PartialEq, Eq, Structural)]
pub enum BusKind {
    /// Classic CAN.
    Can,
    /// CAN-FD.
    CanFd,
}

/// What the user asked for. Quantities are held by their bit patterns.
#[derive(Debug)]
pub struct DriverConfig {
    pub kind: DriverKind,
    /// CAN interface or serial port.
    pub interface: String,
    /// Motor address.
    pub motor_id: u8,
    /// Model name; LK motors have none.
    pub model: String,
    /// Own CAN id on a Robstride bus.
    pub host_id: u8,
    /// Baud rate of a serial port.
    pub baud: u32,
    /// Gear ratio of an LK motor.
    pub gear_ratio_bits: u32,
    /// Torque constant of an LK motor; 0 where it is not known.
    pub kt_bits: u32,
    /// Physical layer of a DAMIAO bus.
    pub bus_kind: BusKind,
    /// Time given to each request, in nanoseconds.
    pub timeout_ns: u64,
}

/// The model name that stands for "none given".
pub open spec fn default_model() -> Seq<char> {
    "Edulite05"@
}

/// The bit pattern of 10.0.
pub const TEN_BITS: u32 = 0x4120_0000;

/// The bit pattern of infinity: all positive numbers are at most this.
pub const INFINITY_BITS: u32 = 0x7F80_0000;

impl DriverConfig {
    /// What is used where nothing is asked for, with `host_id` as own CAN id.
    pub fn with_host(host_id: u8) -> (r: Self)
        ensures
            r.kind == DriverKind::Robstride,
            r.interface@ == "can0"@,
            r.motor_id == 1,
            r.model@ == default_model(),
            r.host_id == host_id,
            r.baud == 1_000_000,
            r.gear_ratio_bits == TEN_BITS,
            r.kt_bits == 0,
            r.bus_kind == BusKind::Can,
            r.timeout_ns == 100_000_000,
    {
        DriverConfig {
            kind: DriverKind::Robstride,
            interface: "can0".to_owned(),
            motor_id: 1,
            model: "Edulite05".to_owned(),
            host_id,
            baud: 1_000_000,
            gear_ratio_bits: TEN_BITS,
            kt_bits: 0,
            bus_kind: BusKind::Can,
            timeout_ns: 100_000_000,
        }
    }
}

/// The driver to open.
pub enum Backend {
    Robstride,
    /// Whether the torque constant is known; where it is not, torques are
    /// currents.
    Lkmotor { id: MotorId, torque_constant_known: bool },
    Damiao { model: MotorModel, fd: bool },
}

/// The driver to open, and what to say where it does not open, or does not take
/// its timeout.
pub struct Build {
    pub backend: Backend,
    pub open_error: String,
    pub timeout_error: &'static str,
}

/// Whether a bit pattern is that of a number above zero.
pub open spec fn is_positive(bits: u32) -> bool {
    0 < bits <= INFINITY_BITS
}

/// The DAMIAO model that a name stands for: the name that stands for none given
/// is the default model.
pub open spec fn damiao_model(name: Seq<char>) -> Option<MotorModel> {
    match limits::model_named(vstd::utf8::encode_utf8(name)) {
        Some(m) => Some(m),
        None => if name == default_model() {
            Some(MotorModel::Dm4310)
        } else {
            None
        },
    }
}

/// Why there is no driver to open.
pub open spec fn build_error(cfg: DriverConfig) -> Option<Seq<char>> {
    match cfg.kind {
        DriverKind::Robstride => None,
        DriverKind::Lkmotor => if motor_id::is_motor_id(cfg.motor_id) {
            None
        } else {
            Some("invalid lkmotor id "@ + text::dec(cfg.motor_id as nat) + " (must be 1..=32)"@)
        },
        DriverKind::Damiao => match damiao_model(cfg.model@) {
            Some(_) => None,
            None => Some("unknown DAMIAO motor model: "@ + cfg.model@ + " (try --model DM4310)"@),
        },
    }
}

/// What is said where the driver does not open.
pub open spec fn open_error(cfg: DriverConfig) -> Seq<char> {
    match cfg.kind {
        DriverKind::Robstride => "failed to open SocketCAN interface "@ + cfg.interface@
            + " for motor "@ + text::dec(cfg.motor_id as nat),
        DriverKind::Lkmotor => "failed to open serial port "@ + cfg.interface@ + " @ "@ + text::dec(
            cfg.baud as nat,
        ) + " baud for motor "@ + text::dec(cfg.motor_id as nat),
        DriverKind::Damiao => match cfg.bus_kind {
            BusKind::Can => "failed to open classic-CAN interface "@ + cfg.interface@
                + " for motor "@ + text::dec(cfg.motor_id as nat),
            BusKind::CanFd => "failed to open CAN-FD interface "@ + cfg.interface@ + " for motor "@
                + text::dec(cfg.motor_id as nat) + " (is it `fd on`?)"@,
        },
    }
}

/// What is said where the driver does not take its timeout. A serial port gets
/// it when it is opened.
pub open spec fn timeout_error(cfg: DriverConfig) -> Seq<char> {
    match (cfg.kind, cfg.bus_kind) {
        (DriverKind::Damiao, BusKind::CanFd) => "failed to set CAN-FD socket timeout"@,
        _ => "failed to set CAN socket timeout"@,
    }
}

/// That `backend` is the driver that was asked for.
pub open spec fn is_backend(cfg: DriverConfig, backend: Backend) -> bool {
    match cfg.kind {
        DriverKind::Robstride => backend is Robstride,
        DriverKind::Lkmotor => backend matches Backend::Lkmotor { id, torque_constant_known }
            && id@ == cfg.motor_id && torque_constant_known == is_positive(cfg.kt_bits),
        DriverKind::Damiao => backend matches Backend::Damiao { model, fd } && Some(model)
            == damiao_model(cfg.model@) && fd == (cfg.bus_kind == BusKind::CanFd),
    }
}

/// Appends "... for motor" and its address.
fn push_for_motor(out: &mut String, head: &str, interface: &str, motor_id: u8)
    ensures
        final(out)@ == old(out)@ + head@ + interface@ + " for motor "@ + text::dec(
            motor_id as nat,
        ),
{
    out.append(head);
    out.append(interface);
    out.append(" for motor ");
    text::push_dec(out, motor_id as u64);
    assert(out@ =~= old(out)@ + head@ + interface@ + " for motor "@ + text::dec(motor_id as nat));
}

/// What to open for a configuration.
pub fn build_actuator(cfg: &DriverConfig) -> (r: Result<Build, String>)
    ensures
        match r {
            Ok(b) => {
                &&& build_error(*cfg) is None
                &&& is_backend(*cfg, b.backend)
                &&& b.open_error@ == open_error(*cfg)
                &&& b.timeout_error@ == timeout_error(*cfg)
            },
            Err(e) => build_error(*cfg) == Some(e@),
        },
{
    let mut said: String = String::new();
    match cfg.kind {
        DriverKind::Robstride => {
            push_for_motor(
                &mut said,
                "failed to open SocketCAN interface ",
                cfg.interface.as_str(),
                cfg.motor_id,
            );
            assert(said@ =~= open_error(*cfg));
            Ok(
                Build {
                    backend: Backend::Robstride,
                    open_error: said,
                    timeout_error: "failed to set CAN socket timeout",
                },
            )
        },
        DriverKind::Lkmotor => {
            match MotorId::new(cfg.motor_id) {
                Some(id) => {
                    said.append("failed to open serial port ");
                    said.append(cfg.interface.as_str());
                    said.append(" @ ");
                    text::push_dec(&mut said, cfg.baud as u64);
                    said.append(" baud for motor ");
                    text::push_dec(&mut said, cfg.motor_id as u64);
                    assert(said@ =~= open_error(*cfg));
                    Ok(
                        Build {
                            backend: Backend::Lkmotor {
                                id,
                                torque_constant_known: 0 < cfg.kt_bits && cfg.kt_bits
                                    <= INFINITY_BITS,
                            },
                            open_error: said,
                            timeout_error: "failed to set CAN socket timeout",
                        },
                    )
                },
                None => {
                    said.append("invalid lkmotor id ");
                    text::push_dec(&mut said, cfg.motor_id as u64);
                    said.append(" (must be 1..=32)");
                    assert(Some(said@) =~= build_error(*cfg)) by {
                        assert(said@ =~= build_error(*cfg).unwrap());
                    }
                    Err(said)
                },
            }
        },
        DriverKind::Damiao => {
            let model = match MotorModel::from_name(cfg.model.as_str()) {
                Some(m) => m,
                None => {
                    if !text::same(cfg.model.as_str(), "Edulite05") {
                        said.append("unknown DAMIAO motor model: ");
                        said.append(cfg.model.as_str());
                        said.append(" (try --model DM4310)");
                        assert(Some(said@) =~= build_error(*cfg)) by {
                            assert(said@ =~= build_error(*cfg).unwrap());
                        }
                        return Err(said);
                    }
                    MotorModel::Dm4310
                },
            };
            match cfg.bus_kind {
                BusKind::Can => {
                    push_for_motor(
                        &mut said,
                        "failed to open classic-CAN interface ",
                        cfg.interface.as_str(),
                        cfg.motor_id,
                    );
                    assert(said@ =~= open_error(*cfg));
                    Ok(
                        Build {
                            backend: Backend::Damiao { model, fd: false },
                            open_error: said,
                            timeout_error: "failed to set CAN socket timeout",
                        },
                    )
                },
                BusKind::CanFd => {
                    push_for_motor(
                        &mut said,
                        "failed to open CAN-FD interface ",
                        cfg.interface.as_str(),
                        cfg.motor_id,
                    );
                    said.append(" (is it `fd on`?)");
                    assert(said@ =~= open_error(*cfg));
                    Ok(
                        Build {
                            backend: Backend::Damiao { model, fd: true },
                            open_error: said,
                            timeout_error: "failed to set CAN-FD socket timeout",
                        },
                    )
                },
            }
        },
    }
}

/// What is said of a Robstride model that nobody knows.
pub fn unknown_robstride_model(model: &str) -> (r: String)
    ensures
        r@ == "unknown Robstride motor model: "@ + model@,
{
    let mut out: String = String::new();
    out.append("unknown Robstride motor model: ");
    out.append(model);
    assert(out@ =~= "unknown Robstride motor model: "@ + model@);
    out
}

/// Refuses a configuration without an interface or with address 0.
pub fn validate_driver_args(cfg: &DriverConfig) -> (r: Result<(), &'static str>)
    ensures
        match r {
            Ok(_) => cfg.interface@.len() > 0 && cfg.motor_id > 0,
            Err(e) => if cfg.interface@.len() == 0 {
                e@ == "--interface is required"@
            } else {
                cfg.motor_id == 0 && e@ == "--motor-id must be > 0"@
            },
        },
{
    if cfg.interface.as_str().unicode_len() == 0 {
        return Err("--interface is required");
    }
    if cfg.motor_id == 0 {
        return Err("--motor-id must be > 0");
    }
    Ok(())
}

/// A driver of the family that was asked for is opened: an LK motor under its own id,
/// with currents as torques only where its torque constant is known; a DAMIAO motor of
/// the named model, over CAN-FD exactly where that was asked for.
pub proof fn law_driver_is_the_one_asked_for(cfg: DriverConfig, backend: Backend)
    requires
        is_backend(cfg, backend),
    ensures
        backend is Robstride <==> cfg.kind is Robstride,
        backend is Lkmotor <==> cfg.kind is Lkmotor,
        backend is Damiao <==> cfg.kind is Damiao,
        backend matches Backend::Lkmotor { id, torque_constant_known } ==> id@ == cfg.motor_id && (
        torque_constant_known <==> 1 <= cfg.kt_bits <= 0x7F80_0000),
        backend matches Backend::Damiao { fd, .. } ==> (fd <==> cfg.bus_kind is CanFd),
{
}

/// A number is positive if its sign bit is clear and it is neither zero nor no number:
/// its negation is never, and a pattern above that of infinity is none.
pub proof fn law_what_is_positive(bits: u32)
    ensures
        !is_positive(0),
        !is_positive(0x8000_0000),
        bits >= 0x8000_0000 ==> !is_positive(bits),
        0 < bits < 0x7F80_0000 ==> is_positive(bits),
        is_positive(0x7F80_0000),
        0x7F80_0000 < bits < 0x8000_0000 ==> !is_positive(bits),
{
}

/// Nothing can go wrong before a Robstride motor is opened; an LK motor needs an id
/// from 1 to 32, and a DAMIAO motor a model that is known, or none given.
pub proof fn law_what_is_refused(cfg: DriverConfig)
    ensures
        cfg.kind is Robstride ==> build_error(cfg) is None,
        cfg.kind is Lkmotor ==> (build_error(cfg) is None <==> 1 <= cfg.motor_id <= 32),
        cfg.kind is Damiao ==> (build_error(cfg) is None <==> cfg.model@ == "Edulite05"@
            || limits::model_named(vstd::utf8::encode_utf8(cfg.model@)) is Some),
        cfg.kind is Damiao && limits::model_named(vstd::utf8::encode_utf8(cfg.model@)) is Some
            ==> damiao_model(cfg.model@) == limits::model_named(
            vstd::utf8::encode_utf8(cfg.model@),
        ),
        damiao_model("Edulite05"@) is Some,
{
}

/// A failure to set the timeout names CAN-FD exactly where a DAMIAO motor was to be
/// opened over it.
pub proof fn law_timeout_failures_name_the_bus(cfg: DriverConfig)
    ensures
        timeout_error(cfg) == (if cfg.kind is Damiao && cfg.bus_kind is CanFd {
            "failed to set CAN-FD socket timeout"@
        } else {
            "failed to set CAN socket timeout"@
        }),
{
}

/// A failure to open names the kind of port, the interface and the motor.
pub proof fn law_open_failures_name_the_port(cfg: DriverConfig)
    ensures
        cfg.kind is Robstride ==> open_error(cfg) == "failed to open SocketCAN interface "@
            + cfg.interface@ + " for motor "@ + text::dec(cfg.motor_id as nat),
        cfg.kind is Lkmotor ==> open_error(cfg) == "failed to open serial port "@ + cfg.interface@
            + " @ "@ + text::dec(cfg.baud as nat) + " baud for motor "@ + text::dec(
            cfg.motor_id as nat,
        ),
        cfg.kind is Damiao && cfg.bus_kind is Can ==> open_error(cfg)
            == "failed to open classic-CAN interface "@ + cfg.interface@ + " for motor "@
            + text::dec(cfg.motor_id as nat),
        cfg.kind is Damiao && cfg.bus_kind is CanFd ==> open_error(cfg)
            == "failed to open CAN-FD interface "@ + cfg.interface@ + " for motor "@ + text::dec(
            cfg.motor_id as nat,
        ) + " (is it `fd on`?)"@,
{
}

} // verus!
