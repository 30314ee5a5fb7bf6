//! A DAMIAO motor on a CAN bus.
//!
//! Feedback comes on the id that the motor was told to answer on (its master
//! id), not on the id that it listens on. Where several motors share a bus, each
//! needs a master id of its own. A motor that gets no command for a while faults
//! with `CommLost` and disables itself: control loops have to keep sending.
//!
//! Positions are the codes of the wire. The soft zero is kept here by its bit
//! pattern; whoever turns codes into radians applies it.
use crate::bytes;
use crate::clock;
use crate::damiao::bus;
use crate::damiao::bus::{Action, CanFrame, DamiaoBus, Phase};
use crate::damiao::can_id::REGISTER_ID;
use crate::damiao::error::Error;
use crate::damiao::feedback::Feedback;
use crate::damiao::frame;
use crate::damiao::frame::{
    build_clear_error_frame, build_disable_frame, build_enable_frame, build_mit_frame,
    build_pos_vel_frame, build_set_zero_frame, build_vel_frame, parse_feedback, MitCodes, DATA_LEN,
};
use crate::damiao::limits;
use crate::damiao::limits::{Limits, MotorModel};
use crate::damiao::register;
use crate::damiao::register::{
    build_read_reg, build_save_all, build_write_reg_f32, build_write_reg_int, parse_reg_reply,
    ControlMode, RegReply, Rid,
};
use vstd::prelude::*;
use vstd::string::*;

verus! {

/// The master id that motors are delivered with. A driver with this master id
/// takes feedback from any id.
pub const DEFAULT_MASTER_ID: u16 = 0;

/// How long a driver waits for a response unless told otherwise: 100 ms.
pub const DEFAULT_TIMEOUT_NS: u64 = 100_000_000;

/// How often a mode switch is tried.
pub const MODE_SWITCH_RETRIES: u32 = 20;

/// A motor and its bus.
pub struct DamiaoMotor<B: DamiaoBus> {
    bus: B,
    can_id: u8,
    master_id: u16,
    model: MotorModel,
    mode: ControlMode,
    mode_confirmed: bool,
    mode_answered: bool,
    enabled: bool,
    timeout_ns: u64,
    soft_zero_bits: u32,
    last_cmd: Option<(u16, [u8; DATA_LEN])>,
}

/// The state of a motor, without its bus.
pub struct MotorView {
    /// The id that the motor listens on.
    pub can_id: u8,
    /// The id that it answers on; 0 takes any.
    pub master_id: u16,
    pub model: MotorModel,
    /// The mode that the motor is taken to be in.
    pub mode: ControlMode,
    /// Whether that mode was written to the motor, rather than assumed.
    pub mode_confirmed: bool,
    /// Whether the motor answered a read of the mode when it was switched last.
    pub mode_answered: bool,
    pub enabled: bool,
    pub timeout_ns: u64,
    pub soft_zero_bits: u32,
    /// The last control frame, by id and data.
    pub last_cmd: Option<(u16, Seq<u8>)>,
}

impl<B: DamiaoBus> View for DamiaoMotor<B> {
    type V = MotorView;

    closed spec fn view(&self) -> MotorView {
        MotorView {
            can_id: self.can_id,
            master_id: self.master_id,
            model: self.model,
            mode: self.mode,
            mode_confirmed: self.mode_confirmed,
            mode_answered: self.mode_answered,
            enabled: self.enabled,
            timeout_ns: self.timeout_ns,
            soft_zero_bits: self.soft_zero_bits,
            last_cmd: match self.last_cmd {
                Some((id, data)) => Some((id, data@)),
                None => None,
            },
        }
    }
}

/// Whether a frame is feedback of this motor: it comes on the master id, unless
/// that is 0, has all its bytes, and carries the motor's id nibble.
pub open spec fn is_feedback(m: MotorView, f: CanFrame) -> bool {
    &&& m.master_id == 0 || f.can_id == m.master_id
    &&& f.data.len() >= DATA_LEN
    &&& f.data[0] % 16 == m.can_id % 16
}

/// Whether a frame is the reply of this motor about register `rid`: not a
/// request on the register channel, and by its content a reply to it.
pub open spec fn is_reply(m: MotorView, rid: u8, f: CanFrame) -> bool {
    &&& f.can_id != REGISTER_ID
    &&& register::reply_in(f.data@) matches Some(r) && r.can_id == m.can_id && r.rid == rid
}

/// Whether a wait for feedback goes on after receiving `r`.
pub open spec fn passes_feedback(m: MotorView, r: Result<CanFrame, Error>) -> bool {
    match r {
        Ok(f) => !is_feedback(m, f),
        Err(e) => e is Timeout,
    }
}

/// Whether a wait for a register reply goes on after receiving `r`.
pub open spec fn passes_reply(m: MotorView, rid: u8, r: Result<CanFrame, Error>) -> bool {
    match r {
        Ok(f) => !is_reply(m, rid, f),
        Err(e) => e is Timeout,
    }
}

/// That `heard` is what a wait for feedback may have received: nothing but the
/// last of it could end the wait, and if that did not, the wait was given up.
pub open spec fn awaited_feedback(m: MotorView, heard: Seq<Result<CanFrame, Error>>) -> bool {
    &&& forall|i: int| 0 <= i < heard.len() - 1 ==> passes_feedback(m, #[trigger] heard[i])
    &&& heard.len() == 0 || passes_feedback(m, heard.last()) ==> given_up(m, heard)
}

/// That a wait was given up, having received `heard`: the clock gave more than the
/// motor's timeout, or no more receives could be counted.
pub open spec fn given_up(m: MotorView, heard: Seq<Result<CanFrame, Error>>) -> bool {
    clock::ran_out(m.timeout_ns) || heard.len() >= u64::MAX
}

/// That `heard` is what a wait for a register reply may have received: nothing but
/// the last of it could end the wait, and if that did not, the wait was given up.
pub open spec fn awaited_reply(m: MotorView, rid: u8, heard: Seq<Result<CanFrame, Error>>) -> bool {
    &&& forall|i: int| 0 <= i < heard.len() - 1 ==> passes_reply(m, rid, #[trigger] heard[i])
    &&& heard.len() == 0 || passes_reply(m, rid, heard.last()) ==> given_up(m, heard)
}

/// What a wait for feedback gives, having received `heard`: the feedback or the
/// failure that ended it; if nothing did, its time was over.
pub open spec fn feedback_heard(m: MotorView, heard: Seq<Result<CanFrame, Error>>) -> Result<
    Feedback,
    Error,
> {
    if heard.len() > 0 && !passes_feedback(m, heard.last()) {
        match heard.last() {
            Ok(f) => Ok(frame::feedback_in(f.data@).unwrap()),
            Err(e) => Err(e),
        }
    } else {
        Err(Error::Timeout { motor_id: m.can_id })
    }
}

/// What a wait for a register reply gives, having received `heard`.
pub open spec fn reply_heard(
    m: MotorView,
    rid: u8,
    heard: Seq<Result<CanFrame, Error>>,
) -> Result<register::RegReplyView, Error> {
    if heard.len() > 0 && !passes_reply(m, rid, heard.last()) {
        match heard.last() {
            Ok(f) => Ok(register::reply_in(f.data@).unwrap()),
            Err(e) => Err(e),
        }
    } else {
        Err(Error::Timeout { motor_id: m.can_id })
    }
}

/// What became of the frame that was sent in `p`.
pub open spec fn send_result(p: Phase) -> Result<(), Error> {
    p.action->Some_0->Send_result
}

/// That this frame was sent in `p`, and nothing received if sending failed.
pub open spec fn sent(p: Phase, can_id: u16, data: Seq<u8>) -> bool {
    &&& p.action matches Some(Action::Send { can_id: c, data: d, .. }) && c == can_id && d == data
    &&& send_result(p) is Err ==> p.heard.len() == 0
}

/// That this frame was sent in `p`, and feedback awaited if sending succeeded.
pub open spec fn feedback_phase(m: MotorView, p: Phase, can_id: u16, data: Seq<u8>) -> bool {
    &&& sent(p, can_id, data)
    &&& send_result(p) is Ok ==> awaited_feedback(m, p.heard)
}

/// That this register frame was sent in `p`, and a reply awaited if sending
/// succeeded.
pub open spec fn register_phase(m: MotorView, p: Phase, rid: u8, data: Seq<u8>) -> bool {
    &&& sent(p, REGISTER_ID, data)
    &&& send_result(p) is Ok ==> awaited_reply(m, rid, p.heard)
}

/// The feedback in `p`, or why there is none.
pub open spec fn phase_feedback(m: MotorView, p: Phase) -> Result<Feedback, Error> {
    match send_result(p) {
        Err(e) => Err(e),
        Ok(_) => feedback_heard(m, p.heard),
    }
}

/// The feedback in `p`, or nothing where none came in time.
pub open spec fn phase_feedback_if_any(m: MotorView, p: Phase) -> Result<Option<Feedback>, Error> {
    match send_result(p) {
        Err(e) => Err(e),
        Ok(_) => match feedback_heard(m, p.heard) {
            Ok(fb) => Ok(Some(fb)),
            Err(Error::Timeout { .. }) => Ok(None),
            Err(e) => Err(e),
        },
    }
}

/// The register reply in `p`, or why there is none.
pub open spec fn phase_reply(m: MotorView, rid: u8, p: Phase) -> Result<
    register::RegReplyView,
    Error,
> {
    match send_result(p) {
        Err(e) => Err(e),
        Ok(_) => reply_heard(m, rid, p.heard),
    }
}

/// That exactly one phase was added.
pub open spec fn one_phase(before: Seq<Phase>, after: Seq<Phase>) -> bool {
    after.len() == before.len() + 1 && after.drop_last() == before
}

/// That `r` is `result`, by what the reply says.
pub open spec fn same_reply(
    r: Result<RegReply, Error>,
    result: Result<register::RegReplyView, Error>,
) -> bool {
    match result {
        Ok(v) => r matches Ok(reply) && reply@ == v,
        Err(e) => r == Err::<RegReply, Error>(e),
    }
}

/// The special command of `cmd` and what it makes of its phase.
pub open spec fn special_phase(m: MotorView, p: Phase, cmd: u8) -> bool {
    feedback_phase(m, p, m.can_id as u16, frame::special_payload(cmd))
}

/// What the control commands do, given their frame: nothing but an error unless
/// the motor is enabled; the frame is remembered once it is sent.
pub open spec fn controlled(
    m: MotorView,
    after: MotorView,
    before_history: Seq<Phase>,
    after_history: Seq<Phase>,
    r: Result<Feedback, Error>,
    can_id: u16,
    data: Seq<u8>,
) -> bool {
    if !m.enabled {
        &&& after_history == before_history
        &&& after == m
        &&& r == Err::<Feedback, Error>(Error::NotEnabled { motor_id: m.can_id })
    } else {
        let p = after_history.last();
        &&& one_phase(before_history, after_history)
        &&& feedback_phase(m, p, can_id, data)
        &&& r == phase_feedback(m, p)
        &&& after == (if send_result(p) is Ok {
            MotorView { last_cmd: Some((can_id, data)), ..m }
        } else {
            m
        })
    }
}

/// A register reply is the motor's and about the register that was asked for, and
/// never a request on the register channel.
pub proof fn law_reply_is_about_the_register(
    m: MotorView,
    rid: u8,
    heard: Seq<Result<CanFrame, Error>>,
)
    ensures
        reply_heard(m, rid, heard) matches Ok(reply) ==> {
            &&& reply.can_id == m.can_id
            &&& reply.rid == rid
            &&& heard.last() matches Ok(f)
            &&& f.can_id != 0x7FF
            &&& register::reply_in(f.data@) == Some(reply)
        },
{
}

/// What enabling does: the enable frame is sent, and feedback taken if any comes.
pub open spec fn enabling(
    m: MotorView,
    after: MotorView,
    before_history: Seq<Phase>,
    after_history: Seq<Phase>,
    r: Result<Option<Feedback>, Error>,
) -> bool {
    &&& one_phase(before_history, after_history)
    &&& special_phase(m, after_history.last(), 0xFC)
    &&& r == phase_feedback_if_any(m, after_history.last())
    &&& after == (MotorView { enabled: m.enabled || r is Ok, ..m })
}

/// What disabling does: the disable frame is sent, and feedback awaited.
pub open spec fn disabling(
    m: MotorView,
    after: MotorView,
    before_history: Seq<Phase>,
    after_history: Seq<Phase>,
    r: Result<(), Error>,
) -> bool {
    &&& one_phase(before_history, after_history)
    &&& special_phase(m, after_history.last(), 0xFD)
    &&& match phase_feedback_if_any(m, after_history.last()) {
        Ok(_) => r is Ok,
        Err(e) => r == Err::<(), Error>(e),
    }
    &&& after == (MotorView { enabled: m.enabled && r is Err, ..m })
}

/// What an MIT command does.
pub open spec fn mit_commanded(
    m: MotorView,
    after: MotorView,
    before_history: Seq<Phase>,
    after_history: Seq<Phase>,
    r: Result<Feedback, Error>,
    codes: frame::MitCodesView,
) -> bool {
    controlled(
        m,
        after,
        before_history,
        after_history,
        r,
        m.can_id as u16,
        frame::mit_payload(codes),
    )
}

/// What a position-velocity command does.
pub open spec fn pos_vel_commanded(
    m: MotorView,
    after: MotorView,
    before_history: Seq<Phase>,
    after_history: Seq<Phase>,
    r: Result<Feedback, Error>,
    position_bits: u32,
    max_speed_bits: u32,
) -> bool {
    controlled(
        m,
        after,
        before_history,
        after_history,
        r,
        (0x100 + m.can_id) as u16,
        frame::pos_vel_payload(position_bits, max_speed_bits),
    )
}

/// What a velocity command does.
pub open spec fn vel_commanded(
    m: MotorView,
    after: MotorView,
    before_history: Seq<Phase>,
    after_history: Seq<Phase>,
    r: Result<Feedback, Error>,
    velocity_bits: u32,
) -> bool {
    controlled(
        m,
        after,
        before_history,
        after_history,
        r,
        (0x200 + m.can_id) as u16,
        frame::vel_payload(velocity_bits),
    )
}

/// That exactly one frame was sent between `before` and `after`, on this id and
/// with this data.
pub open spec fn one_frame(before: Seq<Phase>, after: Seq<Phase>, can_id: int, data: Seq<u8>) -> bool {
    &&& after.len() == before.len() + 1
    &&& after.take(before.len() as int) == before
    &&& after.last().action matches Some(Action::Send { can_id: c, data: d, .. }) && c == can_id
        && d == data
}

/// Enabling sends the one frame that enables this motor; a motor is taken for
/// enabled once that succeeded, whether it answered or not, and nothing else that is
/// known of it changes.
pub proof fn law_enabling(
    m: MotorView,
    after: MotorView,
    h0: Seq<Phase>,
    h: Seq<Phase>,
    r: Result<Option<Feedback>, Error>,
)
    requires
        enabling(m, after, h0, h, r),
    ensures
        one_frame(
            h0,
            h,
            m.can_id as int,
            seq![0xFFu8, 0xFF, 0xFF, 0xFF, 0xFF, 0xFF, 0xFF, 0xFC],
        ),
        r is Ok ==> after.enabled,
        r is Err ==> after == m,
        after == (MotorView { enabled: after.enabled, ..m }),
        r is Ok ==> send_result(h.last()) is Ok,
{
    assert(h.take(h0.len() as int) =~= h.drop_last());
}

/// Disabling sends the one frame that disables this motor; a motor is taken for
/// disabled once that succeeded, and nothing else that is known of it changes.
pub proof fn law_disabling(
    m: MotorView,
    after: MotorView,
    h0: Seq<Phase>,
    h: Seq<Phase>,
    r: Result<(), Error>,
)
    requires
        disabling(m, after, h0, h, r),
    ensures
        one_frame(
            h0,
            h,
            m.can_id as int,
            seq![0xFFu8, 0xFF, 0xFF, 0xFF, 0xFF, 0xFF, 0xFF, 0xFD],
        ),
        r is Ok ==> !after.enabled,
        r is Err ==> after == m,
        after == (MotorView { enabled: after.enabled, ..m }),
        r is Ok ==> send_result(h.last()) is Ok,
{
    assert(h.take(h0.len() as int) =~= h.drop_last());
}

/// A position-velocity command of an enabled motor is one frame on the motor's
/// position channel, with the target before the speed, each as it was given.
pub proof fn law_pos_vel_command_on_the_wire(
    m: MotorView,
    after: MotorView,
    h0: Seq<Phase>,
    h: Seq<Phase>,
    r: Result<Feedback, Error>,
    position_bits: u32,
    max_speed_bits: u32,
)
    requires
        pos_vel_commanded(m, after, h0, h, r, position_bits, max_speed_bits),
        m.enabled,
    ensures
        ({
            let data = h.last().action->Some_0->Send_data;
            &&& one_frame(h0, h, 0x100 + m.can_id, data)
            &&& data.len() == 8
            &&& bytes::le_value(data.take(4)) == position_bits
            &&& bytes::le_value(data.skip(4)) == max_speed_bits
        }),
{
    frame::law_pos_vel_payload_holds_the_numbers(position_bits, max_speed_bits);
    assert(h.take(h0.len() as int) =~= h.drop_last());
}

/// A velocity command of an enabled motor is one frame on the motor's velocity
/// channel, with the velocity as it was given.
pub proof fn law_vel_command_on_the_wire(
    m: MotorView,
    after: MotorView,
    h0: Seq<Phase>,
    h: Seq<Phase>,
    r: Result<Feedback, Error>,
    velocity_bits: u32,
)
    requires
        vel_commanded(m, after, h0, h, r, velocity_bits),
        m.enabled,
    ensures
        ({
            let data = h.last().action->Some_0->Send_data;
            &&& one_frame(h0, h, 0x200 + m.can_id, data)
            &&& data.len() == 8
            &&& bytes::le_value(data.take(4)) == velocity_bits
            &&& data.skip(4) == seq![0u8, 0, 0, 0]
        }),
{
    frame::law_vel_payload_holds_the_velocity(velocity_bits);
    assert(h.take(h0.len() as int) =~= h.drop_last());
}

/// An MIT command of an enabled motor is one frame on the motor's own id, from which
/// all five codes can be read off as they were given.
pub proof fn law_mit_command_on_the_wire(
    m: MotorView,
    after: MotorView,
    h0: Seq<Phase>,
    h: Seq<Phase>,
    r: Result<Feedback, Error>,
    codes: frame::MitCodesView,
)
    requires
        mit_commanded(m, after, h0, h, r, codes),
        codes.fits(),
        m.enabled,
    ensures
        ({
            let d = h.last().action->Some_0->Send_data;
            &&& one_frame(h0, h, m.can_id as int, d)
            &&& d.len() == 8
            &&& d[0] * 0x100 + d[1] == codes.position
            &&& d[2] * 0x10 + d[3] / 16 == codes.velocity
            &&& d[3] % 16 * 0x100 + d[4] == codes.kp
            &&& d[5] * 0x10 + d[6] / 16 == codes.kd
            &&& d[6] % 16 * 0x100 + d[7] == codes.torque
        }),
{
    frame::law_mit_fields(codes);
    assert(h.take(h0.len() as int) =~= h.drop_last());
}

/// What a control command gives back is the answer of the motor: the last frame
/// that was received, if it carries the motor's nibble on the id that it answers
/// on, field by field. Without one, nothing is made up.
pub proof fn law_control_gives_the_answer(
    m: MotorView,
    after: MotorView,
    h0: Seq<Phase>,
    h: Seq<Phase>,
    r: Result<Feedback, Error>,
    can_id: u16,
    data: Seq<u8>,
)
    requires
        controlled(m, after, h0, h, r, can_id, data),
        r is Ok,
    ensures
        m.enabled,
        ({
            let heard = h.last().heard;
            &&& heard.len() > 0
            &&& heard.last() matches Ok(f)
            &&& f.data.len() >= 8
            &&& f.data[0] % 16 == m.can_id % 16
            &&& m.master_id != 0 ==> f.can_id == m.master_id
            &&& frame::feedback_in(f.data@) == Some(r->Ok_0)
        }),
{
}

/// Measuring sends the last control frame again, unchanged. In MIT mode before any
/// command it sends one without gains and without torque, so that nothing is
/// commanded; in any other mode it then sends nothing and fails.
pub proof fn law_measuring_commands_nothing_new(
    m: MotorView,
    h0: Seq<Phase>,
    h: Seq<Phase>,
    r: Result<Feedback, Error>,
)
    requires
        measured(m, h0, h, r),
    ensures
        m.last_cmd matches Some(cmd) ==> one_frame(h0, h, cmd.0 as int, cmd.1),
        m.last_cmd is None && m.mode == ControlMode::Mit ==> {
            let d = h.last().action->Some_0->Send_data;
            &&& one_frame(h0, h, m.can_id as int, d)
            &&& d.len() == 8
            &&& d[3] % 16 * 0x100 + d[4] == 0
            &&& d[5] * 0x10 + d[6] / 16 == 0
            &&& 2 * (d[6] % 16 * 0x100 + d[7]) + 1 == 0xFFF
            &&& 2 * (d[2] * 0x10 + d[3] / 16) + 1 == 0xFFF
        },
        m.last_cmd is None && m.mode != ControlMode::Mit ==> h == h0 && r is Err,
{
    frame::law_mit_fields(frame::idle_codes());
    if h != h0 {
        assert(h.take(h0.len() as int) =~= h.drop_last());
    }
}

/// A mode is switched by writing its number to register 10 of the motor: 1 for MIT,
/// 2 for position, 3 for velocity, 4 for force.
pub proof fn law_switching_writes_the_number(
    m: MotorView,
    after: MotorView,
    mode: ControlMode,
    h0: Seq<Phase>,
    h: Seq<Phase>,
    r: Result<(), Error>,
)
    requires
        mode_switch(m, after, mode, h0, h, r),
        !(m.mode_confirmed && m.mode == mode),
    ensures
        h.len() > h0.len(),
        h[h0.len() as int].action matches Some(Action::Send { can_id, data, .. }) && can_id == 0x7FF
            && data == seq![
            m.can_id,
            0,
            0x55,
            10,
            match mode {
                ControlMode::Mit => 1u8,
                ControlMode::PosVel => 2,
                ControlMode::Vel => 3,
                ControlMode::ForcePos => 4,
            },
            0,
            0,
            0,
        ],
{
    let phases = h.skip(h0.len() as int);
    assert(switch_request(m, mode, 0, phases[0]));
    assert(phases[0] == h[h0.len() as int]);
    let v = bytes::twos_complement(mode.value() as int, 4);
    register::law_register_request_fields(m.can_id, 0x55, Rid::CTRL_MODE, v);
    let p = mode_write(m, mode);
    assert(v < 5);
    assert(p[4] == v && p[5] == 0 && p[6] == 0 && p[7] == 0);
    assert(p =~= seq![m.can_id, 0, 0x55, 10, v as u8, 0, 0, 0]);
}

/// A switch that the motor answered succeeds only if the number that it read back
/// last is that of the mode; one that never was answered is taken to have worked.
pub proof fn law_switching_is_read_back(
    m: MotorView,
    after: MotorView,
    mode: ControlMode,
    h0: Seq<Phase>,
    h: Seq<Phase>,
    r: Result<(), Error>,
)
    requires
        mode_switch(m, after, mode, h0, h, r),
        !(m.mode_confirmed && m.mode == mode),
        r is Ok,
    ensures
        after.mode == mode,
        after.mode_confirmed,
        after.mode_answered ==> (phase_reply(m, 10, h.last()) matches Ok(reply)
            && reply.int_value() == mode.value()),
        !after.mode_answered ==> last_mode_read(m, h.skip(h0.len() as int)) is None && h.len()
            == h0.len() + 40,
{
    let phases = h.skip(h0.len() as int);
    let n = phases.len() as int;
    assert(phases.last() == h.last());
    if n % 2 == 1 && n > 0 {
        assert(switch_request(m, mode, n - 1, phases[n - 1]));
        assert(switch_unfinished(m, mode, n - 1, phases.last()));
    }
    assert(n > 0);
}

/// What a measurement does: the last control frame is sent again, or, in MIT
/// mode, one that commands nothing, and feedback awaited. In the other modes
/// nothing can be sent before a command was.
pub open spec fn measured(
    m: MotorView,
    before_history: Seq<Phase>,
    after_history: Seq<Phase>,
    r: Result<Feedback, Error>,
) -> bool {
    let p = after_history.last();
    match (m.last_cmd, m.mode) {
        (Some((id, data)), _) => {
            &&& one_phase(before_history, after_history)
            &&& feedback_phase(m, p, id, data)
            &&& r == phase_feedback(m, p)
        },
        (None, ControlMode::Mit) => {
            &&& one_phase(before_history, after_history)
            &&& feedback_phase(
                m,
                p,
                m.can_id as u16,
                frame::mit_payload(frame::idle_codes()),
            )
            &&& r == phase_feedback(m, p)
        },
        (None, _) => {
            &&& after_history == before_history
            &&& r matches Err(Error::InvalidResponse(s))
            &&& s@ == nothing_to_send()
        },
    }
}

/// What setting the soft zero does: a measurement, and where it succeeds, the soft
/// zero that `new_zero` gives for it.
pub open spec fn zeroed<F: Fn(Feedback, u32) -> u32>(
    m: MotorView,
    after: MotorView,
    before_history: Seq<Phase>,
    after_history: Seq<Phase>,
    new_zero: &F,
    r: Result<(), Error>,
) -> bool {
    exists|x: Result<Feedback, Error>|
        {
            &&& #[trigger] measured(m, before_history, after_history, x)
            &&& match x {
                Ok(fb) => {
                    &&& r is Ok
                    &&& after == (MotorView { soft_zero_bits: after.soft_zero_bits, ..m })
                    &&& new_zero.ensures((fb, m.soft_zero_bits), after.soft_zero_bits)
                },
                Err(e) => after == m && r == Err::<(), Error>(e),
            }
        }
}

/// The data of a request to write the mode register.
pub open spec fn mode_write(m: MotorView, mode: ControlMode) -> Seq<u8> {
    register::register_payload(
        m.can_id,
        0x55,
        Rid::CTRL_MODE,
        bytes::twos_complement(mode.value() as int, 4),
    )
}

/// The data of a request to read the mode register.
pub open spec fn mode_read(m: MotorView) -> Seq<u8> {
    register::register_payload(m.can_id, 0x33, Rid::CTRL_MODE, 0)
}

/// Whether a failed read of the mode register is tried again.
pub open spec fn retried(e: Error) -> bool {
    e is Timeout || e is InvalidResponse
}

/// Whether a mode switch goes on after this read of the mode register.
pub open spec fn switch_goes_on(
    mode: ControlMode,
    read: Result<register::RegReplyView, Error>,
) -> bool {
    match read {
        Ok(reply) => reply.int_value() != mode.value(),
        Err(e) => retried(e),
    }
}

/// The value in the last answered read of the mode register.
pub open spec fn last_mode_read(m: MotorView, phases: Seq<Phase>) -> Option<int>
    decreases phases.len(),
{
    if phases.len() < 2 {
        None
    } else {
        match phase_reply(m, Rid::CTRL_MODE, phases.last()) {
            Ok(reply) => Some(reply.int_value()),
            Err(_) => last_mode_read(m, phases.take(phases.len() - 2)),
        }
    }
}

/// That `phases` are write-and-read attempts of a mode switch that all went on.
pub open spec fn switch_attempts(m: MotorView, mode: ControlMode, phases: Seq<Phase>) -> bool {
    &&& phases.len() % 2 == 0
    &&& forall|i: int|
        0 <= i < phases.len() ==> #[trigger] switch_request(m, mode, i, phases[i])
    &&& forall|i: int|
        0 <= i < phases.len() ==> #[trigger] switch_unfinished(m, mode, i, phases[i])
}

/// That phase number `i` of a mode switch makes the right request: writes and
/// reads take turns.
pub open spec fn switch_request(m: MotorView, mode: ControlMode, i: int, p: Phase) -> bool {
    register_phase(
        m,
        p,
        Rid::CTRL_MODE,
        if i % 2 == 0 {
            mode_write(m, mode)
        } else {
            mode_read(m)
        },
    )
}

/// That phase number `i` does not end a mode switch.
pub open spec fn switch_unfinished(m: MotorView, mode: ControlMode, i: int, p: Phase) -> bool {
    if i % 2 == 0 {
        send_result(p) is Ok
    } else {
        switch_goes_on(mode, phase_reply(m, Rid::CTRL_MODE, p))
    }
}

/// That `phases` are a whole mode switch: attempts that go on, then one that does
/// not, or as many as there may be.
pub open spec fn switch_phases(m: MotorView, mode: ControlMode, phases: Seq<Phase>) -> bool {
    let n = phases.len();
    &&& 0 < n <= 2 * MODE_SWITCH_RETRIES
    &&& forall|i: int| 0 <= i < n ==> #[trigger] switch_request(m, mode, i, phases[i])
    &&& forall|i: int| 0 <= i < n - 1 ==> #[trigger] switch_unfinished(m, mode, i, phases[i])
    &&& switch_unfinished(m, mode, n - 1, phases.last()) ==> n == 2 * MODE_SWITCH_RETRIES
}

/// What a mode switch returns, having gone through `phases`: success once the
/// motor confirms the mode, or if it never answered at all; the failure that
/// ended it; or that the motor stays in another mode.
pub open spec fn switch_result(m: MotorView, mode: ControlMode, phases: Seq<Phase>) -> Result<
    (),
    Error,
> {
    let p = phases.last();
    if phases.len() % 2 == 1 {
        send_result(p)
    } else {
        match phase_reply(m, Rid::CTRL_MODE, p) {
            Ok(reply) if reply.int_value() == mode.value() => Ok(()),
            Err(e) if !retried(e) => Err(e),
            _ => match last_mode_read(m, phases) {
                None => Ok(()),
                Some(actual) => Err(
                    Error::ModeSwitchFailed {
                        motor_id: m.can_id,
                        requested: mode.value(),
                        actual: actual as i32,
                    },
                ),
            },
        }
    }
}

/// The motor after a mode switch that went through `phases`.
pub open spec fn switched(
    m: MotorView,
    mode: ControlMode,
    phases: Seq<Phase>,
    r: Result<(), Error>,
) -> MotorView {
    if r is Ok {
        MotorView {
            mode,
            mode_confirmed: true,
            mode_answered: last_mode_read(m, phases) is Some,
            ..m
        }
    } else {
        m
    }
}

/// That a mode switch took place: nothing where the mode is confirmed already,
/// all its phases otherwise.
pub open spec fn mode_switch(
    m: MotorView,
    after: MotorView,
    mode: ControlMode,
    before_history: Seq<Phase>,
    after_history: Seq<Phase>,
    r: Result<(), Error>,
) -> bool {
    if m.mode_confirmed && m.mode == mode {
        &&& after_history == before_history
        &&& after == m
        &&& r is Ok
    } else {
        let phases = after_history.skip(before_history.len() as int);
        &&& before_history.len() <= after_history.len()
        &&& after_history.take(before_history.len() as int) == before_history
        &&& switch_phases(m, mode, phases)
        &&& r == switch_result(m, mode, phases)
        &&& after == switched(m, mode, phases, r)
    }
}

/// A successful mode switch leaves the motor in that mode, confirmed; so a second
/// switch to it does nothing.
pub proof fn law_switching_twice_is_switching_once(
    m: MotorView,
    after: MotorView,
    again: MotorView,
    mode: ControlMode,
    h0: Seq<Phase>,
    h1: Seq<Phase>,
    h2: Seq<Phase>,
    r1: Result<(), Error>,
    r2: Result<(), Error>,
)
    requires
        mode_switch(m, after, mode, h0, h1, r1),
        r1 is Ok,
        mode_switch(after, again, mode, h1, h2, r2),
    ensures
        after.mode == mode,
        h2 == h1,
        again == after,
        r2 is Ok,
{
}

/// A mode switch that fails is never believed: mode and confirmation stay as
/// they were.
pub proof fn law_failed_switch_changes_nothing(
    m: MotorView,
    after: MotorView,
    mode: ControlMode,
    h0: Seq<Phase>,
    h1: Seq<Phase>,
    r: Result<(), Error>,
)
    requires
        mode_switch(m, after, mode, h0, h1, r),
        r is Err,
    ensures
        after == m,
{
}

/// A motor that is not enabled is never sent a control frame.
pub proof fn law_control_needs_enable(
    m: MotorView,
    after: MotorView,
    h0: Seq<Phase>,
    h1: Seq<Phase>,
    r: Result<Feedback, Error>,
    can_id: u16,
    data: Seq<u8>,
)
    requires
        controlled(m, after, h0, h1, r, can_id, data),
        !m.enabled,
    ensures
        h1 == h0,
        r is Err,
{
}

/// Feedback that is handed over carries the motor's id nibble, whatever else was
/// on the bus.
pub proof fn law_feedback_is_the_motors(m: MotorView, heard: Seq<Result<CanFrame, Error>>)
    ensures
        feedback_heard(m, heard) matches Ok(fb) ==> fb.motor_id == m.can_id % 16,
{
}

/// Two motors that answer on different ids never take each other's feedback.
pub proof fn law_master_ids_separate_motors(a: MotorView, b: MotorView, f: CanFrame)
    requires
        a.master_id != 0,
        b.master_id != 0,
        a.master_id != b.master_id,
    ensures
        !(is_feedback(a, f) && is_feedback(b, f)),
{
}

/// The text of the error that [`DamiaoMotor::measure`] gives where it has nothing
/// to send.
pub open spec fn nothing_to_send() -> Seq<char> {
    "measure() in POS_VEL/VEL mode needs a prior command in that mode; send one first"@
}

impl<B: DamiaoBus> DamiaoMotor<B> {
    /// What went over the bus.
    pub closed spec fn history(&self) -> Seq<Phase> {
        self.bus.history()
    }

    /// A motor on an open bus that answers on any id.
    pub fn with_bus(bus: B, can_id: u8, model: MotorModel) -> (r: Self)
        ensures
            r.history() == bus.history(),
            r@ == (MotorView {
                can_id,
                master_id: 0,
                model,
                mode: ControlMode::Mit,
                mode_confirmed: false,
                mode_answered: false,
                enabled: false,
                timeout_ns: DEFAULT_TIMEOUT_NS,
                soft_zero_bits: 0,
                last_cmd: None,
            }),
    {
        Self::with_bus_and_master(bus, can_id, DEFAULT_MASTER_ID, model)
    }

    /// A motor on an open bus that answers on `master_id`.
    pub fn with_bus_and_master(bus: B, can_id: u8, master_id: u16, model: MotorModel) -> (r: Self)
        ensures
            r.history() == bus.history(),
            r@ == (MotorView {
                can_id,
                master_id,
                model,
                mode: ControlMode::Mit,
                mode_confirmed: false,
                mode_answered: false,
                enabled: false,
                timeout_ns: DEFAULT_TIMEOUT_NS,
                soft_zero_bits: 0,
                last_cmd: None,
            }),
    {
        DamiaoMotor {
            bus,
            can_id,
            master_id,
            model,
            mode: ControlMode::Mit,
            mode_confirmed: false,
            mode_answered: false,
            enabled: false,
            timeout_ns: DEFAULT_TIMEOUT_NS,
            soft_zero_bits: 0,
            last_cmd: None,
        }
    }

    pub fn can_id(&self) -> (r: u8)
        ensures
            r == self@.can_id,
    {
        self.can_id
    }

    pub fn master_id(&self) -> (r: u16)
        ensures
            r == self@.master_id,
    {
        self.master_id
    }

    /// Sets the id that feedback is taken from; 0 takes any.
    pub fn set_master_id(&mut self, master_id: u16)
        ensures
            final(self)@ == (MotorView { master_id, ..old(self)@ }),
            final(self).history() == old(self).history(),
    {
        self.master_id = master_id;
    }

    pub fn model(&self) -> (r: MotorModel)
        ensures
            r == self@.model,
    {
        self.model
    }

    pub fn limits(&self) -> (r: Limits)
        ensures
            r == limits::limits_of(self@.model),
    {
        self.model.limits()
    }

    pub fn mode(&self) -> (r: ControlMode)
        ensures
            r == self@.mode,
    {
        self.mode
    }

    /// Whether the motor answered a read of the mode when it was switched last. A
    /// motor that did not is believed to have taken the mode.
    pub fn is_mode_answered(&self) -> (r: bool)
        ensures
            r == self@.mode_answered,
    {
        self.mode_answered
    }

    pub fn is_enabled(&self) -> (r: bool)
        ensures
            r == self@.enabled,
    {
        self.enabled
    }

    /// The bit pattern of the soft zero (rad).
    pub fn soft_zero(&self) -> (r: u32)
        ensures
            r == self@.soft_zero_bits,
    {
        self.soft_zero_bits
    }

    /// Sets the soft zero by its bit pattern (rad).
    pub fn set_soft_zero(&mut self, raw_offset_bits: u32)
        ensures
            final(self)@ == (MotorView { soft_zero_bits: raw_offset_bits, ..old(self)@ }),
            final(self).history() == old(self).history(),
    {
        self.soft_zero_bits = raw_offset_bits;
    }

    /// The bus.
    pub fn bus(&mut self) -> (r: &mut B)
        ensures
            r.history() == old(self).history(),
            final(self).history() == final(r).history(),
            final(self)@ == old(self)@,
    {
        &mut self.bus
    }

    /// Sets how long responses are waited for.
    pub fn set_timeout(&mut self, timeout_ns: u64) -> (r: Result<(), Error>)
        ensures
            final(self).history() == bus::acted(
                old(self).history(),
                Action::SetTimeout { timeout_ns, result: r },
            ),
            final(self)@ == (if r is Ok {
                MotorView { timeout_ns, ..old(self)@ }
            } else {
                old(self)@
            }),
    {
        let r = self.bus.set_timeout(timeout_ns);
        if r.is_ok() {
            self.timeout_ns = timeout_ns;
        }
        r
    }

    /// Waits for feedback of this motor. Frames of others are passed over, and so
    /// are receive timeouts, until this motor's own time is up.
    fn recv_feedback(&mut self) -> (r: Result<Feedback, Error>)
        requires
            old(self).history().len() > 0,
            old(self).history().last().heard.len() == 0,
        ensures
            final(self)@ == old(self)@,
            final(self).history() == old(self).history().drop_last().push(
                Phase {
                    action: old(self).history().last().action,
                    heard: final(self).history().last().heard,
                },
            ),
            awaited_feedback(old(self)@, final(self).history().last().heard),
            r == feedback_heard(old(self)@, final(self).history().last().heard),
    {
        let started = clock::start();
        let mut polls: u64 = u64::MAX;
        assert(self.history() =~= old(self).history().drop_last().push(self.history().last()));
        while polls > 0
            invariant
                clock::began(started),
                self.history().last().heard.len() == u64::MAX - polls,
                old(self).history().len() > 0,
                self@ == old(self)@,
                self.history() == old(self).history().drop_last().push(
                    Phase {
                        action: old(self).history().last().action,
                        heard: self.history().last().heard,
                    },
                ),
                forall|i: int|
                    0 <= i < self.history().last().heard.len() ==> passes_feedback(
                        old(self)@,
                        #[trigger] self.history().last().heard[i],
                    ),
            decreases polls,
        {
            polls = polls - 1;
            if clock::passed(&started, self.timeout_ns) {
                return Err(Error::Timeout { motor_id: self.can_id });
            }
            let ghost before = self.history();
            let received = self.bus.recv();
            proof {
                assert(self.history().last().heard == before.last().heard.push(received));
                assert(self.history() =~= old(self).history().drop_last().push(
                    self.history().last(),
                ));
            }
            match received {
                Ok(f) => {
                    let on_channel: bool = self.master_id == 0 || f.can_id == self.master_id;
                    if on_channel && f.data.len() >= DATA_LEN && f.data[0] % 16 == self.can_id
                        % 16 {
                        if let Some(fb) = parse_feedback(f.data.as_slice()) {
                            return Ok(fb);
                        }
                    }
                },
                Err(Error::Timeout { .. }) => {},
                Err(e) => {
                    return Err(e);
                },
            }
        }
        Err(Error::Timeout { motor_id: self.can_id })
    }

    /// Waits for feedback, content with none.
    fn try_recv_feedback(&mut self) -> (r: Result<Option<Feedback>, Error>)
        requires
            old(self).history().len() > 0,
            old(self).history().last().heard.len() == 0,
        ensures
            final(self)@ == old(self)@,
            final(self).history() == old(self).history().drop_last().push(
                Phase {
                    action: old(self).history().last().action,
                    heard: final(self).history().last().heard,
                },
            ),
            awaited_feedback(old(self)@, final(self).history().last().heard),
            r == (match feedback_heard(old(self)@, final(self).history().last().heard) {
                Ok(fb) => Ok(Some(fb)),
                Err(Error::Timeout { .. }) => Ok(None),
                Err(e) => Err(e),
            }),
    {
        match self.recv_feedback() {
            Ok(fb) => Ok(Some(fb)),
            Err(Error::Timeout { .. }) => Ok(None),
            Err(e) => Err(e),
        }
    }

    /// Sends a special command and waits for feedback, content with none.
    fn special(&mut self, can_id: u16, data: [u8; DATA_LEN]) -> (r: Result<
        Option<Feedback>,
        Error,
    >)
        ensures
            final(self)@ == old(self)@,
            one_phase(old(self).history(), final(self).history()),
            feedback_phase(old(self)@, final(self).history().last(), can_id, data@),
            r == phase_feedback_if_any(old(self)@, final(self).history().last()),
    {
        if let Err(e) = self.bus.send(can_id, &data) {
            assert(self.history().drop_last() =~= old(self).history());
            return Err(e);
        }
        assert(self.history().drop_last() =~= old(self).history());
        let r = self.try_recv_feedback();
        assert(self.history().drop_last() =~= old(self).history());
        r
    }

    /// Enables closed-loop control. Gives feedback if the motor sends any.
    pub fn enable(&mut self) -> (r: Result<Option<Feedback>, Error>)
        ensures
            enabling(
                old(self)@,
                final(self)@,
                old(self).history(),
                final(self).history(),
                r,
            ),
    {
        let (id, data) = build_enable_frame(self.can_id);
        match self.special(id, data) {
            Ok(fb) => {
                self.enabled = true;
                Ok(fb)
            },
            Err(e) => Err(e),
        }
    }

    /// Disables closed-loop control. The motor coasts.
    pub fn disable(&mut self) -> (r: Result<(), Error>)
        ensures
            disabling(
                old(self)@,
                final(self)@,
                old(self).history(),
                final(self).history(),
                r,
            ),
    {
        let (id, data) = build_disable_frame(self.can_id);
        match self.special(id, data) {
            Ok(_) => {
                self.enabled = false;
                Ok(())
            },
            Err(e) => Err(e),
        }
    }

    /// Stores the current position as zero in the motor's flash, where the model
    /// can, and forgets the soft zero. Flash wears out: this is for calibration.
    pub fn set_zero_nvm(&mut self) -> (r: Result<(), Error>)
        ensures
            if !old(self)@.model.stores_zero() {
                &&& final(self).history() == old(self).history()
                &&& final(self)@ == old(self)@
                &&& r matches Err(Error::Unsupported { motor_id, model, op })
                &&& motor_id == old(self)@.can_id
                &&& model@ == old(self)@.model.name_text()
                &&& op@ == "set_zero_nvm"@
            } else {
                &&& one_phase(old(self).history(), final(self).history())
                &&& special_phase(old(self)@, final(self).history().last(), 0xFE)
                &&& match phase_feedback_if_any(old(self)@, final(self).history().last()) {
                    Ok(_) => r is Ok,
                    Err(e) => r == Err::<(), Error>(e),
                }
                &&& final(self)@ == (if r is Ok {
                    MotorView { soft_zero_bits: 0, ..old(self)@ }
                } else {
                    old(self)@
                })
            },
    {
        if !self.model.supports_nvm_zero() {
            return Err(
                Error::Unsupported {
                    motor_id: self.can_id,
                    model: self.model.name(),
                    op: "set_zero_nvm",
                },
            );
        }
        let (id, data) = build_set_zero_frame(self.can_id);
        match self.special(id, data) {
            Ok(_) => {
                self.soft_zero_bits = 0;
                Ok(())
            },
            Err(e) => Err(e),
        }
    }

    /// Clears a fault.
    pub fn clear_error(&mut self) -> (r: Result<(), Error>)
        ensures
            one_phase(old(self).history(), final(self).history()),
            special_phase(old(self)@, final(self).history().last(), 0xFB),
            match phase_feedback_if_any(old(self)@, final(self).history().last()) {
                Ok(_) => r is Ok,
                Err(e) => r == Err::<(), Error>(e),
            },
            final(self)@ == old(self)@,
    {
        let (id, data) = build_clear_error_frame(self.can_id);
        match self.special(id, data) {
            Ok(_) => Ok(()),
            Err(e) => Err(e),
        }
    }

    /// Sends a control frame and waits for feedback.
    fn control(&mut self, can_id: u16, data: [u8; DATA_LEN]) -> (r: Result<Feedback, Error>)
        ensures
            controlled(
                old(self)@,
                final(self)@,
                old(self).history(),
                final(self).history(),
                r,
                can_id,
                data@,
            ),
    {
        if !self.enabled {
            return Err(Error::NotEnabled { motor_id: self.can_id });
        }
        if let Err(e) = self.bus.send(can_id, &data) {
            assert(self.history().drop_last() =~= old(self).history());
            return Err(e);
        }
        assert(self.history().drop_last() =~= old(self).history());
        self.last_cmd = Some((can_id, data));
        let r = self.recv_feedback();
        assert(self.history().drop_last() =~= old(self).history());
        r
    }

    /// MIT control, by the codes of its fields.
    pub fn mit_control(&mut self, codes: &MitCodes) -> (r: Result<Feedback, Error>)
        ensures
            mit_commanded(
                old(self)@,
                final(self)@,
                old(self).history(),
                final(self).history(),
                r,
                codes@,
            ),
    {
        let (id, data) = build_mit_frame(self.can_id, codes);
        self.control(id, data)
    }

    /// Position-velocity control, by the bit patterns of the position (rad) and
    /// the highest speed (rad/s).
    pub fn set_pos_vel(&mut self, position_bits: u32, max_speed_bits: u32) -> (r: Result<
        Feedback,
        Error,
    >)
        ensures
            pos_vel_commanded(
                old(self)@,
                final(self)@,
                old(self).history(),
                final(self).history(),
                r,
                position_bits,
                max_speed_bits,
            ),
    {
        let (id, data) = build_pos_vel_frame(self.can_id, position_bits, max_speed_bits);
        self.control(id, data)
    }

    /// Velocity control, by the bit pattern of the velocity (rad/s).
    pub fn set_vel(&mut self, velocity_bits: u32) -> (r: Result<Feedback, Error>)
        ensures
            vel_commanded(
                old(self)@,
                final(self)@,
                old(self).history(),
                final(self).history(),
                r,
                velocity_bits,
            ),
    {
        let (id, data) = build_vel_frame(self.can_id, velocity_bits);
        self.control(id, data)
    }

    /// Reads the state without changing what is commanded. A motor only answers
    /// commands: the last control frame is sent again, or, in MIT mode, one that
    /// commands nothing. In the other modes a command has to come first.
    pub fn measure(&mut self) -> (r: Result<Feedback, Error>)
        ensures
            final(self)@ == old(self)@,
            measured(old(self)@, old(self).history(), final(self).history(), r),
    {
        let (id, data) = match self.last_cmd {
            Some((id, data)) => (id, data),
            None => {
                if self.mode != ControlMode::Mit {
                    return Err(
                        Error::InvalidResponse(
                            "measure() in POS_VEL/VEL mode needs a prior command in that mode; send one first".to_owned(),
                        ),
                    );
                }
                build_mit_frame(self.can_id, &MitCodes::idle())
            },
        };
        if let Err(e) = self.bus.send(id, &data) {
            assert(self.history().drop_last() =~= old(self).history());
            return Err(e);
        }
        assert(self.history().drop_last() =~= old(self).history());
        let r = self.recv_feedback();
        assert(self.history().drop_last() =~= old(self).history());
        r
    }

    /// Makes the present position the soft zero. `new_zero` gives its bit pattern
    /// from a measurement and the bit pattern of the old one.
    pub fn set_zero<F: Fn(Feedback, u32) -> u32>(&mut self, new_zero: &F) -> (r: Result<(), Error>)
        requires
            forall|fb: Feedback, old_bits: u32| new_zero.requires((fb, old_bits)),
        ensures
            zeroed(
                old(self)@,
                final(self)@,
                old(self).history(),
                final(self).history(),
                new_zero,
                r,
            ),
    {
        let m = self.measure();
        assert(measured(old(self)@, old(self).history(), self.history(), m));
        match m {
            Ok(fb) => {
                self.soft_zero_bits = new_zero(fb, self.soft_zero_bits);
                Ok(())
            },
            Err(e) => Err(e),
        }
    }

    /// Waits for the reply about register `rid`. Replies come on the master id,
    /// so they are told by their content; requests on the register channel look
    /// alike and are passed over.
    fn recv_reg_reply(&mut self, rid: u8) -> (r: Result<RegReply, Error>)
        requires
            old(self).history().len() > 0,
            old(self).history().last().heard.len() == 0,
        ensures
            final(self)@ == old(self)@,
            final(self).history() == old(self).history().drop_last().push(
                Phase {
                    action: old(self).history().last().action,
                    heard: final(self).history().last().heard,
                },
            ),
            awaited_reply(old(self)@, rid, final(self).history().last().heard),
            same_reply(r, reply_heard(old(self)@, rid, final(self).history().last().heard)),
    {
        let started = clock::start();
        let mut polls: u64 = u64::MAX;
        assert(self.history() =~= old(self).history().drop_last().push(self.history().last()));
        while polls > 0
            invariant
                clock::began(started),
                self.history().last().heard.len() == u64::MAX - polls,
                old(self).history().len() > 0,
                self@ == old(self)@,
                self.history() == old(self).history().drop_last().push(
                    Phase {
                        action: old(self).history().last().action,
                        heard: self.history().last().heard,
                    },
                ),
                forall|i: int|
                    0 <= i < self.history().last().heard.len() ==> passes_reply(
                        old(self)@,
                        rid,
                        #[trigger] self.history().last().heard[i],
                    ),
            decreases polls,
        {
            polls = polls - 1;
            if clock::passed(&started, self.timeout_ns) {
                return Err(Error::Timeout { motor_id: self.can_id });
            }
            let ghost before = self.history();
            let received = self.bus.recv();
            proof {
                assert(self.history().last().heard == before.last().heard.push(received));
                assert(self.history() =~= old(self).history().drop_last().push(
                    self.history().last(),
                ));
            }
            match received {
                Ok(f) => {
                    if f.can_id != REGISTER_ID {
                        if let Some(reply) = parse_reg_reply(f.data.as_slice()) {
                            if reply.can_id == self.can_id && reply.rid == rid {
                                return Ok(reply);
                            }
                        }
                    }
                },
                Err(Error::Timeout { .. }) => {},
                Err(e) => {
                    return Err(e);
                },
            }
        }
        Err(Error::Timeout { motor_id: self.can_id })
    }

    /// Sends a register frame and waits for the reply.
    fn register_exchange(&mut self, rid: u8, can_id: u16, data: [u8; 8]) -> (r: (
        Result<(), Error>,
        Result<RegReply, Error>,
    ))
        requires
            can_id == REGISTER_ID,
        ensures
            final(self)@ == old(self)@,
            one_phase(old(self).history(), final(self).history()),
            register_phase(old(self)@, final(self).history().last(), rid, data@),
            r.0 == send_result(final(self).history().last()),
            r.0 is Ok ==> same_reply(
                r.1,
                phase_reply(old(self)@, rid, final(self).history().last()),
            ),
    {
        let sent = self.bus.send(can_id, &data);
        assert(self.history().drop_last() =~= old(self).history());
        if sent.is_err() {
            return (sent, Err(Error::Timeout { motor_id: self.can_id }));
        }
        let r = self.recv_reg_reply(rid);
        assert(self.history().drop_last() =~= old(self).history());
        (sent, r)
    }

    /// Reads a register.
    pub fn read_register(&mut self, rid: u8) -> (r: Result<RegReply, Error>)
        ensures
            final(self)@ == old(self)@,
            one_phase(old(self).history(), final(self).history()),
            register_phase(
                old(self)@,
                final(self).history().last(),
                rid,
                register::register_payload(old(self)@.can_id, 0x33, rid, 0),
            ),
            same_reply(r, phase_reply(old(self)@, rid, final(self).history().last())),
    {
        let (id, data) = build_read_reg(self.can_id, rid);
        match self.register_exchange(rid, id, data) {
            (Ok(()), r) => r,
            (Err(e), _) => Err(e),
        }
    }

    /// Writes an integer register, in RAM only. The motor's echo is waited for so
    /// that no later read takes it for its reply; whether it comes makes no
    /// difference.
    pub fn write_register_int(&mut self, rid: u8, value: i32) -> (r: Result<(), Error>)
        ensures
            final(self)@ == old(self)@,
            one_phase(old(self).history(), final(self).history()),
            register_phase(
                old(self)@,
                final(self).history().last(),
                rid,
                register::register_payload(
                    old(self)@.can_id,
                    0x55,
                    rid,
                    bytes::twos_complement(value as int, 4),
                ),
            ),
            r == send_result(final(self).history().last()),
    {
        let (id, data) = build_write_reg_int(self.can_id, rid, value);
        self.register_exchange(rid, id, data).0
    }

    /// Writes a float register by its bit pattern, in RAM only.
    pub fn write_register_f32(&mut self, rid: u8, value_bits: u32) -> (r: Result<(), Error>)
        ensures
            final(self)@ == old(self)@,
            one_phase(old(self).history(), final(self).history()),
            register_phase(
                old(self)@,
                final(self).history().last(),
                rid,
                register::register_payload(old(self)@.can_id, 0x55, rid, value_bits as nat),
            ),
            r == send_result(final(self).history().last()),
    {
        let (id, data) = build_write_reg_f32(self.can_id, rid, value_bits);
        self.register_exchange(rid, id, data).0
    }

    /// Saves all registers to flash. The motor is disabled first, as it has to
    /// be; `wait` gives it the time to write. New ids take effect when the motor
    /// is powered up again.
    pub fn save_to_flash<W: FnOnce()>(&mut self, wait: W) -> (r: Result<(), Error>)
        requires
            wait.requires(()),
        ensures
            ({
                let h0 = old(self).history();
                let h = final(self).history();
                let disabled = MotorView { enabled: false, ..old(self)@ };
                &&& h.len() > h0.len()
                &&& h.take(h0.len() as int) == h0
                &&& special_phase(old(self)@, h[h0.len() as int], 0xFD)
                &&& match phase_feedback_if_any(old(self)@, h[h0.len() as int]) {
                    Err(e) => {
                        &&& h.len() == h0.len() + 1
                        &&& r == Err::<(), Error>(e)
                        &&& final(self)@ == old(self)@
                    },
                    Ok(_) => {
                        &&& h.len() == h0.len() + 2
                        &&& feedback_phase(
                            disabled,
                            h.last(),
                            REGISTER_ID,
                            register::register_payload(old(self)@.can_id, 0xAA, 0x01, 0),
                        )
                        &&& r == send_result(h.last())
                        &&& r is Ok ==> wait.ensures((), ())
                        &&& final(self)@ == disabled
                    },
                }
            }),
    {
        let ghost h0 = self.history();
        if let Err(e) = self.disable() {
            assert(self.history().take(h0.len() as int) =~= h0);
            return Err(e);
        }
        let ghost h1 = self.history();
        let (id, data) = build_save_all(self.can_id);
        let sent = self.bus.send(id, &data);
        assert(self.history().drop_last() =~= h1);
        if sent.is_ok() {
            wait();
            let _ = self.try_recv_feedback();
        }
        assert(self.history().drop_last() =~= h1);
        assert(self.history().take(h0.len() as int) =~= h1.drop_last());
        assert(self.history()[h0.len() as int] == h1.last());
        sent
    }

    /// Switches the control mode and checks that the motor took it. Does nothing
    /// where the mode is confirmed already; the first switch always writes, since
    /// the motor may have started in another mode than assumed. A motor that
    /// answers no read at all is believed.
    pub fn switch_mode(&mut self, mode: ControlMode) -> (r: Result<(), Error>)
        ensures
            mode_switch(
                old(self)@,
                final(self)@,
                mode,
                old(self).history(),
                final(self).history(),
                r,
            ),
    {
        if self.mode_confirmed && self.mode == mode {
            return Ok(());
        }
        let ghost m = self@;
        let ghost h0 = self.history();
        let mut got_reply: bool = false;
        let mut last_value: i32 = -1;
        let mut tries: u32 = 0;
        proof {
            assert(h0.take(h0.len() as int) =~= h0);
        }
        while tries < MODE_SWITCH_RETRIES
            invariant
                tries <= MODE_SWITCH_RETRIES,
                self@ == m,
                m == old(self)@,
                h0 == old(self).history(),
                !(m.mode_confirmed && m.mode == mode),
                h0.len() + 2 * tries == self.history().len(),
                self.history().take(h0.len() as int) == h0,
                switch_attempts(m, mode, self.history().skip(h0.len() as int)),
                got_reply == (last_mode_read(m, self.history().skip(h0.len() as int)) is Some),
                last_mode_read(m, self.history().skip(h0.len() as int)) matches Some(v) ==> v
                    == last_value,
            decreases MODE_SWITCH_RETRIES - tries,
        {
            let ghost h1 = self.history();
            let ghost done = h1.skip(h0.len() as int);
            let written = self.write_register_int(Rid::CTRL_MODE, mode.raw());
            let ghost h2 = self.history();
            proof {
                lemma_one_more(h0, h1, h2);
            }
            if let Err(e) = written {
                proof {
                    let phases = h2.skip(h0.len() as int);
                    assert forall|i: int| 0 <= i < phases.len() implies #[trigger] switch_request(
                        m,
                        mode,
                        i,
                        phases[i],
                    ) by {
                        if i < done.len() {
                            assert(switch_request(m, mode, i, done[i]));
                        }
                    }
                    assert forall|i: int|
                        0 <= i < phases.len() - 1 implies #[trigger] switch_unfinished(
                        m,
                        mode,
                        i,
                        phases[i],
                    ) by {
                        assert(switch_unfinished(m, mode, i, done[i]));
                    }
                }
                return Err(e);
            }
            let read = self.read_register(Rid::CTRL_MODE);
            let ghost h3 = self.history();
            let ghost phases = h3.skip(h0.len() as int);
            proof {
                lemma_one_more(h0, h2, h3);
                assert(phases.take(phases.len() - 2) =~= done);
                assert forall|i: int| 0 <= i < phases.len() implies #[trigger] switch_request(
                    m,
                    mode,
                    i,
                    phases[i],
                ) by {
                    if i < done.len() {
                        assert(switch_request(m, mode, i, done[i]));
                    }
                }
                assert forall|i: int|
                    0 <= i < phases.len() - 1 implies #[trigger] switch_unfinished(
                    m,
                    mode,
                    i,
                    phases[i],
                ) by {
                    if i < done.len() {
                        assert(switch_unfinished(m, mode, i, done[i]));
                    }
                }
            }
            match read {
                Ok(reply) => {
                    got_reply = true;
                    last_value = reply.as_i32();
                    if last_value == mode.raw() {
                        self.mode = mode;
                        self.mode_confirmed = true;
                        self.mode_answered = true;
                        return Ok(());
                    }
                },
                Err(Error::Timeout { .. }) | Err(Error::InvalidResponse(_)) => {},
                Err(e) => {
                    return Err(e);
                },
            }
            tries = tries + 1;
            assert(switch_unfinished(m, mode, phases.len() - 1, phases.last()));
        }
        proof {
            let phases = self.history().skip(h0.len() as int);
            assert(switch_unfinished(m, mode, phases.len() - 1, phases[phases.len() - 1]));
        }
        if !got_reply {
            self.mode = mode;
            self.mode_confirmed = true;
            self.mode_answered = false;
            return Ok(());
        }
        Err(
            Error::ModeSwitchFailed {
                motor_id: self.can_id,
                requested: mode.raw(),
                actual: last_value,
            },
        )
    }
}

/// One phase more, seen from an earlier point of the history.
proof fn lemma_one_more(h0: Seq<Phase>, h1: Seq<Phase>, h2: Seq<Phase>)
    requires
        h0.len() <= h1.len(),
        h1.take(h0.len() as int) == h0,
        one_phase(h1, h2),
    ensures
        h2.take(h0.len() as int) == h0,
        h2.skip(h0.len() as int) == h1.skip(h0.len() as int).push(h2.last()),
{
    assert(h2.take(h0.len() as int) =~= h1.take(h0.len() as int));
    assert(h2.skip(h0.len() as int) =~= h1.skip(h0.len() as int).push(h2.last()));
}

/// The mode is read from register 10 of the motor, with nothing in the value.
pub proof fn law_mode_is_read_from_its_register(m: MotorView)
    ensures
        mode_read(m).len() == 8,
        mode_read(m)[0] == m.can_id,
        mode_read(m)[1] == 0,
        mode_read(m)[2] == 0x33,
        mode_read(m)[3] == 10,
        mode_read(m)[4] == 0 && mode_read(m)[5] == 0 && mode_read(m)[6] == 0 && mode_read(m)[7]
            == 0,
{
    register::law_register_request_fields(m.can_id, 0x33, 10, 0);
}

/// A mode switch reads the mode again after silence or an answer that makes no sense,
/// and after an answer with another mode; after any other failure, and once the mode is
/// the one that was written, it does not.
pub proof fn law_when_the_mode_is_read_again(
    mode: ControlMode,
    read: Result<register::RegReplyView, Error>,
)
    ensures
        read matches Ok(reply) ==> (switch_goes_on(mode, read) <==> reply.int_value()
            != mode.value()),
        read matches Err(e) ==> (switch_goes_on(mode, read) <==> e is Timeout
            || e is InvalidResponse),
{
}

/// A mode that is confirmed is not switched again: no frame is sent for it. Any other is
/// written.
pub proof fn law_confirmed_modes_are_not_switched(
    m: MotorView,
    after: MotorView,
    mode: ControlMode,
    before_history: Seq<Phase>,
    after_history: Seq<Phase>,
    r: Result<(), Error>,
)
    requires
        mode_switch(m, after, mode, before_history, after_history, r),
    ensures
        m.mode_confirmed && m.mode == mode ==> after_history == before_history && after == m
            && r is Ok,
        !m.mode_confirmed || m.mode != mode ==> (r is Ok ==> after.mode == mode
            && after.mode_confirmed) && (r is Err ==> after == m),
{
}

/// A mode switch tries at most 20 times, and each try is a write and then a read. It
/// fails for a mode that stays another only after all of them, and tells the mode that
/// was asked for and the one that was read last.
pub proof fn law_mode_switch_gives_up(
    m: MotorView,
    after: MotorView,
    mode: ControlMode,
    h0: Seq<Phase>,
    h: Seq<Phase>,
    r: Result<(), Error>,
    i: int,
)
    requires
        mode_switch(m, after, mode, h0, h, r),
        !(m.mode_confirmed && m.mode == mode),
    ensures
        h0.len() < h.len() <= h0.len() + 40,
        h0.len() <= i < h.len() ==> (h[i].action matches Some(Action::Send { can_id, data, .. })
            && can_id == 0x7FF && data == (if (i - h0.len()) % 2 == 0 {
            mode_write(m, mode)
        } else {
            mode_read(m)
        })),
        r matches Err(Error::ModeSwitchFailed { motor_id, requested, actual }) ==> (h.len()
            == h0.len() + 40 && phase_reply(m, 10, h.last()) is Ok ==> motor_id == m.can_id
            && requested == mode.value() && (last_mode_read(m, h.skip(h0.len() as int))
            matches Some(a) && actual == a as i32)),
        phase_reply(m, 10, h.last()) matches Ok(reply) && (h.len() - h0.len()) % 2 == 0
            && reply.int_value() != mode.value() ==> h.len() == h0.len() + 40 && r is Err,
{
    let phases = h.skip(h0.len() as int);
    let n = phases.len() as int;
    assert(phases.last() == h.last());
    if h0.len() <= i < h.len() {
        let k = i - h0.len();
        assert(switch_request(m, mode, k, phases[k]));
        assert(phases[k] == h[i]);
    }
    assert(switch_unfinished(m, mode, n - 1, phases.last()) ==> n == 40);
}

/// What counts of the reads of a mode switch is the last one that was answered.
pub proof fn law_last_answer_counts(m: MotorView, earlier: Seq<Phase>, write: Phase, read: Phase)
    ensures
        last_mode_read(m, earlier.push(write).push(read)) == (match phase_reply(m, 10, read) {
            Ok(reply) => Some(reply.int_value()),
            Err(_) => last_mode_read(m, earlier),
        }),
        last_mode_read(m, Seq::empty()) is None,
{
    let phases = earlier.push(write).push(read);
    assert(phases.take(phases.len() - 2) =~= earlier);
}

} // verus!
