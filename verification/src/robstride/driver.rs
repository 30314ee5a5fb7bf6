//! A Robstride motor on a CAN bus.
use crate::clock;
use crate::robstride::bus;
use crate::robstride::bus::{Action, CanFrame, Phase, RobstrideBus};
use crate::robstride::codec::{
    Codec, Feedback, FollowUp, FrameKind, IdParts, MitBits, Param, Request, RunMode,
};
use crate::robstride::error::Error;
use crate::robstride::plan;
use crate::robstride::plan::{
    gather_nothing, one, strict, Gathered, MotorState, Purpose, Reply, Run, RunView, Step,
};
use vstd::prelude::*;
use vstd::string::*;

verus! {

/// A motor, its bus and the layout of its frames.
pub struct Motor<B: RobstrideBus, C: Codec> {
    bus: B,
    codec: C,
    state: MotorState,
}

/// Whether a wait goes on after receiving `r`: frames of other kinds are dropped
/// and silence is waited out.
pub open spec fn passes<C: Codec>(c: C, wait: FollowUp, r: Result<CanFrame, Error>) -> bool {
    match r {
        Ok(f) => exists|p: IdParts| #[trigger]
            call_ensures(C::split, (&c, f.can_id), p) && !wait.ends_with(p.kind),
        Err(e) => e is Timeout,
    }
}

/// Whether a wait for the value of `param` goes on after receiving `r`, because it
/// is an old answer about another parameter.
pub open spec fn stale<C: Codec>(c: C, param: Param, r: Result<CanFrame, Error>) -> bool {
    r matches Ok(f) && exists|p: IdParts, index: u16, value: u32, wanted: u16|
        {
            &&& #[trigger] call_ensures(C::split, (&c, f.can_id), p)
            &&& p.kind == FrameKind::ReadParameter
            &&& #[trigger] call_ensures(C::value, (&c, &f), Some((index, value)))
            &&& #[trigger] call_ensures(C::index, (&c, param), wanted)
            &&& index != wanted
        }
}

/// Whether a wait for the value of `param` goes on after receiving `r`.
pub open spec fn passes_value<C: Codec>(c: C, param: Param, r: Result<CanFrame, Error>) -> bool {
    passes(c, FollowUp::Value(param), r) || stale(c, param, r)
}

/// That a wait was given up, having received `heard`: the clock gave more than the
/// motor's timeout, or no more receives could be counted.
pub open spec fn given_up(m: MotorState, heard: Seq<Result<CanFrame, Error>>) -> bool {
    clock::ran_out(m.timeout_ns) || heard.len() >= u64::MAX
}

/// That a wait, having received `heard`, gives `out`: the frame or the failure
/// that ended it, or that it was given up.
pub open spec fn awaited<C: Codec>(
    c: C,
    wait: FollowUp,
    m: MotorState,
    heard: Seq<Result<CanFrame, Error>>,
    out: Result<(IdParts, CanFrame), Error>,
) -> bool {
    &&& forall|i: int| 0 <= i < heard.len() - 1 ==> passes(c, wait, #[trigger] heard[i])
    &&& match out {
        Ok((p, f)) => {
            &&& heard.len() > 0
            &&& heard.last() == Ok::<CanFrame, Error>(f)
            &&& call_ensures(C::split, (&c, f.can_id), p)
            &&& wait.ends_with(p.kind)
        },
        Err(e) => {
            ||| heard.len() > 0 && heard.last() == Err::<CanFrame, Error>(e) && !(e is Timeout)
            ||| e == (Error::Timeout { motor_id: m.motor_id }) && (heard.len() > 0 ==> passes(
                c,
                wait,
                heard.last(),
            )) && given_up(m, heard)
        },
    }
}

/// What a status frame gives: a fault report is a failure, and so is a frame that
/// cannot be read.
pub open spec fn status_read<C: Codec>(
    c: C,
    p: IdParts,
    f: CanFrame,
    out: Result<Feedback, Error>,
) -> bool {
    if p.kind == FrameKind::FaultReport {
        out == Err::<Feedback, Error>(
            Error::MotorFault { motor_id: p.device_id, extra_data: p.extra },
        )
    } else {
        match out {
            Ok(fb) => call_ensures(C::status, (&c, &f), Some(fb)),
            Err(e) => {
                &&& call_ensures(C::status, (&c, &f), None)
                &&& e matches Error::InvalidResponse(s) && s@ == "failed to parse status frame"@
            },
        }
    }
}

/// That a wait for the status, having received `heard`, gives `out`.
pub open spec fn status_awaited<C: Codec>(
    c: C,
    m: MotorState,
    heard: Seq<Result<CanFrame, Error>>,
    out: Result<Feedback, Error>,
) -> bool {
    exists|got: Result<(IdParts, CanFrame), Error>|
        {
            &&& #[trigger] awaited(c, FollowUp::Status, m, heard, got)
            &&& match got {
                Ok((p, f)) => status_read(c, p, f, out),
                Err(e) => out == Err::<Feedback, Error>(e),
            }
        }
}

/// What an answer to a read gives: the value of the parameter, or a failure where
/// it cannot be read.
pub open spec fn value_read<C: Codec>(
    c: C,
    param: Param,
    f: CanFrame,
    out: Result<u32, Error>,
) -> bool {
    match out {
        Ok(value) => exists|index: u16|
            {
                &&& #[trigger] call_ensures(C::index, (&c, param), index)
                &&& call_ensures(C::value, (&c, &f), Some((index, value)))
            },
        Err(e) => {
            &&& call_ensures(C::value, (&c, &f), None)
            &&& e matches Error::InvalidResponse(s) && s@ == "failed to parse param response"@
        },
    }
}

/// That a wait for the value of `param`, having received `heard`, gives `out`.
pub open spec fn value_awaited<C: Codec>(
    c: C,
    param: Param,
    m: MotorState,
    heard: Seq<Result<CanFrame, Error>>,
    out: Result<u32, Error>,
) -> bool {
    &&& forall|i: int| 0 <= i < heard.len() - 1 ==> passes_value(c, param, #[trigger] heard[i])
    &&& {
        ||| heard.len() > 0 && (heard.last() matches Ok(f) && exists|p: IdParts|
            {
                &&& #[trigger] call_ensures(C::split, (&c, f.can_id), p)
                &&& p.kind == FrameKind::ReadParameter
                &&& value_read(c, param, f, out)
            })
        ||| out matches Err(e) && heard.len() > 0 && heard.last() == Err::<CanFrame, Error>(e)
            && !(e is Timeout)
        ||| out == Err::<u32, Error>(Error::Timeout { motor_id: m.motor_id }) && (heard.len() > 0
            ==> passes_value(c, param, heard.last())) && given_up(m, heard)
    }
}

/// What is received after a request, and the outcome.
pub open spec fn followed_up<C: Codec>(
    c: C,
    m: MotorState,
    request: Request,
    heard: Seq<Result<CanFrame, Error>>,
    out: Result<Reply, Error>,
) -> bool {
    match request.followed_by() {
        FollowUp::Status => match out {
            Ok(Reply::Status(fb)) => status_awaited(c, m, heard, Ok(fb)),
            Ok(_) => false,
            Err(e) => status_awaited(c, m, heard, Err(e)),
        },
        FollowUp::Value(param) => match out {
            Ok(Reply::Value(v)) => value_awaited(c, param, m, heard, Ok(v)),
            Ok(_) => false,
            Err(e) => value_awaited(c, param, m, heard, Err(e)),
        },
        FollowUp::Pause { ms } => {
            &&& heard.len() == 0
            &&& call_ensures(C::pause, (&c, ms), ())
            &&& out == Ok::<Reply, Error>(Reply::Sent)
        },
        FollowUp::Anything => false,
    }
}

/// That `p` is the exchange of a request: its frame was sent, and what it asks
/// for awaited.
pub open spec fn exchanged<C: Codec>(
    c: C,
    m: MotorState,
    p: Phase,
    request: Request,
    out: Result<Reply, Error>,
) -> bool {
    &&& exists|frame: (u32, [u8; 8])| #[trigger]
        call_ensures(C::encode, (&c, m.host_id, m.motor_id, request), frame) && bus::sent(
            p,
            frame.0,
            frame.1@,
        )
    &&& match bus::send_result(p) {
        Err(e) => out == Err::<Reply, Error>(e),
        Ok(_) => followed_up(c, m, request, p.heard, out),
    }
}

/// That `phases` are the exchanges of an operation, with the outcomes `outs`, that
/// leads to `after` and gives `r`.
pub open spec fn carried_out<C: Codec>(
    c: C,
    m: MotorState,
    run: RunView,
    phases: Seq<Phase>,
    outs: Seq<Result<Reply, Error>>,
    after: MotorState,
    r: Result<Gathered, Error>,
) -> bool
    decreases phases.len(),
{
    if run.steps.len() == 0 {
        phases.len() == 0 && outs.len() == 0 && after == m && r == Ok::<Gathered, Error>(
            run.gathered,
        )
    } else {
        &&& phases.len() > 0
        &&& outs.len() == phases.len()
        &&& exchanged(c, m, phases[0], run.steps[0].request, outs[0])
        &&& {
            let s = plan::settled(m, run, outs[0]);
            match s.2 {
                Some(e) => phases.len() == 1 && after == s.0 && r == Err::<Gathered, Error>(e),
                None => carried_out(c, s.0, s.1, phases.skip(1), outs.skip(1), after, r),
            }
        }
    }
}

/// That the operation of these steps took place.
pub open spec fn performed<C: Codec>(
    c: C,
    m: MotorState,
    steps: Seq<Step>,
    before_history: Seq<Phase>,
    after_history: Seq<Phase>,
    after: MotorState,
    r: Result<Gathered, Error>,
) -> bool {
    let n = before_history.len() as int;
    &&& after_history.len() >= n
    &&& after_history.take(n) == before_history
    &&& exists|outs: Seq<Result<Reply, Error>>| #[trigger]
        carried_out(
            c,
            m,
            RunView { steps, gathered: plan::nothing_gathered() },
            after_history.skip(n),
            outs,
            after,
            r,
        )
}

/// That `r` is what was measured.
pub open spec fn measured(
    m: MotorState,
    g: Result<Gathered, Error>,
    r: Result<Feedback, Error>,
) -> bool {
    match g {
        Ok(g) => plan::measurement(m, g) matches Some(fb) && r == Ok::<Feedback, Error>(fb),
        Err(e) => r == Err::<Feedback, Error>(e),
    }
}

/// What an operation that ends with a measurement does.
pub open spec fn measured_after<C: Codec>(
    c: C,
    m: MotorState,
    steps: Seq<Step>,
    before_history: Seq<Phase>,
    after_history: Seq<Phase>,
    after: MotorState,
    r: Result<Feedback, Error>,
) -> bool {
    exists|g: Result<Gathered, Error>|
        {
            &&& #[trigger] performed(c, m, steps, before_history, after_history, after, g)
            &&& measured(after, g, r)
        }
}

/// What an operation without a measurement does.
pub open spec fn done_after<C: Codec>(
    c: C,
    m: MotorState,
    steps: Seq<Step>,
    before_history: Seq<Phase>,
    after_history: Seq<Phase>,
    after: MotorState,
    r: Result<(), Error>,
) -> bool {
    exists|g: Result<Gathered, Error>|
        {
            &&& #[trigger] performed(c, m, steps, before_history, after_history, after, g)
            &&& match g {
                Ok(_) => r is Ok,
                Err(e) => r == Err::<(), Error>(e),
            }
        }
}

/// Whether an operation will have measured once it is over: what it takes is
/// gathered, or asked for by a step that must succeed.
pub open spec fn will_measure(run: RunView) -> bool {
    ||| run.gathered.status is Some || asks(run.steps, |s: Step| asks_status(s))
    ||| {
        &&& run.gathered.position is Some || asks(run.steps, |s: Step| asks_position(s))
        &&& run.gathered.velocity is Some || asks(run.steps, |s: Step| asks_velocity(s))
    }
}

/// Whether a step asks for the status.
pub open spec fn asks_status(s: Step) -> bool {
    !s.optional && s.request.followed_by() is Status && (s.purpose == Purpose::Status || s.purpose
        == Purpose::Enabled || s.purpose == Purpose::Disabled)
}

/// Whether a step asks for the position.
pub open spec fn asks_position(s: Step) -> bool {
    !s.optional && s.request is Read && s.purpose == Purpose::Position
}

/// Whether a step asks for the velocity.
pub open spec fn asks_velocity(s: Step) -> bool {
    !s.optional && s.request is Read && s.purpose == Purpose::Velocity
}

/// Whether some step is of this sort.
pub open spec fn asks(steps: Seq<Step>, sort: spec_fn(Step) -> bool) -> bool {
    exists|i: int| 0 <= i < steps.len() && sort(#[trigger] steps[i])
}

/// A step other than the first is still to come after the first.
proof fn lemma_asks_on(steps: Seq<Step>, after: Seq<Step>, added: Seq<Step>, sort: spec_fn(Step) -> bool)
    requires
        steps.len() > 0,
        after == added + steps.skip(1),
        asks(steps, sort),
        !sort(steps[0]),
    ensures
        asks(after, sort),
{
    let i = choose|i: int| 0 <= i < steps.len() && sort(#[trigger] steps[i]);
    assert(after[added.len() + i - 1] == steps[i]);
}

/// An operation that will measure has measured once it succeeded.
proof fn lemma_measures<C: Codec>(
    c: C,
    m: MotorState,
    run: RunView,
    phases: Seq<Phase>,
    outs: Seq<Result<Reply, Error>>,
    after: MotorState,
    g: Gathered,
)
    requires
        carried_out(c, m, run, phases, outs, after, Ok(g)),
        will_measure(run),
    ensures
        plan::measurement(after, g) is Some,
    decreases phases.len(),
{
    if run.steps.len() > 0 {
        let s = plan::settled(m, run, outs[0]);
        let step = run.steps[0];
        let added = if outs[0] is Ok {
            plan::steps_added(step.purpose, outs[0]->Ok_0)
        } else {
            Seq::empty()
        };
        assert(s.1.steps =~= added + run.steps.skip(1));
        let st = |s: Step| asks_status(s);
        let po = |s: Step| asks_position(s);
        let ve = |s: Step| asks_velocity(s);
        if asks(run.steps, st) && !st(step) {
            lemma_asks_on(run.steps, s.1.steps, added, st);
        }
        if asks(run.steps, po) && !po(step) {
            lemma_asks_on(run.steps, s.1.steps, added, po);
        }
        if asks(run.steps, ve) && !ve(step) {
            lemma_asks_on(run.steps, s.1.steps, added, ve);
        }
        assert(will_measure(s.1));
        lemma_measures(c, s.0, s.1, phases.skip(1), outs.skip(1), after, g);
    }
}

impl<B: RobstrideBus, C: Codec> Motor<B, C> {
    /// The state that is kept of the motor.
    pub closed spec fn spec_state(&self) -> MotorState {
        self.state
    }

    /// The layout of its frames.
    pub closed spec fn spec_codec(&self) -> C {
        self.codec
    }

    /// What happened on its bus.
    pub closed spec fn history(&self) -> Seq<Phase> {
        self.bus.history()
    }

    /// That the codec is that of `before`.
    pub open spec fn keeps(&self, before: &Self) -> bool {
        self.spec_codec() == before.spec_codec()
    }

    /// A motor of which nothing is known: disabled, in MIT mode.
    pub fn with_bus_and_host(bus: B, codec: C, motor_id: u8, host_id: u8) -> (r: Self)
        ensures
            r.spec_state() == plan::fresh(motor_id, host_id),
            r.spec_codec() == codec,
            r.history() == bus.history(),
    {
        Motor {
            bus,
            codec,
            state: MotorState::new(motor_id, host_id),
        }
    }

    /// Sets how long a response is waited for.
    pub fn set_timeout(&mut self, timeout_ns: u64) -> (r: Result<(), Error>)
        ensures
            final(self).history() == bus::acted(
                old(self).history(),
                Action::SetTimeout { timeout_ns, result: r },
            ),
            final(self).spec_codec() == old(self).spec_codec(),
            final(self).spec_state() == (if r is Ok {
                MotorState { timeout_ns, ..old(self).spec_state() }
            } else {
                old(self).spec_state()
            }),
    {
        let r = self.bus.set_timeout(timeout_ns);
        if r.is_ok() {
            self.state.timeout_ns = timeout_ns;
        }
        r
    }

    /// The motor's id.
    pub fn motor_id(&self) -> (r: u8)
        ensures
            r == self.spec_state().motor_id,
    {
        self.state.motor_id
    }

    /// The id that the driver goes by.
    pub fn host_id(&self) -> (r: u8)
        ensures
            r == self.spec_state().host_id,
    {
        self.state.host_id
    }

    /// Whether the motor was enabled.
    pub fn is_enabled(&self) -> (r: bool)
        ensures
            r == self.spec_state().enabled,
    {
        self.state.enabled
    }

    /// The mode that the motor is taken to be in.
    pub fn current_run_mode(&self) -> (r: RunMode)
        ensures
            r == self.spec_state().run_mode,
    {
        self.state.run_mode
    }

    /// The speed limit that was written last, by its bit pattern.
    pub fn cached_speed_limit(&self) -> (r: Option<u32>)
        ensures
            r == self.spec_state().cached_speed_limit,
    {
        self.state.cached_speed_limit
    }

    /// The state that is kept of the motor.
    pub fn state(&self) -> (r: MotorState)
        ensures
            r == self.spec_state(),
    {
        self.state
    }

    /// The bus.
    pub fn bus(&mut self) -> (r: &mut B)
        ensures
            r.history() == old(self).history(),
            final(self).history() == final(r).history(),
            final(self).spec_state() == old(self).spec_state(),
            final(self).keeps(old(self)),
    {
        &mut self.bus
    }

    /// Receives until a frame ends the wait, dropping all others.
    fn recv_filtered(&mut self, wait: FollowUp) -> (r: Result<(IdParts, CanFrame), Error>)
        requires
            old(self).history().len() > 0,
        ensures
            final(self).spec_state() == old(self).spec_state(),
            final(self).keeps(old(self)),
            ({
                let before = old(self).history();
                let after = final(self).history();
                let n = before.last().heard.len() as int;
                &&& after.len() == before.len()
                &&& after.drop_last() == before.drop_last()
                &&& after.last().action == before.last().action
                &&& after.last().heard.len() >= n
                &&& after.last().heard.take(n) == before.last().heard
                &&& awaited(
                    old(self).spec_codec(),
                    wait,
                    old(self).spec_state(),
                    after.last().heard.skip(n),
                    r,
                )
            }),
    {
        let ghost h0 = self.bus.history();
        let ghost n = h0.last().heard.len() as int;
        let started = clock::start();
        let mut polls: u64 = u64::MAX;
        proof {
            assert(h0.last().heard.take(n) =~= h0.last().heard);
        }
        while polls > 0
            invariant
                clock::began(started),
                self.bus.history().last().heard.skip(n).len() == u64::MAX - polls,
                self.state == old(self).state,
                self.codec == old(self).codec,
                h0 == old(self).bus.history(),
                h0.len() > 0,
                n == h0.last().heard.len(),
                self.bus.history().len() == h0.len(),
                self.bus.history().drop_last() == h0.drop_last(),
                self.bus.history().last().action == h0.last().action,
                self.bus.history().last().heard.len() >= n,
                self.bus.history().last().heard.take(n) == h0.last().heard,
                forall|i: int|
                    0 <= i < self.bus.history().last().heard.skip(n).len() ==> passes(
                        self.codec,
                        wait,
                        #[trigger] self.bus.history().last().heard.skip(n)[i],
                    ),
            decreases polls,
        {
            polls = polls - 1;
            if clock::passed(&started, self.state.timeout_ns) {
                return Err(Error::Timeout { motor_id: self.state.motor_id });
            }
            let ghost before = self.bus.history();
            let received = self.bus.recv();
            proof {
                let h = self.bus.history();
                assert(h.drop_last() =~= before.drop_last());
                assert(h.last().heard == before.last().heard.push(received));
                assert(h.last().heard.take(n) =~= before.last().heard.take(n));
                assert(h.last().heard.skip(n) =~= before.last().heard.skip(n).push(received));
            }
            match received {
                Ok(frame) => {
                    let parts = self.codec.split(frame.can_id);
                    if wait.accepts(parts.kind) {
                        return Ok((parts, frame));
                    }
                },
                Err(Error::Timeout { .. }) => {},
                Err(e) => {
                    return Err(e);
                },
            }
        }
        Err(Error::Timeout { motor_id: self.state.motor_id })
    }

    /// Waits for the status.
    fn recv_status(&mut self) -> (r: Result<Feedback, Error>)
        requires
            old(self).history().len() > 0,
            old(self).history().last().heard.len() == 0,
        ensures
            final(self).spec_state() == old(self).spec_state(),
            final(self).keeps(old(self)),
            final(self).history().len() == old(self).history().len(),
            final(self).history().drop_last() == old(self).history().drop_last(),
            final(self).history().last().action == old(self).history().last().action,
            status_awaited(
                old(self).spec_codec(),
                old(self).spec_state(),
                final(self).history().last().heard,
                r,
            ),
    {
        let got = self.recv_filtered(FollowUp::Status);
        proof {
            let heard = self.bus.history().last().heard;
            assert(heard.skip(0) =~= heard);
            assert(awaited(self.codec, FollowUp::Status, self.state, heard, got));
        }
        match got {
            Err(e) => Err(e),
            Ok((parts, frame)) => {
                if parts.kind == FrameKind::FaultReport {
                    return Err(
                        Error::MotorFault {
                            motor_id: parts.device_id,
                            extra_data: parts.extra,
                        },
                    );
                }
                match self.codec.status(&frame) {
                    Some(fb) => Ok(fb),
                    None => Err(
                        Error::InvalidResponse("failed to parse status frame".to_owned()),
                    ),
                }
            },
        }
    }

    /// Waits for the value of a parameter.
    fn recv_value(&mut self, param: Param) -> (r: Result<u32, Error>)
        requires
            old(self).history().len() > 0,
            old(self).history().last().heard.len() == 0,
        ensures
            final(self).spec_state() == old(self).spec_state(),
            final(self).keeps(old(self)),
            final(self).history().len() == old(self).history().len(),
            final(self).history().drop_last() == old(self).history().drop_last(),
            final(self).history().last().action == old(self).history().last().action,
            value_awaited(
                old(self).spec_codec(),
                param,
                old(self).spec_state(),
                final(self).history().last().heard,
                r,
            ),
    {
        let wanted: u16 = self.codec.index(param);
        let started = clock::start();
        let mut polls: u64 = u64::MAX;
        let ghost h0 = self.bus.history();
        while polls > 0
            invariant
                clock::began(started),
                self.bus.history().last().heard.len() >= u64::MAX - polls,
                self.state == old(self).state,
                self.codec == old(self).codec,
                h0 == old(self).bus.history(),
                h0.len() > 0,
                call_ensures(C::index, (&self.codec, param), wanted),
                self.bus.history().len() == h0.len(),
                self.bus.history().drop_last() == h0.drop_last(),
                self.bus.history().last().action == h0.last().action,
                forall|i: int|
                    0 <= i < self.bus.history().last().heard.len() ==> passes_value(
                        self.codec,
                        param,
                        #[trigger] self.bus.history().last().heard[i],
                    ),
            decreases polls,
        {
            polls = polls - 1;
            if clock::passed(&started, self.state.timeout_ns) {
                return Err(Error::Timeout { motor_id: self.state.motor_id });
            }
            let ghost before = self.bus.history().last().heard;
            let got = self.recv_filtered(FollowUp::Value(param));
            proof {
                let heard = self.bus.history().last().heard;
                let n = before.len() as int;
                assert forall|i: int| 0 <= i < heard.len() - 1 implies passes_value(
                    self.codec,
                    param,
                    #[trigger] heard[i],
                ) by {
                    if i < n {
                        assert(heard.take(n)[i] == before[i]);
                    } else {
                        assert(heard.skip(n)[i - n] == heard[i]);
                    }
                }
                if heard.len() > n {
                    assert(heard.skip(n).last() == heard.last());
                } else if heard.len() > 0 {
                    assert(heard.take(n)[n - 1] == before[n - 1]);
                }
            }
            match got {
                Err(e) => {
                    return Err(e);
                },
                Ok((parts, frame)) => match self.codec.value(&frame) {
                    None => {
                        return Err(
                            Error::InvalidResponse("failed to parse param response".to_owned()),
                        );
                    },
                    Some((index, value)) => {
                        if index == wanted {
                            return Ok(value);
                        }
                    },
                },
            }
        }
        Err(Error::Timeout { motor_id: self.state.motor_id })
    }

    /// Sends a request and waits for what it asks for.
    fn exchange(&mut self, request: Request) -> (r: Result<Reply, Error>)
        ensures
            final(self).spec_state() == old(self).spec_state(),
            final(self).keeps(old(self)),
            bus::one_phase(old(self).history(), final(self).history()),
            exchanged(
                old(self).spec_codec(),
                old(self).spec_state(),
                final(self).history().last(),
                request,
                r,
            ),
    {
        let ghost h0 = self.bus.history();
        let (can_id, data) = self.codec.encode(self.state.host_id, self.state.motor_id, request);
        if let Err(e) = self.bus.send(can_id, &data) {
            assert(self.bus.history().drop_last() =~= h0);
            return Err(e);
        }
        assert(self.bus.history().drop_last() =~= h0);
        let follow_up = request.follow_up();
        match follow_up {
            FollowUp::Status => match self.recv_status() {
                Ok(fb) => Ok(Reply::Status(fb)),
                Err(e) => Err(e),
            },
            FollowUp::Value(param) => match self.recv_value(param) {
                Ok(v) => Ok(Reply::Value(v)),
                Err(e) => Err(e),
            },
            FollowUp::Pause { ms } => {
                self.codec.pause(ms);
                Ok(Reply::Sent)
            },
            FollowUp::Anything => Ok(Reply::Sent),
        }
    }

    /// Carries out what is left of an operation.
    fn carry_out(&mut self, run: Run) -> (r: Result<Gathered, Error>)
        ensures
            final(self).keeps(old(self)),
            ({
                let n = old(self).history().len() as int;
                let h = final(self).history();
                &&& h.len() >= n
                &&& h.take(n) == old(self).history()
                &&& exists|outs: Seq<Result<Reply, Error>>| #[trigger]
                    carried_out(
                        old(self).spec_codec(),
                        old(self).spec_state(),
                        run@,
                        h.skip(n),
                        outs,
                        final(self).spec_state(),
                        r,
                    )
            }),
        decreases plan::weight(run@.steps),
    {
        let ghost h0 = self.bus.history();
        let ghost n = h0.len() as int;
        let ghost m = self.state;
        let ghost c = self.codec;
        if run.steps.len() == 0 {
            proof {
                let outs = Seq::<Result<Reply, Error>>::empty();
                assert(self.history().take(n) =~= old(self).history());
                assert(self.history().skip(n).len() == 0);
                assert(run@.steps.len() == 0);
                assert(carried_out(
                    old(self).spec_codec(),
                    old(self).spec_state(),
                    run@,
                    self.history().skip(n),
                    outs,
                    self.spec_state(),
                    Ok::<Gathered, Error>(run.gathered),
                ));
            }
            return Ok(run.gathered);
        }
        let request = run.steps[0].request;
        let outcome = self.exchange(request);
        let ghost h1 = self.bus.history();
        let ghost out = outcome;
        let ghost run0 = run@;
        let mut run = run;
        proof {
            plan::lemma_settling_ends(m, run0, out);
            assert(h1.take(n) =~= h1.drop_last());
        }
        let settled = self.state.settle(&mut run, outcome);
        match settled {
            Err(e) => {
                proof {
                    let outs = seq![out];
                    assert(h1.skip(n)[0] == h1.last());
                    assert(carried_out(c, m, run0, h1.skip(n), outs, self.state, Err(e)));
                }
                Err(e)
            },
            Ok(_) => {
                let ghost m1 = self.state;
                let ghost run1 = run@;
                let r = self.carry_out(run);
                proof {
                    let h = self.bus.history();
                    let rest = choose|outs: Seq<Result<Reply, Error>>| #[trigger]
                        carried_out(c, m1, run1, h.skip(n + 1), outs, self.state, r);
                    let outs = seq![out] + rest;
                    lemma_prefix(h0, h1, h);
                    assert(h.skip(n)[0] == h1.last()) by {
                        assert(h.take(n + 1)[n] == h[n]);
                    }
                    assert(h.skip(n).skip(1) =~= h.skip(n + 1));
                    assert(outs.skip(1) =~= rest);
                    lemma_as_many(c, m1, run1, h.skip(n + 1), rest, self.state, r);
                    assert(carried_out(c, m, run0, h.skip(n), outs, self.state, r));
                }
                r
            },
        }
    }

    /// Carries out an operation.
    fn perform(&mut self, steps: Vec<Step>) -> (r: Result<Gathered, Error>)
        ensures
            final(self).keeps(old(self)),
            performed(
                old(self).spec_codec(),
                old(self).spec_state(),
                steps@,
                old(self).history(),
                final(self).history(),
                final(self).spec_state(),
                r,
            ),
    {
        self.carry_out(Run { steps, gathered: gather_nothing() })
    }

    /// Carries out an operation without a measurement.
    pub(crate) fn perform_steps(&mut self, steps: Vec<Step>) -> (r: Result<(), Error>)
        ensures
            final(self).keeps(old(self)),
            done_after(
                old(self).spec_codec(),
                old(self).spec_state(),
                steps@,
                old(self).history(),
                final(self).history(),
                final(self).spec_state(),
                r,
            ),
    {
        match self.perform(steps) {
            Ok(_) => Ok(()),
            Err(e) => Err(e),
        }
    }

    /// Carries out an operation that measures, and gives the measurement and all
    /// else that was gathered.
    pub(crate) fn perform_measuring(&mut self, steps: Vec<Step>) -> (r: Result<
        (Feedback, Gathered),
        Error,
    >)
        requires
            will_measure(RunView { steps: steps@, gathered: plan::nothing_gathered() }),
        ensures
            final(self).keeps(old(self)),
            exists|g: Result<Gathered, Error>|
                {
                    &&& #[trigger] performed(
                        old(self).spec_codec(),
                        old(self).spec_state(),
                        steps@,
                        old(self).history(),
                        final(self).history(),
                        final(self).spec_state(),
                        g,
                    )
                    &&& match g {
                        Ok(g) => r matches Ok((fb, all)) && all == g && plan::measurement(
                            final(self).spec_state(),
                            g,
                        ) == Some(fb),
                        Err(e) => r == Err::<(Feedback, Gathered), Error>(e),
                    }
                },
    {
        let ghost run = RunView { steps: steps@, gathered: plan::nothing_gathered() };
        let g = self.perform(steps);
        match g {
            Err(e) => Err(e),
            Ok(g) => {
                proof {
                    let h = self.history();
                    let n = old(self).history().len() as int;
                    let outs = choose|outs: Seq<Result<Reply, Error>>| #[trigger]
                        carried_out(
                            old(self).spec_codec(),
                            old(self).spec_state(),
                            run,
                            h.skip(n),
                            outs,
                            self.spec_state(),
                            Ok(g),
                        );
                    lemma_measures(
                        old(self).spec_codec(),
                        old(self).spec_state(),
                        run,
                        h.skip(n),
                        outs,
                        self.spec_state(),
                        g,
                    );
                }
                let fb = self.state.measured(&g);
                match fb {
                    Some(fb) => Ok((fb, g)),
                    None => Err(Error::Timeout { motor_id: self.state.motor_id }),
                }
            },
        }
    }

    /// Carries out an operation that measures.
    pub(crate) fn perform_measured(&mut self, steps: Vec<Step>) -> (r: Result<Feedback, Error>)
        requires
            will_measure(RunView { steps: steps@, gathered: plan::nothing_gathered() }),
        ensures
            final(self).keeps(old(self)),
            measured_after(
                old(self).spec_codec(),
                old(self).spec_state(),
                steps@,
                old(self).history(),
                final(self).history(),
                final(self).spec_state(),
                r,
            ),
    {
        match self.perform_measuring(steps) {
            Ok((fb, _)) => Ok(fb),
            Err(e) => Err(e),
        }
    }
}

impl<B: RobstrideBus, C: Codec> Motor<B, C> {
    /// Asks the motor for its device id: the data field of the answer's id, and
    /// its data.
    pub fn ping(&mut self) -> (r: Result<(u16, Vec<u8>), Error>)
        ensures
            final(self).spec_state() == old(self).spec_state(),
            final(self).keeps(old(self)),
            bus::one_phase(old(self).history(), final(self).history()),
            pinged(
                old(self).spec_codec(),
                old(self).spec_state(),
                final(self).history().last(),
                r,
            ),
    {
        let ghost h0 = self.bus.history();
        let (can_id, data) = self.codec.ping(self.state.host_id, self.state.motor_id);
        if let Err(e) = self.bus.send(can_id, &data) {
            assert(self.bus.history().drop_last() =~= h0);
            return Err(e);
        }
        assert(self.bus.history().drop_last() =~= h0);
        let got = self.recv_filtered(FollowUp::Anything);
        proof {
            let heard = self.bus.history().last().heard;
            assert(heard.skip(0) =~= heard);
            assert(awaited(self.codec, FollowUp::Anything, self.state, heard, got));
        }
        match got {
            Ok((parts, frame)) => Ok((parts.extra, frame.data)),
            Err(e) => Err(e),
        }
    }

    /// Enables the motor.
    pub fn enable(&mut self) -> (r: Result<Feedback, Error>)
        ensures
            final(self).keeps(old(self)),
            measured_after(
                old(self).spec_codec(),
                old(self).spec_state(),
                plan::enabling(),
                old(self).history(),
                final(self).history(),
                final(self).spec_state(),
                r,
            ),
    {
        let steps = one(strict(Request::Enable, Purpose::Enabled));
        proof {
            assert(asks_status(steps@[0]));
        }
        self.perform_measured(steps)
    }

    /// Disables the motor.
    pub fn disable(&mut self) -> (r: Result<Feedback, Error>)
        ensures
            final(self).keeps(old(self)),
            measured_after(
                old(self).spec_codec(),
                old(self).spec_state(),
                plan::disabling(),
                old(self).history(),
                final(self).history(),
                final(self).spec_state(),
                r,
            ),
    {
        let steps = one(strict(Request::Disable, Purpose::Disabled));
        proof {
            assert(asks_status(steps@[0]));
        }
        self.perform_measured(steps)
    }

    /// Makes the present position zero.
    pub fn set_zero(&mut self) -> (r: Result<(), Error>)
        ensures
            final(self).keeps(old(self)),
            done_after(
                old(self).spec_codec(),
                old(self).spec_state(),
                plan::zeroing(),
                old(self).history(),
                final(self).history(),
                final(self).spec_state(),
                r,
            ),
    {
        self.perform_steps(one(strict(Request::SetZero, Purpose::Nothing)))
    }

    /// Sets the run mode.
    pub fn set_run_mode(&mut self, mode: RunMode) -> (r: Result<(), Error>)
        ensures
            final(self).keeps(old(self)),
            done_after(
                old(self).spec_codec(),
                old(self).spec_state(),
                plan::switching(mode),
                old(self).history(),
                final(self).history(),
                final(self).spec_state(),
                r,
            ),
    {
        self.perform_steps(one(strict(Request::SetRunMode(mode), Purpose::ModeSet(mode))))
    }

    /// Sends an MIT command, if the motor is enabled.
    pub fn mit_control(&mut self, bits: MitBits) -> (r: Result<Feedback, Error>)
        ensures
            final(self).keeps(old(self)),
            mit_commanded(
                old(self).spec_codec(),
                old(self).spec_state(),
                bits,
                old(self).history(),
                final(self).history(),
                final(self).spec_state(),
                r,
            ),
    {
        if !self.state.enabled {
            return Err(Error::NotEnabled { motor_id: self.state.motor_id });
        }
        let steps = one(strict(Request::Mit(bits), Purpose::Status));
        proof {
            assert(asks_status(steps@[0]));
        }
        self.perform_measured(steps)
    }

    /// Writes the float with this bit pattern to a parameter.
    pub fn write_param_f32(&mut self, param: Param, value: u32) -> (r: Result<(), Error>)
        ensures
            final(self).keeps(old(self)),
            done_after(
                old(self).spec_codec(),
                old(self).spec_state(),
                plan::writing(param, value),
                old(self).history(),
                final(self).history(),
                final(self).spec_state(),
                r,
            ),
    {
        self.perform_steps(one(strict(Request::Write(param, value), Purpose::Nothing)))
    }

    /// Sets the target position.
    pub fn set_position(&mut self, position: u32) -> (r: Result<(), Error>)
        ensures
            final(self).keeps(old(self)),
            done_after(
                old(self).spec_codec(),
                old(self).spec_state(),
                plan::position_target(position),
                old(self).history(),
                final(self).history(),
                final(self).spec_state(),
                r,
            ),
    {
        self.perform_steps(one(strict(Request::Write(Param::LocRef, position), Purpose::Nothing)))
    }

    /// Sets the speed limit of position control, and remembers it.
    pub fn set_position_speed_limit(&mut self, speed: u32) -> (r: Result<(), Error>)
        ensures
            final(self).keeps(old(self)),
            done_after(
                old(self).spec_codec(),
                old(self).spec_state(),
                seq![plan::limit_step(speed)],
                old(self).history(),
                final(self).history(),
                final(self).spec_state(),
                r,
            ),
    {
        self.perform_steps(one(
            strict(Request::Write(Param::LimitSpd, speed), Purpose::SpeedLimited(speed)),
        ))
    }

    /// Sets the target position, and before it the speed limit, unless that limit
    /// is in force. `differs` is whether `max_speed` differs from the limit that
    /// was written last, as numbers.
    pub fn set_position_with_speed(&mut self, position: u32, max_speed: u32, differs: bool) -> (r:
        Result<(), Error>)
        ensures
            final(self).keeps(old(self)),
            done_after(
                old(self).spec_codec(),
                old(self).spec_state(),
                plan::position_steps(old(self).spec_state(), position, max_speed, differs),
                old(self).history(),
                final(self).history(),
                final(self).spec_state(),
                r,
            ),
    {
        let steps = self.state.position_plan(position, max_speed, differs);
        self.perform_steps(steps)
    }

    /// Sets the torque limit.
    pub fn set_torque_limit(&mut self, torque: u32) -> (r: Result<(), Error>)
        ensures
            final(self).keeps(old(self)),
            done_after(
                old(self).spec_codec(),
                old(self).spec_state(),
                plan::torque_limit(torque),
                old(self).history(),
                final(self).history(),
                final(self).spec_state(),
                r,
            ),
    {
        self.perform_steps(one(strict(Request::Write(Param::LimitTorque, torque), Purpose::Nothing)))
    }

    /// Sets the current limit.
    pub fn set_current_limit(&mut self, current: u32) -> (r: Result<(), Error>)
        ensures
            final(self).keeps(old(self)),
            done_after(
                old(self).spec_codec(),
                old(self).spec_state(),
                plan::current_limit(current),
                old(self).history(),
                final(self).history(),
                final(self).spec_state(),
                r,
            ),
    {
        self.perform_steps(one(strict(Request::Write(Param::LimitCur, current), Purpose::Nothing)))
    }

    /// Sets the target velocity.
    pub fn set_velocity(&mut self, velocity: u32) -> (r: Result<(), Error>)
        ensures
            final(self).keeps(old(self)),
            done_after(
                old(self).spec_codec(),
                old(self).spec_state(),
                plan::velocity_target(velocity),
                old(self).history(),
                final(self).history(),
                final(self).spec_state(),
                r,
            ),
    {
        self.perform_steps(one(strict(Request::Write(Param::SpdRef, velocity), Purpose::Nothing)))
    }

    /// Sets the target current.
    pub fn set_torque(&mut self, iq: u32) -> (r: Result<(), Error>)
        ensures
            final(self).keeps(old(self)),
            done_after(
                old(self).spec_codec(),
                old(self).spec_state(),
                plan::current_target(iq),
                old(self).history(),
                final(self).history(),
                final(self).spec_state(),
                r,
            ),
    {
        self.perform_steps(one(strict(Request::Write(Param::IqRef, iq), Purpose::Nothing)))
    }

    /// Reads a parameter, by its bit pattern.
    pub fn read_param(&mut self, param: Param) -> (r: Result<u32, Error>)
        ensures
            final(self).spec_state() == old(self).spec_state(),
            final(self).keeps(old(self)),
            bus::one_phase(old(self).history(), final(self).history()),
            param_read(
                old(self).spec_codec(),
                old(self).spec_state(),
                final(self).history().last(),
                param,
                r,
            ),
    {
        match self.exchange(Request::Read(param)) {
            Ok(Reply::Value(v)) => Ok(v),
            Ok(_) => Err(Error::Timeout { motor_id: self.state.motor_id }),
            Err(e) => Err(e),
        }
    }

    /// Reads the position.
    pub fn read_position(&mut self) -> (r: Result<u32, Error>)
        ensures
            final(self).spec_state() == old(self).spec_state(),
            final(self).keeps(old(self)),
            bus::one_phase(old(self).history(), final(self).history()),
            param_read(
                old(self).spec_codec(),
                old(self).spec_state(),
                final(self).history().last(),
                Param::MechPos,
                r,
            ),
    {
        self.read_param(Param::MechPos)
    }

    /// Reads the velocity.
    pub fn read_velocity(&mut self) -> (r: Result<u32, Error>)
        ensures
            final(self).spec_state() == old(self).spec_state(),
            final(self).keeps(old(self)),
            bus::one_phase(old(self).history(), final(self).history()),
            param_read(
                old(self).spec_codec(),
                old(self).spec_state(),
                final(self).history().last(),
                Param::MechVel,
                r,
            ),
    {
        self.read_param(Param::MechVel)
    }

    /// Reads the filtered current.
    pub fn read_current(&mut self) -> (r: Result<u32, Error>)
        ensures
            final(self).spec_state() == old(self).spec_state(),
            final(self).keeps(old(self)),
            bus::one_phase(old(self).history(), final(self).history()),
            param_read(
                old(self).spec_codec(),
                old(self).spec_state(),
                final(self).history().last(),
                Param::IqFilt,
                r,
            ),
    {
        self.read_param(Param::IqFilt)
    }

    /// Reads the bus voltage.
    pub fn read_vbus(&mut self) -> (r: Result<u32, Error>)
        ensures
            final(self).spec_state() == old(self).spec_state(),
            final(self).keeps(old(self)),
            bus::one_phase(old(self).history(), final(self).history()),
            param_read(
                old(self).spec_codec(),
                old(self).spec_state(),
                final(self).history().last(),
                Param::Vbus,
                r,
            ),
    {
        self.read_param(Param::Vbus)
    }

    /// Reads the filtered torque. This is safe in every mode.
    pub fn read_torque(&mut self) -> (r: Result<u32, Error>)
        ensures
            final(self).spec_state() == old(self).spec_state(),
            final(self).keeps(old(self)),
            bus::one_phase(old(self).history(), final(self).history()),
            param_read(
                old(self).spec_codec(),
                old(self).spec_state(),
                final(self).history().last(),
                Param::MeasuredTorque,
                r,
            ),
    {
        self.read_param(Param::MeasuredTorque)
    }

    /// Reads the status with an MIT command that commands nothing, whether the motor
    /// is enabled or not. In any other mode this takes the firmware out of that
    /// mode.
    pub fn read_status(&mut self) -> (r: Result<Feedback, Error>)
        ensures
            final(self).keeps(old(self)),
            measured_after(
                old(self).spec_codec(),
                old(self).spec_state(),
                plan::status_reading(),
                old(self).history(),
                final(self).history(),
                final(self).spec_state(),
                r,
            ),
    {
        let steps = one(
            strict(
                Request::Mit(MitBits { position: 0, velocity: 0, kp: 0, kd: 0, torque: 0 }),
                Purpose::Status,
            ),
        );
        proof {
            assert(asks_status(steps@[0]));
        }
        self.perform_measured(steps)
    }

    /// Reads the temperature, which only the status holds.
    pub fn read_temperature(&mut self) -> (r: Result<Option<u32>, Error>)
        ensures
            final(self).keeps(old(self)),
            exists|x: Result<Feedback, Error>|
                {
                    &&& #[trigger] measured_after(
                        old(self).spec_codec(),
                        old(self).spec_state(),
                        plan::status_reading(),
                        old(self).history(),
                        final(self).history(),
                        final(self).spec_state(),
                        x,
                    )
                    &&& match x {
                        Ok(fb) => r == Ok::<Option<u32>, Error>(fb.temperature),
                        Err(e) => r == Err::<Option<u32>, Error>(e),
                    }
                },
    {
        match self.read_status() {
            Ok(fb) => Ok(fb.temperature),
            Err(e) => Err(e),
        }
    }

    /// Measures without disturbing the run mode.
    pub fn measure_safe(&mut self) -> (r: Result<Feedback, Error>)
        ensures
            final(self).keeps(old(self)),
            measured_after(
                old(self).spec_codec(),
                old(self).spec_state(),
                plan::measure_steps(old(self).spec_state()),
                old(self).history(),
                final(self).history(),
                final(self).spec_state(),
                r,
            ),
    {
        let steps = self.state.measure_plan();
        proof {
            lemma_measuring_last(Seq::empty(), self.state);
            assert(Seq::<Step>::empty() + steps@ =~= steps@);
        }
        self.perform_measured(steps)
    }
}

/// That `p` is a ping: its frame was sent, and any frame awaited.
pub open spec fn pinged<C: Codec>(
    c: C,
    m: MotorState,
    p: Phase,
    r: Result<(u16, Vec<u8>), Error>,
) -> bool {
    &&& exists|frame: (u32, [u8; 8])| #[trigger]
        call_ensures(C::ping, (&c, m.host_id, m.motor_id), frame) && bus::sent(
            p,
            frame.0,
            frame.1@,
        )
    &&& match bus::send_result(p) {
        Err(e) => r == Err::<(u16, Vec<u8>), Error>(e),
        Ok(_) => exists|got: Result<(IdParts, CanFrame), Error>|
            {
                &&& #[trigger] awaited(c, FollowUp::Anything, m, p.heard, got)
                &&& match got {
                    Ok((parts, f)) => r == Ok::<(u16, Vec<u8>), Error>((parts.extra, f.data)),
                    Err(e) => r == Err::<(u16, Vec<u8>), Error>(e),
                }
            },
    }
}

/// That `p` is a read of `param`.
pub open spec fn param_read<C: Codec>(
    c: C,
    m: MotorState,
    p: Phase,
    param: Param,
    r: Result<u32, Error>,
) -> bool {
    exchanged(
        c,
        m,
        p,
        Request::Read(param),
        match r {
            Ok(v) => Ok(Reply::Value(v)),
            Err(e) => Err(e),
        },
    )
}

/// What an MIT command does: nothing but an error unless the motor is enabled.
pub open spec fn mit_commanded<C: Codec>(
    c: C,
    m: MotorState,
    bits: MitBits,
    before_history: Seq<Phase>,
    after_history: Seq<Phase>,
    after: MotorState,
    r: Result<Feedback, Error>,
) -> bool {
    if !m.enabled {
        &&& after_history == before_history
        &&& after == m
        &&& r == Err::<Feedback, Error>(Error::NotEnabled { motor_id: m.motor_id })
    } else {
        measured_after(
            c,
            m,
            plan::mit_command(bits),
            before_history,
            after_history,
            after,
            r,
        )
    }
}

/// An operation that ends with the steps of a measurement will measure.
pub proof fn lemma_measuring_last(before: Seq<Step>, m: MotorState)
    ensures
        will_measure(
            RunView {
                steps: before + plan::measure_steps(m),
                gathered: plan::nothing_gathered(),
            },
        ),
{
    let n = before.len() as int;
    let steps = before + plan::measure_steps(m);
    if m.run_mode == RunMode::Mit {
        assert(asks_status(steps[n]));
    } else {
        assert(asks_position(steps[n]));
        assert(asks_velocity(steps[n + 1]));
    }
}

/// An operation of a single request makes a single exchange. Where it fails, the
/// state that is kept of the motor is what it was; where it succeeds, the state
/// is what the request is for: a motor that was enabled is taken for enabled, and
/// so on.
pub proof fn law_single_request<C: Codec>(
    c: C,
    m: MotorState,
    step: Step,
    before_history: Seq<Phase>,
    after_history: Seq<Phase>,
    after: MotorState,
    r: Result<Gathered, Error>,
)
    requires
        performed(c, m, seq![step], before_history, after_history, after, r),
        !step.optional,
        step.purpose != Purpose::Hold,
    ensures
        after_history.len() == before_history.len() + 1,
        r is Err ==> after == m,
        r is Ok ==> after == plan::motor_after(m, step.purpose),
{
    reveal_with_fuel(carried_out, 2);
    let n = before_history.len() as int;
    let run = RunView { steps: seq![step], gathered: plan::nothing_gathered() };
    let outs = choose|outs: Seq<Result<Reply, Error>>| #[trigger]
        carried_out(c, m, run, after_history.skip(n), outs, after, r);
    if outs[0] is Ok {
        assert(plan::steps_added(step.purpose, outs[0]->Ok_0) + run.steps.skip(1) =~= Seq::<
            Step,
        >::empty());
    }
}

/// Whether an operation of these steps may make this request: one of them does,
/// or it is the target that keeps a motor where it is.
pub open spec fn planned(steps: Seq<Step>, request: Request) -> bool {
    ||| exists|k: int| 0 <= k < steps.len() && (#[trigger] steps[k]).request == request
    ||| request matches Request::Write(Param::LocRef, _) && exists|k: int|
        0 <= k < steps.len() && (#[trigger] steps[k]).purpose == Purpose::Hold
}

/// An exchange rests on the ids and the timeout of a motor alone.
proof fn lemma_same_exchange<C: Codec>(
    c: C,
    a: MotorState,
    b: MotorState,
    p: Phase,
    request: Request,
    out: Result<Reply, Error>,
)
    requires
        a.motor_id == b.motor_id,
        a.host_id == b.host_id,
        a.timeout_ns == b.timeout_ns,
        exchanged(c, a, p, request, out),
    ensures
        exchanged(c, b, p, request, out),
{
    if bus::send_result(p) is Ok && request.followed_by() is Status {
        let status: Result<Feedback, Error> = match out {
            Ok(Reply::Status(fb)) => Ok(fb),
            Ok(_) => arbitrary(),
            Err(e) => Err(e),
        };
        let got = choose|got: Result<(IdParts, CanFrame), Error>|
            {
                &&& #[trigger] awaited(c, FollowUp::Status, a, p.heard, got)
                &&& match got {
                    Ok((parts, f)) => status_read(c, parts, f, status),
                    Err(e) => status == Err::<Feedback, Error>(e),
                }
            };
        assert(awaited(c, FollowUp::Status, b, p.heard, got));
        assert(status_awaited(c, b, p.heard, status));
    }
}

/// Nothing is asked of a motor that was not planned: every exchange of an
/// operation is that of a planned request.
pub proof fn law_only_planned_requests<C: Codec>(
    c: C,
    m: MotorState,
    run: RunView,
    phases: Seq<Phase>,
    outs: Seq<Result<Reply, Error>>,
    after: MotorState,
    r: Result<Gathered, Error>,
    i: int,
)
    requires
        carried_out(c, m, run, phases, outs, after, r),
        0 <= i < phases.len(),
    ensures
        exists|request: Request|
            planned(run.steps, request) && #[trigger] exchanged(c, m, phases[i], request, outs[i]),
    decreases phases.len(),
{
    if i == 0 {
        assert(planned(run.steps, run.steps[0].request));
    } else {
        let s = plan::settled(m, run, outs[0]);
        law_only_planned_requests(c, s.0, s.1, phases.skip(1), outs.skip(1), after, r, i - 1);
        let request = choose|request: Request|
            planned(s.1.steps, request) && #[trigger] exchanged(
                c,
                s.0,
                phases.skip(1)[i - 1],
                request,
                outs.skip(1)[i - 1],
            );
        lemma_same_exchange(c, s.0, m, phases[i], request, outs[i]);
        let added = if outs[0] is Ok {
            plan::steps_added(run.steps[0].purpose, outs[0]->Ok_0)
        } else {
            Seq::empty()
        };
        assert(s.1.steps =~= added + run.steps.skip(1));
        assert forall|k: int| 0 <= k < s.1.steps.len() implies {
            ||| k < added.len() && #[trigger] s.1.steps[k] == added[k]
            ||| s.1.steps[k] == run.steps[k - added.len() + 1]
        } by {}
        if exists|k: int| 0 <= k < s.1.steps.len() && (#[trigger] s.1.steps[k]).request == request {
            let k = choose|k: int|
                0 <= k < s.1.steps.len() && (#[trigger] s.1.steps[k]).request == request;
            if k < added.len() {
                assert(run.steps[0].purpose == Purpose::Hold);
            } else {
                assert(run.steps[k - added.len() + 1].request == request);
            }
        } else {
            let k = choose|k: int|
                0 <= k < s.1.steps.len() && (#[trigger] s.1.steps[k]).purpose == Purpose::Hold;
            assert(run.steps[k - added.len() + 1].purpose == Purpose::Hold);
        }
        assert(planned(run.steps, request));
    }
}

/// Measuring outside MIT mode sends nothing but reads: no MIT command, which would
/// take the firmware out of its mode.
pub proof fn law_measuring_only_reads<C: Codec>(
    c: C,
    m: MotorState,
    phases: Seq<Phase>,
    outs: Seq<Result<Reply, Error>>,
    after: MotorState,
    r: Result<Gathered, Error>,
    i: int,
)
    requires
        m.run_mode != RunMode::Mit,
        carried_out(
            c,
            m,
            RunView { steps: plan::measure_steps(m), gathered: plan::nothing_gathered() },
            phases,
            outs,
            after,
            r,
        ),
        0 <= i < phases.len(),
    ensures
        exists|param: Param| #[trigger]
            exchanged(c, m, phases[i], Request::Read(param), outs[i]),
{
    let run = RunView { steps: plan::measure_steps(m), gathered: plan::nothing_gathered() };
    law_only_planned_requests(c, m, run, phases, outs, after, r, i);
    let request = choose|request: Request|
        planned(run.steps, request) && #[trigger] exchanged(c, m, phases[i], request, outs[i]);
    assert(request is Read);
    assert(exchanged(c, m, phases[i], Request::Read(request->Read_0), outs[i]));
}

/// A prefix of a prefix is a prefix.
proof fn lemma_prefix(h0: Seq<Phase>, h1: Seq<Phase>, h: Seq<Phase>)
    requires
        h0.len() <= h1.len() <= h.len(),
        h1.take(h0.len() as int) == h0,
        h.take(h1.len() as int) == h1,
    ensures
        h.take(h0.len() as int) == h0,
{
    assert forall|k: int| 0 <= k < h0.len() implies h[k] == h0[k] by {
        assert(h.take(h1.len() as int)[k] == h1[k]);
        assert(h1.take(h0.len() as int)[k] == h0[k]);
    }
    assert(h.take(h0.len() as int) =~= h0);
}

/// Every exchange has an outcome.
proof fn lemma_as_many<C: Codec>(
    c: C,
    m: MotorState,
    run: RunView,
    phases: Seq<Phase>,
    outs: Seq<Result<Reply, Error>>,
    after: MotorState,
    r: Result<Gathered, Error>,
)
    requires
        carried_out(c, m, run, phases, outs, after, r),
    ensures
        outs.len() == phases.len(),
{
}

/// Whether a step sets this mode.
pub open spec fn sets_mode(s: Step, mode: RunMode) -> bool {
    !s.optional && s.purpose == Purpose::ModeSet(mode)
}

/// Whether a step switches the motor on.
pub open spec fn switches_on(s: Step) -> bool {
    !s.optional && s.purpose == Purpose::Enabled
}

/// The mode after an operation that succeeded and sets no other mode.
pub proof fn lemma_mode_after<C: Codec>(
    c: C,
    m: MotorState,
    run: RunView,
    phases: Seq<Phase>,
    outs: Seq<Result<Reply, Error>>,
    after: MotorState,
    g: Gathered,
    mode: RunMode,
)
    requires
        carried_out(c, m, run, phases, outs, after, Ok(g)),
        forall|k: int|
            0 <= k < run.steps.len() && (#[trigger] run.steps[k]).purpose is ModeSet
                ==> run.steps[k].purpose == Purpose::ModeSet(mode),
        m.run_mode == mode || asks(run.steps, |s: Step| sets_mode(s, mode)),
    ensures
        after.run_mode == mode,
    decreases phases.len(),
{
    if run.steps.len() > 0 {
        let s = plan::settled(m, run, outs[0]);
        let added = if outs[0] is Ok {
            plan::steps_added(run.steps[0].purpose, outs[0]->Ok_0)
        } else {
            Seq::empty()
        };
        let rest = run.steps.skip(1);
        assert(s.1.steps =~= added + rest);
        assert forall|k: int|
            0 <= k < s.1.steps.len() && (#[trigger] s.1.steps[k]).purpose is ModeSet implies
            s.1.steps[k].purpose == Purpose::ModeSet(mode) by {
            if k >= added.len() {
                assert(s.1.steps[k] == run.steps[k - added.len() + 1]);
            }
        }
        let sort = |s: Step| sets_mode(s, mode);
        if asks(run.steps, sort) && !sort(run.steps[0]) {
            lemma_asks_on(run.steps, s.1.steps, added, sort);
        }
        lemma_mode_after(c, s.0, s.1, phases.skip(1), outs.skip(1), after, g, mode);
    }
}

/// Whether the motor is on after an operation that succeeded: if it only switches
/// on, the motor is on; if it does not, the motor is as it was.
pub proof fn lemma_on_after<C: Codec>(
    c: C,
    m: MotorState,
    run: RunView,
    phases: Seq<Phase>,
    outs: Seq<Result<Reply, Error>>,
    after: MotorState,
    g: Gathered,
)
    requires
        carried_out(c, m, run, phases, outs, after, Ok(g)),
        forall|k: int|
            0 <= k < run.steps.len() ==> (#[trigger] run.steps[k]).purpose != Purpose::Disabled,
        forall|k: int|
            0 <= k < run.steps.len() && (#[trigger] run.steps[k]).purpose == Purpose::Enabled
                ==> !run.steps[k].optional,
    ensures
        after.enabled == (m.enabled || asks(run.steps, |s: Step| switches_on(s))),
    decreases phases.len(),
{
    let sort = |s: Step| switches_on(s);
    if run.steps.len() > 0 {
        let s = plan::settled(m, run, outs[0]);
        let added = if outs[0] is Ok {
            plan::steps_added(run.steps[0].purpose, outs[0]->Ok_0)
        } else {
            Seq::empty()
        };
        let rest = run.steps.skip(1);
        assert(s.1.steps =~= added + rest);
        assert forall|k: int| 0 <= k < s.1.steps.len() implies {
            &&& (#[trigger] s.1.steps[k]).purpose != Purpose::Disabled
            &&& s.1.steps[k].purpose == Purpose::Enabled ==> !s.1.steps[k].optional
        } by {
            if k >= added.len() {
                assert(s.1.steps[k] == run.steps[k - added.len() + 1]);
            }
        }
        lemma_on_after(c, s.0, s.1, phases.skip(1), outs.skip(1), after, g);
        if asks(run.steps, sort) && !sort(run.steps[0]) {
            lemma_asks_on(run.steps, s.1.steps, added, sort);
        }
        if asks(s.1.steps, sort) {
            let k = choose|k: int| 0 <= k < s.1.steps.len() && sort(#[trigger] s.1.steps[k]);
            if k >= added.len() {
                assert(s.1.steps[k] == run.steps[k - added.len() + 1]);
            }
            assert(asks(run.steps, sort));
        }
        if sort(run.steps[0]) {
            assert(asks(run.steps, sort));
        }
    }
}

/// What is sent for a request is the frame that the codec makes of it for the motor,
/// from the host; where sending fails, that is the outcome.
pub proof fn law_exchange_sends_the_request<C: Codec>(
    c: C,
    m: MotorState,
    p: Phase,
    request: Request,
    out: Result<Reply, Error>,
)
    requires
        exchanged(c, m, p, request, out),
    ensures
        exists|frame: (u32, [u8; 8])|
            {
                &&& #[trigger] call_ensures(
                    C::encode,
                    (&c, m.host_id, m.motor_id, request),
                    frame,
                )
                &&& p.action matches Some(Action::Send { can_id, data, .. }) && can_id == frame.0
                    && data == frame.1@
            },
        p.action matches Some(Action::Send { result: Err(e), .. }) ==> out == Err::<Reply, Error>(e)
            && p.heard.len() == 0,
{
}

/// The outcome of a request is the answer that was received last: the codec's
/// reading of that frame as a status, or as the value of the parameter that was
/// asked for. A request that is not answered succeeds without receiving anything.
pub proof fn law_reply_is_the_answer<C: Codec>(
    c: C,
    m: MotorState,
    p: Phase,
    request: Request,
    reply: Reply,
)
    requires
        exchanged(c, m, p, request, Ok(reply)),
    ensures
        match reply {
            Reply::Status(fb) => {
                &&& request is Enable || request is Disable || request is Mit
                &&& p.heard.len() > 0
                &&& p.heard.last() matches Ok(f) && call_ensures(C::status, (&c, &f), Some(fb))
            },
            Reply::Value(v) => {
                &&& p.heard.len() > 0
                &&& request matches Request::Read(param)
                &&& p.heard.last() matches Ok(f)
                &&& exists|index: u16|
                    {
                        &&& #[trigger] call_ensures(C::index, (&c, param), index)
                        &&& call_ensures(C::value, (&c, &f), Some((index, v)))
                    }
            },
            Reply::Sent => {
                &&& request is SetZero || request is SetRunMode || request is Write
                &&& p.heard.len() == 0
            },
        },
{
    if let Reply::Status(fb) = reply {
        let got = choose|got: Result<(IdParts, CanFrame), Error>|
            {
                &&& #[trigger] awaited(c, FollowUp::Status, m, p.heard, got)
                &&& match got {
                    Ok((parts, f)) => status_read(c, parts, f, Ok(fb)),
                    Err(e) => Ok::<Feedback, Error>(fb) == Err::<Feedback, Error>(e),
                }
            };
        assert(got is Ok);
    }
}

/// A fault report is never taken for a status: it is a failure that names the device
/// and the data of the report.
pub proof fn law_fault_reports_fail<C: Codec>(
    c: C,
    parts: IdParts,
    f: CanFrame,
    out: Result<Feedback, Error>,
)
    requires
        parts.kind is FaultReport,
        status_read(c, parts, f, out),
    ensures
        out matches Err(Error::MotorFault { motor_id, extra_data }) && motor_id == parts.device_id
            && extra_data == parts.extra,
{
}

/// An operation of one step that must succeed exchanges the request of that step, and
/// succeeds or fails with it.
pub proof fn law_single_request_is_exchanged<C: Codec>(
    c: C,
    m: MotorState,
    step: Step,
    before_history: Seq<Phase>,
    after_history: Seq<Phase>,
    after: MotorState,
    r: Result<Gathered, Error>,
)
    requires
        performed(c, m, seq![step], before_history, after_history, after, r),
        !step.optional,
        step.purpose != Purpose::Hold,
    ensures
        after_history.len() == before_history.len() + 1,
        exists|out: Result<Reply, Error>|
            {
                &&& #[trigger] exchanged(c, m, after_history.last(), step.request, out)
                &&& match out {
                    Ok(reply) => r == Ok::<Gathered, Error>(
                        plan::gathered_after(plan::nothing_gathered(), step.purpose, reply),
                    ),
                    Err(e) => r == Err::<Gathered, Error>(e),
                }
            },
{
    reveal_with_fuel(carried_out, 2);
    let n = before_history.len() as int;
    let run = RunView { steps: seq![step], gathered: plan::nothing_gathered() };
    let outs = choose|outs: Seq<Result<Reply, Error>>| #[trigger]
        carried_out(c, m, run, after_history.skip(n), outs, after, r);
    let phases = after_history.skip(n);
    if outs[0] is Ok {
        assert(plan::steps_added(step.purpose, outs[0]->Ok_0) + run.steps.skip(1) =~= Seq::<
            Step,
        >::empty());
    }
    assert(phases.len() == 1);
    assert(after_history.last() == phases[0]);
    assert(exchanged(c, m, after_history.last(), step.request, outs[0]));
}

/// On the bus, a measurement in MIT mode is one exchange of an MIT command whose
/// position, velocity, stiffness, damping and torque are all 0, and its status is
/// what was measured.
pub proof fn law_measuring_in_mit_mode_commands_nothing<C: Codec>(
    c: C,
    m: MotorState,
    before_history: Seq<Phase>,
    after_history: Seq<Phase>,
    after: MotorState,
    r: Result<Feedback, Error>,
)
    requires
        m.run_mode == RunMode::Mit,
        measured_after(
            c,
            m,
            plan::measure_steps(m),
            before_history,
            after_history,
            after,
            r,
        ),
    ensures
        after_history.len() == before_history.len() + 1,
        exists|bits: MitBits, out: Result<Reply, Error>|
            {
                &&& #[trigger] exchanged(c, m, after_history.last(), Request::Mit(bits), out)
                &&& bits.position == 0
                &&& bits.velocity == 0
                &&& bits.kp == 0
                &&& bits.kd == 0
                &&& bits.torque == 0
                &&& match out {
                    Ok(reply) => reply matches Reply::Status(fb) && r == Ok::<Feedback, Error>(fb),
                    Err(e) => r == Err::<Feedback, Error>(e),
                }
            },
{
    plan::law_measuring_in_mit_mode_commands_nothing(m);
    let steps = plan::measure_steps(m);
    let g = choose|g: Result<Gathered, Error>|
        {
            &&& #[trigger] performed(c, m, steps, before_history, after_history, after, g)
            &&& measured(after, g, r)
        };
    assert(steps =~= seq![steps[0]]);
    law_single_request_is_exchanged(c, m, steps[0], before_history, after_history, after, g);
    let out = choose|out: Result<Reply, Error>|
        {
            &&& #[trigger] exchanged(c, m, after_history.last(), steps[0].request, out)
            &&& match out {
                Ok(reply) => g == Ok::<Gathered, Error>(
                    plan::gathered_after(plan::nothing_gathered(), steps[0].purpose, reply),
                ),
                Err(e) => g == Err::<Gathered, Error>(e),
            }
        };
    assert(exchanged(
        c,
        m,
        after_history.last(),
        Request::Mit(steps[0].request->Mit_0),
        out,
    ));
}

/// On the bus, a measurement in any other mode that succeeds is three reads, and what
/// was measured is what they gave: the position from the position, the velocity from
/// the velocity, the torque from the torque where that could be read.
pub proof fn law_measured_is_what_was_read<C: Codec>(
    c: C,
    m: MotorState,
    phases: Seq<Phase>,
    outs: Seq<Result<Reply, Error>>,
    after: MotorState,
    g: Gathered,
)
    requires
        m.run_mode != RunMode::Mit,
        carried_out(
            c,
            m,
            RunView { steps: plan::measure_steps(m), gathered: plan::nothing_gathered() },
            phases,
            outs,
            after,
            Ok(g),
        ),
    ensures
        phases.len() == 3,
        after == m,
        exchanged(c, m, phases[0], Request::Read(Param::MechPos), outs[0]),
        exchanged(c, m, phases[1], Request::Read(Param::MechVel), outs[1]),
        exchanged(c, m, phases[2], Request::Read(Param::MeasuredTorque), outs[2]),
        plan::measurement(after, g) matches Some(fb) && fb.motor_id == m.motor_id && outs[0] == Ok::<
            Reply,
            Error,
        >(Reply::Value(fb.position)) && outs[1] == Ok::<Reply, Error>(Reply::Value(fb.velocity))
            && fb.torque == (match outs[2] {
            Ok(Reply::Value(t)) => Some(t),
            _ => None,
        }),
{
    let first = RunView { steps: plan::measure_steps(m), gathered: plan::nothing_gathered() };
    let second = plan::settled(m, first, outs[0]);
    assert(outs[0] is Ok && outs[0]->Ok_0 is Value);
    assert(second.1.steps =~= plan::measure_steps(m).skip(1));
    assert(second.1.steps[0] == plan::measure_steps(m)[1]);
    let phases1 = phases.skip(1);
    let outs1 = outs.skip(1);
    assert(carried_out(c, m, second.1, phases1, outs1, after, Ok(g)));
    let third = plan::settled(m, second.1, outs1[0]);
    assert(outs1[0] is Ok && outs1[0]->Ok_0 is Value);
    assert(third.1.steps =~= plan::measure_steps(m).skip(2));
    assert(third.1.steps[0] == plan::measure_steps(m)[2]);
    let phases2 = phases1.skip(1);
    let outs2 = outs1.skip(1);
    assert(carried_out(c, m, third.1, phases2, outs2, after, Ok(g)));
    let last = plan::settled(m, third.1, outs2[0]);
    assert(last.1.steps =~= Seq::<Step>::empty());
    assert(carried_out(c, m, last.1, phases2.skip(1), outs2.skip(1), after, Ok(g)));
}

/// An MIT command reaches the motor with its five quantities as they were given, if
/// and only if the motor was enabled; its status is the result.
pub proof fn law_mit_command_is_sent_as_given<C: Codec>(
    c: C,
    m: MotorState,
    bits: MitBits,
    before_history: Seq<Phase>,
    after_history: Seq<Phase>,
    after: MotorState,
    r: Result<Feedback, Error>,
)
    requires
        mit_commanded(c, m, bits, before_history, after_history, after, r),
    ensures
        !m.enabled ==> after_history == before_history && after == m && (r matches Err(
            Error::NotEnabled { motor_id },
        ) && motor_id == m.motor_id),
        m.enabled ==> after_history.len() == before_history.len() + 1 && exists|
            out: Result<Reply, Error>,
        |
            {
                &&& #[trigger] exchanged(c, m, after_history.last(), Request::Mit(bits), out)
                &&& match out {
                    Ok(reply) => reply matches Reply::Status(fb) && r == Ok::<Feedback, Error>(fb),
                    Err(e) => r == Err::<Feedback, Error>(e),
                }
            },
{
    if m.enabled {
        let step = plan::must(Request::Mit(bits), Purpose::Status);
        let g = choose|g: Result<Gathered, Error>|
            {
                &&& #[trigger] performed(
                    c,
                    m,
                    plan::mit_command(bits),
                    before_history,
                    after_history,
                    after,
                    g,
                )
                &&& measured(after, g, r)
            };
        assert(plan::mit_command(bits) =~= seq![step]);
        law_single_request_is_exchanged(c, m, step, before_history, after_history, after, g);
    }
}

/// A failure of the bus ends a wait at once and is its outcome: none is passed over,
/// and nothing is received after it.
pub proof fn law_bus_failures_end_a_wait<C: Codec>(
    c: C,
    m: MotorState,
    wait: FollowUp,
    param: Param,
    heard: Seq<Result<CanFrame, Error>>,
    got: Result<(IdParts, CanFrame), Error>,
    value: Result<u32, Error>,
    i: int,
)
    requires
        0 <= i < heard.len(),
        heard[i] matches Err(e) && !(e is Timeout),
    ensures
        awaited(c, wait, m, heard, got) ==> i == heard.len() - 1 && (got matches Err(e)
            && heard[i] == Err::<CanFrame, Error>(e)),
        value_awaited(c, param, m, heard, value) ==> i == heard.len() - 1 && (value
            matches Err(e) && heard[i] == Err::<CanFrame, Error>(e)),
{
    if awaited(c, wait, m, heard, got) && i < heard.len() - 1 {
        assert(passes(c, wait, heard[i]));
    }
    if value_awaited(c, param, m, heard, value) && i < heard.len() - 1 {
        assert(passes_value(c, param, heard[i]));
    }
}

/// A wait that is given up names the motor that was waited for.
pub proof fn law_given_up_waits_name_the_motor<C: Codec>(
    c: C,
    m: MotorState,
    wait: FollowUp,
    heard: Seq<Result<CanFrame, Error>>,
    motor_id: u8,
)
    requires
        awaited(c, wait, m, heard, Err(Error::Timeout { motor_id })),
    ensures
        motor_id == m.motor_id,
{
}

/// A ping is sent as the codec says for the motor and the host, and gives the data
/// field of the id and the data of the frame that was received last.
pub proof fn law_ping_gives_the_answer<C: Codec>(
    c: C,
    m: MotorState,
    p: Phase,
    r: Result<(u16, Vec<u8>), Error>,
)
    requires
        pinged(c, m, p, r),
    ensures
        exists|frame: (u32, [u8; 8])|
            {
                &&& #[trigger] call_ensures(C::ping, (&c, m.host_id, m.motor_id), frame)
                &&& p.action matches Some(Action::Send { can_id, data, .. }) && can_id == frame.0
                    && data == frame.1@
            },
        r matches Ok((extra, data)) ==> p.heard.len() > 0 && (p.heard.last() matches Ok(f) && f.data
            == data && exists|parts: IdParts| #[trigger]
            call_ensures(C::split, (&c, f.can_id), parts) && parts.extra == extra),
{
    if bus::send_result(p) is Ok {
        let got = choose|got: Result<(IdParts, CanFrame), Error>|
            {
                &&& #[trigger] awaited(c, FollowUp::Anything, m, p.heard, got)
                &&& match got {
                    Ok((parts, f)) => r == Ok::<(u16, Vec<u8>), Error>((parts.extra, f.data)),
                    Err(e) => r == Err::<(u16, Vec<u8>), Error>(e),
                }
            };
        if let Ok((parts, f)) = got {
            assert(call_ensures(C::split, (&c, f.can_id), parts));
        }
    }
}

} // verus!
