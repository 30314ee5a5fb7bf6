//! Looking for Robstride motors on a bus, and listening to it.
use crate::clock;
use crate::ids;
use crate::progress::{Call, ScanProgress};
use crate::robstride::bus;
use crate::robstride::bus::{Action, CanFrame, Phase, RobstrideBus};
use crate::robstride::codec::{Codec, IdParts};
use crate::robstride::error::Error;
use vstd::prelude::*;

verus! {

/// A motor that answered.
#[derive(Debug, Clone)]
pub struct ScanResult {
    pub motor_id: u8,
    /// What it answered.
    pub payload: Vec<u8>,
}

/// What a frame means while a motor is probed.
#[derive(Debug, Clone, Copy, PartialEq, Eq, Structural)]
pub enum Verdict {
    /// The ping itself, sent back by the adapter.
    Echo,
    /// The motor's answer.
    Answer,
    /// Something else.
    Foreign,
}

/// What a frame means while `motor_id` is probed: a motor answers with its id in
/// either of two places; a frame of type 0 to it is the ping itself.
pub open spec fn verdict(motor_id: u8, p: IdParts) -> Verdict {
    if p.device_id == motor_id && p.comm_type == 0 {
        Verdict::Echo
    } else if p.extra % 256 == motor_id || p.device_id == motor_id {
        Verdict::Answer
    } else {
        Verdict::Foreign
    }
}

/// What a frame means while `motor_id` is probed.
pub fn judge(motor_id: u8, p: IdParts) -> (r: Verdict)
    ensures
        r == verdict(motor_id, p),
{
    if p.device_id == motor_id && p.comm_type == 0 {
        Verdict::Echo
    } else if p.extra % 256 == motor_id as u16 || p.device_id == motor_id {
        Verdict::Answer
    } else {
        Verdict::Foreign
    }
}

/// A ping that is sent back is never taken for an answer.
pub proof fn law_echo_is_no_answer(motor_id: u8, p: IdParts)
    requires
        p.device_id == motor_id,
        p.comm_type == 0,
    ensures
        verdict(motor_id, p) != Verdict::Answer,
{
}

/// Whether `r` may have been taken for the answer of `motor_id`, or not.
pub open spec fn judged<C: Codec>(
    c: C,
    motor_id: u8,
    r: Result<CanFrame, Error>,
    answer: bool,
) -> bool {
    r matches Ok(f) && exists|p: IdParts| #[trigger]
        call_ensures(C::split, (&c, f.can_id), p) && (verdict(motor_id, p) == Verdict::Answer)
            == answer
}

/// That `p` is a probe of `motor_id`: its ping was sent, and nothing but the last
/// frame received could end the probe.
pub open spec fn probe_phase<C: Codec>(c: C, host_id: u8, motor_id: u8, p: Phase) -> bool {
    &&& exists|frame: (u32, [u8; 8])| #[trigger]
        call_ensures(C::ping, (&c, host_id, motor_id), frame) && bus::sent(p, frame.0, frame.1@)
    &&& forall|i: int|
        0 <= i < p.heard.len() - 1 ==> judged(c, motor_id, #[trigger] p.heard[i], false)
}

/// That the probe `p` brought `s`.
pub open spec fn answered<C: Codec>(c: C, motor_id: u8, p: Phase, s: ScanResult) -> bool {
    &&& p.heard.len() > 0
    &&& judged(c, motor_id, p.heard.last(), true)
    &&& p.heard.last() matches Ok(f) && s == (ScanResult { motor_id, payload: f.data })
}

/// That listening was given up, having received `heard`: the clock gave at least
/// `limit_ns`, or no more receives could be counted.
pub open spec fn given_up(limit_ns: u64, heard: Seq<Result<CanFrame, Error>>) -> bool {
    clock::was_reached(limit_ns) || heard.len() >= u64::MAX
}

/// That the probe `p` brought nothing: the ping could not be sent, the bus was
/// silent, or the time for an answer was over.
pub open spec fn unanswered<C: Codec>(c: C, motor_id: u8, timeout_ns: u64, p: Phase) -> bool {
    ||| bus::send_result(p) is Err
    ||| p.heard.len() > 0 && (p.heard.last() matches Err(e) && e is Timeout)
    ||| (p.heard.len() == 0 || judged(c, motor_id, p.heard.last(), false)) && given_up(
        timeout_ns,
        p.heard,
    )
}

/// That the probe `p` failed with `e`.
pub open spec fn broken_off(p: Phase, e: Error) -> bool {
    p.heard.len() > 0 && p.heard.last() == Err::<CanFrame, Error>(e) && !(e is Timeout)
}

/// That `phases` are probes of `ids`, in order, which brought `found`.
pub open spec fn scanned<C: Codec>(
    c: C,
    host_id: u8,
    timeout_ns: u64,
    ids: Seq<u8>,
    phases: Seq<Phase>,
    found: Seq<ScanResult>,
) -> bool
    decreases ids.len(),
{
    if ids.len() == 0 {
        phases.len() == 0 && found.len() == 0
    } else {
        &&& phases.len() == ids.len()
        &&& probe_phase(c, host_id, ids.last(), phases.last())
        &&& {
            ||| {
                &&& found.len() > 0
                &&& answered(c, ids.last(), phases.last(), found.last())
                &&& scanned(
                    c,
                    host_id,
                    timeout_ns,
                    ids.drop_last(),
                    phases.drop_last(),
                    found.drop_last(),
                )
            }
            ||| {
                &&& unanswered(c, ids.last(), timeout_ns, phases.last())
                &&& scanned(
                    c,
                    host_id,
                    timeout_ns,
                    ids.drop_last(),
                    phases.drop_last(),
                    found,
                )
            }
        }
    }
}

/// What [`law_scan_reports_in_order`] says, of the first `n` ids from `from` on.
proof fn lemma_reports_in_order<C: Codec>(
    c: C,
    host_id: u8,
    timeout_ns: u64,
    from: u8,
    n: int,
    phases: Seq<Phase>,
    found: Seq<ScanResult>,
)
    requires
        0 <= n <= 256 - from,
        scanned(
            c,
            host_id,
            timeout_ns,
            Seq::new(n as nat, |i: int| (from + i) as u8),
            phases,
            found,
        ),
    ensures
        forall|i: int, j: int|
            0 <= i < j < found.len() ==> (#[trigger] found[i]).motor_id < (
            #[trigger] found[j]).motor_id,
        forall|i: int| 0 <= i < found.len() ==> from <= (#[trigger] found[i]).motor_id < from + n,
    decreases n,
{
    if n > 0 {
        let ids = Seq::new(n as nat, |i: int| (from + i) as u8);
        let fewer = Seq::new((n - 1) as nat, |i: int| (from + i) as u8);
        assert(ids.drop_last() =~= fewer);
        if scanned(c, host_id, timeout_ns, fewer, phases.drop_last(), found) {
            lemma_reports_in_order(c, host_id, timeout_ns, from, n - 1, phases.drop_last(), found);
        } else {
            let less = found.drop_last();
            lemma_reports_in_order(c, host_id, timeout_ns, from, n - 1, phases.drop_last(), less);
            assert forall|i: int, j: int| 0 <= i < j < found.len() implies (
            #[trigger] found[i]).motor_id < (#[trigger] found[j]).motor_id by {
                assert(found[i] == less[i]);
                if j < less.len() {
                    assert(found[j] == less[j]);
                }
            }
            assert forall|i: int| 0 <= i < found.len() implies from <= (
            #[trigger] found[i]).motor_id < from + n by {
                if i < less.len() {
                    assert(found[i] == less[i]);
                }
            }
        }
    }
}

/// A scan reports each motor once, in the order of the ids, and only ids that it
/// was asked for.
pub proof fn law_scan_reports_in_order<C: Codec>(
    c: C,
    host_id: u8,
    timeout_ns: u64,
    from: u8,
    to: u8,
    phases: Seq<Phase>,
    found: Seq<ScanResult>,
)
    requires
        scanned(c, host_id, timeout_ns, ids::ids_between(from, to), phases, found),
    ensures
        forall|i: int, j: int|
            0 <= i < j < found.len() ==> (#[trigger] found[i]).motor_id < (
            #[trigger] found[j]).motor_id,
        forall|i: int| 0 <= i < found.len() ==> from <= (#[trigger] found[i]).motor_id <= to,
{
    let n: int = if to < from {
        0
    } else {
        to - from + 1
    };
    assert(ids::ids_between(from, to) =~= Seq::new(n as nat, |i: int| (from + i) as u8));
    lemma_reports_in_order(c, host_id, timeout_ns, from, n, phases, found);
}

/// Probes one id.
fn probe<B: RobstrideBus, C: Codec>(
    bus: &mut B,
    codec: &C,
    host_id: u8,
    motor_id: u8,
    timeout_ns: u64,
) -> (r: Result<Option<ScanResult>, Error>)
    ensures
        bus::one_phase(old(bus).history(), final(bus).history()),
        probe_phase(*codec, host_id, motor_id, final(bus).history().last()),
        match r {
            Ok(Some(s)) => answered(*codec, motor_id, final(bus).history().last(), s),
            Ok(None) => unanswered(*codec, motor_id, timeout_ns, final(bus).history().last()),
            Err(e) => broken_off(final(bus).history().last(), e),
        },
{
    let ghost h0 = bus.history();
    let (can_id, data) = codec.ping(host_id, motor_id);
    let sent = bus.send(can_id, &data);
    assert(bus.history().drop_last() =~= h0);
    if sent.is_err() {
        return Ok(None);
    }
    let started = clock::start();
    let mut polls: u64 = u64::MAX;
    while polls > 0
        invariant
            clock::began(started),
            bus.history().last().heard.len() == u64::MAX - polls,
            h0 == old(bus).history(),
            bus::one_phase(h0, bus.history()),
            call_ensures(C::ping, (codec, host_id, motor_id), (can_id, data)),
            bus::sent(bus.history().last(), can_id, data@),
            bus::send_result(bus.history().last()) is Ok,
            forall|i: int|
                0 <= i < bus.history().last().heard.len() ==> judged(
                    *codec,
                    motor_id,
                    #[trigger] bus.history().last().heard[i],
                    false,
                ),
        decreases polls,
    {
        polls = polls - 1;
        if clock::reached(&started, timeout_ns) {
            return Ok(None);
        }
        let ghost before = bus.history();
        let received = bus.recv();
        proof {
            assert(bus.history().drop_last() =~= before.drop_last());
            assert(bus.history().last().heard == before.last().heard.push(received));
        }
        match received {
            Ok(frame) => {
                let parts = codec.split(frame.can_id);
                if judge(motor_id, parts) == Verdict::Answer {
                    return Ok(Some(ScanResult { motor_id, payload: frame.data }));
                }
            },
            Err(Error::Timeout { .. }) => {
                return Ok(None);
            },
            Err(e) => {
                return Err(e);
            },
        }
    }
    Ok(None)
}

/// That `c` is the report just before probe number `i` of `ids`, where `h` is the
/// history of the bus and the probes start at `base`: it names the probe, and the
/// bus had seen the probes before it and nothing of this one.
pub open spec fn precedes_probe<B: RobstrideBus>(
    c: Call<B>,
    i: int,
    ids: Seq<u8>,
    h: Seq<Phase>,
    base: int,
) -> bool {
    &&& c.index == i
    &&& c.total == ids.len()
    &&& c.motor_id == ids[i]
    &&& c.bus.history() == h.take(base + i)
}

/// That the reports after `before` are one just before each of the first `k`
/// probes of `ids`, in order, and no other.
pub open spec fn reported<B: RobstrideBus>(
    before: Seq<Call<B>>,
    after: Seq<Call<B>>,
    ids: Seq<u8>,
    k: int,
    h: Seq<Phase>,
    base: int,
) -> bool {
    &&& after.len() == before.len() + k
    &&& after.take(before.len() as int) == before
    &&& forall|j: int|
        before.len() <= j < after.len() ==> precedes_probe(
            #[trigger] after[j],
            j - before.len(),
            ids,
            h,
            base,
        )
}

/// One more probe, with the report before it.
proof fn lemma_reported_more<B: RobstrideBus>(
    start: Seq<Call<B>>,
    before: Seq<Call<B>>,
    after: Seq<Call<B>>,
    ids: Seq<u8>,
    k: int,
    h0: Seq<Phase>,
    h: Seq<Phase>,
    base: int,
)
    requires
        reported(start, before, ids, k, h0, base),
        after == before.push(after.last()),
        after.last().index == k,
        after.last().total == ids.len(),
        after.last().motor_id == ids[k],
        after.last().bus.history() == h0,
        0 <= base,
        0 <= k,
        h0.len() == base + k,
        h0.len() <= h.len(),
        h.take(h0.len() as int) == h0,
    ensures
        reported(start, after, ids, k + 1, h, base),
{
    assert(after.take(start.len() as int) =~= before.take(start.len() as int));
    assert forall|j: int| start.len() <= j < after.len() implies precedes_probe(
        #[trigger] after[j],
        j - start.len(),
        ids,
        h,
        base,
    ) by {
        let i = j - start.len();
        if i < k {
            assert(after[j] == before[j]);
        }
        assert(h.take(base + i) =~= h0.take(base + i)) by {
            assert forall|x: int| 0 <= x < base + i implies h[x] == h0[x] by {
                assert(h.take(h0.len() as int)[x] == h0[x]);
            }
        }
        if i == k {
            assert(h0.take(base + k) =~= h0);
        }
    }
}

/// Asks every id from `from` to `to` for its device id and returns the motors
/// that answered. `on_progress` is told the number of each probe, how many there
/// are, and the id, just before it is made; at the end, that all are done; and
/// nothing else.
pub fn scan_bus_on<B: RobstrideBus, C: Codec, P: ScanProgress<B>>(
    bus: &mut B,
    codec: &C,
    host_id: u8,
    from: u8,
    to: u8,
    timeout_ns: u64,
    on_progress: &mut P,
) -> (r: Result<Vec<ScanResult>, Error>)
    ensures
        ({
            let n = old(bus).history().len() as int;
            let h = final(bus).history();
            let ids = ids::ids_between(from, to);
            let phases = h.skip(n + 1);
            let k = phases.len() - 1;
            let calls0 = old(on_progress).calls();
            let calls = final(on_progress).calls();
            &&& h.len() > n
            &&& h.take(n) == old(bus).history()
            &&& h[n].heard.len() == 0
            &&& h[n].action matches Some(Action::SetTimeout { timeout_ns: t, result })
            &&& t == timeout_ns
            &&& match result {
                Err(e) => {
                    &&& phases.len() == 0
                    &&& calls == calls0
                    &&& r == Err::<Vec<ScanResult>, Error>(e)
                },
                Ok(_) => match r {
                    Ok(found) => {
                        &&& scanned(*codec, host_id, timeout_ns, ids, phases, found@)
                        &&& calls.len() > 0
                        &&& reported(calls0, calls.drop_last(), ids, ids.len() as int, h, n + 1)
                        &&& calls.last().index == ids.len()
                        &&& calls.last().total == ids.len()
                        &&& calls.last().motor_id == 0
                        &&& calls.last().bus.history() == h
                    },
                    Err(e) => {
                        &&& 0 <= k < ids.len()
                        &&& exists|found: Seq<ScanResult>| #[trigger]
                            scanned(*codec, host_id, timeout_ns, ids.take(k), phases.take(k), found)
                        &&& probe_phase(*codec, host_id, ids[k], phases[k])
                        &&& broken_off(phases[k], e)
                        &&& reported(calls0, calls, ids, k + 1, h, n + 1)
                    },
                },
            }
        }),
{
    let ghost h0 = bus.history();
    let ghost n = h0.len() as int;
    let ghost calls0 = on_progress.calls();
    if let Err(e) = bus.set_timeout(timeout_ns) {
        assert(bus.history().take(n) =~= h0);
        return Err(e);
    }
    let ghost h1 = bus.history();
    let ghost ids = ids::ids_between(from, to);
    let total: usize = if to < from {
        0
    } else {
        (to - from) as usize + 1
    };
    let mut found: Vec<ScanResult> = Vec::new();
    let mut i: usize = 0;
    proof {
        assert(h1.take(n) =~= h0);
        assert(h1.take(n + 1) =~= h1);
        assert(h1.skip(n + 1) =~= Seq::<Phase>::empty());
        assert(ids.take(0) =~= Seq::<u8>::empty());
        assert(calls0.take(calls0.len() as int) =~= calls0);
    }
    while i < total
        invariant
            i <= total,
            ids == ids::ids_between(from, to),
            total == ids.len(),
            total > 0 ==> from + total - 1 <= 255,
            n >= 0,
            h1.len() == n + 1,
            h1.take(n) == h0,
            h0 == old(bus).history(),
            n == h0.len(),
            h1[n].heard.len() == 0,
            h1[n].action matches Some(Action::SetTimeout { timeout_ns: t, result }) && t
                == timeout_ns && result is Ok,
            bus.history().len() == n + 1 + i,
            bus.history().take(n + 1) == h1,
            scanned(
                *codec,
                host_id,
                timeout_ns,
                ids.take(i as int),
                bus.history().skip(n + 1),
                found@,
            ),
            calls0 == old(on_progress).calls(),
            reported(calls0, on_progress.calls(), ids, i as int, bus.history(), n + 1),
        decreases total - i,
    {
        let motor_id: u8 = from + i as u8;
        let ghost told = on_progress.calls();
        on_progress.report(bus, i, total, motor_id);
        let ghost before = bus.history();
        let ghost known = found@;
        let probed = probe(bus, codec, host_id, motor_id, timeout_ns);
        proof {
            let h = bus.history();
            assert(h.take(before.len() as int) =~= h.drop_last());
            lemma_reported_more(
                calls0,
                told,
                on_progress.calls(),
                ids,
                i as int,
                before,
                h,
                n + 1,
            );
            assert(h.take(n + 1) =~= before.take(n + 1)) by {
                assert forall|j: int| 0 <= j < n + 1 implies h[j] == before[j] by {
                    assert(h.drop_last()[j] == before[j]);
                }
            }
            assert(h.skip(n + 1).drop_last() =~= before.skip(n + 1)) by {
                assert forall|j: int| n + 1 <= j < before.len() implies h[j] == before[j] by {
                    assert(h.drop_last()[j] == before[j]);
                }
            }
            assert(h.skip(n + 1).last() == h.last());
            assert(ids.take(i + 1).drop_last() =~= ids.take(i as int));
            assert(ids.take(i + 1).last() == motor_id);
            assert(h.take(n) =~= h1.take(n)) by {
                assert forall|j: int| 0 <= j < n implies h[j] == h1[j] by {
                    assert(h.take(n + 1)[j] == h1[j]);
                }
            }
            assert(h[n] == h.take(n + 1)[n]);
        }
        match probed {
            Ok(Some(s)) => {
                found.push(s);
                assert(found@.drop_last() =~= known);
            },
            Ok(None) => {},
            Err(e) => {
                proof {
                    let phases = bus.history().skip(n + 1);
                    assert(phases.take(i as int) =~= phases.drop_last());
                    assert(scanned(
                        *codec,
                        host_id,
                        timeout_ns,
                        ids.take(i as int),
                        phases.take(i as int),
                        known,
                    ));
                }
                return Err(e);
            },
        }
        i = i + 1;
    }
    let ghost told = on_progress.calls();
    on_progress.report(bus, total, total, 0);
    proof {
        assert(on_progress.calls().drop_last() =~= told);
        let h = bus.history();
        assert(ids.take(i as int) =~= ids);
        assert(h.take(n) =~= h1.take(n)) by {
            assert forall|j: int| 0 <= j < n implies h[j] == h1[j] by {
                assert(h.take(n + 1)[j] == h1[j]);
            }
        }
        assert(h[n] == h.take(n + 1)[n]);
    }
    Ok(found)
}

/// The receive timeout while listening: 100 ms.
pub const LISTEN_TIMEOUT_NS: u64 = 100_000_000;

/// The frames among what was received, in order.
pub open spec fn frames_in(heard: Seq<Result<CanFrame, Error>>) -> Seq<CanFrame>
    decreases heard.len(),
{
    if heard.len() == 0 {
        Seq::empty()
    } else {
        match heard.last() {
            Ok(f) => frames_in(heard.drop_last()).push(f),
            Err(_) => frames_in(heard.drop_last()),
        }
    }
}

/// Whether listening goes on after receiving `r`: silence is waited out.
pub open spec fn listens_on(r: Result<CanFrame, Error>) -> bool {
    r matches Err(e) ==> e is Timeout
}

/// Listens for `duration_ns` and returns every frame, in order. A failure ends
/// it.
pub fn dump_bus<B: RobstrideBus>(bus: &mut B, duration_ns: u64) -> (r: Result<Vec<CanFrame>, Error>)
    ensures
        bus::one_phase(old(bus).history(), final(bus).history()),
        ({
            let p = final(bus).history().last();
            &&& p.action matches Some(Action::SetTimeout { timeout_ns, result })
            &&& timeout_ns == LISTEN_TIMEOUT_NS
            &&& forall|i: int| 0 <= i < p.heard.len() - 1 ==> listens_on(#[trigger] p.heard[i])
            &&& match result {
                Err(e) => p.heard.len() == 0 && r == Err::<Vec<CanFrame>, Error>(e),
                Ok(_) => match r {
                    Ok(frames) => {
                        &&& frames@ == frames_in(p.heard)
                        &&& p.heard.len() > 0 ==> listens_on(p.heard.last())
                        &&& given_up(duration_ns, p.heard)
                    },
                    Err(e) => broken_off(p, e),
                },
            }
        }),
{
    let ghost h0 = bus.history();
    let set = bus.set_timeout(LISTEN_TIMEOUT_NS);
    assert(bus.history().drop_last() =~= h0);
    if let Err(e) = set {
        return Err(e);
    }
    let mut frames: Vec<CanFrame> = Vec::new();
    let started = clock::start();
    let mut polls: u64 = u64::MAX;
    while polls > 0
        invariant
            clock::began(started),
            bus.history().last().heard.len() == u64::MAX - polls,
            h0 == old(bus).history(),
            bus::one_phase(h0, bus.history()),
            bus.history().last().action matches Some(Action::SetTimeout { timeout_ns, result })
                && timeout_ns == LISTEN_TIMEOUT_NS && result is Ok,
            forall|i: int|
                0 <= i < bus.history().last().heard.len() ==> listens_on(
                    #[trigger] bus.history().last().heard[i],
                ),
            frames@ == frames_in(bus.history().last().heard),
        decreases polls,
    {
        polls = polls - 1;
        if clock::reached(&started, duration_ns) {
            return Ok(frames);
        }
        let ghost before = bus.history();
        let received = bus.recv();
        proof {
            assert(bus.history().drop_last() =~= before.drop_last());
            assert(bus.history().last().heard == before.last().heard.push(received));
            assert(bus.history().last().heard.drop_last() =~= before.last().heard);
        }
        match received {
            Ok(f) => {
                frames.push(f);
            },
            Err(Error::Timeout { .. }) => {},
            Err(e) => {
                return Err(e);
            },
        }
    }
    Ok(frames)
}

/// A frame is the echo of the ping if it is a ping to the motor; otherwise it is the
/// motor's answer if it names the motor, as device or in the low byte of its data
/// field; and it is foreign if it does neither.
pub proof fn law_verdicts(motor_id: u8, p: IdParts)
    ensures
        verdict(motor_id, p) is Echo <==> p.comm_type == 0 && p.device_id == motor_id,
        verdict(motor_id, p) is Answer <==> (p.comm_type != 0 && p.device_id == motor_id) || (
        p.device_id != motor_id && p.extra % 256 == motor_id),
        verdict(motor_id, p) is Foreign <==> p.device_id != motor_id && p.extra % 256 != motor_id,
{
}

/// Every id is pinged once, in order, from the host.
pub proof fn law_every_id_is_pinged<C: Codec>(
    c: C,
    host_id: u8,
    timeout_ns: u64,
    ids: Seq<u8>,
    phases: Seq<Phase>,
    found: Seq<ScanResult>,
    i: int,
)
    requires
        scanned(c, host_id, timeout_ns, ids, phases, found),
        0 <= i < ids.len(),
    ensures
        phases.len() == ids.len(),
        exists|frame: (u32, [u8; 8])|
            {
                &&& #[trigger] call_ensures(C::ping, (&c, host_id, ids[i]), frame)
                &&& phases[i].action matches Some(Action::Send { can_id, data, .. }) && can_id
                    == frame.0 && data == frame.1@
            },
    decreases ids.len(),
{
    if i < ids.len() - 1 {
        let earlier = if scanned(
            c,
            host_id,
            timeout_ns,
            ids.drop_last(),
            phases.drop_last(),
            found,
        ) {
            found
        } else {
            found.drop_last()
        };
        law_every_id_is_pinged(
            c,
            host_id,
            timeout_ns,
            ids.drop_last(),
            phases.drop_last(),
            earlier,
            i,
        );
        assert(ids.drop_last()[i] == ids[i]);
        assert(phases.drop_last()[i] == phases[i]);
    }
}

/// Every motor that is reported was pinged and answered: the frame received last for it
/// names it and is no echo, and its data is what is reported.
pub proof fn law_reported_motors_answered<C: Codec>(
    c: C,
    host_id: u8,
    timeout_ns: u64,
    ids: Seq<u8>,
    phases: Seq<Phase>,
    found: Seq<ScanResult>,
    j: int,
)
    requires
        scanned(c, host_id, timeout_ns, ids, phases, found),
        0 <= j < found.len(),
    ensures
        exists|i: int, f: CanFrame, p: IdParts|
            {
                &&& 0 <= i < ids.len()
                &&& ids[i] == found[j].motor_id
                &&& (#[trigger] phases[i]).heard.len() > 0
                &&& phases[i].heard.last() == Ok::<CanFrame, Error>(f)
                &&& f.data == found[j].payload
                &&& #[trigger] call_ensures(C::split, (&c, f.can_id), p)
                &&& p.device_id == ids[i] || p.extra % 256 == ids[i]
                &&& !(p.device_id == ids[i] && p.comm_type == 0)
            },
    decreases ids.len(),
{
    let n = ids.len() - 1;
    let shorter = scanned(
        c,
        host_id,
        timeout_ns,
        ids.drop_last(),
        phases.drop_last(),
        found.drop_last(),
    ) && answered(c, ids.last(), phases.last(), found.last());
    if shorter && j == found.len() - 1 {
        let f = phases[n].heard.last()->Ok_0;
        let p = choose|p: IdParts| #[trigger]
            call_ensures(C::split, (&c, f.can_id), p) && (verdict(ids[n], p) == Verdict::Answer)
                == true;
        assert(call_ensures(C::split, (&c, f.can_id), p));
        assert(phases[n].heard.len() > 0);
    } else {
        let earlier = if shorter {
            found.drop_last()
        } else {
            found
        };
        law_reported_motors_answered(
            c,
            host_id,
            timeout_ns,
            ids.drop_last(),
            phases.drop_last(),
            earlier,
            j,
        );
        let (i, f, p) = choose|i: int, f: CanFrame, p: IdParts|
            {
                &&& 0 <= i < ids.drop_last().len()
                &&& ids.drop_last()[i] == earlier[j].motor_id
                &&& (#[trigger] phases.drop_last()[i]).heard.len() > 0
                &&& phases.drop_last()[i].heard.last() == Ok::<CanFrame, Error>(f)
                &&& f.data == earlier[j].payload
                &&& #[trigger] call_ensures(C::split, (&c, f.can_id), p)
                &&& p.device_id == ids.drop_last()[i] || p.extra % 256 == ids.drop_last()[i]
                &&& !(p.device_id == ids.drop_last()[i] && p.comm_type == 0)
            };
        assert(phases.drop_last()[i] == phases[i]);
        assert(ids.drop_last()[i] == ids[i]);
        law_every_id_is_pinged(c, host_id, timeout_ns, ids, phases, found, i);
    }
}

/// Listening keeps every frame that was received, in order, and nothing else.
pub proof fn law_listening_keeps_every_frame(
    heard: Seq<Result<CanFrame, Error>>,
    f: CanFrame,
    e: Error,
)
    ensures
        frames_in(heard.push(Ok(f))) == frames_in(heard).push(f),
        frames_in(heard.push(Err(e))) == frames_in(heard),
        frames_in(Seq::empty()) == Seq::<CanFrame>::empty(),
        listens_on(Ok(f)),
        listens_on(Err(e)) <==> e is Timeout,
        LISTEN_TIMEOUT_NS == 100 * 1_000_000,
{
    assert(heard.push(Ok(f)).drop_last() =~= heard);
    assert(heard.push(Err(e)).drop_last() =~= heard);
}

/// Before each probe it is told which probe of how many comes, and of which motor, when
/// nothing of that probe was sent yet.
pub proof fn law_progress_is_told_before_the_probe<B: RobstrideBus>(
    before: Seq<Call<B>>,
    after: Seq<Call<B>>,
    ids: Seq<u8>,
    k: int,
    h: Seq<Phase>,
    base: int,
    i: int,
)
    requires
        reported(before, after, ids, k, h, base),
        0 <= i < k,
        0 <= base,
        base + i <= h.len(),
    ensures
        ({
            let c = after[before.len() + i];
            &&& c.index == i
            &&& c.total == ids.len()
            &&& c.motor_id == ids[i]
            &&& c.bus.history().len() == base + i
            &&& c.bus.history().is_prefix_of(h)
        }),
        after.len() == before.len() + k,
        before.is_prefix_of(after),
{
    assert(precedes_probe(after[before.len() + i], i, ids, h, base));
}

} // verus!
