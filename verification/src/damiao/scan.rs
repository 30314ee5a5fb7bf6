//! Looking for DAMIAO motors on a bus.
//!
//! There is no broadcast that every motor answers. A motor is probed by enabling
//! it, listening for feedback with its id nibble on whatever id it answers on,
//! and disabling it again, on every path. No motion is commanded in between.
use crate::clock;
use crate::damiao::bus;
use crate::damiao::bus::{Action, CanFrame, DamiaoBus, Phase};
use crate::damiao::driver;
use crate::damiao::error::Error;
use crate::damiao::frame;
use crate::damiao::frame::{build_disable_frame, build_enable_frame, DATA_LEN};
use crate::ids;
use crate::progress::{Call, ScanProgress};
use vstd::prelude::*;

verus! {

/// The receive timeout while old frames are read away: 2 ms.
pub const DRAIN_TIMEOUT_NS: u64 = 2_000_000;

/// How many old frames are read away at most.
pub const DRAIN_MAX: u32 = 64;

/// Whether a frame can be the feedback of the motor that is probed.
pub open spec fn answers(can_id: u8, f: CanFrame) -> bool {
    f.data.len() >= DATA_LEN && f.data[0] % 16 == can_id % 16
}

/// Whether a motor was found, its enable frame having been sent in `p`.
pub open spec fn answered(can_id: u8, p: Phase) -> bool {
    p.heard.len() > 0 && (p.heard.last() matches Ok(f) && answers(can_id, f))
}

/// That a probe was given up, having received `heard`: the clock gave at least
/// `timeout_ns`, or no more receives could be counted.
pub open spec fn given_up(timeout_ns: u64, heard: Seq<Result<CanFrame, Error>>) -> bool {
    clock::was_reached(timeout_ns) || heard.len() >= u64::MAX
}

/// That `phases` are a probe: the enable frame, frames of others until an answer
/// or a failed receive ends the probe or its time is over, and the disable frame.
/// The disable frame is sent also where the enable frame could not be, for a send
/// that failed may have reached the motor all the same.
pub open spec fn probe_phases(can_id: u8, timeout_ns: u64, phases: Seq<Phase>) -> bool {
    &&& phases.len() == 2
    &&& driver::sent(phases[0], can_id as u16, frame::special_payload(0xFC))
    &&& forall|i: int|
        0 <= i < phases[0].heard.len() - 1 ==> passed_over(can_id, #[trigger] phases[0].heard[i])
    &&& driver::send_result(phases[0]) is Ok && (phases[0].heard.len() == 0 || passed_over(
        can_id,
        phases[0].heard.last(),
    )) ==> given_up(timeout_ns, phases[0].heard)
    &&& driver::sent(phases[1], can_id as u16, frame::special_payload(0xFD))
    &&& phases[1].heard.len() == 0
}

/// Whether a probe goes on after receiving `r`: it is a frame of another motor.
pub open spec fn passed_over(can_id: u8, r: Result<CanFrame, Error>) -> bool {
    r matches Ok(f) && !answers(can_id, f)
}

/// That `phases` are probes of `ids`, in order.
pub open spec fn scan_phases(ids: Seq<u8>, timeout_ns: u64, phases: Seq<Phase>) -> bool
    decreases ids.len(),
{
    if ids.len() == 0 {
        phases.len() == 0
    } else {
        &&& phases.len() >= 2
        &&& probe_phases(ids[0], timeout_ns, phases.take(2))
        &&& scan_phases(ids.skip(1), timeout_ns, phases.skip(2))
    }
}

/// The ids among `ids` that answered in `phases`.
pub open spec fn scan_found(ids: Seq<u8>, phases: Seq<Phase>) -> Seq<u8>
    decreases ids.len(),
{
    if ids.len() == 0 {
        Seq::empty()
    } else {
        let rest = scan_found(ids.skip(1), phases.skip(2));
        if answered(ids[0], phases[0]) {
            seq![ids[0]] + rest
        } else {
            rest
        }
    }
}

/// That `p` is what draining the bus leaves: a short timeout was set and frames
/// read until there were none, or enough.
pub open spec fn drain_phase(p: Phase) -> bool {
    &&& p.action matches Some(Action::SetTimeout { timeout_ns, .. }) && timeout_ns
        == DRAIN_TIMEOUT_NS
    &&& p.heard.len() <= DRAIN_MAX
    &&& forall|i: int| 0 <= i < p.heard.len() - 1 ==> (#[trigger] p.heard[i]) is Ok
    &&& p.heard.len() < DRAIN_MAX ==> p.heard.len() > 0 && p.heard.last() is Err
}

/// One more probe at the end of a scan.
proof fn lemma_scan_append(
    ids: Seq<u8>,
    timeout_ns: u64,
    phases: Seq<Phase>,
    id: u8,
    probe: Seq<Phase>,
)
    requires
        scan_phases(ids, timeout_ns, phases),
        probe_phases(id, timeout_ns, probe),
    ensures
        scan_phases(ids.push(id), timeout_ns, phases + probe),
        scan_found(ids.push(id), phases + probe) == (if answered(id, probe[0]) {
            scan_found(ids, phases).push(id)
        } else {
            scan_found(ids, phases)
        }),
    decreases ids.len(),
{
    let all = phases + probe;
    let more = ids.push(id);
    if ids.len() == 0 {
        assert(all =~= probe);
        assert(probe.take(2) =~= probe);
        assert(more.skip(1) =~= Seq::<u8>::empty());
        assert(probe.skip(2) =~= Seq::<Phase>::empty());
        assert(scan_phases(more.skip(1), timeout_ns, probe.skip(2)));
        assert(scan_found(more.skip(1), probe.skip(2)).len() == 0);
        assert(scan_found(more, all) =~= (if answered(id, probe[0]) {
            seq![id]
        } else {
            Seq::empty()
        }));
    } else {
        lemma_scan_append(ids.skip(1), timeout_ns, phases.skip(2), id, probe);
        assert(all.take(2) =~= phases.take(2));
        assert(all.skip(2) =~= phases.skip(2) + probe);
        assert(more.skip(1) =~= ids.skip(1).push(id));
        assert(all[0] == phases[0]);
        let tail = scan_found(ids.skip(1), phases.skip(2));
        if answered(ids[0], phases[0]) {
            assert(seq![ids[0]] + tail.push(id) =~= (seq![ids[0]] + tail).push(id));
        }
    }
}

/// A scan commands no motion: all it sends is enable and disable frames.
pub proof fn law_scan_only_enables_and_disables(
    ids: Seq<u8>,
    timeout_ns: u64,
    phases: Seq<Phase>,
    i: int,
)
    requires
        scan_phases(ids, timeout_ns, phases),
        0 <= i < phases.len(),
    ensures
        phases[i].action matches Some(Action::Send { data, .. }) && (data
            == frame::special_payload(0xFC) || data == frame::special_payload(0xFD)),
    decreases ids.len(),
{
    if i < 2 {
        assert(phases.take(2)[i] == phases[i]);
    } else {
        law_scan_only_enables_and_disables(ids.skip(1), timeout_ns, phases.skip(2), i - 2);
    }
}

/// Every motor to which a scan sent an enable frame, it sends a disable frame
/// next, whether the enable frame was reported as sent or not.
pub proof fn law_scan_leaves_motors_disabled(
    ids: Seq<u8>,
    timeout_ns: u64,
    phases: Seq<Phase>,
    i: int,
)
    requires
        scan_phases(ids, timeout_ns, phases),
        0 <= i < phases.len(),
        phases[i].action matches Some(Action::Send { data, .. }) && data
            == frame::special_payload(0xFC),
    ensures
        i + 1 < phases.len(),
        phases[i + 1].action matches Some(Action::Send { can_id, data, .. }) && data
            == frame::special_payload(0xFD) && can_id == phases[i].action->Some_0->Send_can_id,
    decreases ids.len(),
{
    let probe = phases.take(2);
    if i < 2 {
        assert(probe[i] == phases[i]);
        if i == 1 {
            assert(frame::special_payload(0xFC)[7] != frame::special_payload(0xFD)[7]);
        } else {
            assert(probe[1] == phases[1]);
        }
    } else {
        law_scan_leaves_motors_disabled(ids.skip(1), timeout_ns, phases.skip(2), i - 2);
    }
}

/// A scan reports each id at most once, in ascending order.
pub proof fn law_scan_reports_in_order(from: u8, to: u8, phases: Seq<Phase>, i: int, j: int)
    requires
        0 <= i < j < scan_found(ids::ids_between(from, to), phases).len(),
    ensures
        from <= scan_found(ids::ids_between(from, to), phases)[i],
        scan_found(ids::ids_between(from, to), phases)[i] < scan_found(
            ids::ids_between(from, to),
            phases,
        )[j],
        scan_found(ids::ids_between(from, to), phases)[j] <= to,
    decreases to - from,
{
    let ids = ids::ids_between(from, to);
    if ids.len() > 0 {
        let rest_phases = phases.skip(2);
        let shift: int = if answered(ids[0], phases[0]) {
            1
        } else {
            0
        };
        if from == to {
            assert(ids.skip(1) =~= Seq::<u8>::empty());
            assert(scan_found(ids.skip(1), rest_phases).len() == 0);
        } else {
            let next = (from + 1) as u8;
            assert(ids.skip(1) =~= ids::ids_between(next, to));
            let rest = scan_found(ids.skip(1), rest_phases);
            if i - shift >= 0 {
                law_scan_reports_in_order(next, to, rest_phases, i - shift, j - shift);
            } else {
                law_scan_reports_what_was_asked(next, to, rest_phases, j - shift);
            }
        }
    }
}

/// A scan reports only ids that it was asked for.
pub proof fn law_scan_reports_what_was_asked(from: u8, to: u8, phases: Seq<Phase>, j: int)
    requires
        0 <= j < scan_found(ids::ids_between(from, to), phases).len(),
    ensures
        from <= scan_found(ids::ids_between(from, to), phases)[j] <= to,
    decreases to - from,
{
    let ids = ids::ids_between(from, to);
    if ids.len() > 0 {
        let rest_phases = phases.skip(2);
        let shift: int = if answered(ids[0], phases[0]) {
            1
        } else {
            0
        };
        if j - shift >= 0 {
            if from == to {
                assert(ids.skip(1) =~= Seq::<u8>::empty());
                assert(scan_found(ids.skip(1), rest_phases).len() == 0);
            } else {
                let next = (from + 1) as u8;
                assert(ids.skip(1) =~= ids::ids_between(next, to));
                law_scan_reports_what_was_asked(next, to, rest_phases, j - shift);
            }
        }
    }
}

/// A frame counts as the answer of the motor that is probed if and only if it has
/// all bytes of feedback and carries the low nibble of the motor's id; the id that
/// it came on does not matter.
pub proof fn law_what_counts_as_an_answer(can_id: u8, f: CanFrame, other_id: u16)
    ensures
        answers(can_id, f) <==> f.data@.len() >= 8 && f.data@[0] % 16 == can_id % 16,
        answers(can_id, f) == answers(can_id, CanFrame { can_id: other_id, data: f.data }),
{
}

/// A scan finds exactly those among the probed ids whose probe ended with their
/// answer.
pub proof fn law_scan_finds_exactly_those_that_answer(
    from: u8,
    to: u8,
    timeout_ns: u64,
    phases: Seq<Phase>,
    id: u8,
)
    requires
        scan_phases(ids::ids_between(from, to), timeout_ns, phases),
        from <= id <= to,
    ensures
        phases.len() == 2 * (to - from + 1),
        scan_found(ids::ids_between(from, to), phases).contains(id) <==> answered(
            id,
            phases[2 * (id - from)],
        ),
        phases[2 * (id - from)].action matches Some(Action::Send { can_id, .. }) && can_id == id,
    decreases to - from,
{
    let ids = ids::ids_between(from, to);
    let rest = phases.skip(2);
    assert(phases.take(2)[0] == phases[0]);
    if from == to {
        assert(ids.skip(1) =~= Seq::<u8>::empty());
        assert(scan_phases(ids.skip(1), timeout_ns, rest));
        assert(rest.len() == 0);
        assert(scan_found(ids.skip(1), rest).len() == 0);
        let found = scan_found(ids, phases);
        if answered(ids[0], phases[0]) {
            assert(found[0] == id);
        }
    } else {
        let next = (from + 1) as u8;
        assert(ids.skip(1) =~= ids::ids_between(next, to));
        let tail = scan_found(ids.skip(1), rest);
        let found = scan_found(ids, phases);
        if id == from {
            law_scan_finds_exactly_those_that_answer(next, to, timeout_ns, rest, next);
            if answered(ids[0], phases[0]) {
                assert(found[0] == id);
            } else if tail.contains(id) {
                let k = choose|k: int| 0 <= k < tail.len() && tail[k] == id;
                law_scan_reports_what_was_asked(next, to, rest, k);
            }
        } else {
            law_scan_finds_exactly_those_that_answer(next, to, timeout_ns, rest, id);
            assert(rest[2 * (id - next)] == phases[2 * (id - from)]);
            if tail.contains(id) {
                let k = choose|k: int| 0 <= k < tail.len() && tail[k] == id;
                if answered(ids[0], phases[0]) {
                    assert(found[k + 1] == id);
                } else {
                    assert(found[k] == id);
                }
            }
            if found.contains(id) {
                let k = choose|k: int| 0 <= k < found.len() && found[k] == id;
                if answered(ids[0], phases[0]) {
                    assert(tail[k - 1] == id);
                } else {
                    assert(tail[k] == id);
                }
            }
        }
    }
}

/// Reads away frames that are still buffered.
fn drain<B: DamiaoBus>(bus: &mut B)
    ensures
        driver::one_phase(old(bus).history(), final(bus).history()),
        drain_phase(final(bus).history().last()),
{
    let _ = bus.set_timeout(DRAIN_TIMEOUT_NS);
    assert(bus.history().drop_last() =~= old(bus).history());
    let mut n: u32 = 0;
    let mut silent: bool = false;
    while n < DRAIN_MAX && !silent
        invariant
            driver::one_phase(old(bus).history(), bus.history()),
            bus.history().last().action matches Some(Action::SetTimeout { timeout_ns, .. })
                && timeout_ns == DRAIN_TIMEOUT_NS,
            n <= DRAIN_MAX,
            bus.history().last().heard.len() == n,
            forall|i: int|
                0 <= i < n - 1 ==> (#[trigger] bus.history().last().heard[i]) is Ok,
            n > 0 ==> silent == (bus.history().last().heard.last() is Err),
            n == 0 ==> !silent,
        decreases DRAIN_MAX - n,
    {
        let ghost before = bus.history();
        let r = bus.recv();
        proof {
            assert(bus.history().drop_last() =~= before.drop_last());
            assert(bus.history().last().heard == before.last().heard.push(r));
        }
        silent = r.is_err();
        n = n + 1;
    }
}

/// Probes one id: whether a motor with its nibble answered. `gap` gives the motor
/// time to take the disable frame in.
pub fn probe_one<B: DamiaoBus, G: Fn()>(bus: &mut B, can_id: u8, timeout_ns: u64, gap: &G) -> (r:
    Result<bool, Error>)
    requires
        gap.requires(()),
    ensures
        ({
            let h0 = old(bus).history();
            let phases = final(bus).history().skip(h0.len() as int);
            &&& h0.len() < final(bus).history().len()
            &&& final(bus).history().take(h0.len() as int) == h0
            &&& probe_phases(can_id, timeout_ns, phases)
            &&& r == Ok::<bool, Error>(answered(can_id, phases[0]))
        }),
        gap.ensures((), ()),
{
    let ghost h0 = bus.history();
    let (id, enable) = build_enable_frame(can_id);
    let mut answer: bool = false;
    let enabled = bus.send(id, &enable);
    proof {
        assert(bus.history().drop_last() =~= h0);
    }
    if enabled.is_ok() {
        answer = listen(bus, can_id, timeout_ns);
    }
    let ghost h1 = bus.history();
    let (did, disable) = build_disable_frame(can_id);
    let _ = bus.send(did, &disable);
    gap();
    proof {
        let h2 = bus.history();
        assert(h1.drop_last() == h0);
        assert(h2.take(h0.len() as int) =~= h1.drop_last());
        assert(h2.skip(h0.len() as int) =~= seq![h1.last(), h2.last()]);
    }
    Ok(answer)
}

/// Listens for the feedback of a motor that was just enabled.
fn listen<B: DamiaoBus>(bus: &mut B, can_id: u8, timeout_ns: u64) -> (r: bool)
    requires
        old(bus).history().len() > 0,
        old(bus).history().last().heard.len() == 0,
    ensures
        final(bus).history().len() == old(bus).history().len(),
        final(bus).history().drop_last() == old(bus).history().drop_last(),
        final(bus).history().last().action == old(bus).history().last().action,
        ({
            let heard = final(bus).history().last().heard;
            &&& forall|i: int| 0 <= i < heard.len() - 1 ==> passed_over(can_id, #[trigger] heard[i])
            &&& heard.len() == 0 || passed_over(can_id, heard.last()) ==> given_up(
                timeout_ns,
                heard,
            )
        }),
        r == answered(can_id, final(bus).history().last()),
{
    let ghost h0 = bus.history();
    let started = clock::start();
    let mut polls: u64 = u64::MAX;
    while polls > 0
        invariant
            clock::began(started),
            h0 == old(bus).history(),
            h0.len() > 0,
            bus.history().len() == h0.len(),
            bus.history().drop_last() == h0.drop_last(),
            bus.history().last().action == h0.last().action,
            bus.history().last().heard.len() == u64::MAX - polls,
            forall|i: int|
                0 <= i < bus.history().last().heard.len() ==> passed_over(
                    can_id,
                    #[trigger] bus.history().last().heard[i],
                ),
        decreases polls,
    {
        polls = polls - 1;
        if clock::reached(&started, timeout_ns) {
            return false;
        }
        let ghost before = bus.history();
        let received = bus.recv();
        proof {
            assert(bus.history().drop_last() =~= before.drop_last());
            assert(bus.history().last().heard == before.last().heard.push(received));
        }
        match received {
            Ok(f) => {
                if f.data.len() >= DATA_LEN && f.data[0] % 16 == can_id % 16 {
                    return true;
                }
            },
            Err(_) => {
                return false;
            },
        }
    }
    false
}

/// That `c` is the report just before probe number `i` of `ids`, where `h` is the
/// history of the bus and the probes start at `base`: it names the probe, and the
/// bus had seen the probes before it and nothing of this one.
pub open spec fn precedes_probe<B: DamiaoBus>(
    c: Call<B>,
    i: int,
    ids: Seq<u8>,
    h: Seq<Phase>,
    base: int,
) -> bool {
    &&& c.index == i
    &&& c.total == ids.len()
    &&& c.motor_id == ids[i]
    &&& c.bus.history() == h.take(base + 2 * i)
}

/// That the reports after `before` are one just before each of the first `k`
/// probes of `ids`, in order, and no other.
pub open spec fn reported<B: DamiaoBus>(
    before: Seq<Call<B>>,
    after: Seq<Call<B>>,
    ids: Seq<u8>,
    k: int,
    h: Seq<Phase>,
    base: int,
) -> bool {
    &&& after.len() == before.len() + k
    &&& after.take(before.len() as int) == before
    &&& forall|j: int|
        before.len() <= j < after.len() ==> precedes_probe(
            #[trigger] after[j],
            j - before.len(),
            ids,
            h,
            base,
        )
}

/// One more probe, with the report before it.
proof fn lemma_reported_more<B: DamiaoBus>(
    start: Seq<Call<B>>,
    before: Seq<Call<B>>,
    after: Seq<Call<B>>,
    ids: Seq<u8>,
    k: int,
    h0: Seq<Phase>,
    h: Seq<Phase>,
    base: int,
)
    requires
        reported(start, before, ids, k, h0, base),
        after == before.push(after.last()),
        after.last().index == k,
        after.last().total == ids.len(),
        after.last().motor_id == ids[k],
        after.last().bus.history() == h0,
        0 <= base,
        0 <= k,
        h0.len() == base + 2 * k,
        h0.len() <= h.len(),
        h.take(h0.len() as int) == h0,
    ensures
        reported(start, after, ids, k + 1, h, base),
{
    assert(after.take(start.len() as int) =~= before.take(start.len() as int));
    assert forall|j: int| start.len() <= j < after.len() implies precedes_probe(
        #[trigger] after[j],
        j - start.len(),
        ids,
        h,
        base,
    ) by {
        let i = j - start.len();
        if i < k {
            assert(after[j] == before[j]);
        }
        assert(h.take(base + 2 * i) =~= h0.take(base + 2 * i)) by {
            assert forall|x: int| 0 <= x < base + 2 * i implies h[x] == h0[x] by {
                assert(h.take(h0.len() as int)[x] == h0[x]);
            }
        }
        if i == k {
            assert(h0.take(base + 2 * k) =~= h0);
        }
    }
}

/// Probes every id from `from` to `to` and returns those that answered.
/// `on_progress` is told the number of each probe, how many there are, and the
/// id, just before it is made, and nothing else.
pub fn scan_bus_on<B: DamiaoBus, P: ScanProgress<B>, G: Fn()>(
    bus: &mut B,
    from: u8,
    to: u8,
    timeout_ns: u64,
    on_progress: &mut P,
    gap: &G,
) -> (r: Result<Vec<u8>, Error>)
    requires
        gap.requires(()),
    ensures
        ({
            let h0 = old(bus).history();
            let n = h0.len() as int;
            let h = final(bus).history();
            &&& h.len() >= n + 2
            &&& h.take(n) == h0
            &&& drain_phase(h[n])
            &&& h[n + 1].action matches Some(Action::SetTimeout { timeout_ns: t, result })
            &&& t == timeout_ns
            &&& h[n + 1].heard.len() == 0
            &&& match result {
                Err(e) => {
                    &&& h.len() == n + 2
                    &&& final(on_progress).calls() == old(on_progress).calls()
                    &&& r == Err::<Vec<u8>, Error>(e)
                },
                Ok(_) => {
                    &&& scan_phases(ids::ids_between(from, to), timeout_ns, h.skip(n + 2))
                    &&& reported(
                        old(on_progress).calls(),
                        final(on_progress).calls(),
                        ids::ids_between(from, to),
                        ids::ids_between(from, to).len() as int,
                        h,
                        n + 2,
                    )
                    &&& from <= to ==> gap.ensures((), ())
                    &&& r matches Ok(found) && found@ == scan_found(
                        ids::ids_between(from, to),
                        h.skip(n + 2),
                    )
                },
            }
        }),
{
    let ghost h0 = bus.history();
    let ghost calls0 = on_progress.calls();
    drain(bus);
    let ghost h1 = bus.history();
    if let Err(e) = bus.set_timeout(timeout_ns) {
        proof {
            assert(bus.history().take(h0.len() as int) =~= h1.drop_last());
        }
        return Err(e);
    }
    let ghost h2 = bus.history();
    let ghost n = h0.len() as int;
    let total: usize = if to < from {
        0
    } else {
        (to - from) as usize + 1
    };
    let mut found: Vec<u8> = Vec::new();
    let mut i: usize = 0;
    proof {
        assert(h2.take(n) =~= h1.drop_last());
        assert(h2[n] == h1.last());
        assert(h2.skip(n + 2) =~= Seq::<Phase>::empty());
        assert(ids::ids_between(from, to).take(0) =~= Seq::<u8>::empty());
        assert(h2.take(n + 2) =~= h2);
        assert(calls0.take(calls0.len() as int) =~= calls0);
    }
    while i < total
        invariant
            i <= total,
            total == ids::ids_between(from, to).len(),
            total > 0 ==> from + total - 1 <= 255,
            h2.len() == n + 2,
            n >= 0,
            bus.history().len() >= n + 2,
            bus.history().take(n + 2) == h2,
            scan_phases(
                ids::ids_between(from, to).take(i as int),
                timeout_ns,
                bus.history().skip(n + 2),
            ),
            bus.history().len() == n + 2 + 2 * i,
            calls0 == old(on_progress).calls(),
            reported(
                calls0,
                on_progress.calls(),
                ids::ids_between(from, to),
                i as int,
                bus.history(),
                n + 2,
            ),
            i > 0 ==> gap.ensures((), ()),
            found@ == scan_found(ids::ids_between(from, to).take(i as int), bus.history().skip(n + 2)),
            gap.requires(()),
        decreases total - i,
    {
        let can_id: u8 = from + i as u8;
        let ghost told = on_progress.calls();
        on_progress.report(bus, i, total, can_id);
        let ghost before = bus.history();
        let hit: bool = match probe_one(bus, can_id, timeout_ns, gap) {
            Ok(hit) => hit,
            Err(e) => {
                return Err(e);
            },
        };
        if hit {
            found.push(can_id);
        }
        proof {
            let h = bus.history();
            let ids = ids::ids_between(from, to);
            let probe = h.skip(before.len() as int);
            lemma_reported_more(
                calls0,
                told,
                on_progress.calls(),
                ids,
                i as int,
                before,
                h,
                n + 2,
            );
            lemma_scan_append(
                ids.take(i as int),
                timeout_ns,
                before.skip(n + 2),
                can_id,
                probe,
            );
            assert(ids.take(i + 1) =~= ids.take(i as int).push(can_id));
            assert(h.take(n + 2) =~= before.take(n + 2)) by {
                assert forall|k: int| 0 <= k < n + 2 implies h[k] == before[k] by {
                    assert(h.take(before.len() as int)[k] == before[k]);
                }
            }
            assert(h.skip(n + 2) =~= before.skip(n + 2) + probe) by {
                assert forall|k: int| n + 2 <= k < before.len() implies h[k] == before[k] by {
                    assert(h.take(before.len() as int)[k] == before[k]);
                }
            }
        }
        i = i + 1;
    }
    proof {
        let h = bus.history();
        assert(ids::ids_between(from, to).take(i as int) =~= ids::ids_between(from, to));
        assert(h.take(n) =~= h2.take(n)) by {
            assert forall|k: int| 0 <= k < n implies h[k] == h2[k] by {
                assert(h.take(n + 2)[k] == h2[k]);
            }
        }
        assert(h[n] == h.take(n + 2)[n] && h[n + 1] == h.take(n + 2)[n + 1]);
    }
    Ok(found)
}

/// Before each probe it is told which probe of how many comes, and of which motor, when
/// nothing of that probe was sent yet.
pub proof fn law_progress_is_told_before_the_probe<B: DamiaoBus>(
    before: Seq<Call<B>>,
    after: Seq<Call<B>>,
    ids: Seq<u8>,
    k: int,
    h: Seq<Phase>,
    base: int,
    i: int,
)
    requires
        reported(before, after, ids, k, h, base),
        0 <= i < k,
        0 <= base,
        base + 2 * i <= h.len(),
    ensures
        ({
            let c = after[before.len() + i];
            &&& c.index == i
            &&& c.total == ids.len()
            &&& c.motor_id == ids[i]
            &&& c.bus.history().len() == base + 2 * i
            &&& c.bus.history().is_prefix_of(h)
        }),
        after.len() == before.len() + k,
        before.is_prefix_of(after),
{
    assert(precedes_probe(after[before.len() + i], i, ids, h, base));
}

} // verus!
