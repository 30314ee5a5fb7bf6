//! Telling the progress of a bus scan.
use vstd::prelude::*;

verus! {

/// One report: the number of a probe, how many there are, the id that is probed,
/// and the bus as it was then.
pub struct Call<B> {
    pub index: usize,
    pub total: usize,
    pub motor_id: u8,
    pub bus: B,
}

/// Someone who is told the progress of a scan. The bus may be looked at, and is
/// not to be used.
pub trait ScanProgress<B> {
    /// Every report so far, oldest first. The default is a constant, which nothing
    /// that is told of progress can keep to: an implementation that leaves it, as
    /// one outside of verified code may, does not meet this trait's contract, and
    /// nothing that is proved of reports applies to it.
    open spec fn calls(&self) -> Seq<Call<B>> {
        arbitrary()
    }

    /// Takes a report.
    fn report(&mut self, bus: &B, index: usize, total: usize, motor_id: u8)
        ensures
            final(self).calls() == old(self).calls().push(
                Call { index, total, motor_id, bus: *bus },
            ),
    ;
}

/// Nobody in particular: reports are taken and forgotten.
pub struct Quiet<B> {
    calls: Ghost<Seq<Call<B>>>,
}

impl<B> Quiet<B> {
    /// Nobody, who was told nothing yet.
    pub fn new() -> (r: Self)
        ensures
            r.calls() == Seq::<Call<B>>::empty(),
    {
        Quiet { calls: Ghost(Seq::empty()) }
    }
}

impl<B> ScanProgress<B> for Quiet<B> {
    closed spec fn calls(&self) -> Seq<Call<B>> {
        self.calls@
    }

    fn report(&mut self, bus: &B, index: usize, total: usize, motor_id: u8) {
        self.calls = Ghost(self.calls@.push(Call { index, total, motor_id, bus: *bus }));
    }
}

} // verus!
