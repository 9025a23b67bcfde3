//! The activation gate: the traffic-detection phase of the counter
//! dumping loop.
//!
//! The activation gate is fed one sample row per polling tick: the ordered list of
//! (port, counter) pairs in startup order, whose first entry is the
//! primary port. While detecting, it waits for the primary port's
//! counter — and only the primary port's — to become nonzero; at that
//! tick it emits the single-use first-traffic signal and moves to an
//! unending reporting phase, in which every later sample row is
//! reported for observability.

use vstd::prelude::*;

verus! {

#[derive(Clone, Copy, Debug, PartialEq, Eq, Structural)]
pub enum GatePhase {
    /// Waiting for the first request on the primary port.
    Detecting,
    /// First traffic was signaled; every further sample is reported.
    Reporting,
}

/// What the activation gate asks of its caller after one sample row.
#[derive(Clone, Copy, Debug, PartialEq, Eq, Structural)]
pub enum GateStep {
    /// Still detecting: sleep and sample again, reporting nothing.
    KeepWaiting,
    /// The primary port's counter was seen nonzero for the first time:
    /// emit the single-use first-traffic signal now.
    FirstTraffic,
    /// Report the sampled counts for observability.
    Report,
}

/// A sample row is valid when it holds at least the primary port's entry.
pub open spec fn valid_row(row: Seq<(u16, u64)>) -> bool {
    row.len() > 0
}

/// The activation gate's transition on one sample row. It reads only the primary
/// entry's count, `row[0].1`.
pub open spec fn spec_gate_step(phase: GatePhase, row: Seq<(u16, u64)>) -> (GatePhase, GateStep)
    recommends
        valid_row(row),
{
    match phase {
        GatePhase::Detecting => if row[0].1 > 0 {
            (GatePhase::Reporting, GateStep::FirstTraffic)
        } else {
            (GatePhase::Detecting, GateStep::KeepWaiting)
        },
        GatePhase::Reporting => (GatePhase::Reporting, GateStep::Report),
    }
}

/// The phase the activation gate is in after consuming a sequence of sample rows,
/// starting from `Detecting`.
pub open spec fn spec_gate_run(rows: Seq<Seq<(u16, u64)>>) -> GatePhase
    decreases rows.len(),
{
    if rows.len() == 0 {
        GatePhase::Detecting
    } else {
        spec_gate_step(spec_gate_run(rows.drop_last()), rows.last()).0
    }
}

pub struct ActivationGate {
    pub phase: GatePhase,
}

impl ActivationGate {
    /// A fresh gate, still waiting for first traffic.
    pub fn new() -> (g: Self)
        ensures
            g.phase == GatePhase::Detecting,
    {
        ActivationGate { phase: GatePhase::Detecting }
    }

    /// Consumes one sample row. The decision depends only on the primary
    /// entry `counts[0]`; traffic on other ports never moves the activation gate.
    pub fn observe(&mut self, counts: &Vec<(u16, u64)>) -> (step: GateStep)
        requires
            valid_row(counts@),
        ensures
            (final(self).phase, step) == spec_gate_step(old(self).phase, counts@),
            step == GateStep::FirstTraffic <==> (old(self).phase == GatePhase::Detecting
                && counts@[0].1 > 0),
    {
        match self.phase {
            GatePhase::Detecting => {
                if counts[0].1 > 0 {
                    self.phase = GatePhase::Reporting;
                    GateStep::FirstTraffic
                } else {
                    GateStep::KeepWaiting
                }
            },
            GatePhase::Reporting => GateStep::Report,
        }
    }
}

/// Law: the activation gate is insensitive to non-primary counters. Two
/// sample rows that agree on the primary entry's count drive it alike,
/// whatever the other ports report.
pub proof fn lemma_gate_ignores_non_primary(
    phase: GatePhase,
    a: Seq<(u16, u64)>,
    b: Seq<(u16, u64)>,
)
    requires
        valid_row(a),
        valid_row(b),
        a[0].1 == b[0].1,
    ensures
        spec_gate_step(phase, a) == spec_gate_step(phase, b),
{
}

/// Law: after any sequence of sample rows the activation gate is still detecting
/// if and only if every sampled value of the primary port's counter was
/// zero.
pub proof fn lemma_gate_detecting_iff_primary_silent(rows: Seq<Seq<(u16, u64)>>)
    requires
        forall|j: int| 0 <= j < rows.len() ==> valid_row(#[trigger] rows[j]),
    ensures
        spec_gate_run(rows) == GatePhase::Detecting <==> (forall|j: int|
            0 <= j < rows.len() ==> #[trigger] rows[j][0].1 == 0),
    decreases rows.len(),
{
    if rows.len() > 0 {
        lemma_gate_detecting_iff_primary_silent(rows.drop_last());
        assert(forall|j: int| 0 <= j < rows.len() - 1 ==> rows.drop_last()[j] =~= rows[j]);
        assert(rows.last() =~= rows[rows.len() - 1]);
    }
}

/// Law: the first-traffic signal is emitted at a tick if and only if
/// that tick's sampled primary count is nonzero and every earlier
/// sampled primary count was zero. In particular the activation gate never signals
/// while all sampled primary values are zero, signals as soon as one is
/// nonzero, and signals at most once over any sequence of samples.
pub proof fn lemma_gate_signals_exactly_at_first_traffic(rows: Seq<Seq<(u16, u64)>>, i: int)
    requires
        forall|j: int| 0 <= j < rows.len() ==> valid_row(#[trigger] rows[j]),
        0 <= i < rows.len(),
    ensures
        spec_gate_step(spec_gate_run(rows.take(i)), rows[i]).1 == GateStep::FirstTraffic <==> (
        rows[i][0].1 > 0 && (forall|j: int| 0 <= j < i ==> #[trigger] rows[j][0].1 == 0)),
{
    let prefix = rows.take(i);
    assert(forall|j: int| 0 <= j < i ==> prefix[j] =~= rows[j]);
    lemma_gate_detecting_iff_primary_silent(prefix);
}

} // verus!
