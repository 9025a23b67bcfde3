//! Traffic-stats snapshots and their diffing.
//!
//! The external steering subsystem hands the controller, on demand, a
//! pair of snapshots: a three-level counter structure keyed by
//! receive-queue index, then CPU index, then port. Each iteration the
//! controller subtracts the previous snapshot from the current one
//! elementwise and reports every strictly positive delta.
//!
//! A snapshot counter that decreases between captures (a reset or a
//! wrap-around) has no evident intended meaning; this module clamps
//! such a delta to zero, so a decrease is never reported.

use vstd::prelude::*;

verus! {

/// A captured three-level counter structure: `rxqs[rxq][cpu]` is the
/// list of (port, cumulative count) pairs for that queue and CPU.
#[derive(Debug, PartialEq, Eq)]
pub struct StatsSnapshot {
    pub rxqs: Vec<Vec<Vec<(u16, u64)>>>,
}

/// One reported tuple: the traffic seen on (rxq, cpu, port) in the
/// window between two snapshots.
#[derive(Clone, Copy, Debug, PartialEq, Eq, Structural)]
pub struct DeltaReport {
    pub rxq: usize,
    pub cpu: usize,
    pub port: u16,
    pub count: u64,
}

/// The windowed delta of one counter: `cur - prev`, clamped to zero
/// when the counter decreased (reset or wrap-around).
pub open spec fn spec_delta(cur: u64, prev: u64) -> u64 {
    if cur >= prev {
        (cur - prev) as u64
    } else {
        0u64
    }
}

impl StatsSnapshot {
    /// Two snapshots have matching shape when they agree on every
    /// dimension and on the port at every position; a diff is defined
    /// only then.
    pub open spec fn matches_shape(self, other: StatsSnapshot) -> bool {
        &&& self.rxqs@.len() == other.rxqs@.len()
        &&& (forall|i: int|
            0 <= i < self.rxqs@.len() ==> (#[trigger] self.rxqs@[i])@.len()
                == other.rxqs@[i]@.len())
        &&& (forall|i: int, j: int|
            0 <= i < self.rxqs@.len() && 0 <= j < self.rxqs@[i]@.len() ==> (
            #[trigger] self.rxqs@[i]@[j])@.len() == other.rxqs@[i]@[j]@.len())
        &&& (forall|i: int, j: int, k: int|
            0 <= i < self.rxqs@.len() && 0 <= j < self.rxqs@[i]@.len() && 0 <= k
                < self.rxqs@[i]@[j]@.len() ==> (#[trigger] self.rxqs@[i]@[j]@[k]).0
                == other.rxqs@[i]@[j]@[k].0)
    }
}

fn diff_port_row(cur: &Vec<(u16, u64)>, prev: &Vec<(u16, u64)>) -> (d: Vec<(u16, u64)>)
    requires
        cur@.len() == prev@.len(),
    ensures
        d@.len() == cur@.len(),
        forall|k: int|
            0 <= k < cur@.len() ==> (#[trigger] d@[k]) == (cur@[k].0, spec_delta(
                cur@[k].1,
                prev@[k].1,
            )),
{
    let mut d: Vec<(u16, u64)> = Vec::new();
    let mut k: usize = 0;
    while k < cur.len()
        invariant
            cur@.len() == prev@.len(),
            k <= cur@.len(),
            d@.len() == k,
            forall|m: int|
                0 <= m < k ==> (#[trigger] d@[m]) == (cur@[m].0, spec_delta(
                    cur@[m].1,
                    prev@[m].1,
                )),
        decreases cur@.len() - k,
    {
        let (port, c) = cur[k];
        let p = prev[k].1;
        let delta = if c >= p {
            c - p
        } else {
            0
        };
        d.push((port, delta));
        k = k + 1;
    }
    d
}

fn diff_cpu_rows(cur: &Vec<Vec<(u16, u64)>>, prev: &Vec<Vec<(u16, u64)>>) -> (d: Vec<
    Vec<(u16, u64)>,
>)
    requires
        cur@.len() == prev@.len(),
        forall|j: int| 0 <= j < cur@.len() ==> (#[trigger] cur@[j])@.len() == prev@[j]@.len(),
    ensures
        d@.len() == cur@.len(),
        forall|j: int| 0 <= j < cur@.len() ==> (#[trigger] d@[j])@.len() == cur@[j]@.len(),
        forall|j: int, k: int|
            0 <= j < cur@.len() && 0 <= k < cur@[j]@.len() ==> (#[trigger] d@[j]@[k]) == (
            cur@[j]@[k].0, spec_delta(cur@[j]@[k].1, prev@[j]@[k].1)),
{
    let mut d: Vec<Vec<(u16, u64)>> = Vec::new();
    let mut j: usize = 0;
    while j < cur.len()
        invariant
            cur@.len() == prev@.len(),
            forall|m: int| 0 <= m < cur@.len() ==> (#[trigger] cur@[m])@.len() == prev@[m]@.len(),
            j <= cur@.len(),
            d@.len() == j,
            forall|m: int| 0 <= m < j ==> (#[trigger] d@[m])@.len() == cur@[m]@.len(),
            forall|m: int, k: int|
                0 <= m < j && 0 <= k < cur@[m]@.len() ==> (#[trigger] d@[m]@[k]) == (
                cur@[m]@[k].0, spec_delta(cur@[m]@[k].1, prev@[m]@[k].1)),
        decreases cur@.len() - j,
    {
        let row = diff_port_row(&cur[j], &prev[j]);
        d.push(row);
        j = j + 1;
    }
    d
}

/// The elementwise snapshot diff: for matching shapes, position
/// (rxq, cpu, k) of the result keeps the current port and holds
/// `current - previous` of the counts, clamped to zero when the
/// counter decreased.
pub fn diff_snapshot(cur: &StatsSnapshot, prev: &StatsSnapshot) -> (d: StatsSnapshot)
    requires
        cur.matches_shape(*prev),
    ensures
        d.matches_shape(*cur),
        d.rxqs@.len() == cur.rxqs@.len(),
        forall|i: int|
            0 <= i < cur.rxqs@.len() ==> (#[trigger] d.rxqs@[i])@.len() == cur.rxqs@[i]@.len(),
        forall|i: int, j: int, k: int|
            0 <= i < cur.rxqs@.len() && 0 <= j < cur.rxqs@[i]@.len() && 0 <= k
                < cur.rxqs@[i]@[j]@.len() ==> (#[trigger] d.rxqs@[i]@[j]@[k]) == (
            cur.rxqs@[i]@[j]@[k].0, spec_delta(cur.rxqs@[i]@[j]@[k].1, prev.rxqs@[i]@[j]@[k].1)),
{
    let mut rxqs: Vec<Vec<Vec<(u16, u64)>>> = Vec::new();
    let mut i: usize = 0;
    while i < cur.rxqs.len()
        invariant
            cur.matches_shape(*prev),
            i <= cur.rxqs@.len(),
            rxqs@.len() == i,
            forall|m: int|
                0 <= m < i ==> (#[trigger] rxqs@[m])@.len() == cur.rxqs@[m]@.len(),
            forall|m: int, j: int|
                0 <= m < i && 0 <= j < cur.rxqs@[m]@.len() ==> (#[trigger] rxqs@[m]@[j])@.len()
                    == cur.rxqs@[m]@[j]@.len(),
            forall|m: int, j: int, k: int|
                0 <= m < i && 0 <= j < cur.rxqs@[m]@.len() && 0 <= k < cur.rxqs@[m]@[j]@.len()
                    ==> (#[trigger] rxqs@[m]@[j]@[k]) == (cur.rxqs@[m]@[j]@[k].0, spec_delta(
                    cur.rxqs@[m]@[j]@[k].1,
                    prev.rxqs@[m]@[j]@[k].1,
                )),
        decreases cur.rxqs@.len() - i,
    {
        let level = diff_cpu_rows(&cur.rxqs[i], &prev.rxqs[i]);
        rxqs.push(level);
        i = i + 1;
    }
    StatsSnapshot { rxqs }
}

/// The reports of one (rxq, cpu) row, positions `0..n`: one entry per
/// strictly positive count, in position order.
pub open spec fn spec_row_reports(rxq: usize, cpu: usize, row: Seq<(u16, u64)>, n: int) -> Seq<
    DeltaReport,
>
    decreases n,
{
    if n <= 0 {
        Seq::empty()
    } else {
        spec_row_reports(rxq, cpu, row, n - 1) + if row[n - 1].1 > 0 {
            seq![DeltaReport { rxq, cpu, port: row[n - 1].0, count: row[n - 1].1 }]
        } else {
            Seq::empty()
        }
    }
}

/// The reports of one rxq level, CPU rows `0..n`, concatenated in CPU
/// order.
pub open spec fn spec_level_reports(rxq: usize, cpus: Seq<Vec<(u16, u64)>>, n: int) -> Seq<
    DeltaReport,
>
    decreases n,
{
    if n <= 0 {
        Seq::empty()
    } else {
        spec_level_reports(rxq, cpus, n - 1) + spec_row_reports(
            rxq,
            (n - 1) as usize,
            cpus[n - 1]@,
            cpus[n - 1]@.len() as int,
        )
    }
}

/// The reports of rxq levels `0..n` of a snapshot, concatenated in
/// rxq order.
pub open spec fn spec_snapshot_reports_upto(rxqs: Seq<Vec<Vec<(u16, u64)>>>, n: int) -> Seq<
    DeltaReport,
>
    decreases n,
{
    if n <= 0 {
        Seq::empty()
    } else {
        spec_snapshot_reports_upto(rxqs, n - 1) + spec_level_reports(
            (n - 1) as usize,
            rxqs[n - 1]@,
            rxqs[n - 1]@.len() as int,
        )
    }
}

/// All reports of a snapshot: every (rxq, cpu, port) position whose
/// count is strictly positive, in position order.
pub open spec fn spec_snapshot_reports(s: StatsSnapshot) -> Seq<DeltaReport> {
    spec_snapshot_reports_upto(s.rxqs@, s.rxqs@.len() as int)
}

fn report_row(rxq: usize, cpu: usize, row: &Vec<(u16, u64)>, out: &mut Vec<DeltaReport>)
    ensures
        final(out)@ == old(out)@ + spec_row_reports(rxq, cpu, row@, row@.len() as int),
{
    let mut k: usize = 0;
    while k < row.len()
        invariant
            k <= row@.len(),
            out@ == old(out)@ + spec_row_reports(rxq, cpu, row@, k as int),
        decreases row@.len() - k,
    {
        let (port, count) = row[k];
        if count > 0 {
            out.push(DeltaReport { rxq, cpu, port, count });
        }
        assert(out@ =~= old(out)@ + spec_row_reports(rxq, cpu, row@, k + 1));
        k = k + 1;
    }
}

fn report_level(rxq: usize, cpus: &Vec<Vec<(u16, u64)>>, out: &mut Vec<DeltaReport>)
    ensures
        final(out)@ == old(out)@ + spec_level_reports(rxq, cpus@, cpus@.len() as int),
{
    let mut j: usize = 0;
    while j < cpus.len()
        invariant
            j <= cpus@.len(),
            out@ == old(out)@ + spec_level_reports(rxq, cpus@, j as int),
        decreases cpus@.len() - j,
    {
        report_row(rxq, j, &cpus[j], out);
        assert(out@ =~= old(out)@ + spec_level_reports(rxq, cpus@, j + 1));
        j = j + 1;
    }
}

/// Collects every strictly positive delta of a (diffed) snapshot as a
/// report tuple, in position order; zero deltas are never reported.
pub fn nonzero_deltas(d: &StatsSnapshot) -> (out: Vec<DeltaReport>)
    ensures
        out@ == spec_snapshot_reports(*d),
{
    let mut out: Vec<DeltaReport> = Vec::new();
    let mut i: usize = 0;
    while i < d.rxqs.len()
        invariant
            i <= d.rxqs@.len(),
            out@ == spec_snapshot_reports_upto(d.rxqs@, i as int),
        decreases d.rxqs@.len() - i,
    {
        report_level(i, &d.rxqs[i], &mut out);
        assert(out@ =~= spec_snapshot_reports_upto(d.rxqs@, i + 1));
        i = i + 1;
    }
    out
}

proof fn lemma_concat_contains_left<A>(a: Seq<A>, b: Seq<A>, x: A)
    requires
        a.contains(x),
    ensures
        (a + b).contains(x),
{
    let i = choose|i: int| 0 <= i < a.len() && a[i] == x;
    assert((a + b)[i] == x);
}

proof fn lemma_concat_contains_right<A>(a: Seq<A>, b: Seq<A>, x: A)
    requires
        b.contains(x),
    ensures
        (a + b).contains(x),
{
    let i = choose|i: int| 0 <= i < b.len() && b[i] == x;
    assert((a + b)[a.len() + i] == x);
}

proof fn lemma_row_member(rxq: usize, cpu: usize, row: Seq<(u16, u64)>, n: int, r: DeltaReport)
    requires
        n <= row.len(),
        spec_row_reports(rxq, cpu, row, n).contains(r),
    ensures
        r.rxq == rxq,
        r.cpu == cpu,
        r.count > 0,
        exists|k: int| 0 <= k < n && #[trigger] row[k] == (r.port, r.count),
    decreases n,
{
    if n > 0 {
        let pre = spec_row_reports(rxq, cpu, row, n - 1);
        let tail = if row[n - 1].1 > 0 {
            seq![DeltaReport { rxq, cpu, port: row[n - 1].0, count: row[n - 1].1 }]
        } else {
            Seq::<DeltaReport>::empty()
        };
        let i = choose|i: int| 0 <= i < (pre + tail).len() && (pre + tail)[i] == r;
        if i < pre.len() {
            assert(pre[i] == r);
            assert(pre.contains(r));
            lemma_row_member(rxq, cpu, row, n - 1, r);
            let k = choose|k: int| 0 <= k < n - 1 && #[trigger] row[k] == (r.port, r.count);
            assert(row[k] == (r.port, r.count));
        } else {
            assert(tail[i - pre.len()] == r);
            assert(row[n - 1] == (r.port, r.count));
        }
    }
}

proof fn lemma_level_member(rxq: usize, cpus: Seq<Vec<(u16, u64)>>, n: int, r: DeltaReport)
    requires
        n <= cpus.len(),
        n <= usize::MAX,
        spec_level_reports(rxq, cpus, n).contains(r),
    ensures
        r.rxq == rxq,
        r.count > 0,
        r.cpu < n,
        exists|k: int|
            0 <= k < cpus[r.cpu as int]@.len() && #[trigger] cpus[r.cpu as int]@[k] == (
            r.port,
            r.count,
            ),
    decreases n,
{
    if n > 0 {
        let pre = spec_level_reports(rxq, cpus, n - 1);
        let tail = spec_row_reports(
            rxq,
            (n - 1) as usize,
            cpus[n - 1]@,
            cpus[n - 1]@.len() as int,
        );
        let i = choose|i: int| 0 <= i < (pre + tail).len() && (pre + tail)[i] == r;
        if i < pre.len() {
            assert(pre[i] == r);
            assert(pre.contains(r));
            lemma_level_member(rxq, cpus, n - 1, r);
        } else {
            assert(tail[i - pre.len()] == r);
            assert(tail.contains(r));
            lemma_row_member(rxq, (n - 1) as usize, cpus[n - 1]@, cpus[n - 1]@.len() as int, r);
        }
    }
}

proof fn lemma_snapshot_member(rxqs: Seq<Vec<Vec<(u16, u64)>>>, n: int, r: DeltaReport)
    requires
        n <= rxqs.len(),
        n <= usize::MAX,
        spec_snapshot_reports_upto(rxqs, n).contains(r),
    ensures
        r.count > 0,
        r.rxq < n,
        r.cpu < rxqs[r.rxq as int]@.len(),
        exists|k: int|
            0 <= k < rxqs[r.rxq as int]@[r.cpu as int]@.len()
                && #[trigger] rxqs[r.rxq as int]@[r.cpu as int]@[k] == (r.port, r.count),
    decreases n,
{
    if n > 0 {
        let pre = spec_snapshot_reports_upto(rxqs, n - 1);
        let tail = spec_level_reports((n - 1) as usize, rxqs[n - 1]@, rxqs[n - 1]@.len() as int);
        let i = choose|i: int| 0 <= i < (pre + tail).len() && (pre + tail)[i] == r;
        if i < pre.len() {
            assert(pre[i] == r);
            assert(pre.contains(r));
            lemma_snapshot_member(rxqs, n - 1, r);
        } else {
            assert(tail[i - pre.len()] == r);
            assert(tail.contains(r));
            assert(rxqs[n - 1].len() == rxqs[n - 1]@.len());
            lemma_level_member((n - 1) as usize, rxqs[n - 1]@, rxqs[n - 1]@.len() as int, r);
        }
    }
}

/// Law (soundness of reporting): every report of a snapshot names an
/// existing (rxq, cpu) position holding its (port, count) pair, and its
/// count is strictly positive — a zero delta is never reported.
pub proof fn lemma_reports_are_positive_entries(s: StatsSnapshot, r: DeltaReport)
    requires
        spec_snapshot_reports(s).contains(r),
    ensures
        r.count > 0,
        r.rxq < s.rxqs@.len(),
        r.cpu < s.rxqs@[r.rxq as int]@.len(),
        exists|k: int|
            0 <= k < s.rxqs@[r.rxq as int]@[r.cpu as int]@.len()
                && #[trigger] s.rxqs@[r.rxq as int]@[r.cpu as int]@[k] == (r.port, r.count),
{
    assert(s.rxqs.len() == s.rxqs@.len());
    lemma_snapshot_member(s.rxqs@, s.rxqs@.len() as int, r);
}

proof fn lemma_row_complete(rxq: usize, cpu: usize, row: Seq<(u16, u64)>, n: int, k: int)
    requires
        0 <= k < n <= row.len(),
        row[k].1 > 0,
    ensures
        spec_row_reports(rxq, cpu, row, n).contains(
            DeltaReport { rxq, cpu, port: row[k].0, count: row[k].1 },
        ),
    decreases n,
{
    let pre = spec_row_reports(rxq, cpu, row, n - 1);
    let tail = if row[n - 1].1 > 0 {
        seq![DeltaReport { rxq, cpu, port: row[n - 1].0, count: row[n - 1].1 }]
    } else {
        Seq::<DeltaReport>::empty()
    };
    let r = DeltaReport { rxq, cpu, port: row[k].0, count: row[k].1 };
    if k == n - 1 {
        assert((pre + tail)[pre.len() as int] == r);
    } else {
        lemma_row_complete(rxq, cpu, row, n - 1, k);
        lemma_concat_contains_left(pre, tail, r);
    }
}

proof fn lemma_level_complete(rxq: usize, cpus: Seq<Vec<(u16, u64)>>, n: int, j: int, k: int)
    requires
        0 <= j < n <= cpus.len(),
        n <= usize::MAX,
        0 <= k < cpus[j]@.len(),
        cpus[j]@[k].1 > 0,
    ensures
        spec_level_reports(rxq, cpus, n).contains(
            DeltaReport {
                rxq,
                cpu: j as usize,
                port: cpus[j]@[k].0,
                count: cpus[j]@[k].1,
            },
        ),
    decreases n,
{
    let pre = spec_level_reports(rxq, cpus, n - 1);
    let tail = spec_row_reports(rxq, (n - 1) as usize, cpus[n - 1]@, cpus[n - 1]@.len() as int);
    let r = DeltaReport { rxq, cpu: j as usize, port: cpus[j]@[k].0, count: cpus[j]@[k].1 };
    if j == n - 1 {
        lemma_row_complete(rxq, (n - 1) as usize, cpus[n - 1]@, cpus[n - 1]@.len() as int, k);
        lemma_concat_contains_right(pre, tail, r);
    } else {
        lemma_level_complete(rxq, cpus, n - 1, j, k);
        lemma_concat_contains_left(pre, tail, r);
    }
}

proof fn lemma_snapshot_complete(
    rxqs: Seq<Vec<Vec<(u16, u64)>>>,
    n: int,
    i: int,
    j: int,
    k: int,
)
    requires
        0 <= i < n <= rxqs.len(),
        n <= usize::MAX,
        0 <= j < rxqs[i]@.len(),
        j <= usize::MAX,
        0 <= k < rxqs[i]@[j]@.len(),
        rxqs[i]@[j]@[k].1 > 0,
    ensures
        spec_snapshot_reports_upto(rxqs, n).contains(
            DeltaReport {
                rxq: i as usize,
                cpu: j as usize,
                port: rxqs[i]@[j]@[k].0,
                count: rxqs[i]@[j]@[k].1,
            },
        ),
    decreases n,
{
    let pre = spec_snapshot_reports_upto(rxqs, n - 1);
    let tail = spec_level_reports((n - 1) as usize, rxqs[n - 1]@, rxqs[n - 1]@.len() as int);
    let r = DeltaReport {
        rxq: i as usize,
        cpu: j as usize,
        port: rxqs[i]@[j]@[k].0,
        count: rxqs[i]@[j]@[k].1,
    };
    if i == n - 1 {
        assert(rxqs[n - 1].len() == rxqs[n - 1]@.len());
        lemma_level_complete((n - 1) as usize, rxqs[n - 1]@, rxqs[n - 1]@.len() as int, j, k);
        lemma_concat_contains_right(pre, tail, r);
    } else {
        lemma_snapshot_complete(rxqs, n - 1, i, j, k);
        lemma_concat_contains_left(pre, tail, r);
    }
}

/// Law (completeness of reporting): every (rxq, cpu, port) position of
/// a snapshot whose count is strictly positive appears among the
/// snapshot's reports.
pub proof fn lemma_positive_entries_are_reported(s: StatsSnapshot, i: int, j: int, k: int)
    requires
        0 <= i < s.rxqs@.len(),
        0 <= j < s.rxqs@[i]@.len(),
        0 <= k < s.rxqs@[i]@[j]@.len(),
        s.rxqs@[i]@[j]@[k].1 > 0,
    ensures
        spec_snapshot_reports(s).contains(
            DeltaReport {
                rxq: i as usize,
                cpu: j as usize,
                port: s.rxqs@[i]@[j]@[k].0,
                count: s.rxqs@[i]@[j]@[k].1,
            },
        ),
{
    assert(s.rxqs.len() == s.rxqs@.len());
    assert(s.rxqs@[i].len() == s.rxqs@[i]@.len());
    lemma_snapshot_complete(s.rxqs@, s.rxqs@.len() as int, i, j, k);
}

} // verus!
