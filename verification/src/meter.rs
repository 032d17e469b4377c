//! The measurement loop's state and its sampling policy.
//!
//! A `Meter` owns the sample-window state: the byte counter accumulated
//! since the last report and the wall-clock time (in milliseconds) of that
//! report. Each chunk of the stream is recorded with the time it was seen;
//! once at least one full second has elapsed since the last report, the
//! accumulated count is handed out for reporting and the window starts anew.
//!
//! The mathematical model (`MeterModel`, `spec_step`, `run_*`) describes a
//! whole run over a sequence of chunks, and the lemmas below state the
//! stream-level guarantees: the forwarded output is exactly the input, and
//! the reported counts account for every byte read.

use vstd::prelude::*;

verus! {

/// The sampling-window threshold in milliseconds: a report is due once at
/// least this much wall-clock time has passed since the previous report.
pub const WINDOW_MILLIS: u64 = 1000;

/// The mathematical state of a meter: the bytes accumulated in the open
/// window and the time of the last report.
pub struct MeterModel {
    pub acc: nat,
    pub last: int,
}

/// One step of the sampling policy: record `n` freshly forwarded bytes seen
/// at time `now`; if the window is at least a second old, close it, report
/// its total, and open a fresh window at `now`.
pub open spec fn spec_step(m: MeterModel, n: nat, now: int) -> (MeterModel, Option<nat>) {
    let grown = (m.acc + n) as nat;
    if now - m.last >= WINDOW_MILLIS {
        (MeterModel { acc: 0, last: now }, Some(grown))
    } else {
        (MeterModel { acc: grown, last: m.last }, None)
    }
}

/// One observed chunk of the input stream: its bytes and the wall-clock
/// time, in milliseconds, right after it was forwarded.
pub struct RunEvent {
    pub data: Seq<u8>,
    pub now: int,
}

/// The meter state after a whole run over `evs`, starting from `m`.
pub open spec fn run_state(m: MeterModel, evs: Seq<RunEvent>) -> MeterModel
    decreases evs.len(),
{
    if evs.len() == 0 {
        m
    } else {
        run_state(spec_step(m, evs[0].data.len(), evs[0].now).0, evs.drop_first())
    }
}

/// The per-window byte counts reported over a whole run, in order.
pub open spec fn run_reports(m: MeterModel, evs: Seq<RunEvent>) -> Seq<nat>
    decreases evs.len(),
{
    if evs.len() == 0 {
        Seq::empty()
    } else {
        let (m2, rep) = spec_step(m, evs[0].data.len(), evs[0].now);
        match rep {
            Some(v) => seq![v] + run_reports(m2, evs.drop_first()),
            None => run_reports(m2, evs.drop_first()),
        }
    }
}

/// The bytes a run writes to the output stream: each chunk's bytes, in
/// arrival order.
pub open spec fn run_output(evs: Seq<RunEvent>) -> Seq<u8>
    decreases evs.len(),
{
    if evs.len() == 0 {
        Seq::empty()
    } else {
        evs[0].data + run_output(evs.drop_first())
    }
}

/// The total number of bytes read over a run.
pub open spec fn total_bytes(evs: Seq<RunEvent>) -> nat
    decreases evs.len(),
{
    if evs.len() == 0 {
        0
    } else {
        evs[0].data.len() + total_bytes(evs.drop_first())
    }
}

/// The sum of a sequence of byte counts.
pub open spec fn sum(s: Seq<nat>) -> nat
    decreases s.len(),
{
    if s.len() == 0 {
        0
    } else {
        s[0] + sum(s.drop_first())
    }
}

/// The bytes a run reads from the input stream: the chunks it was handed,
/// concatenated in arrival order.
pub open spec fn run_input(evs: Seq<RunEvent>) -> Seq<u8> {
    evs.map_values(|e: RunEvent| e.data).flatten()
}

/// Passthrough fidelity: over any finite run, the bytes written to the
/// output stream are identical, in the same order, to the bytes read from
/// the input stream.
pub proof fn lemma_passthrough_fidelity(evs: Seq<RunEvent>)
    ensures
        run_output(evs) == run_input(evs),
    decreases evs.len(),
{
    if evs.len() == 0 {
        assert(evs.map_values(|e: RunEvent| e.data) =~= Seq::<Seq<u8>>::empty());
        assert(run_input(evs) =~= Seq::<u8>::empty());
    } else {
        lemma_passthrough_fidelity(evs.drop_first());
        let mapped = evs.map_values(|e: RunEvent| e.data);
        assert(mapped.drop_first() =~= evs.drop_first().map_values(|e: RunEvent| e.data));
        assert(mapped.first() == evs[0].data);
        assert(run_input(evs) == evs[0].data + mapped.drop_first().flatten());
    }
}

/// Passthrough is independent of chunking boundaries: two runs that read
/// the same byte stream, however it was cut into chunks, write the same
/// byte stream.
pub proof fn lemma_passthrough_chunking(a: Seq<RunEvent>, b: Seq<RunEvent>)
    requires
        run_input(a) == run_input(b),
    ensures
        run_output(a) == run_output(b),
{
    lemma_passthrough_fidelity(a);
    lemma_passthrough_fidelity(b);
}

/// Accumulation correctness: over any run, the reported per-window byte
/// counts plus the count still accumulated in the final open window account
/// exactly for the initial count plus every byte read. In particular, a run
/// started on a fresh meter reports totals summing to the bytes read, less
/// only the trailing unreported window.
pub proof fn lemma_accumulation(m: MeterModel, evs: Seq<RunEvent>)
    ensures
        sum(run_reports(m, evs)) + run_state(m, evs).acc == m.acc + total_bytes(evs),
    decreases evs.len(),
{
    if evs.len() == 0 {
    } else {
        let (m2, rep) = spec_step(m, evs[0].data.len(), evs[0].now);
        lemma_accumulation(m2, evs.drop_first());
        match rep {
            Some(v) => {
                let rest = run_reports(m2, evs.drop_first());
                assert((seq![v] + rest).drop_first() =~= rest);
                assert(sum(seq![v] + rest) == v + sum(rest));
            },
            None => {},
        }
    }
}

/// Window reset: a step reports the closed window's count exactly when at
/// least a full second has passed since the previous report, and right
/// after a report the accumulated counter is zero.
pub proof fn lemma_window_reset(m: MeterModel, n: nat, now: int)
    ensures
        spec_step(m, n, now).1 is Some <==> now - m.last >= WINDOW_MILLIS,
        spec_step(m, n, now).1 is Some ==> spec_step(m, n, now).0.acc == 0,
{
}

/// The sample-window state of the measurement loop.
pub struct Meter {
    accumulated: u64,
    last_report_millis: i64,
}

impl View for Meter {
    type V = MeterModel;

    closed spec fn view(&self) -> MeterModel {
        MeterModel { acc: self.accumulated as nat, last: self.last_report_millis as int }
    }
}

impl Meter {
    /// A meter with an empty window opened at time `now`.
    pub fn new(now: i64) -> (r: Meter)
        ensures
            r@.acc == 0,
            r@.last == now,
    {
        Meter { accumulated: 0, last_report_millis: now }
    }

    /// The byte count accumulated in the open window.
    pub fn accumulated(&self) -> (r: u64)
        ensures
            r == self@.acc,
    {
        self.accumulated
    }

    /// The time, in milliseconds, the current window was opened.
    pub fn last_report_millis(&self) -> (r: i64)
        ensures
            r == self@.last,
    {
        self.last_report_millis
    }

    /// Records `n` freshly forwarded bytes seen at time `now` and applies
    /// the sampling policy: returns the closed window's total when at least
    /// one second has elapsed since the last report, and `None` while the
    /// window stays open. Immediately after a report the accumulated
    /// counter is zero.
    pub fn process_chunk(&mut self, n: u64, now: i64) -> (r: Option<u64>)
        requires
            old(self)@.acc + n <= u64::MAX,
            now >= old(self)@.last,
            now - old(self)@.last <= i64::MAX,
        ensures
            final(self)@ == spec_step(old(self)@, n as nat, now as int).0,
            match r {
                Some(v) => spec_step(old(self)@, n as nat, now as int).1 == Some(v as nat),
                None => spec_step(old(self)@, n as nat, now as int).1 is None,
            },
            r is Some ==> final(self)@.acc == 0,
    {
        self.accumulated = self.accumulated + n;
        if now - self.last_report_millis >= WINDOW_MILLIS as i64 {
            let total = self.accumulated;
            self.accumulated = 0;
            self.last_report_millis = now;
            Some(total)
        } else {
            None
        }
    }
}

/// Returns exactly the first `n` bytes of `buf`: the bytes a bounded read
/// actually produced, never the stale remainder of the buffer.
pub fn forwarded_chunk(buf: &Vec<u8>, n: usize) -> (r: Vec<u8>)
    requires
        n <= buf.len(),
    ensures
        r@ == buf@.subrange(0, n as int),
{
    let mut out: Vec<u8> = Vec::new();
    let mut i: usize = 0;
    while i < n
        invariant
            i <= n,
            n <= buf.len(),
            out@ == buf@.subrange(0, i as int),
        decreases n - i,
    {
        out.push(buf[i]);
        proof {
            assert(out@ =~= buf@.subrange(0, i + 1));
        }
        i = i + 1;
    }
    out
}

} // verus!
