//! Timestamped pulse samples and their windowed aggregation.
use vstd::prelude::*;

verus! {

/// Whether instant `a` is at or after instant `b` on a wrapping 64-bit tick
/// count: the forward distance from `b` to `a` is at most half the range.
pub open spec fn at_or_after(a: u64, b: u64) -> bool {
    (a - b) % 0x1_0000_0000_0000_0000int <= 0x7fff_ffff_ffff_ffff
}

/// Relies on the `>=` of `fugit::Instant`, whose `const_cmp` orders two tick
/// counts by the wrapping distance between them: equal, or a forward distance
/// of at most half the range, counts as at-or-after.
#[verifier::external_body]
fn instant_at_or_after(a: u64, b: u64) -> (r: bool)
    ensures
        r == at_or_after(a, b),
{
    fugit::Instant::<u64, 1, 100>::from_ticks(a) >= fugit::Instant::<u64, 1, 100>::from_ticks(b)
}

/// Relies on the `-` of a `fugit::Instant` and a `fugit::Duration` of the same
/// tick rate, which goes through `checked_sub_duration`: the tick counts are
/// subtracted with wraparound.
#[verifier::external_body]
fn instant_minus_ticks(now: u64, ticks: u64) -> (r: u64)
    ensures
        r == now.wrapping_sub(ticks),
{
    (fugit::Instant::<u64, 1, 100>::from_ticks(now) - fugit::Duration::<u64, 1, 100>::from_ticks(
        ticks,
    )).ticks()
}

/// Start of the trailing window of `length` monotonic ticks that ends at
/// `now`, on the wrapping tick count.
pub fn window_start(now: u64, length: u64) -> (r: u64)
    ensures
        r == now.wrapping_sub(length),
        at_or_after(now, r) <==> length <= 0x7fff_ffff_ffff_ffff,
{
    instant_minus_ticks(now, length)
}

/// One measured pulse period and the monotonic-clock instant it was taken at.
#[derive(Clone, Copy, Debug, PartialEq, Eq, Structural)]
pub struct PulseSample {
    /// Period since the previous accepted pulse, in capture timer ticks.
    pub duration_ticks: u32,
    /// Monotonic clock tick count when the sample was taken.
    pub ts: u64,
}

impl PulseSample {
    /// A sample of `duration_ticks` taken at monotonic instant `ts`.
    pub fn new(duration_ticks: u32, ts: u64) -> (r: Self)
        ensures
            r.duration_ticks == duration_ticks,
            r.ts == ts,
    {
        PulseSample { duration_ticks, ts }
    }
}

/// Capacity of the sample ring.
pub const BUF_SIZE: usize = 8;

/// The samples that a ring of `BUF_SIZE` slots keeps of an insertion
/// history: its last `BUF_SIZE` entries, oldest first.
pub open spec fn retained(history: Seq<PulseSample>) -> Seq<PulseSample> {
    if history.len() <= BUF_SIZE {
        history
    } else {
        history.subrange(history.len() - BUF_SIZE, history.len() as int)
    }
}

/// What a new ring retains after `add` of each sample of `history` in turn,
/// step by step as `SampleBuffer::new` and `SampleBuffer::add` state it.
pub open spec fn replay(history: Seq<PulseSample>) -> Seq<PulseSample>
    decreases history.len(),
{
    if history.len() == 0 {
        Seq::empty()
    } else {
        retained(replay(history.drop_last()).push(history.last()))
    }
}

/// Inserting into a ring that retains the tail of a history makes it retain
/// the tail of the longer history.
proof fn lemma_retained_push(history: Seq<PulseSample>, s: PulseSample)
    ensures
        retained(retained(history).push(s)) == retained(history.push(s)),
{
    if history.len() >= BUF_SIZE {
        assert(retained(retained(history).push(s)) =~= retained(history.push(s)));
    }
}

/// For every sequence of insertions into a new ring, the ring holds exactly
/// the last `BUF_SIZE` inserted samples, so a query's mean is the mean of
/// exactly those of them taken in the window, and its latest period is that
/// of the last insertion when it lies in the window.
pub proof fn lemma_replay_keeps_last(history: Seq<PulseSample>, from: u64)
    ensures
        replay(history) == retained(history),
        window_mean(replay(history), from) == window_mean(retained(history), from),
        latest_in_window(replay(history), from) == (if history.len() > 0 && at_or_after(
            history.last().ts,
            from,
        ) {
            Some(history.last().duration_ticks as int)
        } else {
            None
        }),
    decreases history.len(),
{
    if history.len() > 0 {
        let prefix = history.drop_last();
        lemma_replay_keeps_last(prefix, from);
        lemma_retained_push(prefix, history.last());
        assert(prefix.push(history.last()) =~= history);
    }
}

/// After `BUF_SIZE + 1` insertions into a new ring the first sample has been
/// overwritten: the ring holds exactly the later samples, and no query sees
/// the first.
pub proof fn lemma_oldest_overwritten(history: Seq<PulseSample>, from: u64)
    requires
        history.len() == BUF_SIZE + 1,
    ensures
        replay(history) == history.drop_first(),
        window_mean(replay(history), from) == window_mean(history.drop_first(), from),
        latest_in_window(replay(history), from) == latest_in_window(history.drop_first(), from),
{
    lemma_replay_keeps_last(history, from);
    assert(retained(history) =~= history.drop_first());
}

/// Sum of the periods of the samples in `s` taken at or after `from`.
pub open spec fn window_sum(s: Seq<PulseSample>, from: u64) -> int
    decreases s.len(),
{
    if s.len() == 0 {
        0
    } else {
        window_sum(s.drop_last(), from) + if at_or_after(s.last().ts, from) {
            s.last().duration_ticks as int
        } else {
            0
        }
    }
}

/// Number of samples in `s` taken at or after `from`.
pub open spec fn window_count(s: Seq<PulseSample>, from: u64) -> int
    decreases s.len(),
{
    if s.len() == 0 {
        0
    } else {
        window_count(s.drop_last(), from) + if at_or_after(s.last().ts, from) {
            1int
        } else {
            0
        }
    }
}

/// Mean period, rounded down to whole ticks, of the samples in `s` taken at
/// or after `from`; `None` where there are none.
pub open spec fn window_mean(s: Seq<PulseSample>, from: u64) -> Option<int> {
    if window_count(s, from) == 0 {
        None
    } else {
        Some(window_sum(s, from) / window_count(s, from))
    }
}

/// Period of the newest sample of `s`, where it was taken at or after `from`.
pub open spec fn latest_in_window(s: Seq<PulseSample>, from: u64) -> Option<int> {
    if s.len() > 0 && at_or_after(s.last().ts, from) {
        Some(s.last().duration_ticks as int)
    } else {
        None
    }
}

/// Slot that holds the `j`-th oldest position of a ring whose next write goes
/// to slot `next`.
pub open spec fn slot_index(next: int, j: int) -> int {
    if next + j < BUF_SIZE {
        next + j
    } else {
        next + j - BUF_SIZE
    }
}

/// What the `j`-th oldest position of the ring holds when it retains `live`:
/// empty positions come first, then the samples in insertion order.
pub open spec fn expected_slot(live: Seq<PulseSample>, j: int) -> Option<PulseSample> {
    if j < BUF_SIZE - live.len() {
        None
    } else {
        Some(live[j - (BUF_SIZE - live.len())])
    }
}

/// A period in ticks, widened to a mathematical integer.
pub open spec fn widen(o: Option<u32>) -> Option<int> {
    match o {
        Some(v) => Some(v as int),
        None => None,
    }
}

/// A fixed ring of the most recent pulse samples; a new sample overwrites the
/// oldest once the ring is full.
pub struct SampleBuffer {
    samples: [Option<PulseSample>; BUF_SIZE],
    next_idx: usize,
    live: Ghost<Seq<PulseSample>>,
}

impl View for SampleBuffer {
    type V = Seq<PulseSample>;

    /// The retained samples, oldest first.
    closed spec fn view(&self) -> Seq<PulseSample> {
        self.live@
    }
}

impl SampleBuffer {
    /// The slots hold the retained samples in insertion order, starting at
    /// the write index, with the empty slots before them.
    pub closed spec fn wf(&self) -> bool {
        &&& self.next_idx < BUF_SIZE
        &&& self.live@.len() <= BUF_SIZE
        &&& self.live@.len() < BUF_SIZE ==> self.next_idx == self.live@.len()
        &&& forall|j: int|
            0 <= j < BUF_SIZE ==> #[trigger] self.samples@[slot_index(self.next_idx as int, j)]
                == expected_slot(self.live@, j)
    }

    /// An empty ring.
    pub fn new() -> (r: Self)
        ensures
            r.wf(),
            r@ == Seq::<PulseSample>::empty(),
    {
        let r = SampleBuffer { samples: [None; BUF_SIZE], next_idx: 0, live: Ghost(Seq::empty()) };
        assert forall|j: int| 0 <= j < BUF_SIZE implies #[trigger] r.samples@[slot_index(0, j)]
            == expected_slot(r.live@, j) by {
            assert(r.samples@[j] == r.samples[j]);
        }
        r
    }

    /// Inserts `s` as the newest sample, dropping the oldest when full.
    pub fn add(&mut self, s: PulseSample)
        requires
            old(self).wf(),
        ensures
            final(self).wf(),
            final(self)@ == retained(old(self)@.push(s)),
    {
        let ghost old_live = self.live@;
        let ghost old_next = self.next_idx as int;
        let ghost old_samples = self.samples@;
        self.samples[self.next_idx] = Some(s);
        self.next_idx = if self.next_idx + 1 >= BUF_SIZE {
            0
        } else {
            self.next_idx + 1
        };
        self.live = Ghost(retained(old_live.push(s)));
        let ghost live = self.live@;
        assert forall|j: int| 0 <= j < BUF_SIZE implies #[trigger] self.samples@[slot_index(
            self.next_idx as int,
            j,
        )] == expected_slot(live, j) by {
            if j < BUF_SIZE - 1 {
                assert(slot_index(self.next_idx as int, j) == slot_index(old_next, j + 1));
                assert(old_samples[slot_index(old_next, j + 1)] == expected_slot(old_live, j + 1));
            } else {
                assert(slot_index(self.next_idx as int, j) == old_next);
            }
        }
    }

    /// `(latest, mean)` over the samples taken at or after `ts_from`:
    /// `latest` is the period of the newest sample, only where that sample
    /// is in the window; `mean` is the mean period, rounded down to whole
    /// ticks, of all retained samples in the window.
    pub fn get(&self, ts_from: u64) -> (r: (Option<u32>, Option<u32>))
        requires
            self.wf(),
        ensures
            widen(r.0) == latest_in_window(self@, ts_from),
            widen(r.1) == window_mean(self@, ts_from),
    {
        let i: usize = if self.next_idx > 0 {
            self.next_idx - 1
        } else {
            BUF_SIZE - 1
        };
        assert(self.samples@[slot_index(self.next_idx as int, BUF_SIZE - 1)] == expected_slot(
            self@,
            BUF_SIZE - 1,
        ));
        let latest = match self.samples[i] {
            Some(s) => {
                if instant_at_or_after(s.ts, ts_from) {
                    Some(s.duration_ticks)
                } else {
                    None
                }
            },
            None => None,
        };
        (latest, self.average_duration_ticks_newer_than(ts_from))
    }

    /// Mean period of the retained samples taken at or after `ts_from`,
    /// visiting the ring from its oldest position to its newest.
    fn average_duration_ticks_newer_than(&self, ts_from: u64) -> (r: Option<u32>)
        requires
            self.wf(),
        ensures
            widen(r) == window_mean(self@, ts_from),
    {
        let ghost live = self@;
        let ghost gap = BUF_SIZE - live.len();
        let mut n: u64 = 0;
        let mut sum: u64 = 0;
        let mut j: usize = 0;
        while j < BUF_SIZE
            invariant
                self.wf(),
                live == self@,
                gap == BUF_SIZE - live.len(),
                j <= BUF_SIZE,
                n == window_count(live.take(if j <= gap { 0 } else { j - gap }), ts_from),
                sum == window_sum(live.take(if j <= gap { 0 } else { j - gap }), ts_from),
                n <= j,
                sum <= n * 0xffff_ffff,
            decreases BUF_SIZE - j,
        {
            let idx: usize = if self.next_idx + j < BUF_SIZE {
                self.next_idx + j
            } else {
                self.next_idx + j - BUF_SIZE
            };
            assert(self.samples@[slot_index(self.next_idx as int, j as int)] == expected_slot(
                live,
                j as int,
            ));
            proof {
                if j >= gap {
                    let m = j + 1 - gap;
                    assert(live.take(m).drop_last() =~= live.take(m - 1));
                    assert(live.take(m).last() == live[m - 1]);
                }
            }
            match self.samples[idx] {
                Some(s) => {
                    if instant_at_or_after(s.ts, ts_from) {
                        n = n + 1;
                        sum = sum + s.duration_ticks as u64;
                    }
                },
                None => {},
            }
            j = j + 1;
        }
        assert(live.take(live.len() as int) =~= live);
        if n > 0 {
            let mean = sum / n;
            assert(sum as int / n as int <= 0xffff_ffff) by (nonlinear_arith)
                requires
                    sum <= n * 0xffff_ffff,
                    n > 0,
            ;
            Some(mean as u32)
        } else {
            None
        }
    }
}

} // verus!
