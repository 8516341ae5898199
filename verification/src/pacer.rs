//! Paced packet sender: synthesize and transmit uniquely tagged packets at
//! a controlled long-run average rate, for a fixed packet count, a wall-clock
//! runtime, or unbounded until cancellation.
//!
//! On each wake-up the sender computes how many packets should have left by
//! now (`floor((now - start) / interval)`), sends the shortfall — capped, so
//! that recovery after a scheduler stall is a bounded burst, not a flood —
//! and, when ahead of schedule, sleeps until the next due instant unless the
//! wait is too short for a reliable sleep.

use vstd::prelude::*;

verus! {

/// Upper bound on packets sent in one wake-up: a recovery burst after a
/// stall is capped rather than unbounded.
pub const BURST_CAP: u64 = 20_000;

/// Sleeping less than about 60 microseconds degrades to an unreliable short
/// sleep; below this bound the sender spins to the next wake-up instead.
pub const MIN_SLEEP_NS: u64 = 60_000;

/// The schedule state of a paced sender: when the run started, how far the
/// packets must be apart, and how many have been sent.
pub struct PacedSender {
    start_ns: u64,
    interval_ns: u64,
    sent: u64,
}

impl PacedSender {
    pub closed spec fn start_ns(self) -> u64 {
        self.start_ns
    }

    pub closed spec fn interval_ns(self) -> u64 {
        self.interval_ns
    }

    /// How many packets have been sent; also the tag of the next packet.
    pub closed spec fn sent(self) -> u64 {
        self.sent
    }

    pub closed spec fn wf(self) -> bool {
        self.interval_ns >= 1
    }

    /// How many packets should have left by `now`:
    /// `floor((now - start) / interval)`, and none before the start.
    pub open spec fn due_by(self, now: u64) -> int {
        if now <= self.start_ns() {
            0
        } else {
            (now - self.start_ns()) as int / self.interval_ns() as int
        }
    }

    /// How far the sender lags behind its schedule at `now`.
    pub open spec fn deficit(self, now: u64) -> int {
        if self.due_by(now) > self.sent() {
            self.due_by(now) - self.sent()
        } else {
            0
        }
    }

    /// How many packets one wake-up at `now` sends: the deficit, capped.
    pub open spec fn wake_count(self, now: u64) -> int {
        if self.deficit(now) > BURST_CAP {
            BURST_CAP as int
        } else {
            self.deficit(now)
        }
    }

    /// The schedule state after one wake-up at `now`.
    pub closed spec fn after_wake(self, now: u64) -> PacedSender {
        PacedSender { sent: (self.sent() + self.wake_count(now)) as u64, ..self }
    }

    pub fn new(start_ns: u64, interval_ns: u64) -> (s: PacedSender)
        requires
            interval_ns >= 1,
        ensures
            s.wf(),
            s.start_ns() == start_ns,
            s.interval_ns() == interval_ns,
            s.sent() == 0,
    {
        PacedSender { start_ns, interval_ns, sent: 0 }
    }

    pub fn sent_total(&self) -> (n: u64)
        ensures
            n == self.sent(),
    {
        self.sent
    }

    /// One scheduler wake-up at instant `now`: hand out the tags of the
    /// packets to send right now — `batch.0` the first tag, `batch.1` how
    /// many, never more than `BURST_CAP` — and account for them as sent.
    /// Consecutive wake-ups thus emit contiguous, strictly increasing tags.
    pub fn on_wake(&mut self, now: u64) -> (batch: (u64, u64))
        requires
            old(self).wf(),
        ensures
            final(self).wf(),
            *final(self) == old(self).after_wake(now),
            batch.0 == old(self).sent(),
            batch.1 == old(self).wake_count(now),
            batch.1 <= BURST_CAP,
            final(self).sent() == batch.0 + batch.1,
    {
        let first = self.sent;
        let due: u64 = if now <= self.start_ns {
            0
        } else {
            (now - self.start_ns) / self.interval_ns
        };
        let cnt: u64 = if due > self.sent {
            let shortfall = due - self.sent;
            if shortfall > BURST_CAP {
                BURST_CAP
            } else {
                shortfall
            }
        } else {
            0
        };
        self.sent = self.sent + cnt;
        (first, cnt)
    }

    /// By how much the sender is ahead of its schedule at `now`: the time
    /// until the instant the next packet falls due, `start + sent * interval`,
    /// saturated to `u64::MAX`; none when that instant has already passed.
    pub fn ahead_ns(&self, now: u64) -> (r: Option<u64>)
        requires
            self.wf(),
        ensures
            ({
                let next = self.start_ns() as int + self.sent() as int * self.interval_ns() as int;
                if next > now {
                    r == (if next - now > u64::MAX {
                        Some(u64::MAX)
                    } else {
                        Some((next - now) as u64)
                    })
                } else {
                    r is None
                }
            }),
    {
        proof {
            let a = self.sent as int;
            let b = self.interval_ns as int;
            assert(a * b <= 0xffffffffffffffff * 0xffffffffffffffff) by (nonlinear_arith)
                requires
                    0 <= a <= 0xffffffffffffffff,
                    0 <= b <= 0xffffffffffffffff,
            ;
        }
        let next: u128 = (self.start_ns as u128) + (self.sent as u128) * (self.interval_ns as u128);
        let now_wide: u128 = now as u128;
        if next > now_wide {
            let d: u128 = next - now_wide;
            if d > u64::MAX as u128 {
                Some(u64::MAX)
            } else {
                Some(d as u64)
            }
        } else {
            None
        }
    }
}

/// A paced run as a schedule: the state reached by waking at each instant of
/// `times`, in order.
pub open spec fn run_wakes(s: PacedSender, times: Seq<u64>) -> PacedSender
    decreases times.len(),
{
    if times.len() == 0 {
        s
    } else {
        run_wakes(s.after_wake(times[0]), times.skip(1))
    }
}

/// The tag batch handed out by the `j`-th wake-up of a run: first tag and
/// count.
pub open spec fn run_batch(s: PacedSender, times: Seq<u64>, j: int) -> (u64, int) {
    let sj = run_wakes(s, times.take(j));
    (sj.sent(), sj.wake_count(times[j]))
}

/// A wake-up changes nothing but the sent counter, which grows by the wake
/// count; in particular the schedule parameters survive every wake-up.
pub proof fn lemma_after_wake_fields(s: PacedSender, now: u64)
    requires
        s.wf(),
    ensures
        s.after_wake(now).wf(),
        s.after_wake(now).start_ns() == s.start_ns(),
        s.after_wake(now).interval_ns() == s.interval_ns(),
        s.after_wake(now).sent() == s.sent() + s.wake_count(now),
        s.sent() <= s.after_wake(now).sent(),
{
    if s.deficit(now) > 0 {
        let elapsed = (now - s.start_ns()) as int;
        vstd::arithmetic::div_mod::lemma_div_is_ordered_by_denominator(
            elapsed,
            1,
            s.interval_ns() as int,
        );
        vstd::arithmetic::div_mod::lemma_div_basics(elapsed);
        assert(s.due_by(now) <= elapsed);
    }
}

/// Law: one wake-up never sends more than `BURST_CAP` packets — recovery
/// after a scheduler stall is a bounded burst, never an unbounded flood.
pub proof fn lemma_wake_burst_bounded(s: PacedSender, now: u64)
    ensures
        0 <= s.wake_count(now) <= BURST_CAP,
{
}

/// Law (rate accuracy): whenever the shortfall fits under the burst cap, one
/// wake-up catches up exactly — afterwards the sent counter equals the
/// number of packets due by `now`, `floor((now - start) / interval)`; a
/// sender ahead of schedule sends nothing.
pub proof fn lemma_wake_tracks_schedule(s: PacedSender, now: u64)
    requires
        s.wf(),
        s.deficit(now) <= BURST_CAP,
    ensures
        s.after_wake(now).sent() == (if s.due_by(now) > s.sent() {
            s.due_by(now)
        } else {
            s.sent() as int
        }),
{
    lemma_after_wake_fields(s, now);
}

/// Law (tag contiguity): across a whole run, each wake-up's batch begins
/// exactly where the previous one ended, so the emitted tags are the
/// consecutive integers from the initial counter up to the final one —
/// strictly increasing, no duplicates, no gaps.
pub proof fn lemma_run_tags_contiguous(s: PacedSender, times: Seq<u64>, j: int)
    requires
        s.wf(),
        0 <= j < times.len(),
    ensures
        run_batch(s, times, j).0 == run_wakes(s, times.take(j)).sent(),
        run_batch(s, times, j).0 + run_batch(s, times, j).1 == run_wakes(
            s,
            times.take(j + 1),
        ).sent(),
    decreases j,
{
    if j == 0 {
        assert(times.take(0) =~= Seq::<u64>::empty());
        assert(run_wakes(s, times.take(0)) == s);
        let one = times.take(1);
        assert(one.len() == 1 && one[0] == times[0]);
        assert(one.skip(1) =~= Seq::<u64>::empty());
        assert(run_wakes(s.after_wake(times[0]), one.skip(1)) == s.after_wake(times[0]));
        assert(run_wakes(s, one) == s.after_wake(times[0]));
        lemma_after_wake_fields(s, times[0]);
    } else {
        let s1 = s.after_wake(times[0]);
        lemma_after_wake_fields(s, times[0]);
        let rest = times.skip(1);
        lemma_run_tags_contiguous(s1, rest, j - 1);
        assert(times.take(j).skip(1) =~= rest.take(j - 1));
        assert(times.take(j + 1).skip(1) =~= rest.take(j));
        assert(times.take(j)[0] == times[0]);
        assert(times.take(j + 1)[0] == times[0]);
        assert(run_wakes(s, times.take(j)) == run_wakes(s1, rest.take(j - 1)));
        assert(run_wakes(s, times.take(j + 1)) == run_wakes(s1, rest.take(j)));
        assert(rest[j - 1] == times[j]);
    }
}

/// A transmission path for synthesized frames. Acquiring one (opening the
/// link-layer channel) happens before a run starts; failure there is fatal
/// at startup, and a failed send mid-run stops the run, because the rate
/// bookkeeping assumes every computed packet actually left.
pub trait FrameSink {
    /// Transmit the given wire images, in order.
    fn send_batch(&mut self, frames: &Vec<Vec<u8>>) -> Result<(), SendError>;
}

#[derive(Clone, Copy, Debug, PartialEq, Eq, Structural)]
pub struct SendError;



/// Law (catch-up, one step): across consecutive wake-ups the backlog can
/// only grow by the packets newly fallen due: whatever the first wake-up
/// could not clear (at most the part of the deficit beyond `BURST_CAP`),
/// plus the dues added between the two instants, bounds the next deficit.
/// As long as fewer than `BURST_CAP` packets fall due between wakes, the
/// backlog therefore shrinks every wake until steady state.
pub proof fn lemma_catch_up_step(s: PacedSender, now1: u64, now2: u64)
    requires
        s.wf(),
        s.due_by(now1) <= s.due_by(now2),
    ensures
        s.after_wake(now1).deficit(now2) <= (if s.deficit(now1) >= BURST_CAP {
            s.deficit(now1) - BURST_CAP
        } else {
            0
        }) + (s.due_by(now2) - s.due_by(now1)),
{
    lemma_after_wake_fields(s, now1);
    assert(s.after_wake(now1).due_by(now2) == s.due_by(now2));
}

/// Law (catch-up): after a stall has built up a deficit, wake-ups at the
/// stalled instant work it off in bounded bursts: `k` wake-ups suffice for
/// any deficit of at most `k * BURST_CAP`, after which the schedule is back
/// in steady state.
pub proof fn lemma_stall_recovery(s: PacedSender, now: u64, k: nat)
    requires
        s.wf(),
        s.deficit(now) <= k * BURST_CAP,
    ensures
        run_wakes(s, Seq::new(k, |i: int| now)).deficit(now) == 0,
    decreases k,
{
    let times = Seq::new(k, |i: int| now);
    if k == 0 {
        assert(run_wakes(s, times) == s);
    } else {
        let s1 = s.after_wake(now);
        lemma_after_wake_fields(s, now);
        assert(s1.deficit(now) <= (k - 1) * BURST_CAP) by {
            assert(s1.due_by(now) == s.due_by(now));
            assert(k * BURST_CAP == (k - 1) * BURST_CAP + BURST_CAP) by (nonlinear_arith);
        }
        lemma_stall_recovery(s1, now, (k - 1) as nat);
        assert(times.skip(1) =~= Seq::new((k - 1) as nat, |i: int| now));
        assert(times[0] == now);
        assert(run_wakes(s, times) == run_wakes(s1, times.skip(1)));
    }
}

} // verus!
