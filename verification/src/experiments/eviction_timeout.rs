//! Eviction-timeout measurement: how long a flow-table entry survives before
//! eviction, probed by pairs of consecutive pings separated by a growing
//! idle delay. The first ping of a pair re-installs the flow; whether the
//! second is fast or slow tells whether the entry survived the delay.

use vstd::prelude::*;

verus! {

use crate::collector::CancelToken;
use crate::latency::{PingError, PingProber};

pub struct EvictionTimeoutArgs {
    /// Idle time between measurements, in milliseconds: long enough that one
    /// measurement cannot influence the next.
    pub gap: u64,
    /// Number of sample pairs per delay step.
    pub samples: u32,
    /// Starting idle delay between the pings of a pair, in milliseconds.
    pub delay_first_ms: u64,
    /// By how much the idle delay grows per measurement round.
    pub delay_step_ms: u64,
    /// The largest idle delay measured; the round that reaches it is the
    /// last.
    pub delay_stop_ms: u64,
    /// Where the ICMP packets go.
    pub target_ip: String,
}

/// How many delay rounds a run measures: one per delay value
/// `first, first + step, ...`, including the first value at or past `stop`.
pub open spec fn delay_rounds(first_ms: int, step_ms: int, stop_ms: int) -> int
    decreases (if first_ms >= stop_ms {
        0int
    } else {
        stop_ms - first_ms
    }) when step_ms >= 1

{
    if first_ms >= stop_ms {
        1
    } else {
        1 + delay_rounds(first_ms + step_ms, step_ms, stop_ms)
    }
}

/// Measure latency-difference samples for every delay round: per round, one
/// warm-up ping (its failure is tolerated), then `samples` pairs of
/// consecutive pings, each pair preceded by the round's idle delay. Each row
/// is (delay in microseconds, first latency, second latency), rows in
/// measurement order; a failing ping pair ends the run with its error.
pub fn run_experiment<P: PingProber, C: CancelToken>(
    args: &EvictionTimeoutArgs,
    prober: &mut P,
    token: &mut C,
) -> (r: Result<Vec<(u64, u64, u64)>, PingError>)
    requires
        args.delay_step_ms >= 1,
        args.delay_first_ms * 1000 <= u64::MAX,
        (args.delay_stop_ms + args.delay_step_ms) * 1000 <= u64::MAX,
    ensures
        r matches Ok(rows) ==> {
            &&& rows@.len() == delay_rounds(
                args.delay_first_ms as int,
                args.delay_step_ms as int,
                args.delay_stop_ms as int,
            ) * args.samples
            &&& forall|k: int|
                0 <= k < rows@.len() ==> (#[trigger] rows@[k]).0 == (args.delay_first_ms + (k
                    / args.samples as int) * args.delay_step_ms) * 1000
        },
{
    let first = args.delay_first_ms;
    let step = args.delay_step_ms;
    let stop = args.delay_stop_ms;
    let samples = args.samples;
    let ghost total = delay_rounds(first as int, step as int, stop as int);
    let mut rows: Vec<(u64, u64, u64)> = Vec::new();
    let mut delay_ms = first;
    let ghost mut done: int = 0;
    loop
        invariant
            first == args.delay_first_ms,
            step == args.delay_step_ms,
            stop == args.delay_stop_ms,
            samples == args.samples,
            total == delay_rounds(first as int, step as int, stop as int),
            step >= 1,
            first * 1000 <= u64::MAX,
            (stop + step) * 1000 <= u64::MAX,
            0 <= done,
            delay_ms == first + done * step,
            done > 0 ==> delay_ms - step < stop,
            total == done + delay_rounds(delay_ms as int, step as int, stop as int),
            rows@.len() == done * samples,
            forall|k: int|
                0 <= k < rows@.len() ==> (#[trigger] rows@[k]).0 == (first + (k
                    / samples as int) * step) * 1000,
        decreases (if delay_ms <= stop {
            stop + step - delay_ms
        } else {
            0
        }),
    {
        // warm up: the first ping re-installs the flow; its failure is
        // tolerated, as the pair that follows decides
        let _ = prober.ping_us();
        let delay_us = delay_ms * 1000;
        let sleep_ns = match delay_ms.checked_mul(1_000_000) {
            Some(v) => v,
            None => u64::MAX,
        };
        let mut i: u32 = 0;
        while i < samples
            invariant
                i <= samples,
                step >= 1,
                0 <= done,
                delay_ms == first + done * step,
                delay_us == delay_ms * 1000,
                rows@.len() == done * samples + i,
                forall|k: int|
                    0 <= k < rows@.len() ==> (#[trigger] rows@[k]).0 == (first + (k
                        / samples as int) * step) * 1000,
            decreases samples - i,
        {
            let _ = token.wait_cancelled_ns(sleep_ns);
            match prober.ping_twice_us() {
                Ok((d1, d2)) => {
                    rows.push((delay_us, d1, d2));
                    proof {
                        let k = rows@.len() - 1;
                        vstd::arithmetic::div_mod::lemma_fundamental_div_mod_converse(
                            k,
                            samples as int,
                            done,
                            i as int,
                        );
                        assert(k / samples as int == done);
                    }
                },
                Err(e) => {
                    return Err(e);
                },
            }
            i += 1;
        }
        if delay_ms >= stop {
            proof {
                assert(delay_rounds(delay_ms as int, step as int, stop as int) == 1);
                assert((done + 1) * samples == done * samples + samples) by (nonlinear_arith);
                assert(rows@.len() == total * samples);
            }
            return Ok(rows);
        }
        proof {
            assert(delay_rounds(delay_ms as int, step as int, stop as int) == 1 + delay_rounds(
                delay_ms as int + step as int,
                step as int,
                stop as int,
            ));
            assert((done + 1) * step == done * step + step) by (nonlinear_arith);
            assert((done + 1) * samples == done * samples + samples) by (nonlinear_arith);
            done = done + 1;
        }
        delay_ms = delay_ms + step;
        let gap_ns = match args.gap.checked_mul(1_000_000) {
            Some(v) => v,
            None => u64::MAX,
        };
        let _ = token.wait_cancelled_ns(gap_ns);
    }
}

} // verus!
