//! The packet-flood experiment: fill the flow table by sending uniquely
//! tagged packets at a precisely controlled rate.

use vstd::prelude::*;

verus! {

use crate::clock::clock_ns;
use crate::collector::CancelToken;
use crate::frame::build_frame_batch;
use crate::pacer::{FrameSink, PacedSender, MIN_SLEEP_NS};

/// Parameters of a packet-flood run. Exactly one of `count`, `freq`,
/// `interval_ns` and `nolimit` selects the rate.
pub struct PacketFloodArgs {
    /// How many flows to keep in the table: the inter-packet interval is
    /// derived as `eviction_ns / count`.
    pub count: Option<u64>,
    /// How many packets to send per second.
    pub freq: Option<u64>,
    /// Send one packet every this many nanoseconds.
    pub interval_ns: Option<u64>,
    /// How long a rule is expected to stay in the table before eviction.
    pub eviction_ns: u64,
    /// How long to run, in seconds; none means until cancellation.
    pub runtime_sec: Option<u64>,
    /// Send as fast as possible: one packet every nanosecond of elapsed time.
    pub nolimit: bool,
}


#[derive(Clone, Copy, Debug, PartialEq, Eq, Structural)]
pub enum PacerConfigError {
    /// None of the rate parameters was supplied.
    NoRateGiven,
    /// The supplied parameters yield no usable inter-packet interval: a
    /// zero count or frequency, a frequency above one per nanosecond, or a
    /// count so large that the interval falls below one nanosecond.
    UnusableRate,
}


/// The inter-packet interval the run parameters select, trying them in a
/// fixed order: no limit, target flow count against the eviction window,
/// explicit interval, target frequency. Decided by the arguments alone.
pub open spec fn chosen_interval_ns(args: PacketFloodArgs) -> Result<u64, PacerConfigError> {
    if args.nolimit {
        Ok(1u64)
    } else if args.count is Some {
        if 1 <= args.count->Some_0 <= args.eviction_ns {
            Ok((args.eviction_ns as int / args.count->Some_0 as int) as u64)
        } else {
            Err(PacerConfigError::UnusableRate)
        }
    } else if args.interval_ns is Some {
        if args.interval_ns->Some_0 >= 1 {
            Ok(args.interval_ns->Some_0)
        } else {
            Err(PacerConfigError::UnusableRate)
        }
    } else if args.freq is Some {
        if 1 <= args.freq->Some_0 <= 1_000_000_000 {
            Ok((1_000_000_000 as int / args.freq->Some_0 as int) as u64)
        } else {
            Err(PacerConfigError::UnusableRate)
        }
    } else {
        Err(PacerConfigError::NoRateGiven)
    }
}

/// Derive the inter-packet interval from the run parameters.
pub fn calculate_sending_interval_ns(args: &PacketFloodArgs) -> (r: Result<u64, PacerConfigError>)
    ensures
        r == chosen_interval_ns(*args),
        r matches Ok(i) ==> i >= 1,
{
    if args.nolimit {
        Ok(1)
    } else if let Some(cnt) = args.count {
        if 1 <= cnt && cnt <= args.eviction_ns {
            proof {
                let e = args.eviction_ns as int;
                let c = cnt as int;
                assert(e / c >= 1) by (nonlinear_arith)
                    requires
                        1 <= c <= e,
                ;
            }
            Ok(args.eviction_ns / cnt)
        } else {
            Err(PacerConfigError::UnusableRate)
        }
    } else if let Some(int_ns) = args.interval_ns {
        if int_ns >= 1 {
            Ok(int_ns)
        } else {
            Err(PacerConfigError::UnusableRate)
        }
    } else if let Some(freq) = args.freq {
        if 1 <= freq && freq <= 1_000_000_000 {
            proof {
                let f = freq as int;
                assert(1_000_000_000 as int / f >= 1) by (nonlinear_arith)
                    requires
                        1 <= f <= 1_000_000_000,
                ;
            }
            Ok(1_000_000_000 / freq)
        } else {
            Err(PacerConfigError::UnusableRate)
        }
    } else {
        Err(PacerConfigError::NoRateGiven)
    }
}


#[derive(Clone, Copy, Debug, PartialEq, Eq, Structural)]
pub enum PacerRunError {
    /// The run parameters give no usable inter-packet interval.
    Config(PacerConfigError),
    /// The monotonic clock failed; the schedule cannot be computed.
    ClockFailed,
    /// A mid-run transmission failed; continuing would desynchronize the
    /// schedule, so the run stops.
    SendFailed,
}


/// The paced run: send uniquely tagged packets at the configured rate until
/// cancellation, until the configured runtime elapses, or for at most
/// `max_wakes` scheduler wake-ups (pass `u64::MAX` for no such bound).
/// Returns how many packets were sent.
///
/// Each wake-up sends exactly the packets due by now (capped at
/// `BURST_CAP`), tagged with consecutive integers starting at zero; then,
/// if ahead of schedule, waits until the next due instant — unless the wait
/// is below `MIN_SLEEP_NS`, in which case it spins. A configuration error is
/// returned, before anything is sent, exactly when the parameters select no
/// usable interval; a failed transmission ends the run at once with
/// `SendFailed`, never a retry, since the schedule bookkeeping already
/// counted the batch as sent.
pub fn run<C: CancelToken, S: FrameSink>(
    args: &PacketFloodArgs,
    token: &mut C,
    sink: &mut S,
    max_wakes: u64,
) -> (r: Result<u64, PacerRunError>)
    ensures
        chosen_interval_ns(*args) matches Err(e) ==> r == Err::<u64, PacerRunError>(
            PacerRunError::Config(e),
        ),
        r matches Err(PacerRunError::Config(e)) ==> chosen_interval_ns(*args) == Err::<
            u64,
            PacerConfigError,
        >(e),
{
    let interval_ns = match calculate_sending_interval_ns(args) {
        Ok(i) => i,
        Err(e) => {
            return Err(PacerRunError::Config(e));
        },
    };
    let start = match clock_ns() {
        Ok(t) => t,
        Err(_) => {
            return Err(PacerRunError::ClockFailed);
        },
    };
    let end_time: u64 = match args.runtime_sec {
        Some(dur) => match dur.checked_mul(1_000_000_000) {
            Some(run_ns) => start.saturating_add(run_ns),
            None => u64::MAX,
        },
        None => u64::MAX,
    };
    let mut pacer = PacedSender::new(start, interval_ns);
    let mut wakes: u64 = 0;
    while wakes < max_wakes && !token.is_cancelled()
        invariant
            chosen_interval_ns(*args) == Ok::<u64, PacerConfigError>(interval_ns),
            pacer.wf(),
            wakes <= max_wakes,
        decreases max_wakes - wakes,
    {
        let now = match clock_ns() {
            Ok(t) => t,
            Err(_) => {
                return Err(PacerRunError::ClockFailed);
            },
        };
        let (first_tag, cnt) = pacer.on_wake(now);
        if cnt > 0 {
            let frames = build_frame_batch(first_tag, cnt);
            if sink.send_batch(&frames).is_err() {
                return Err(PacerRunError::SendFailed);
            }
        }
        let after_send = match clock_ns() {
            Ok(t) => t,
            Err(_) => {
                return Err(PacerRunError::ClockFailed);
            },
        };
        if let Some(ahead) = pacer.ahead_ns(after_send) {
            if ahead > MIN_SLEEP_NS {
                let _ = token.wait_cancelled_ns(ahead);
            }
            // otherwise spin: the wait is too short for a reliable sleep
        }
        if after_send > end_time {
            break ;
        }
        wakes += 1;
    }
    Ok(pacer.sent_total())
}


} // verus!
