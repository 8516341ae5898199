//! Latency under concurrent ping load: how the data plane's round-trip time
//! to one target degrades as more and more concurrent ping flows keep the
//! flow table busy.

use vstd::prelude::*;

verus! {

use crate::collector::CancelToken;

/// One message from the concurrent pinger's receiver.
#[derive(Clone, Copy, Debug, PartialEq, Eq, Structural)]
pub enum PingEvent {
    /// A target did not answer within the pinger's interval.
    Idle { addr: u32 },
    /// An echo from `addr`, with the measured round trip in nanoseconds.
    Receive { addr: u32, rtt_ns: u64 },
}

#[derive(Clone, Copy, Debug, PartialEq, Eq, Structural)]
pub enum PingMeasureError {
    /// The pinger's worker disappeared; no further event will come.
    ReceiverClosed,
    /// The event budget ran out before enough echoes arrived.
    Interrupted,
}

/// A pinger that keeps many targets in flight at once: the collaborator
/// behind this experiment. Targets are IPv4 addresses as 32-bit numbers.
pub trait ConcurrentPinger {
    fn add_target(&mut self, addr: u32);

    fn start(&mut self);

    fn stop(&mut self);

    /// The next echo event; blocks until one arrives.
    fn recv_event(&mut self) -> Result<PingEvent, PingMeasureError>;
}

/// Echoes from the measured target that are discarded before sampling
/// starts.
pub const WARMUP_ROUNDS: u64 = 5;

/// Samples taken from the measured target per measurement.
pub const READ_ROUND: u64 = 20;

/// Register `n` throwaway targets in the 10.66.0.0/16 range, one per index:
/// their only purpose is to keep `n` concurrent ping flows alive.
pub fn setup_crazy_pinger<P: ConcurrentPinger>(pinger: &mut P, n: usize) {
    let mut i: usize = 0;
    while i < n
        decreases n - i,
    {
        let third = ((i >> 8) & 0xff) as u32;
        let fourth = (i & 0xff) as u32;
        let addr: u32 = (10u32 << 24) | (66u32 << 16) | (third << 8) | fourth;
        pinger.add_target(addr);
        i += 1;
    }
}

/// One event of a measurement, applied to the running state: an echo from
/// the measured target counts as a round and, once the warm-up rounds have
/// passed, its round trip becomes a sample; idle notices and echoes from
/// other targets change nothing. Returns the new round count.
pub fn sample_step(rounds: u64, results: &mut Vec<u64>, target: u32, ev: PingEvent) -> (new_rounds:
    u64)
    requires
        rounds < u64::MAX,
    ensures
        (match ev {
            PingEvent::Receive { addr, rtt_ns } => (if addr == target {
                new_rounds == rounds + 1 && final(results)@ == (if rounds > WARMUP_ROUNDS {
                    old(results)@.push(rtt_ns)
                } else {
                    old(results)@
                })
            } else {
                new_rounds == rounds && final(results)@ == old(results)@
            }),
            PingEvent::Idle { addr: _ } => new_rounds == rounds && final(results)@ == old(
                results,
            )@,
        }),
{
    match ev {
        PingEvent::Idle { addr: _ } => rounds,
        PingEvent::Receive { addr, rtt_ns } => {
            if addr == target {
                if rounds > WARMUP_ROUNDS {
                    results.push(rtt_ns);
                }
                rounds + 1
            } else {
                rounds
            }
        },
    }
}

/// Measure the round trip to `target` while `n` dummy targets are pinged
/// concurrently: discard the first `WARMUP_ROUNDS` echoes from the target,
/// then collect exactly `READ_ROUND` samples, in nanoseconds. Echoes from
/// the dummy targets and idle notices only keep the load up and are not
/// sampled. `max_events` bounds how many events are examined in all.
pub fn stupid_number_of_pings_measurement<P: ConcurrentPinger>(
    pinger: &mut P,
    target: u32,
    n: usize,
    max_events: u64,
) -> (r: Result<Vec<u64>, PingMeasureError>)
    ensures
        r matches Ok(v) ==> v@.len() == READ_ROUND,
{
    setup_crazy_pinger(pinger, n);
    pinger.add_target(target);
    let mut rounds: u64 = 0;
    let mut results: Vec<u64> = Vec::new();
    pinger.start();
    let mut events: u64 = 0;
    while events < max_events
        invariant
            rounds <= WARMUP_ROUNDS + READ_ROUND,
            results@.len() == (if rounds >= WARMUP_ROUNDS + 1 {
                rounds - (WARMUP_ROUNDS + 1)
            } else {
                0
            }),
            events <= max_events,
        decreases max_events - events,
    {
        let ev = match pinger.recv_event() {
            Ok(e) => e,
            Err(e) => {
                pinger.stop();
                return Err(e);
            },
        };
        rounds = sample_step(rounds, &mut results, target, ev);
        if rounds > WARMUP_ROUNDS + READ_ROUND {
            pinger.stop();
            return Ok(results);
        }
        events += 1;
    }
    pinger.stop();
    Err(PingMeasureError::Interrupted)
}

/// The whole experiment: twenty measurements under 0, 100, ..., 1900
/// concurrent ping flows, each yielding `READ_ROUND` samples of the
/// target's round trip, with an idle gap between measurements.
pub fn measure_concurrent_connections_latency<P: ConcurrentPinger, C: CancelToken>(
    pinger: &mut P,
    token: &mut C,
    target: u32,
    gap_ms: u64,
    max_events: u64,
) -> (r: Result<Vec<(usize, Vec<u64>)>, PingMeasureError>)
    ensures
        r matches Ok(v) ==> {
            &&& v@.len() == 20
            &&& forall|j: int|
                0 <= j < v@.len() ==> (#[trigger] v@[j]).0 == j * 100 && v@[j].1@.len()
                    == READ_ROUND
        },
{
    let mut samples: Vec<(usize, Vec<u64>)> = Vec::new();
    let gap_ns = match gap_ms.checked_mul(1_000_000) {
        Some(v) => v,
        None => u64::MAX,
    };
    let mut i: usize = 0;
    while i < 20
        invariant
            i <= 20,
            samples@.len() == i,
            forall|j: int|
                0 <= j < i ==> (#[trigger] samples@[j]).0 == j * 100 && samples@[j].1@.len()
                    == READ_ROUND,
        decreases 20 - i,
    {
        let one = match stupid_number_of_pings_measurement(pinger, target, i * 100, max_events) {
            Ok(v) => v,
            Err(e) => {
                return Err(e);
            },
        };
        samples.push((i * 100, one));
        let _ = token.wait_cancelled_ns(gap_ns);
        i += 1;
    }
    Ok(samples)
}

} // verus!
