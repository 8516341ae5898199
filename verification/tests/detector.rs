use analyzer::rr::{Datapoint, DetectorError, LossDetector};
use analyzer::LOST_SENTINEL_NS;

const SEC: u64 = 1_000_000_000;
const DROP_THRESHOLD_NS: u64 = 15 * SEC;

#[test]
fn loss_detector_scenario() {
    // probes at t=0 and t=1000ms; echo for t=0 arrives at t=50ms; no echo
    // ever arrives for t=1000ms; after a 16s window the emitted samples are
    // exactly the match and the loss.
    let mut d = LossDetector::new(DROP_THRESHOLD_NS);
    let mut emitted: Vec<Datapoint> = Vec::new();

    d.record_send(0);
    let m = d.match_echo(0, 50_000_000).unwrap();
    emitted.push(m);

    d.record_send(SEC);
    let lost = d.evict_expired(16 * SEC + SEC / 2);
    emitted.extend(lost);

    assert_eq!(
        emitted,
        vec![
            Datapoint { ts: 0, latency_ns: 50_000_000 },
            Datapoint { ts: SEC, latency_ns: LOST_SENTINEL_NS },
        ]
    );
}

#[test]
fn loss_never_reported_before_threshold() {
    let mut d = LossDetector::new(DROP_THRESHOLD_NS);
    d.record_send(SEC);
    // exactly at send + threshold the probe still waits
    assert_eq!(d.evict_expired(SEC + DROP_THRESHOLD_NS), vec![]);
    // one tick later it is lost
    let lost = d.evict_expired(SEC + DROP_THRESHOLD_NS + 1);
    assert_eq!(lost, vec![Datapoint { ts: SEC, latency_ns: LOST_SENTINEL_NS }]);
    // and never again: resolved exactly once
    assert_eq!(d.evict_expired(40 * SEC), vec![]);
}

#[test]
fn echo_for_unknown_id_is_protocol_violation() {
    let mut d = LossDetector::new(DROP_THRESHOLD_NS);
    d.record_send(7);
    assert_eq!(d.match_echo(8, 10), Err(DetectorError::UnknownEchoId));
    // a second echo for an already matched probe is a violation too
    assert!(d.match_echo(7, 10).is_ok());
    assert_eq!(d.match_echo(7, 12), Err(DetectorError::UnknownEchoId));
}

#[test]
fn tick_emits_matches_then_losses_in_order() {
    let mut d = LossDetector::new(DROP_THRESHOLD_NS);
    assert_eq!(d.collect_tick(10, &vec![]), Ok(vec![]));
    assert_eq!(d.collect_tick(20, &vec![]), Ok(vec![]));
    assert_eq!(d.collect_tick(30, &vec![]), Ok(vec![]));
    // by 20s the probes at 10ns, 20ns and 30ns are all long expired; the
    // echo for 30 arrives in the same tick and is matched, the others are
    // reported lost in ascending send order
    let samples = d.collect_tick(20 * SEC, &vec![(30, 40)]).unwrap();
    assert_eq!(
        samples,
        vec![
            Datapoint { ts: 30, latency_ns: 10 },
            Datapoint { ts: 10, latency_ns: LOST_SENTINEL_NS },
            Datapoint { ts: 20, latency_ns: LOST_SENTINEL_NS },
        ]
    );
}

#[test]
fn tick_rejects_duplicate_echoes() {
    let mut d = LossDetector::new(DROP_THRESHOLD_NS);
    assert_eq!(d.collect_tick(10, &vec![]), Ok(vec![]));
    let r = d.collect_tick(20, &vec![(10, 15), (10, 16)]);
    assert_eq!(r, Err(DetectorError::UnknownEchoId));
}

#[test]
fn tick_matches_probe_sent_in_same_tick() {
    let mut d = LossDetector::new(DROP_THRESHOLD_NS);
    let samples = d.collect_tick(100, &vec![(100, 130)]).unwrap();
    assert_eq!(samples, vec![Datapoint { ts: 100, latency_ns: 30 }]);
}

#[test]
fn matched_sample_uses_earlier_instant_and_distance() {
    let mut d = LossDetector::new(DROP_THRESHOLD_NS);
    d.record_send(500);
    // a receive timestamp taken just before the send timestamp was read:
    // the sample still carries the earlier instant and the distance
    let m = d.match_echo(500, 480).unwrap();
    assert_eq!(m, Datapoint { ts: 480, latency_ns: 20 });
}

#[test]
fn loss_detector_scenario_tick_by_tick() {
    // the same scenario driven through whole ticks, one probe per tick: the
    // probe of the first tick survives to the second, where its echo
    // matches; the second tick's probe is evicted once its window elapses
    let mut d = LossDetector::new(DROP_THRESHOLD_NS);
    assert_eq!(d.collect_tick(0, &vec![]), Ok(vec![]));
    assert_eq!(
        d.collect_tick(SEC, &vec![(0, 50_000_000)]),
        Ok(vec![Datapoint { ts: 0, latency_ns: 50_000_000 }])
    );
    let late = d.collect_tick(16 * SEC + SEC / 2, &vec![]).unwrap();
    assert_eq!(late, vec![Datapoint { ts: SEC, latency_ns: LOST_SENTINEL_NS }]);
}
