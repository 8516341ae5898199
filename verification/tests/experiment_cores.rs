use analyzer::blast::blast_target_addrs;
use analyzer::clock::{clock_ns, ns_of_timespec, ClockError};
use analyzer::collector::CancelToken;
use analyzer::experiments::eviction_timeout::{run_experiment, EvictionTimeoutArgs};
use analyzer::experiments::install_dependencies;
use analyzer::experiments::rule_limit::{
    measure_concurrent_connections_latency, sample_step, stupid_number_of_pings_measurement,
    ConcurrentPinger, PingEvent, PingMeasureError, READ_ROUND, WARMUP_ROUNDS,
};
use analyzer::external_prog::{
    run_external_program_script, ExternalProgError, ProcessHandle, ProcessRunner,
};
use analyzer::latency::{measurement, ping_difference, PingError, PingProber};
use analyzer::results_uploader::{ResultHandler, ResultIgnorer, ResultsUploader};
use analyzer::abs_diff;

struct NeverCancelled {}

impl CancelToken for NeverCancelled {
    fn is_cancelled(&self) -> bool {
        false
    }

    fn wait_cancelled_ns(&mut self, _ns: u64) -> bool {
        false
    }
}

struct FixedProber {
    next: u64,
}

impl PingProber for FixedProber {
    fn ping_us(&mut self) -> Result<u64, PingError> {
        self.next += 1;
        Ok(self.next)
    }

    fn ping_twice_us(&mut self) -> Result<(u64, u64), PingError> {
        self.next += 1;
        Ok((self.next, self.next + 100))
    }
}

struct BrokenProber {}

impl PingProber for BrokenProber {
    fn ping_us(&mut self) -> Result<u64, PingError> {
        Err(PingError::PingFailed)
    }

    fn ping_twice_us(&mut self) -> Result<(u64, u64), PingError> {
        Err(PingError::PingFailed)
    }
}

#[test]
fn eviction_rows_follow_the_delay_schedule() {
    let args = EvictionTimeoutArgs {
        gap: 0,
        samples: 2,
        delay_first_ms: 4000,
        delay_step_ms: 500,
        delay_stop_ms: 5000,
        target_ip: String::from("192.168.1.1"),
    };
    let mut prober = FixedProber { next: 0 };
    let mut token = NeverCancelled {};
    let rows = run_experiment(&args, &mut prober, &mut token).unwrap();
    // three rounds (4000, 4500, 5000 ms), two samples each
    assert_eq!(rows.len(), 6);
    let delays: Vec<u64> = rows.iter().map(|r| r.0).collect();
    assert_eq!(
        delays,
        vec![4_000_000, 4_000_000, 4_500_000, 4_500_000, 5_000_000, 5_000_000]
    );
    for r in &rows {
        assert_eq!(r.2 - r.1, 100);
    }
}

#[test]
fn eviction_run_stops_on_a_failing_pair() {
    let args = EvictionTimeoutArgs {
        gap: 0,
        samples: 2,
        delay_first_ms: 100,
        delay_step_ms: 100,
        delay_stop_ms: 200,
        target_ip: String::from("192.168.1.1"),
    };
    let mut prober = BrokenProber {};
    let mut token = NeverCancelled {};
    assert_eq!(
        run_experiment(&args, &mut prober, &mut token),
        Err(PingError::PingFailed)
    );
}

struct ScriptedPinger {
    rtt: u64,
    target_period: u64,
    counter: u64,
    targets: Vec<u32>,
    running: bool,
}

impl ConcurrentPinger for ScriptedPinger {
    fn add_target(&mut self, addr: u32) {
        self.targets.push(addr);
    }

    fn start(&mut self) {
        self.running = true;
    }

    fn stop(&mut self) {
        self.running = false;
    }

    fn recv_event(&mut self) -> Result<PingEvent, PingMeasureError> {
        self.counter += 1;
        self.rtt += 1;
        // every few events, interleave noise: an idle notice or an echo
        // from a dummy target
        if self.counter % self.target_period == 0 {
            Ok(PingEvent::Idle { addr: 1 })
        } else if self.counter % self.target_period == 1 && self.targets.len() > 1 {
            Ok(PingEvent::Receive { addr: self.targets[0], rtt_ns: 5 })
        } else {
            let target = *self.targets.last().unwrap();
            Ok(PingEvent::Receive { addr: target, rtt_ns: self.rtt })
        }
    }
}

#[test]
fn measurement_collects_exactly_read_round_samples() {
    let mut pinger = ScriptedPinger {
        rtt: 0,
        target_period: 7,
        counter: 0,
        targets: Vec::new(),
        running: false,
    };
    let samples = stupid_number_of_pings_measurement(&mut pinger, 0x0A000001, 300, 10_000).unwrap();
    assert_eq!(samples.len() as u64, READ_ROUND);
    assert!(!pinger.running);
    // dummy targets registered: 300 throwaways plus the measured one
    assert_eq!(pinger.targets.len(), 301);
}

#[test]
fn measurement_budget_exhaustion_is_reported() {
    let mut pinger = ScriptedPinger {
        rtt: 0,
        target_period: 7,
        counter: 0,
        targets: Vec::new(),
        running: false,
    };
    assert_eq!(
        stupid_number_of_pings_measurement(&mut pinger, 0x0A000001, 10, 3),
        Err(PingMeasureError::Interrupted)
    );
}

#[test]
fn concurrency_sweep_takes_twenty_measurements() {
    let mut pinger = ScriptedPinger {
        rtt: 0,
        target_period: 7,
        counter: 0,
        targets: Vec::new(),
        running: false,
    };
    let mut token = NeverCancelled {};
    let all =
        measure_concurrent_connections_latency(&mut pinger, &mut token, 0x0A000001, 0, 100_000)
            .unwrap();
    assert_eq!(all.len(), 20);
    for (j, (load, samples)) in all.iter().enumerate() {
        assert_eq!(*load, j * 100);
        assert_eq!(samples.len() as u64, READ_ROUND);
    }
}

struct FakeHandle {
    polls_until_exit: u32,
    exit_ok: bool,
}

impl ProcessHandle for FakeHandle {
    fn poll_finished(&mut self) -> bool {
        if self.polls_until_exit == 0 {
            true
        } else {
            self.polls_until_exit -= 1;
            false
        }
    }

    fn stop_with_timeout(&mut self, _timeout_ns: u64) -> Result<(), ExternalProgError> {
        if self.exit_ok {
            Ok(())
        } else {
            Err(ExternalProgError::NonZeroExit)
        }
    }
}

struct FakeRunner {
    start_ok: bool,
    exit_ok: bool,
    started: u32,
}

impl ProcessRunner for FakeRunner {
    type Handle = FakeHandle;

    fn start(&mut self, _payload: &Vec<u8>, _args: &Vec<String>) -> Result<FakeHandle, ExternalProgError> {
        if self.start_ok {
            self.started += 1;
            Ok(FakeHandle { polls_until_exit: 2, exit_ok: self.exit_ok })
        } else {
            Err(ExternalProgError::StartFailed)
        }
    }

    fn start_command(&mut self, _argv: &Vec<String>) -> Result<FakeHandle, ExternalProgError> {
        self.start(&Vec::new(), &Vec::new())
    }
}

#[test]
fn script_runs_to_completion_and_reports_exit() {
    let mut runner = FakeRunner { start_ok: true, exit_ok: true, started: 0 };
    let mut token = NeverCancelled {};
    let payload = vec![1u8, 2, 3];
    let args: Vec<String> = Vec::new();
    assert_eq!(
        run_external_program_script(&mut runner, &mut token, &payload, &args, 100),
        Ok(())
    );

    runner.exit_ok = false;
    assert_eq!(
        run_external_program_script(&mut runner, &mut token, &payload, &args, 100),
        Err(ExternalProgError::NonZeroExit)
    );

    runner.start_ok = false;
    assert_eq!(
        run_external_program_script(&mut runner, &mut token, &payload, &args, 100),
        Err(ExternalProgError::StartFailed)
    );
}

#[test]
fn install_dependencies_runs_the_payload() {
    let mut runner = FakeRunner { start_ok: true, exit_ok: true, started: 0 };
    let mut token = NeverCancelled {};
    let r = install_dependencies::run_experiment(
        install_dependencies::InstallDepsArgs {},
        &mut runner,
        &mut token,
        &vec![0u8],
    );
    assert_eq!(r, Ok(()));
    assert_eq!(runner.started, 1);
}

#[test]
fn blast_targets_cover_the_range() {
    let base: u32 = (198 << 24) | (18 << 16);
    let addrs = blast_target_addrs(base, 3);
    assert_eq!(addrs, vec![base, base + 1, base + 2]);
}

#[test]
fn abs_diff_is_symmetric() {
    assert_eq!(abs_diff(7, 3), 4);
    assert_eq!(abs_diff(3, 7), 4);
    assert_eq!(abs_diff(5, 5), 0);
}

#[test]
fn ping_difference_is_the_distance_of_two_pings() {
    // the fixed prober answers n, n+1 to consecutive pings
    let mut prober = FixedProber { next: 0 };
    assert_eq!(ping_difference(&mut prober), Ok(1));
    let mut broken = BrokenProber {};
    assert_eq!(ping_difference(&mut broken), Err(PingError::PingFailed));
}

#[test]
fn measurement_series_has_requested_length() {
    let mut prober = FixedProber { next: 0 };
    let mut token = NeverCancelled {};
    let series = measurement(&mut prober, &mut token, 5, 0).unwrap();
    assert_eq!(series.len(), 5);
}

#[test]
fn monotonic_clock_never_goes_backwards() {
    let t1 = clock_ns().unwrap();
    let t2 = clock_ns().unwrap();
    assert!(t1 <= t2);
    assert!(t1 > 0);
}

#[test]
fn result_handlers_construct() {
    let ignorer = ResultIgnorer::new();
    ignorer.handle_result("/tmp/nothing.csv");
    let _uploader = ResultsUploader::new(String::from("http://example.invalid/push"));
}

struct ClosedPinger {}

impl ConcurrentPinger for ClosedPinger {
    fn add_target(&mut self, _addr: u32) {}

    fn start(&mut self) {}

    fn stop(&mut self) {}

    fn recv_event(&mut self) -> Result<PingEvent, PingMeasureError> {
        Err(PingMeasureError::ReceiverClosed)
    }
}

#[test]
fn a_closed_receiver_ends_the_measurement() {
    let mut pinger = ClosedPinger {};
    assert_eq!(
        stupid_number_of_pings_measurement(&mut pinger, 1, 0, 100),
        Err(PingMeasureError::ReceiverClosed)
    );
}

#[test]
fn timespec_conversion_is_exact_and_never_wraps() {
    assert_eq!(ns_of_timespec(1, 5), Ok(1_000_000_005));
    assert_eq!(ns_of_timespec(0, 0), Ok(0));
    assert_eq!(ns_of_timespec(-1, 5), Err(ClockError::Unavailable));
    assert_eq!(ns_of_timespec(3, -1), Err(ClockError::Unavailable));
    // 2^64 ns lie just past the largest representable reading
    assert_eq!(ns_of_timespec(18_446_744_073, 709_551_615), Ok(u64::MAX));
    assert_eq!(ns_of_timespec(18_446_744_073, 709_551_616), Err(ClockError::Unavailable));
}

#[test]
fn sampling_discards_warmup_and_ignores_noise() {
    let target: u32 = 0x0A000001;
    let mut results: Vec<u64> = Vec::new();
    let mut rounds: u64 = 0;
    // warm-up echoes from the target are counted but not sampled
    for k in 0..=WARMUP_ROUNDS {
        rounds = sample_step(rounds, &mut results, target, PingEvent::Receive {
            addr: target,
            rtt_ns: k,
        });
    }
    assert_eq!(rounds, WARMUP_ROUNDS + 1);
    assert_eq!(results, vec![]);
    // noise changes nothing
    rounds = sample_step(rounds, &mut results, target, PingEvent::Idle { addr: 7 });
    rounds = sample_step(rounds, &mut results, target, PingEvent::Receive {
        addr: 9,
        rtt_ns: 99,
    });
    assert_eq!(rounds, WARMUP_ROUNDS + 1);
    assert_eq!(results, vec![]);
    // after the warm-up every target echo is kept
    rounds = sample_step(rounds, &mut results, target, PingEvent::Receive {
        addr: target,
        rtt_ns: 1234,
    });
    assert_eq!(rounds, WARMUP_ROUNDS + 2);
    assert_eq!(results, vec![1234]);
}
