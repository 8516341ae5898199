use analyzer::collector::{
    collect_and_write, run_collector, run_scripted_collection, CancelToken, CollectorError,
    Monitor, MonitorError, MultiMonitor, ScriptedProbe, SingleToMulti,
};
use analyzer::rr::Datapoint;

fn dp(ts: u64) -> Datapoint {
    Datapoint { ts, latency_ns: ts }
}

struct BudgetToken {
    waits_left: u32,
}

impl CancelToken for BudgetToken {
    fn is_cancelled(&self) -> bool {
        self.waits_left == 0
    }

    fn wait_cancelled_ns(&mut self, _ns: u64) -> bool {
        if self.waits_left > 0 {
            self.waits_left -= 1;
        }
        self.waits_left == 0
    }
}

struct CountingProbe {
    n: u64,
}

impl MultiMonitor for CountingProbe {
    type Stats = Datapoint;

    fn new() -> Result<Self, MonitorError> {
        Ok(CountingProbe { n: 0 })
    }

    fn collect_multiple(&mut self) -> Result<Vec<Datapoint>, MonitorError> {
        self.n += 1;
        Ok(vec![dp(self.n)])
    }
}

struct FailingProbe {}

impl MultiMonitor for FailingProbe {
    type Stats = Datapoint;

    fn new() -> Result<Self, MonitorError> {
        Err(MonitorError::ProbeFailed)
    }

    fn collect_multiple(&mut self) -> Result<Vec<Datapoint>, MonitorError> {
        Err(MonitorError::ProbeFailed)
    }
}

struct OneShotSingle {}

impl Monitor for OneShotSingle {
    type Stats = Datapoint;

    fn new() -> Result<Self, MonitorError> {
        Ok(OneShotSingle {})
    }

    fn collect(&mut self) -> Result<Datapoint, MonitorError> {
        Ok(dp(42))
    }
}

#[test]
fn failing_ticks_leave_only_successful_rows() {
    // ticks 2 and 4 fail out of 1..5: the sink holds rows for ticks 1, 3
    // and 5 only, and the run does not end early.
    let script = vec![
        Some(vec![dp(1)]),
        None,
        Some(vec![dp(3)]),
        None,
        Some(vec![dp(5)]),
    ];
    let mut probe = ScriptedProbe::with_script(script);
    let mut sink: Vec<Datapoint> = Vec::new();
    run_scripted_collection(&mut probe, &mut sink);
    assert_eq!(sink, vec![dp(1), dp(3), dp(5)]);
}

#[test]
fn sink_holds_batches_in_tick_order() {
    let script = vec![Some(vec![dp(1), dp(2)]), Some(vec![]), Some(vec![dp(3)])];
    let mut probe = ScriptedProbe::with_script(script);
    let mut sink = vec![dp(99)];
    run_scripted_collection(&mut probe, &mut sink);
    assert_eq!(sink, vec![dp(99), dp(1), dp(2), dp(3)]);
}

#[test]
fn tick_appends_batch_and_reports_count() {
    let mut probe = ScriptedProbe::with_script(vec![Some(vec![dp(7), dp(8)]), None]);
    let mut sink: Vec<Datapoint> = Vec::new();
    assert_eq!(collect_and_write(&mut probe, &mut sink), Ok(2));
    assert_eq!(collect_and_write(&mut probe, &mut sink), Err(MonitorError::ProbeFailed));
    assert_eq!(sink, vec![dp(7), dp(8)]);
}

#[test]
fn collector_runs_one_tick_per_interval_until_cancelled() {
    let mut token = BudgetToken { waits_left: 4 };
    let mut sink: Vec<Datapoint> = Vec::new();
    let r = run_collector::<CountingProbe, BudgetToken>(&mut token, 1, u64::MAX, &mut sink);
    assert_eq!(r, Ok(()));
    assert_eq!(sink, vec![dp(1), dp(2), dp(3), dp(4)]);
}

#[test]
fn collector_construction_failure_is_fatal() {
    let mut token = BudgetToken { waits_left: 4 };
    let mut sink: Vec<Datapoint> = Vec::new();
    let r = run_collector::<FailingProbe, BudgetToken>(&mut token, 1, u64::MAX, &mut sink);
    assert_eq!(r, Err(CollectorError::ConstructionFailed));
    assert_eq!(sink, vec![]);
}

#[test]
fn single_probe_satisfies_multi_interface_with_one_element_batches() {
    let mut m = <SingleToMulti<OneShotSingle> as MultiMonitor>::new().unwrap();
    let batch = m.collect_multiple().unwrap();
    assert_eq!(batch.len(), 1);
    assert_eq!(batch[0], dp(42));
}
