//! Sampled metric collection: drive a probe capability at a fixed cadence,
//! streaming every produced sample to a sink until cancellation is observed.
//!
//! A probe capability comes in two shapes: single-result (`Monitor`) and
//! multi-result (`MultiMonitor`). The collection loop is written once against
//! the multi-result shape; `SingleToMulti` adapts any single-result probe by
//! wrapping its one outcome in a one-element batch.

use vstd::prelude::*;

verus! {

use crate::rr::Datapoint;

/// A probe attempt failed. One failed tick never terminates a collection
/// run; the failure of constructing a probe capability does.
#[derive(Clone, Copy, Debug, PartialEq, Eq, Structural)]
pub enum MonitorError {
    ProbeFailed,
}

/// Errors surfaced by a collector as a whole.
#[derive(Clone, Copy, Debug, PartialEq, Eq, Structural)]
pub enum CollectorError {
    /// The probe capability could not be constructed; the run cannot
    /// proceed without its measurement source.
    ConstructionFailed,
    /// The collection context terminated abnormally instead of observing
    /// cancellation.
    WorkerPanicked,
    /// A sink write or flush failed. Losing rows defeats the purpose of the
    /// measurement, so this ends the run instead of being skipped.
    SinkFailed,
}

/// A single-result probe capability: one dated sample per invocation.
pub trait Monitor: Sized {
    type Stats;

    fn new() -> Result<Self, MonitorError>;

    fn collect(&mut self) -> Result<Self::Stats, MonitorError>;
}

/// A multi-result probe capability: zero or more dated samples per
/// invocation.
pub trait MultiMonitor: Sized {
    type Stats;

    fn new() -> Result<Self, MonitorError>;

    fn collect_multiple(&mut self) -> Result<Vec<Self::Stats>, MonitorError>;
}

/// Adapter: any single-result probe satisfies the multi-result interface by
/// wrapping its one outcome in a one-element batch.
pub struct SingleToMulti<M: Monitor> {
    inner: M,
}

impl<M: Monitor> MultiMonitor for SingleToMulti<M> {
    type Stats = M::Stats;

    fn new() -> Result<Self, MonitorError> {
        match M::new() {
            Ok(m) => Ok(SingleToMulti { inner: m }),
            Err(e) => Err(e),
        }
    }

    fn collect_multiple(&mut self) -> (r: Result<Vec<M::Stats>, MonitorError>)
        ensures
            r matches Ok(batch) ==> batch@.len() == 1,
    {
        match self.inner.collect() {
            Ok(s) => Ok(vec![s]),
            Err(e) => Err(e),
        }
    }
}

/// Cancellation token handed to every long-running component: it can be
/// checked immediately or waited on for a bounded time, so that no loop here
/// ever blocks indefinitely.
pub trait CancelToken {
    fn is_cancelled(&self) -> bool;

    /// Wait up to `ns` nanoseconds, returning early when cancellation is
    /// requested. Returns whether cancellation has been requested.
    fn wait_cancelled_ns(&mut self, ns: u64) -> bool;
}

/// Append every element of `src`, in order, to the end of `dst`.
pub fn append_all<T>(dst: &mut Vec<T>, src: Vec<T>)
    ensures
        final(dst)@ == old(dst)@ + src@,
{
    let mut src = src;
    let ghost all = src@;
    proof {
        assert(dst@ + src@ =~= old(dst)@ + all);
    }
    while src.len() > 0
        invariant
            dst@ + src@ == old(dst)@ + all,
        decreases src@.len(),
    {
        let ghost dst_pre = dst@;
        let ghost src_pre = src@;
        let st = src.remove(0);
        dst.push(st);
        proof {
            assert(src_pre =~= seq![st] + src@);
            assert(dst@ =~= dst_pre + seq![st]);
            assert(dst@ + src@ =~= dst_pre + src_pre);
        }
    }
    proof {
        assert(dst@ =~= dst@ + src@);
    }
}

/// One collection tick: invoke the probe and append every returned sample to
/// the sink in the order produced — the whole batch, through `append_all`,
/// whose contract pins the sink extension to exactly that batch. On failure
/// the sink is untouched. The sink is append-only: rows written by earlier
/// ticks are never rewritten.
pub fn collect_and_write<M: MultiMonitor>(monitor: &mut M, sink: &mut Vec<M::Stats>) -> (r: Result<
    usize,
    MonitorError,
>)
    ensures
        old(sink)@.len() <= final(sink)@.len(),
        final(sink)@.subrange(0, old(sink)@.len() as int) == old(sink)@,
        r matches Ok(n) ==> final(sink)@.len() == old(sink)@.len() + n,
        r is Err ==> final(sink)@ == old(sink)@,
{
    match monitor.collect_multiple() {
        Ok(stats) => {
            let n = stats.len();
            append_all(sink, stats);
            proof {
                assert(sink@.subrange(0, old(sink)@.len() as int) =~= old(sink)@);
            }
            Ok(n)
        },
        Err(e) => Err(e),
    }
}

/// The collection loop: construct the probe capability (failure here is
/// fatal), then, until cancellation is observed (checked once per tick),
/// collect and append samples — a failed tick is skipped, never fatal — and
/// wait out the fixed interval. The sink only ever grows, and rows written
/// before the call are still there, unchanged, afterwards.
///
/// `max_ticks` bounds the number of ticks; a caller that wants to run until
/// cancellation alone passes `u64::MAX`.
pub fn run_collector<M: MultiMonitor, C: CancelToken>(
    token: &mut C,
    interval_ns: u64,
    max_ticks: u64,
    sink: &mut Vec<M::Stats>,
) -> (r: Result<(), CollectorError>)
    ensures
        old(sink)@.len() <= final(sink)@.len(),
        final(sink)@.subrange(0, old(sink)@.len() as int) == old(sink)@,
        r is Err ==> r == Err::<(), CollectorError>(CollectorError::ConstructionFailed)
            && final(sink)@ == old(sink)@,
{
    let mut monitor = match M::new() {
        Ok(m) => m,
        Err(_) => {
            return Err(CollectorError::ConstructionFailed);
        },
    };
    proof {
        assert(sink@.subrange(0, old(sink)@.len() as int) =~= old(sink)@);
    }
    let mut ticks: u64 = 0;
    while ticks < max_ticks && !token.is_cancelled()
        invariant
            ticks <= max_ticks,
            old(sink)@.len() <= sink@.len(),
            sink@.subrange(0, old(sink)@.len() as int) == old(sink)@,
        decreases max_ticks - ticks,
    {
        let _ = collect_and_write(&mut monitor, sink);
        proof {
            assert(sink@.subrange(0, old(sink)@.len() as int) =~= old(sink)@);
        }
        let _ = token.wait_cancelled_ns(interval_ns);
        ticks += 1;
    }
    Ok(())
}

/// What one scripted tick yields: a batch of samples, or a failure.
pub open spec fn tick_rows(tick: Option<Vec<Datapoint>>) -> Seq<Datapoint> {
    match tick {
        Some(batch) => batch@,
        None => Seq::empty(),
    }
}

/// The rows a whole run must leave in the sink: the batches of the
/// successful ticks concatenated in tick order, a failed tick contributing
/// nothing.
pub open spec fn rows_of_ticks(script: Seq<Option<Vec<Datapoint>>>) -> Seq<Datapoint>
    decreases script.len(),
{
    if script.len() == 0 {
        Seq::empty()
    } else {
        tick_rows(script[0]) + rows_of_ticks(script.skip(1))
    }
}

/// A probe capability whose outcomes are laid down in advance: each tick
/// yields the next scripted batch, or fails. Used to pin down, against the
/// collection loop, exactly which rows a run leaves in the sink.
pub struct ScriptedProbe {
    script: Vec<Option<Vec<Datapoint>>>,
}

impl ScriptedProbe {
    /// The outcomes this probe has not played yet.
    pub closed spec fn script_rem(self) -> Seq<Option<Vec<Datapoint>>> {
        self.script@
    }

    pub fn with_script(script: Vec<Option<Vec<Datapoint>>>) -> (r: ScriptedProbe)
        ensures
            r.script_rem() == script@,
    {
        ScriptedProbe { script }
    }
}

impl MultiMonitor for ScriptedProbe {
    type Stats = Datapoint;

    fn new() -> (r: Result<Self, MonitorError>)
        ensures
            r matches Ok(p) ==> p.script_rem().len() == 0,
    {
        Ok(ScriptedProbe { script: Vec::new() })
    }

    fn collect_multiple(&mut self) -> (r: Result<Vec<Datapoint>, MonitorError>)
        ensures
            old(self).script_rem().len() == 0 ==> r is Err && *final(self) == *old(self),
            old(self).script_rem().len() > 0 ==> {
                &&& final(self).script_rem() == old(self).script_rem().skip(1)
                &&& (match old(self).script_rem()[0] {
                    Some(batch) => r matches Ok(b) && b == batch,
                    None => r is Err,
                })
            },
    {
        if self.script.len() == 0 {
            Err(MonitorError::ProbeFailed)
        } else {
            match self.script.remove(0) {
                Some(batch) => Ok(batch),
                None => Err(MonitorError::ProbeFailed),
            }
        }
    }
}

/// Law: a collection run leaves in the sink exactly the rows derived from
/// the ticks it completed, in order — the sample batches of the successful
/// ticks concatenated, a failed tick contributing no row and never ending
/// the run early.
pub fn run_scripted_collection(probe: &mut ScriptedProbe, sink: &mut Vec<Datapoint>)
    ensures
        final(sink)@ == old(sink)@ + rows_of_ticks(old(probe).script_rem()),
        final(probe).script_rem().len() == 0,
{
    while probe.script.len() > 0
        invariant
            old(sink)@ + rows_of_ticks(old(probe).script_rem()) == sink@ + rows_of_ticks(
                probe.script_rem(),
            ),
        decreases probe.script_rem().len(),
    {
        let ghost pre = probe.script_rem();
        match probe.collect_multiple() {
            Ok(batch) => {
                proof {
                    assert(rows_of_ticks(pre) == tick_rows(pre[0]) + rows_of_ticks(pre.skip(1)));
                }
                append_all(sink, batch);
            },
            Err(_) => {
                proof {
                    assert(rows_of_ticks(pre) == tick_rows(pre[0]) + rows_of_ticks(pre.skip(1)));
                    assert(tick_rows(pre[0]) + rows_of_ticks(pre.skip(1)) =~= rows_of_ticks(
                        pre.skip(1),
                    ));
                }
            },
        }
    }
    proof {
        assert(rows_of_ticks(probe.script_rem()) =~= Seq::<Datapoint>::empty());
        assert(sink@ =~= sink@ + rows_of_ticks(probe.script_rem()));
        assert(final(sink)@ =~= old(sink)@ + rows_of_ticks(old(probe).script_rem()));
    }
}

} // verus!
