//! Round-trip loss detector: pairs correlation-tagged probes with their
//! echoes and explicitly reports probes that stay unanswered longer than a
//! drop threshold.
//!
//! The detector owns the set of outstanding probes, keyed by send timestamp
//! (unique at the monotonic clock's resolution, hence strictly increasing).
//! Every probe is resolved exactly once: either matched with an echo (finite
//! latency) or evicted as lost (sentinel latency), never both, never neither.

use vstd::prelude::*;

verus! {

use crate::LOST_SENTINEL_NS;

/// One emitted measurement: a timestamp and a latency in nanoseconds.
/// A latency of `LOST_SENTINEL_NS` means "no response / lost".
#[derive(Clone, Copy, Debug, PartialEq, Eq, Structural)]
pub struct Datapoint {
    pub ts: u64,
    pub latency_ns: u64,
}

/// Errors of the loss detector.
#[derive(Clone, Copy, Debug, PartialEq, Eq, Structural)]
pub enum DetectorError {
    /// An echo arrived whose correlation id matches no outstanding probe:
    /// a protocol-invariant violation (duplicate echo or bookkeeping bug).
    UnknownEchoId,
}

/// A sequence is strictly increasing.
pub open spec fn strictly_sorted(s: Seq<u64>) -> bool {
    forall|i: int, j: int| 0 <= i < j < s.len() ==> s[i] < s[j]
}

/// A batch of echo events `(correlation id, receive timestamp)` can be
/// matched against the outstanding set `pending`: the ids are pairwise
/// distinct and each one is outstanding.
pub open spec fn matchable(pending: Seq<u64>, echoes: Seq<(u64, u64)>) -> bool {
    &&& forall|j: int, k: int| 0 <= j < k < echoes.len() ==> echoes[j].0 != echoes[k].0
    &&& forall|j: int| 0 <= j < echoes.len() ==> pending.contains(echoes[j].0)
}

/// The correlation ids of a batch of echo events.
pub open spec fn echo_id_set(echoes: Seq<(u64, u64)>) -> Set<u64> {
    Set::new(|x: u64| exists|j: int| 0 <= j < echoes.len() && echoes[j].0 == x)
}

/// The probe ids a tick's samples report as lost: the send timestamps of
/// the samples from index `n` on (the matched echoes occupy `0..n`).
pub open spec fn lost_id_set(samples: Seq<Datapoint>, n: int) -> Set<u64> {
    Set::new(|x: u64| exists|j: int| n <= j < samples.len() && samples[j].ts == x)
}

/// The sample emitted for a matched echo event `(send id, receive time)`:
/// its timestamp is the earlier of the two instants and its latency their
/// distance.
pub open spec fn matched_sample(e: (u64, u64)) -> Datapoint {
    Datapoint {
        ts: if e.0 <= e.1 {
            e.0
        } else {
            e.1
        },
        latency_ns: if e.1 >= e.0 {
            (e.1 - e.0) as u64
        } else {
            (e.0 - e.1) as u64
        },
    }
}

/// The core state of the round-trip loss detector.
pub struct LossDetector {
    /// Outstanding probe send timestamps, in ascending order.
    outstanding: Vec<u64>,
    /// Maximum wait before an outstanding probe is declared lost.
    drop_threshold_ns: u64,
    /// All probe ids already resolved (matched or reported lost).
    resolved: Ghost<Set<u64>>,
}

impl LossDetector {
    /// The outstanding probe ids, oldest first.
    pub closed spec fn pending(self) -> Seq<u64> {
        self.outstanding@
    }

    /// The probe ids already resolved (matched or reported lost).
    pub closed spec fn resolved_ids(self) -> Set<u64> {
        self.resolved@
    }

    /// Every probe id this detector has ever recorded.
    pub open spec fn sent_ids(self) -> Set<u64> {
        self.pending().to_set().union(self.resolved_ids())
    }

    pub closed spec fn threshold_ns(self) -> u64 {
        self.drop_threshold_ns
    }

    /// Well-formedness: outstanding ids are strictly ascending and no
    /// outstanding id has already been resolved.
    pub closed spec fn wf(self) -> bool {
        &&& strictly_sorted(self.outstanding@)
        &&& forall|i: int|
            0 <= i < self.outstanding@.len() ==> !self.resolved@.contains(self.outstanding@[i])
    }

    pub fn new(drop_threshold_ns: u64) -> (r: LossDetector)
        ensures
            r.wf(),
            r.pending() == Seq::<u64>::empty(),
            r.resolved_ids() == Set::<u64>::empty(),
            r.threshold_ns() == drop_threshold_ns,
    {
        let r = LossDetector {
            outstanding: Vec::new(),
            drop_threshold_ns,
            resolved: Ghost(Set::empty()),
        };
        proof {
            assert(r.pending() =~= Seq::<u64>::empty());
        }
        r
    }

    /// Record a freshly sent probe. Send timestamps come from a monotonic
    /// clock at nanosecond resolution, so each new id is strictly greater
    /// than everything recorded before.
    pub fn record_send(&mut self, id: u64)
        requires
            old(self).wf(),
            forall|x: u64| old(self).sent_ids().contains(x) ==> x < id,
        ensures
            final(self).wf(),
            final(self).pending() == old(self).pending().push(id),
            final(self).resolved_ids() == old(self).resolved_ids(),
            final(self).threshold_ns() == old(self).threshold_ns(),
    {
        proof {
            assert forall|i: int| 0 <= i < self.outstanding@.len() implies self.outstanding@[i]
                < id by {
                assert(self.pending().to_set().contains(self.outstanding@[i]));
                assert(self.sent_ids().contains(self.outstanding@[i]));
            }
        }
        self.outstanding.push(id);
        proof {
            let olds = old(self).outstanding@;
            let news = self.outstanding@;
            assert forall|i: int, j: int| 0 <= i < j < news.len() implies news[i] < news[j] by {
                if j == news.len() - 1 {
                    assert(news[i] == olds[i]);
                } else {
                    assert(news[i] == olds[i]);
                    assert(news[j] == olds[j]);
                }
            }
            assert forall|i: int| 0 <= i < news.len() implies !self.resolved@.contains(
                news[i],
            ) by {
                if i == news.len() - 1 {
                    if self.resolved@.contains(id) {
                        assert(old(self).sent_ids().contains(id));
                    }
                } else {
                    assert(news[i] == olds[i]);
                }
            }
        }
    }

    /// Resolve the echo for probe `echo_id`, received at `recv_ns`.
    ///
    /// On a match the probe is removed from the outstanding set and the
    /// emitted sample carries `ts = min(send, recv)` and
    /// `latency = |recv - send|`. An echo for an id that is not outstanding
    /// is a protocol-invariant violation and is reported as a distinct
    /// error; the state is left unchanged.
    pub fn match_echo(&mut self, echo_id: u64, recv_ns: u64) -> (r: Result<
        Datapoint,
        DetectorError,
    >)
        requires
            old(self).wf(),
        ensures
            final(self).wf(),
            final(self).threshold_ns() == old(self).threshold_ns(),
            r is Ok <==> old(self).pending().contains(echo_id),
            r matches Ok(dp) ==> {
                &&& dp.ts == if echo_id <= recv_ns {
                    echo_id
                } else {
                    recv_ns
                }
                &&& dp.latency_ns == if recv_ns >= echo_id {
                    recv_ns - echo_id
                } else {
                    echo_id - recv_ns
                }
                &&& final(self).pending().to_set() == old(self).pending().to_set().remove(echo_id)
                &&& final(self).pending().len() == old(self).pending().len() - 1
                &&& final(self).resolved_ids() == old(self).resolved_ids().insert(echo_id)
                &&& !old(self).resolved_ids().contains(echo_id)
            },
            r is Err ==> *final(self) == *old(self),
    {
        let mut i: usize = 0;
        while i < self.outstanding.len()
            invariant
                *self == *old(self),
                old(self).wf(),
                0 <= i <= self.outstanding@.len(),
                forall|k: int| 0 <= k < i ==> self.outstanding@[k] != echo_id,
            decreases self.outstanding@.len() - i,
        {
            if self.outstanding[i] == echo_id {
                self.outstanding.remove(i);
                proof {
                    let olds = old(self).pending();
                    let news = self.outstanding@;
                    assert(news =~= olds.remove(i as int));
                    // removing the only occurrence removes the id from the set
                    assert forall|x: u64| news.to_set().contains(x) implies olds.to_set().remove(
                        echo_id,
                    ).contains(x) by {
                        let k = choose|k: int| 0 <= k < news.len() && news[k] == x;
                        if k < i {
                            assert(olds[k] == x);
                        } else {
                            assert(olds[k + 1] == x);
                        }
                    }
                    assert forall|x: u64| olds.to_set().remove(echo_id).contains(x) implies news
                        .to_set().contains(x) by {
                        let k = choose|k: int| 0 <= k < olds.len() && olds[k] == x;
                        if k < i {
                            assert(news[k] == x);
                        } else {
                            assert(k != i);
                            assert(news[k - 1] == x);
                        }
                    }
                    assert(news.to_set() =~= olds.to_set().remove(echo_id));
                    // removal preserves the strict order
                    assert forall|a: int, b: int| 0 <= a < b < news.len() implies news[a]
                        < news[b] by {
                        if b < i {
                        } else if a < i {
                            assert(news[b] == olds[b + 1]);
                        } else {
                            assert(news[a] == olds[a + 1]);
                            assert(news[b] == olds[b + 1]);
                        }
                    }
                    self.resolved@ = self.resolved@.insert(echo_id);
                    assert(olds.to_set().contains(echo_id));
                    // no outstanding id is resolved
                    assert forall|k: int| 0 <= k < news.len() implies !self.resolved@.contains(
                        news[k],
                    ) by {
                        assert(news.to_set().contains(news[k]));
                        if k < i {
                            assert(news[k] == olds[k]);
                        } else {
                            assert(news[k] == olds[k + 1]);
                        }
                    }
                }
                let dp = Datapoint {
                    ts: if echo_id <= recv_ns {
                        echo_id
                    } else {
                        recv_ns
                    },
                    latency_ns: crate::abs_diff(recv_ns, echo_id),
                };
                return Ok(dp);
            }
            i += 1;
        }
        Err(DetectorError::UnknownEchoId)
    }

    /// Evict and report as lost every outstanding probe older than the drop
    /// threshold, scanning in ascending send-time order and stopping at the
    /// first non-expired entry (later entries cannot be older).
    ///
    /// Every reported probe satisfies `ts + threshold < now`, so a probe is
    /// never reported lost before its full drop window has elapsed; and no
    /// expired probe stays outstanding afterwards.
    pub fn evict_expired(&mut self, now: u64) -> (lost: Vec<Datapoint>)
        requires
            old(self).wf(),
            forall|i: int| 0 <= i < old(self).pending().len() ==> old(self).pending()[i] <= now,
        ensures
            final(self).wf(),
            final(self).threshold_ns() == old(self).threshold_ns(),
            lost@.len() <= old(self).pending().len(),
            final(self).pending() == old(self).pending().skip(lost@.len() as int),
            forall|i: int|
                0 <= i < lost@.len() ==> {
                    &&& lost@[i].ts == old(self).pending()[i]
                    &&& lost@[i].latency_ns == LOST_SENTINEL_NS
                    &&& lost@[i].ts + old(self).threshold_ns() < now
                },
            forall|i: int|
                0 <= i < final(self).pending().len() ==> final(self).pending()[i] + old(
                    self,
                ).threshold_ns() >= now,
            final(self).resolved_ids() == old(self).resolved_ids().union(
                old(self).pending().take(lost@.len() as int).to_set(),
            ),
    {
        let thr = self.drop_threshold_ns;
        let mut lost: Vec<Datapoint> = Vec::new();
        proof {
            assert(self.outstanding@ =~= old(self).pending().skip(0));
            assert(self.resolved@ =~= old(self).resolved_ids().union(
                old(self).pending().take(0).to_set(),
            ));
        }
        while self.outstanding.len() > 0 && now - self.outstanding[0] > thr
            invariant
                old(self).wf(),
                self.drop_threshold_ns == old(self).threshold_ns(),
                thr == old(self).threshold_ns(),
                forall|i: int|
                    0 <= i < old(self).pending().len() ==> old(self).pending()[i] <= now,
                lost@.len() <= old(self).pending().len(),
                self.outstanding@ == old(self).pending().skip(lost@.len() as int),
                forall|i: int|
                    0 <= i < lost@.len() ==> {
                        &&& lost@[i].ts == old(self).pending()[i]
                        &&& lost@[i].latency_ns == LOST_SENTINEL_NS
                        &&& lost@[i].ts + old(self).threshold_ns() < now
                    },
                self.resolved@ == old(self).resolved_ids().union(
                    old(self).pending().take(lost@.len() as int).to_set(),
                ),
            decreases self.outstanding@.len(),
        {
            let ts = self.outstanding[0];
            proof {
                assert(ts == old(self).pending()[lost@.len() as int]);
            }
            self.outstanding.remove(0);
            lost.push(Datapoint { ts, latency_ns: LOST_SENTINEL_NS });
            proof {
                let k = lost@.len() as int;
                assert(self.outstanding@ =~= old(self).pending().skip(k));
                self.resolved@ = self.resolved@.insert(ts);
                assert(old(self).pending().take(k) =~= old(self).pending().take(k - 1)
                    + seq![ts]);
                Seq::lemma_to_set_insert_commutes(old(self).pending().take(k - 1), ts);
                assert(self.resolved@ =~= old(self).resolved_ids().union(
                    old(self).pending().take(k).to_set(),
                ));
            }
        }
        proof {
            let k = lost@.len() as int;
            let olds = old(self).pending();
            let news = self.outstanding@;
            // nothing left outstanding is expired: the scan stopped at the
            // first non-expired entry and the set is ascending
            assert forall|i: int| 0 <= i < news.len() implies news[i] + old(self).threshold_ns()
                >= now by {
                assert(news[i] == olds[k + i]);
                if i > 0 {
                    assert(olds[k] < olds[k + i]);
                }
            }
            // the remaining ids are still strictly sorted and unresolved
            assert forall|a: int, b: int| 0 <= a < b < news.len() implies news[a] < news[b] by {
                assert(news[a] == olds[k + a]);
                assert(news[b] == olds[k + b]);
            }
            assert forall|i: int| 0 <= i < news.len() implies !self.resolved@.contains(
                news[i],
            ) by {
                assert(news[i] == olds[k + i]);
                if olds.take(k).to_set().contains(news[i]) {
                    let j = choose|j: int| 0 <= j < k && olds[j] == news[i];
                    assert(olds[j] < olds[k + i]);
                }
            }
        }
        lost
    }

    /// One detector tick, taken right after the probe stamped `send_ts` went
    /// out: record that probe, match every echo event drained from the
    /// listener queue (in arrival order), then evict every probe whose drop
    /// window has elapsed.
    ///
    /// On success the samples are the matched echoes in arrival order,
    /// followed by the lost probes in ascending send order, each lost one
    /// strictly older than the drop threshold and none reported before or
    /// twice. An echo whose id is not outstanding (or repeated in the batch)
    /// is a protocol-invariant violation and yields `UnknownEchoId`.
    pub fn collect_tick(&mut self, send_ts: u64, echoes: &Vec<(u64, u64)>) -> (r: Result<
        Vec<Datapoint>,
        DetectorError,
    >)
        requires
            old(self).wf(),
            forall|x: u64| old(self).sent_ids().contains(x) ==> x < send_ts,
        ensures
            final(self).wf(),
            final(self).threshold_ns() == old(self).threshold_ns(),
            final(self).sent_ids() == old(self).sent_ids().insert(send_ts),
            r is Ok <==> matchable(old(self).pending().push(send_ts), echoes@),
            r matches Ok(samples) ==> {
                let n = echoes@.len() as int;
                &&& samples@.len() >= n
                &&& forall|k: int| 0 <= k < n ==> samples@[k] == matched_sample(echoes@[k])
                &&& forall|k: int|
                    n <= k < samples@.len() ==> {
                        &&& samples@[k].latency_ns == LOST_SENTINEL_NS
                        &&& samples@[k].ts + old(self).threshold_ns() < send_ts
                        &&& !old(self).resolved_ids().contains(samples@[k].ts)
                        &&& forall|a: int| 0 <= a < n ==> samples@[k].ts != echoes@[a].0
                    }
                &&& forall|k1: int, k2: int|
                    n <= k1 < k2 < samples@.len() ==> samples@[k1].ts < samples@[k2].ts
                &&& forall|k: int| 0 <= k < n ==> !old(self).resolved_ids().contains(echoes@[k].0)
                &&& forall|i: int|
                    0 <= i < final(self).pending().len() ==> final(self).pending()[i] + old(
                        self,
                    ).threshold_ns() >= send_ts
                // exactly the matched and the lost ids are resolved by this
                // tick, and everything else stays outstanding
                &&& final(self).resolved_ids() == old(self).resolved_ids().union(
                    echo_id_set(echoes@),
                ).union(lost_id_set(samples@, n))
                &&& final(self).pending().to_set() == old(self).pending().push(
                    send_ts,
                ).to_set().difference(echo_id_set(echoes@)).difference(lost_id_set(samples@, n))
                // loss reporting is complete: every probe past its drop
                // window that no echo matched appears among the lost samples
                &&& forall|x: u64|
                    old(self).pending().push(send_ts).to_set().contains(x) && !echo_id_set(
                        echoes@,
                    ).contains(x) && x + old(self).threshold_ns() < send_ts ==> lost_id_set(
                        samples@,
                        n,
                    ).contains(x)
                // and every unmatched probe still inside its window — the
                // one just sent included — stays outstanding for later ticks
                &&& forall|x: u64|
                    old(self).pending().push(send_ts).to_set().contains(x) && !echo_id_set(
                        echoes@,
                    ).contains(x) && x + old(self).threshold_ns() >= send_ts
                        ==> final(self).pending().contains(x)
            },
            r is Err ==> exists|j: int|
                0 <= j < echoes@.len() && {
                    &&& final(self).pending().to_set() == old(self).pending().push(
                        send_ts,
                    ).to_set().difference(echo_id_set(#[trigger] echoes@.take(j)))
                    &&& final(self).resolved_ids() == old(self).resolved_ids().union(
                        echo_id_set(echoes@.take(j)),
                    )
                },
    {
        let ghost init = old(self).pending().push(send_ts);
        self.record_send(send_ts);
        proof {
            assert(self.pending() == init);
            assert(echo_id_set(echoes@.take(0)) =~= Set::<u64>::empty());
            assert(self.pending().to_set() =~= init.to_set().difference(
                echo_id_set(echoes@.take(0)),
            ));
            assert(self.resolved_ids() =~= old(self).resolved_ids().union(
                echo_id_set(echoes@.take(0)),
            ));
            assert(init =~= old(self).pending() + seq![send_ts]);
            Seq::lemma_to_set_insert_commutes(old(self).pending(), send_ts);
            assert(self.sent_ids() =~= old(self).sent_ids().insert(send_ts));
            assert forall|x: u64| init.to_set().contains(x) implies x <= send_ts by {
                let i = choose|i: int| 0 <= i < init.len() && init[i] == x;
                if i < init.len() - 1 {
                    assert(old(self).sent_ids().contains(x));
                }
            }
        }
        let mut samples: Vec<Datapoint> = Vec::new();
        let mut j: usize = 0;
        while j < echoes.len()
            invariant
                init == old(self).pending().push(send_ts),
                0 <= j <= echoes@.len(),
                samples@.len() == j,
                self.wf(),
                self.threshold_ns() == old(self).threshold_ns(),
                self.pending().to_set() == init.to_set().difference(
                    echo_id_set(echoes@.take(j as int)),
                ),
                self.pending().len() == init.len() - j,
                self.resolved_ids() == old(self).resolved_ids().union(
                    echo_id_set(echoes@.take(j as int)),
                ),
                self.sent_ids() == old(self).sent_ids().insert(send_ts),
                forall|k: int| 0 <= k < j ==> samples@[k] == matched_sample(echoes@[k]),
                forall|a: int, b: int| 0 <= a < b < j ==> echoes@[a].0 != echoes@[b].0,
                forall|k: int| 0 <= k < j ==> init.contains(echoes@[k].0),
                forall|k: int|
                    0 <= k < j ==> !old(self).resolved_ids().contains(echoes@[k].0)
                        && self.resolved_ids().contains(echoes@[k].0),
                forall|x: u64| init.to_set().contains(x) ==> x <= send_ts,
            decreases echoes@.len() - j,
        {
            let (echo_id, recv_ns) = echoes[j];
            let ghost pre = *self;
            match self.match_echo(echo_id, recv_ns) {
                Ok(dp) => {
                    samples.push(dp);
                    proof {
                        let jj = j + 1 as int;
                        // the processed-prefix id set grows by exactly this id
                        assert forall|x: u64| echo_id_set(echoes@.take(jj)).contains(x) implies
                            echo_id_set(echoes@.take(jj - 1)).insert(echo_id).contains(x) by {
                            let whole = echoes@.take(jj);
                            let a = choose|a: int|
                                0 <= a < whole.len() && #[trigger] whole[a].0 == x;
                            if a < jj - 1 {
                                assert(echoes@.take(jj - 1)[a].0 == x);
                            }
                        }
                        assert forall|x: u64| echo_id_set(echoes@.take(jj - 1)).insert(
                            echo_id,
                        ).contains(x) implies echo_id_set(echoes@.take(jj)).contains(x) by {
                            if x == echo_id {
                                assert(echoes@.take(jj)[jj - 1].0 == x);
                            } else {
                                let prefix = echoes@.take(jj - 1);
                                let a = choose|a: int|
                                    0 <= a < prefix.len() && #[trigger] prefix[a].0 == x;
                                assert(echoes@.take(jj)[a].0 == x);
                            }
                        }
                        assert(echo_id_set(echoes@.take(jj)) =~= echo_id_set(
                            echoes@.take(jj - 1),
                        ).insert(echo_id));
                        assert(self.pending().to_set() =~= init.to_set().difference(
                            echo_id_set(echoes@.take(jj)),
                        ));
                        assert(self.resolved_ids() =~= old(self).resolved_ids().union(
                            echo_id_set(echoes@.take(jj)),
                        ));
                        // no id is matched twice: it left the pending set
                        assert(pre.pending().contains(echo_id));
                        assert(pre.pending().to_set().contains(echo_id));
                        assert forall|a: int| 0 <= a < jj - 1 implies echoes@[a].0 != echo_id by {
                            if echoes@[a].0 == echo_id {
                                assert(echo_id_set(echoes@.take(jj - 1)).contains(echo_id));
                            }
                        }
                        // the recorded probes are unchanged by a match
                        assert((pre.pending().to_set().remove(echo_id)).union(
                            pre.resolved_ids().insert(echo_id),
                        ) =~= pre.pending().to_set().union(pre.resolved_ids()));
                        assert(self.sent_ids() =~= pre.sent_ids());
                        // this echo id was never resolved before
                        assert(!old(self).resolved_ids().contains(echo_id));
                        assert(init.contains(echo_id)) by {
                            assert(init.to_set().contains(echo_id));
                        }
                    }
                },
                Err(e) => {
                    proof {
                        // not outstanding any more: either never sent or a
                        // duplicate in this very batch, so the batch is not
                        // matchable against the outstanding set
                        assert(!self.pending().contains(echo_id));
                        assert(!self.pending().to_set().contains(echo_id));
                        if init.contains(echo_id) {
                            assert(init.to_set().contains(echo_id));
                            assert(echo_id_set(echoes@.take(j as int)).contains(echo_id));
                            let prefix = echoes@.take(j as int);
                            let a = choose|a: int|
                                0 <= a < j && #[trigger] prefix[a].0 == echo_id;
                            assert(echoes@[a].0 == echoes@[j as int].0);
                        }
                        assert(!matchable(init, echoes@));
                        // the state at the failure point: the echoes up to
                        // here are applied, nothing else moved
                        let jj = j as int;
                        assert(0 <= jj < echoes@.len());
                        assert(self.pending().to_set() == init.to_set().difference(
                            echo_id_set(#[trigger] echoes@.take(jj)),
                        ));
                        assert(self.resolved_ids() == old(self).resolved_ids().union(
                            echo_id_set(echoes@.take(jj)),
                        ));
                    }
                    return Err(e);
                },
            }
            j += 1;
        }
        proof {
            assert(matchable(init, echoes@));
            // every probe still outstanding is old enough to be bounded by now
            assert forall|i: int| 0 <= i < self.pending().len() implies self.pending()[i]
                <= send_ts by {
                assert(self.pending().to_set().contains(self.pending()[i]));
                assert(init.to_set().contains(self.pending()[i]));
            }
        }
        let ghost mid = *self;
        let mut lost = self.evict_expired(send_ts);
        let ghost k = lost@.len() as int;
        proof {
            // the evicted ids come from the outstanding set, so they were
            // never resolved before and differ from every matched echo id
            assert forall|i: int| 0 <= i < k implies {
                &&& !old(self).resolved_ids().contains(lost@[i].ts)
                &&& forall|a: int| 0 <= a < echoes@.len() ==> lost@[i].ts != echoes@[a].0
            } by {
                assert(lost@[i].ts == mid.pending()[i]);
                if mid.resolved_ids().contains(lost@[i].ts) {
                    assert(false);
                }
                assert forall|a: int| 0 <= a < echoes@.len() implies lost@[i].ts
                    != echoes@[a].0 by {
                    if lost@[i].ts == echoes@[a].0 {
                        assert(echo_id_set(echoes@.take(echoes@.len() as int)).contains(
                            echoes@[a].0,
                        )) by {
                            assert(echoes@.take(echoes@.len() as int) == echoes@);
                        }
                        assert(mid.resolved_ids().contains(lost@[i].ts));
                    }
                }
            }
            // eviction keeps the set of recorded probes unchanged
            assert(self.sent_ids() =~= mid.sent_ids()) by {
                assert forall|x: u64| self.sent_ids().contains(x) implies mid.sent_ids().contains(
                    x,
                ) by {
                    if self.pending().to_set().contains(x) {
                        let i = choose|i: int|
                            0 <= i < self.pending().len() && self.pending()[i] == x;
                        assert(mid.pending()[k + i] == x);
                        assert(mid.pending().to_set().contains(x));
                    } else {
                        assert(self.resolved_ids().contains(x));
                        if !mid.resolved_ids().contains(x) {
                            assert(mid.pending().take(k).to_set().contains(x));
                            let i = choose|i: int| 0 <= i < k && mid.pending().take(k)[i] == x;
                            assert(mid.pending()[i] == x);
                            assert(mid.pending().to_set().contains(x));
                        }
                    }
                }
                assert forall|x: u64| mid.sent_ids().contains(x) implies self.sent_ids().contains(
                    x,
                ) by {
                    if mid.pending().to_set().contains(x) {
                        let i = choose|i: int| 0 <= i < mid.pending().len() && mid.pending()[i] == x;
                        if i < k {
                            assert(mid.pending().take(k)[i] == x);
                            assert(mid.pending().take(k).to_set().contains(x));
                            assert(self.resolved_ids().contains(x));
                        } else {
                            assert(self.pending()[i - k] == x);
                            assert(self.pending().to_set().contains(x));
                        }
                    } else {
                        assert(mid.resolved_ids().contains(x));
                        assert(self.resolved_ids().contains(x));
                    }
                }
            }
            // and the lost ids are resolved afterwards
            assert forall|i: int| 0 <= i < k implies self.resolved_ids().contains(lost@[i].ts) by {
                assert(lost@[i].ts == mid.pending()[i]);
                assert(mid.pending().take(k)[i] == mid.pending()[i]);
                assert(mid.pending().take(k).to_set().contains(lost@[i].ts));
            }
        }
        let ghost matched = samples@;
        let ghost lostg = lost@;
        samples.append(&mut lost);
        proof {
            let n = echoes@.len() as int;
            assert(samples@ == matched + lostg);
            assert(matched.len() == n);
            assert forall|a: int| n <= a < samples@.len() implies samples@[a] == lostg[a - n] by {
            }
            assert forall|a: int| n <= a < samples@.len() implies samples@[a].latency_ns
                == LOST_SENTINEL_NS by {
                assert(samples@[a] == lostg[a - n]);
                assert(lostg[a - n].ts == mid.pending()[a - n]);
            }
            assert forall|a1: int, a2: int| n <= a1 < a2 < samples@.len() implies samples@[a1].ts
                < samples@[a2].ts by {
                assert(lostg[a1 - n].ts == mid.pending()[a1 - n]);
                assert(lostg[a2 - n].ts == mid.pending()[a2 - n]);
            }
            assert(echoes@.take(echoes@.len() as int) == echoes@);
            // the lost ids are exactly the evicted prefix of the
            // outstanding set
            assert(lost_id_set(samples@, n) =~= mid.pending().take(k).to_set()) by {
                assert forall|x: u64| lost_id_set(samples@, n).contains(x) implies mid.pending()
                    .take(k).to_set().contains(x) by {
                    let a = choose|a: int|
                        n <= a < samples@.len() && #[trigger] samples@[a].ts == x;
                    assert(samples@[a] == lostg[a - n]);
                    assert(lostg[a - n].ts == mid.pending()[a - n]);
                    assert(mid.pending().take(k)[a - n] == x);
                }
                assert forall|x: u64| mid.pending().take(k).to_set().contains(x) implies
                    lost_id_set(samples@, n).contains(x) by {
                    let i = choose|i: int|
                        0 <= i < k && #[trigger] mid.pending().take(k)[i] == x;
                    assert(lostg[i].ts == mid.pending()[i]);
                    assert(samples@[n + i] == lostg[i]);
                    assert(samples@[n + i].ts == x);
                }
            }
            // frame on the resolved ids
            assert(mid.resolved_ids() == old(self).resolved_ids().union(echo_id_set(echoes@)));
            assert(self.resolved_ids() =~= old(self).resolved_ids().union(
                echo_id_set(echoes@),
            ).union(lost_id_set(samples@, n)));
            // frame on the outstanding set: the eviction removed exactly the
            // lost prefix, and the matching before it exactly the echo ids
            assert(self.pending().to_set() =~= mid.pending().to_set().difference(
                mid.pending().take(k).to_set(),
            )) by {
                assert forall|x: u64| self.pending().to_set().contains(x) implies mid.pending()
                    .to_set().difference(mid.pending().take(k).to_set()).contains(x) by {
                    let i = choose|i: int|
                        0 <= i < self.pending().len() && #[trigger] self.pending()[i] == x;
                    assert(self.pending()[i] == mid.pending()[k + i]);
                    assert(mid.pending().to_set().contains(x));
                    if mid.pending().take(k).to_set().contains(x) {
                        let a = choose|a: int|
                            0 <= a < k && #[trigger] mid.pending().take(k)[a] == x;
                        assert(mid.pending()[a] == x);
                        assert(mid.pending()[a] < mid.pending()[k + i]);
                    }
                }
                assert forall|x: u64| mid.pending().to_set().difference(
                    mid.pending().take(k).to_set(),
                ).contains(x) implies self.pending().to_set().contains(x) by {
                    let i = choose|i: int|
                        0 <= i < mid.pending().len() && #[trigger] mid.pending()[i] == x;
                    if i < k {
                        assert(mid.pending().take(k)[i] == x);
                    } else {
                        assert(self.pending()[i - k] == x);
                    }
                }
            }
            assert(mid.pending().to_set() == init.to_set().difference(echo_id_set(echoes@)));
            assert(self.pending().to_set() =~= old(self).pending().push(send_ts)
                .to_set().difference(echo_id_set(echoes@)).difference(lost_id_set(samples@, n)));
            // loss completeness: an expired unmatched probe cannot still be
            // outstanding, so it is among the lost ids
            assert forall|x: u64|
                init.to_set().contains(x) && !echo_id_set(echoes@).contains(x) && x + old(
                    self,
                ).threshold_ns() < send_ts implies lost_id_set(samples@, n).contains(x) by {
                if !lost_id_set(samples@, n).contains(x) {
                    assert(self.pending().to_set().contains(x));
                    let i = choose|i: int|
                        0 <= i < self.pending().len() && #[trigger] self.pending()[i] == x;
                    assert(self.pending()[i] + old(self).threshold_ns() >= send_ts);
                }
            }
            // survival: an unmatched probe inside its window stays pending
            assert forall|x: u64|
                init.to_set().contains(x) && !echo_id_set(echoes@).contains(x) && x + old(
                    self,
                ).threshold_ns() >= send_ts implies self.pending().contains(x) by {
                if lost_id_set(samples@, n).contains(x) {
                    let a = choose|a: int|
                        n <= a < samples@.len() && #[trigger] samples@[a].ts == x;
                    assert(samples@[a] == lostg[a - n]);
                    assert(lostg[a - n].ts == mid.pending()[a - n]);
                    assert(lostg[a - n].ts + mid.threshold_ns() < send_ts);
                }
                assert(self.pending().to_set().contains(x));
            }
        }
        Ok(samples)
    }
}

/// Law: at any instant, every probe the detector has recorded is accounted
/// for exactly once — it is either still outstanding or already resolved
/// (matched or reported lost), never both and never neither.
///
/// Together with the tick contract — a sample is never emitted for an
/// already-resolved id, every emitted id is resolved afterwards, and every
/// probe older than the drop threshold leaves the outstanding set and is
/// reported in that very tick — each probe sent during a run is reported
/// exactly once: matched with a finite latency or evicted with the sentinel.
pub proof fn lemma_probe_resolved_exactly_once(d: LossDetector, id: u64)
    requires
        d.wf(),
        d.sent_ids().contains(id),
    ensures
        d.pending().contains(id) <==> !d.resolved_ids().contains(id),
{
    if d.pending().contains(id) {
        let i = choose|i: int| 0 <= i < d.pending().len() && d.pending()[i] == id;
        assert(!d.resolved_ids().contains(d.pending()[i]));
    } else {
        assert(!d.pending().to_set().contains(id));
    }
}

} // verus!
