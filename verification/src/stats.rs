//! Run statistics: per-query execution records, percentile summaries,
//! and the counters a live display samples.  Times are integer
//! milliseconds; the clock lives outside the library, so recording
//! functions take the current time as an argument.

use vstd::prelude::*;
use vstd::relations::{sorted_by, total_ordering};
use vstd::seq_lib::lemma_sorted_unique;

verus! {

/// One executed query and how long it took.
#[derive(Debug)]
pub struct QueryExecutionRecord {
    pub query: String,
    pub execution_time_ms: u64,
}

/// The ordering the time summaries sort by.
pub open spec fn spec_leq_u64() -> spec_fn(u64, u64) -> bool {
    |a: u64, b: u64| a <= b
}

/// The execution times of a record list, in order.
pub open spec fn spec_record_times(rs: Seq<QueryExecutionRecord>) -> Seq<u64> {
    rs.map_values(|r: QueryExecutionRecord| r.execution_time_ms)
}

/// The sum of a sequence of times.
pub open spec fn spec_sum(s: Seq<u64>) -> int
    decreases s.len(),
{
    if s.len() == 0 {
        0
    } else {
        spec_sum(s.drop_last()) + s.last()
    }
}

/// The index of the slowest record; among ties, the last.
pub open spec fn spec_slowest_idx(times: Seq<u64>) -> int
    recommends
        times.len() > 0,
    decreases times.len(),
{
    if times.len() <= 1 {
        0
    } else {
        let r = spec_slowest_idx(times.drop_last());
        if times.last() >= times[r] {
            times.len() - 1
        } else {
            r
        }
    }
}

/// The slowest index lies inside the list.
pub proof fn lemma_slowest_idx_range(times: Seq<u64>)
    requires
        times.len() > 0,
    ensures
        0 <= spec_slowest_idx(times) < times.len(),
    decreases times.len(),
{
    if times.len() > 1 {
        lemma_slowest_idx_range(times.drop_last());
    }
}

/// The nearest-rank percentile of a sorted sequence.
pub open spec fn spec_percentile(sorted: Seq<u64>, p: int) -> u64 {
    if sorted.len() == 0 {
        0
    } else if p <= 0 {
        sorted[0]
    } else if p >= 100 {
        sorted[sorted.len() - 1]
    } else {
        let idx0 = (p * sorted.len() + 99) / 100 - 1;
        let idx = if idx0 < sorted.len() - 1 {
            idx0
        } else {
            sorted.len() - 1
        };
        sorted[idx]
    }
}

/// Calculate a percentile of a sorted list using the nearest-rank
/// method.
pub fn percentile(sorted_values: &Vec<u64>, p: u64) -> (r: u64)
    ensures
        r == spec_percentile(sorted_values@, p as int),
{
    if sorted_values.len() == 0 {
        return 0;
    }
    if p == 0 {
        return sorted_values[0];
    }
    if p >= 100 {
        return sorted_values[sorted_values.len() - 1];
    }
    let n = sorted_values.len();
    proof {
        assert(1 * 1 <= (p as int) * (n as int) <= 99 * (n as int)) by (nonlinear_arith)
            requires
                1 <= p < 100,
                1 <= n,
        ;
    }
    let idx0_wide: u128 = ((p as u128) * (n as u128) + 99) / 100 - 1;
    let idx0: usize = if idx0_wide < (n as u128) - 1 {
        idx0_wide as usize
    } else {
        n - 1
    };
    proof {
        assert((p as int) * (n as int) + 99 >= 100);
    }
    sorted_values[idx0]
}

/// Sort times ascending.  The result is the (unique) sorted
/// arrangement of the input's multiset.
fn sort_times(input: &Vec<u64>) -> (r: Vec<u64>)
    ensures
        r@ == input@.sort_by(spec_leq_u64()),
{
    let ghost leq = spec_leq_u64();
    proof {
        broadcast use vstd::seq_lib::group_to_multiset_ensures;

        assert(total_ordering(leq));
    }
    let mut out: Vec<u64> = Vec::new();
    let mut i: usize = 0;
    while i < input.len()
        invariant
            i <= input@.len(),
            leq == spec_leq_u64(),
            total_ordering(leq),
            sorted_by(out@, leq),
            out@.to_multiset() == input@.take(i as int).to_multiset(),
        decreases input@.len() - i,
    {
        proof {
            broadcast use vstd::seq_lib::group_to_multiset_ensures;
        }
        let x = input[i];
        // Find the first position whose element exceeds x.
        let mut pos: usize = 0;
        while pos < out.len() && out[pos] <= x
            invariant
                pos <= out@.len(),
                forall|q: int| 0 <= q < pos ==> #[trigger] out@[q] <= x,
            decreases out@.len() - pos,
        {
            pos += 1;
        }
        let ghost out_before = out@;
        out.insert(pos, x);
        proof {
            broadcast use vstd::seq_lib::group_to_multiset_ensures;

            // Sortedness: everything before `pos` is at most x,
            // everything after is at least x.
            assert forall|a: int, b: int| 0 <= a < b < out@.len() implies leq(out@[a], out@[b]) by {
                let p = pos as int;
                if a < p && b == p {
                } else if a == p && b > p {
                    assert(out@[b] == out_before[b - 1]);
                    if p < out_before.len() {
                        assert(!(out_before[p] <= x));
                        if b - 1 > p {
                            assert(leq(out_before[p], out_before[b - 1]));
                        }
                    }
                } else if a < p && b > p {
                    assert(out@[a] == out_before[a]);
                    assert(out@[b] == out_before[b - 1]);
                    assert(leq(out_before[a], out_before[b - 1]));
                } else if a > p && b > p {
                    assert(leq(out_before[a - 1], out_before[b - 1]));
                } else if a < p && b < p {
                    assert(leq(out_before[a], out_before[b]));
                }
            }
            // Multiset: inserting x adds one x.
            assert(out@.remove(pos as int) =~= out_before);
            assert(out@.remove(pos as int).to_multiset() =~= out@.to_multiset().remove(x));
            assert(out@[pos as int] == x);
            assert(out@.to_multiset().contains(x));
            assert(out@.to_multiset() =~= out_before.to_multiset().insert(x));
            assert(input@.take(i + 1).drop_last() =~= input@.take(i as int));
            assert(input@.take(i + 1) =~= input@.take(i as int).push(x));
            assert(input@.take(i + 1).to_multiset() =~= input@.take(
                i as int,
            ).to_multiset().insert(x));
        }
        i += 1;
    }
    proof {
        assert(input@.take(input@.len() as int) =~= input@);
        input@.lemma_sort_by_ensures(leq);
        lemma_sorted_unique(out@, input@.sort_by(leq), leq);
        assert(out@ =~= input@.sort_by(leq));
    }
    out
}

/// Query runtime statistics: average, extremes and percentiles, in
/// milliseconds.
#[derive(Debug)]
pub struct QueryRuntimeStats {
    pub avg_ms: u64,
    pub fastest_ms: u64,
    pub slowest_ms: u64,
    pub p90_ms: u64,
    pub p99_ms: u64,
    pub slowest_query: String,
}

impl QueryRuntimeStats {
    /// Create runtime statistics from a collection of execution
    /// records: `None` when there are none.
    pub fn from_records(records: &Vec<QueryExecutionRecord>) -> (r: Option<QueryRuntimeStats>)
        ensures
            r is Some <==> records@.len() > 0,
            r is Some ==> ({
                let times = spec_record_times(records@);
                let sorted = times.sort_by(spec_leq_u64());
                let st = r.unwrap();
                &&& st.avg_ms == spec_sum(times) / times.len() as int
                &&& st.fastest_ms == sorted[0]
                &&& st.slowest_ms == sorted[sorted.len() - 1]
                &&& st.p90_ms == spec_percentile(sorted, 90)
                &&& st.p99_ms == spec_percentile(sorted, 99)
                &&& st.slowest_query@ == records@[spec_slowest_idx(times)].query@
            }),
    {
        if records.len() == 0 {
            return None;
        }
        let ghost times = spec_record_times(records@);

        // Collect the times, the running sum, and the (last) slowest
        // record.
        let mut raw: Vec<u64> = Vec::new();
        let mut sum: u128 = 0;
        let mut slow_idx: usize = 0;
        let mut i: usize = 0;
        while i < records.len()
            invariant
                i <= records@.len(),
                records@.len() > 0,
                times == spec_record_times(records@),
                raw@ == times.take(i as int),
                sum == spec_sum(times.take(i as int)),
                sum <= (i as int) * (u64::MAX as int),
                i > 0 ==> slow_idx as int == spec_slowest_idx(times.take(i as int)),
                slow_idx < records@.len(),
            decreases records@.len() - i,
        {
            let t = records[i].execution_time_ms;
            proof {
                if i > 0 {
                    lemma_slowest_idx_range(times.take(i as int));
                }
                assert(times.take(i + 1).drop_last() =~= times.take(i as int));
                assert(times[i as int] == t);
                assert((i as int) * (u64::MAX as int) + (u64::MAX as int) == ((i + 1) as int) * (
                u64::MAX as int)) by (nonlinear_arith);
            }
            raw.push(t);
            sum = sum + (t as u128);
            if i == 0 {
                slow_idx = 0;
            } else if t >= records[slow_idx].execution_time_ms {
                proof {
                    assert(times.take(i + 1)[spec_slowest_idx(times.take(i as int))]
                        == times.take(i as int)[spec_slowest_idx(times.take(i as int))]);
                }
                slow_idx = i;
            } else {
                proof {
                    assert(times.take(i + 1)[spec_slowest_idx(times.take(i as int))]
                        == times.take(i as int)[spec_slowest_idx(times.take(i as int))]);
                }
            }
            proof {
                assert(raw@ =~= times.take(i + 1));
            }
            i += 1;
        }
        proof {
            assert(times.take(times.len() as int) =~= times);
        }

        let sorted = sort_times(&raw);
        proof {
            broadcast use vstd::seq_lib::group_to_multiset_ensures;

            times.lemma_sort_by_ensures(spec_leq_u64());
            assert(raw@ == times);
            assert(sorted@ == times.sort_by(spec_leq_u64()));
            assert(times.sort_by(spec_leq_u64()).to_multiset() =~= times.to_multiset());
            assert(sorted@.to_multiset().len() == sorted@.len());
            assert(times.to_multiset().len() == times.len());
            assert(sorted@.len() == times.len());
            lemma_slowest_idx_range(times);
        }
        let count = sorted.len();
        let avg = (sum / (count as u128)) as u64;
        proof {
            assert(spec_sum(times) / times.len() as int <= u64::MAX) by {
                assert(spec_sum(times) <= (times.len() as int) * (u64::MAX as int));
                assert((times.len() as int) * (u64::MAX as int) / (times.len() as int) == (
                u64::MAX as int)) by (nonlinear_arith)
                    requires
                        times.len() > 0,
                ;
                vstd::arithmetic::div_mod::lemma_div_is_ordered(
                    spec_sum(times),
                    (times.len() as int) * (u64::MAX as int),
                    times.len() as int,
                );
            }
        }
        let fastest = sorted[0];
        let slowest = sorted[count - 1];
        let p90 = percentile(&sorted, 90);
        let p99 = percentile(&sorted, 99);
        let slowest_query = records[slow_idx].query.clone();
        Some(
            QueryRuntimeStats {
                avg_ms: avg,
                fastest_ms: fastest,
                slowest_ms: slowest,
                p90_ms: p90,
                p99_ms: p99,
                slowest_query,
            },
        )
    }
}

/// Live statistics for the fuzzing process.
#[derive(Debug)]
pub struct FuzzerStats {
    pub rounds_completed: u32,
    pub total_rounds: u32,
    pub queries_executed: u64,
    pub queries_succeeded: u64,
    pub queries_slow: u64,
    pub last_sample_time_ms: u64,
    pub recent_query: String,
    pub query_execution_records: Vec<QueryExecutionRecord>,
    pub slow_query_threshold_ms: u64,
}

/// Statistics formatted for a live display.
#[derive(Debug)]
pub struct TuiStats {
    pub rounds_completed: u32,
    pub total_rounds: u32,
    pub queries_executed: u64,
    pub queries_succeeded: u64,
    pub queries_slow: u64,
    pub success_rate_percent: u64,
    pub queries_per_second: u64,
    pub running_time_ms: u64,
    pub recent_query: String,
    pub query_runtime_stats: Option<QueryRuntimeStats>,
}

impl FuzzerStats {
    /// Create new statistics with the specified total rounds and the
    /// default slow-query threshold of one second.
    pub fn new(total_rounds: u32) -> (r: Self)
        ensures
            r.rounds_completed == 0,
            r.total_rounds == total_rounds,
            r.queries_executed == 0,
            r.queries_succeeded == 0,
            r.queries_slow == 0,
            r.query_execution_records@.len() == 0,
            r.slow_query_threshold_ms == 1000,
            r.recent_query@.len() == 0,
    {
        Self::new_with_timeout(total_rounds, 1000)
    }

    /// Create new statistics with the specified total rounds and
    /// slow-query threshold.
    pub fn new_with_timeout(total_rounds: u32, slow_query_threshold_ms: u64) -> (r: Self)
        ensures
            r.rounds_completed == 0,
            r.total_rounds == total_rounds,
            r.queries_executed == 0,
            r.queries_succeeded == 0,
            r.queries_slow == 0,
            r.query_execution_records@.len() == 0,
            r.slow_query_threshold_ms == slow_query_threshold_ms,
            r.recent_query@.len() == 0,
    {
        FuzzerStats {
            rounds_completed: 0,
            total_rounds,
            queries_executed: 0,
            queries_succeeded: 0,
            queries_slow: 0,
            last_sample_time_ms: 0,
            recent_query: String::new(),
            query_execution_records: Vec::new(),
            slow_query_threshold_ms,
        }
    }

    /// Record one executed query: bump the counters and, when enough
    /// time has passed since the last sample (or nothing is shown
    /// yet), sample the query text for display.
    pub fn record_query(&mut self, query: &str, success: bool, now_ms: u64, sample_interval_secs: u64)
        requires
            old(self).queries_executed < u64::MAX,
            old(self).queries_succeeded < u64::MAX,
            sample_interval_secs <= 1_000_000,
        ensures
            final(self).queries_executed == old(self).queries_executed + 1,
            final(self).queries_succeeded == old(self).queries_succeeded + (if success {
                1int
            } else {
                0int
            }),
            ({
                let was_empty = old(self).recent_query@.len() == 0;
                let due = now_ms >= old(self).last_sample_time_ms + sample_interval_secs * 1000;
                let sampled = was_empty || due;
                &&& sampled ==> final(self).recent_query@ == query@
                &&& sampled ==> final(self).last_sample_time_ms == now_ms
                &&& !sampled ==> final(self).recent_query@ == old(self).recent_query@
                &&& !sampled ==> final(self).last_sample_time_ms == old(self).last_sample_time_ms
            }),
            final(self).queries_slow == old(self).queries_slow,
            final(self).query_execution_records@ == old(self).query_execution_records@,
            final(self).rounds_completed == old(self).rounds_completed,
            final(self).total_rounds == old(self).total_rounds,
            final(self).slow_query_threshold_ms == old(self).slow_query_threshold_ms,
    {
        self.queries_executed = self.queries_executed + 1;
        if success {
            self.queries_succeeded = self.queries_succeeded + 1;
        }
        let elapsed_ok = self.recent_query.as_str().unicode_len() == 0 || (now_ms
            >= self.last_sample_time_ms && now_ms - self.last_sample_time_ms
            >= sample_interval_secs * 1000);
        if elapsed_ok {
            self.last_sample_time_ms = now_ms;
            self.recent_query = query.to_owned();
        }
    }

    /// Record one executed query together with its runtime; a query
    /// that took at least nine tenths of the threshold counts as slow.
    pub fn record_query_with_time(
        &mut self,
        query: &str,
        success: bool,
        execution_time_ms: u64,
        now_ms: u64,
        sample_interval_secs: u64,
    )
        requires
            old(self).queries_executed < u64::MAX,
            old(self).queries_succeeded < u64::MAX,
            old(self).queries_slow < u64::MAX,
            sample_interval_secs <= 1_000_000,
            execution_time_ms <= 1_000_000_000_000,
            old(self).slow_query_threshold_ms <= 1_000_000_000_000,
        ensures
            final(self).queries_executed == old(self).queries_executed + 1,
            final(self).queries_succeeded == old(self).queries_succeeded + (if success {
                1int
            } else {
                0int
            }),
            final(self).query_execution_records@.len() == old(self).query_execution_records@.len()
                + 1,
            final(self).query_execution_records@.last().query@ == query@,
            final(self).query_execution_records@.last().execution_time_ms == execution_time_ms,
            forall|q: int|
                0 <= q < old(self).query_execution_records@.len()
                    ==> #[trigger] final(self).query_execution_records@[q] == old(
                self).query_execution_records@[q],
            final(self).queries_slow == old(self).queries_slow + (if execution_time_ms * 10 >= old(
                self).slow_query_threshold_ms * 9 {
                1int
            } else {
                0int
            }),
            ({
                let was_empty = old(self).recent_query@.len() == 0;
                let due = now_ms >= old(self).last_sample_time_ms + sample_interval_secs * 1000;
                let sampled = was_empty || due;
                &&& sampled ==> final(self).recent_query@ == query@
                &&& sampled ==> final(self).last_sample_time_ms == now_ms
                &&& !sampled ==> final(self).recent_query@ == old(self).recent_query@
                &&& !sampled ==> final(self).last_sample_time_ms == old(self).last_sample_time_ms
            }),
            final(self).rounds_completed == old(self).rounds_completed,
            final(self).total_rounds == old(self).total_rounds,
            final(self).slow_query_threshold_ms == old(self).slow_query_threshold_ms,
    {
        self.record_query(query, success, now_ms, sample_interval_secs);
        self.query_execution_records.push(
            QueryExecutionRecord { query: query.to_owned(), execution_time_ms },
        );
        if execution_time_ms * 10 >= self.slow_query_threshold_ms * 9 {
            self.queries_slow = self.queries_slow + 1;
        }
    }

    /// Complete a round of fuzzing.
    pub fn complete_round(&mut self)
        requires
            old(self).rounds_completed < u32::MAX,
        ensures
            final(self).rounds_completed == old(self).rounds_completed + 1,
            final(self).total_rounds == old(self).total_rounds,
            final(self).queries_executed == old(self).queries_executed,
            final(self).queries_succeeded == old(self).queries_succeeded,
            final(self).queries_slow == old(self).queries_slow,
            final(self).query_execution_records@ == old(self).query_execution_records@,
    {
        self.rounds_completed = self.rounds_completed + 1;
    }

    /// Get statistics formatted for a live display, given the elapsed
    /// run time.
    pub fn get_tui_stats(&self, elapsed_ms: u64) -> (r: TuiStats)
        requires
            self.queries_executed <= 1_000_000_000_000,
            self.queries_succeeded <= self.queries_executed,
        ensures
            r.rounds_completed == self.rounds_completed,
            r.total_rounds == self.total_rounds,
            r.queries_executed == self.queries_executed,
            r.queries_succeeded == self.queries_succeeded,
            r.queries_slow == self.queries_slow,
            r.success_rate_percent == if self.queries_executed > 0 {
                (self.queries_succeeded as int) * 100 / (self.queries_executed as int)
            } else {
                0
            },
            r.queries_per_second == if elapsed_ms > 0 {
                (self.queries_executed as int) * 1000 / (elapsed_ms as int)
            } else {
                0
            },
            r.running_time_ms == elapsed_ms,
            r.recent_query@ == self.recent_query@,
            r.query_runtime_stats is Some <==> self.query_execution_records@.len() > 0,
    {
        proof {
            if self.queries_executed > 0 {
                assert((self.queries_succeeded as int) * 100 <= (self.queries_executed as int)
                    * 100) by (nonlinear_arith)
                    requires
                        self.queries_succeeded <= self.queries_executed,
                ;
                vstd::arithmetic::div_mod::lemma_div_is_ordered(
                    (self.queries_succeeded as int) * 100,
                    (self.queries_executed as int) * 100,
                    self.queries_executed as int,
                );
                assert((self.queries_executed as int) * 100 / (self.queries_executed as int)
                    == 100) by (nonlinear_arith)
                    requires
                        self.queries_executed >= 1,
                ;
            }
        }
        let success_rate_percent: u64 = if self.queries_executed > 0 {
            (((self.queries_succeeded as u128) * 100 / (self.queries_executed as u128)) as u64)
        } else {
            0
        };
        proof {
            if elapsed_ms > 0 {
                assert((self.queries_executed as int) * 1000 <= 1_000_000_000_000int * 1000)
                    by (nonlinear_arith)
                    requires
                        self.queries_executed <= 1_000_000_000_000,
                ;
                vstd::arithmetic::div_mod::lemma_div_is_ordered(
                    (self.queries_executed as int) * 1000,
                    1_000_000_000_000int * 1000,
                    elapsed_ms as int,
                );
                vstd::arithmetic::div_mod::lemma_div_is_ordered(
                    1_000_000_000_000int * 1000,
                    (u64::MAX as int) * (elapsed_ms as int),
                    elapsed_ms as int,
                ) ;
                assert(1_000_000_000_000int * 1000 <= (u64::MAX as int) * (elapsed_ms as int)
                    || elapsed_ms == 0 || (self.queries_executed as int) * 1000 / (
                elapsed_ms as int) <= u64::MAX);
            }
        }
        let queries_per_second: u64 = if elapsed_ms > 0 {
            ((self.queries_executed as u128) * 1000 / (elapsed_ms as u128)) as u64
        } else {
            0
        };
        TuiStats {
            rounds_completed: self.rounds_completed,
            total_rounds: self.total_rounds,
            queries_executed: self.queries_executed,
            queries_succeeded: self.queries_succeeded,
            queries_slow: self.queries_slow,
            success_rate_percent,
            queries_per_second,
            running_time_ms: elapsed_ms,
            recent_query: self.recent_query.clone(),
            query_runtime_stats: QueryRuntimeStats::from_records(&self.query_execution_records),
        }
    }
}

} // verus!
