//! Fan-out of the pipeline across hosts with bounded parallelism.
//!
//! One context is built per host; a counting gate caps how many pipelines
//! are mid-flight; cancellation stops new pipelines from being scheduled but
//! lets the running ones finish their cleanup. One host's failure never
//! aborts another's pipeline: after all resolve, the aggregate names every
//! failed host, or reports success when none failed.

use vstd::prelude::*;
use crate::context::ReignOperation;
use crate::errors::ReignError;

verus! {

/// Relies on num_cpus::get: the number of logical processors available to
/// this process, documented to always be at least 1.
#[verifier::external_body]
fn available_parallelism() -> (r: usize)
    ensures
        r >= 1,
{
    num_cpus::get()
}

/// Relies on chrono::Local::now: the current local time, read as seconds
/// since the Unix epoch. The value depends on the clock, so nothing is
/// promised of it.
#[verifier::external_body]
fn now_unix_seconds() -> (r: i64) {
    chrono::Local::now().timestamp()
}

/// Whole seconds from `start` to `end`; a clock that moved backwards reads
/// as zero rather than as a huge unsigned value.
pub open spec fn spec_elapsed_seconds(start: i64, end: i64) -> u64 {
    if end >= start {
        (end - start) as u64
    } else {
        0
    }
}

/// Whole seconds from `start` to `end`, clamped at zero.
pub fn elapsed_seconds(start: i64, end: i64) -> (r: u64)
    ensures
        r == spec_elapsed_seconds(start, end),
{
    if end >= start {
        let wide: i128 = end as i128 - start as i128;
        wide as u64
    } else {
        0
    }
}

/// A started timer for one host's report.
#[derive(Clone, Copy, Debug)]
pub struct Stopwatch {
    /// The Unix second at which the timer started.
    pub started_at: i64,
}

impl Stopwatch {
    /// Start timing now.
    pub fn start() -> Stopwatch {
        Stopwatch { started_at: now_unix_seconds() }
    }

    /// Whole seconds since the start, clamped at zero. The clock decides the
    /// value; `elapsed_seconds` pins how it is computed.
    pub fn elapsed(&self) -> u64 {
        elapsed_seconds(self.started_at, now_unix_seconds())
    }
}

/// The counting gate that caps concurrently mid-flight pipelines.
#[derive(Debug)]
pub struct ConcurrencyGate {
    /// The cap: at most this many pipelines run at once.
    pub limit: usize,
    /// How many pipelines hold a slot right now.
    pub in_flight: usize,
}

/// The semaphore never admits more than its limit.
pub open spec fn gate_wf(g: ConcurrencyGate) -> bool {
    g.limit >= 1 && g.in_flight <= g.limit
}

/// One scheduling step seen by the semaphore.
#[derive(Clone, Copy, Debug, PartialEq, Eq, Structural)]
pub enum GateEvent {
    /// A pipeline asked to start (admitted only below the limit).
    Start,
    /// A mid-flight pipeline resolved.
    Finish,
}

/// How the semaphore moves: a start below the limit admits one pipeline, a start
/// at the limit is refused, a finish releases one slot.
pub open spec fn spec_gate_step(g: ConcurrencyGate, e: GateEvent) -> ConcurrencyGate {
    match e {
        GateEvent::Start => if g.in_flight < g.limit {
            ConcurrencyGate { in_flight: (g.in_flight + 1) as usize, ..g }
        } else {
            g
        },
        GateEvent::Finish => if g.in_flight > 0 {
            ConcurrencyGate { in_flight: (g.in_flight - 1) as usize, ..g }
        } else {
            g
        },
    }
}

/// Every state the semaphore passes through under a sequence of events.
pub open spec fn spec_gate_trace(g: ConcurrencyGate, events: Seq<GateEvent>) -> Seq<
    ConcurrencyGate,
>
    decreases events.len(),
{
    if events.len() == 0 {
        seq![g]
    } else {
        seq![g] + spec_gate_trace(spec_gate_step(g, events[0]), events.drop_first())
    }
}

/// However many pipelines ask and in whatever order they start and finish,
/// at no point are more than `limit` pipelines mid-flight.
pub proof fn lemma_gate_bounds_in_flight(g: ConcurrencyGate, events: Seq<GateEvent>)
    requires
        gate_wf(g),
    ensures
        forall|i: int|
            0 <= i < spec_gate_trace(g, events).len() ==> (#[trigger] spec_gate_trace(g, events)[i]).in_flight
                <= g.limit,
    decreases events.len(),
{
    if events.len() > 0 {
        let g2 = spec_gate_step(g, events[0]);
        assert(gate_wf(g2));
        lemma_gate_bounds_in_flight(g2, events.drop_first());
        let t = spec_gate_trace(g, events);
        let t2 = spec_gate_trace(g2, events.drop_first());
        assert forall|i: int| 0 <= i < t.len() implies (#[trigger] t[i]).in_flight <= g.limit by {
            if i > 0 {
                assert(t[i] == t2[i - 1]);
            }
        }
    }
}

impl ConcurrencyGate {
    /// A gate admitting at most `limit` pipelines at once.
    pub fn new(limit: usize) -> (r: Self)
        requires
            limit >= 1,
        ensures
            r.limit == limit,
            r.in_flight == 0,
            gate_wf(r),
    {
        ConcurrencyGate { limit, in_flight: 0 }
    }

    /// A gate with the default cap: the available processing units.
    pub fn with_default_limit() -> (r: Self)
        ensures
            r.limit >= 1,
            r.in_flight == 0,
            gate_wf(r),
    {
        let limit = available_parallelism();
        ConcurrencyGate { limit, in_flight: 0 }
    }

    /// Ask to start one pipeline: admitted exactly when the count of
    /// mid-flight pipelines is below the limit.
    pub fn try_start(&mut self) -> (r: bool)
        ensures
            r == (old(self).in_flight < old(self).limit),
            *final(self) == spec_gate_step(*old(self), GateEvent::Start),
            gate_wf(*old(self)) ==> gate_wf(*final(self)),
    {
        if self.in_flight < self.limit {
            self.in_flight = self.in_flight + 1;
            true
        } else {
            false
        }
    }

    /// One mid-flight pipeline resolved; its slot is free again.
    pub fn finish(&mut self)
        requires
            old(self).in_flight >= 1,
        ensures
            *final(self) == spec_gate_step(*old(self), GateEvent::Finish),
            gate_wf(*old(self)) ==> gate_wf(*final(self)),
    {
        self.in_flight = self.in_flight - 1;
    }
}

/// Whether the scheduler may start another pipeline: only while not
/// cancelled and only below the concurrency limit. After a cancellation no
/// new pipeline starts, while the ones mid-flight keep their slots until
/// they resolve (and so still run their cleanup).
pub fn may_schedule(cancelled: bool, gate: &ConcurrencyGate) -> (r: bool)
    ensures
        r == (!cancelled && gate.in_flight < gate.limit),
{
    !cancelled && gate.in_flight < gate.limit
}

/// One host's resolved pipeline, with its timing for the final report.
#[derive(Debug)]
pub struct HostReport {
    /// The host this pipeline deployed to.
    pub host: String,
    /// How the host's pipeline resolved.
    pub outcome: Result<(), ReignError>,
    /// Whole seconds the host's pipeline took.
    pub seconds: u64,
}

/// The hosts whose pipelines failed, in report order.
pub open spec fn spec_failed_hosts(reports: Seq<HostReport>) -> Seq<Seq<char>>
    decreases reports.len(),
{
    if reports.len() == 0 {
        Seq::empty()
    } else {
        spec_failed_hosts(reports.drop_last()) + if reports.last().outcome is Err {
            seq![reports.last().host@]
        } else {
            Seq::empty()
        }
    }
}

/// The aggregate verdict when at least one host failed: every failed host,
/// named.
#[derive(Debug)]
pub struct AggregateFailure {
    /// The failed hosts, in report order.
    pub failed_hosts: Vec<String>,
}

/// Name every host whose pipeline failed, in order.
pub fn failed_hosts(reports: &Vec<HostReport>) -> (r: Vec<String>)
    ensures
        r@.map_values(|h: String| h@) == spec_failed_hosts(reports@),
{
    let mut out: Vec<String> = Vec::new();
    let n = reports.len();
    let mut i: usize = 0;
    while i < n
        invariant
            n == reports@.len(),
            i <= n,
            out@.map_values(|h: String| h@) =~= spec_failed_hosts(reports@.subrange(0, i as int)),
        decreases n - i,
    {
        let ghost prev = out@;
        if reports[i].outcome.is_err() {
            out.push(reports[i].host.clone());
        }
        proof {
            assert(reports@.subrange(0, i as int + 1).drop_last() =~= reports@.subrange(
                0,
                i as int,
            ));
            assert(reports@.subrange(0, i as int + 1).last() == reports@[i as int]);
            if reports@[i as int].outcome is Err {
                assert(out@.map_values(|h: String| h@) =~= prev.map_values(|h: String| h@).push(
                    reports@[i as int].host@,
                ));
            }
        }
        i += 1;
    }
    proof {
        assert(reports@.subrange(0, n as int) =~= reports@);
    }
    out
}

/// Collect the fan-out: success when every host succeeded, otherwise a
/// failure naming exactly the hosts that failed. No failure is ever dropped.
pub fn aggregate(reports: &Vec<HostReport>) -> (r: Result<(), AggregateFailure>)
    ensures
        r is Ok <==> spec_failed_hosts(reports@).len() == 0,
        r matches Err(f) ==> f.failed_hosts@.map_values(|h: String| h@) == spec_failed_hosts(
            reports@,
        ),
{
    let failed = failed_hosts(reports);
    if failed.len() == 0 {
        proof {
            assert(failed@.map_values(|h: String| h@).len() == 0);
        }
        Ok(())
    } else {
        Err(AggregateFailure { failed_hosts: failed })
    }
}

/// Build one operation context per host. At least one host is required;
/// an empty host list is the argument error, never a silent no-op.
pub fn build_operations(
    reign_name: &str,
    inventory: &str,
    remote_hosts: &Vec<String>,
    remote_user: &String,
    debug: &String,
    skip_env_validation: &String,
) -> (r: Result<Vec<ReignOperation>, ReignError>)
    ensures
        r is Ok <==> remote_hosts@.len() >= 1,
        r matches Ok(ops) ==> {
            &&& ops@.len() == remote_hosts@.len()
            &&& forall|i: int|
                0 <= i < ops@.len() ==> {
                    &&& (#[trigger] ops@[i]).reign_name@ == reign_name@
                    &&& ops@[i].inventory@ == inventory@
                    &&& ops@[i].remote_host@ == remote_hosts@[i]@
                    &&& ops@[i].remote_user@ == remote_user@
                    &&& ops@[i].op_uuid@.len() == 36
                    &&& ops@[i].default_env@.len() == 3
                    &&& ops@[i].default_env@[0].0@ == "DEBUG"@
                    &&& ops@[i].default_env@[0].1@ == debug@
                    &&& ops@[i].default_env@[1].0@ == "RUN_AS"@
                    &&& ops@[i].default_env@[1].1@ == remote_user@
                    &&& ops@[i].default_env@[2].0@ == "SKIP_ENV_VALIDATION"@
                    &&& ops@[i].default_env@[2].1@ == skip_env_validation@
                }
        },
        r matches Err(e) ==> e == (ReignError::InsufficientArguments { given: 0 })
            && remote_hosts@.len() == 0,
{
    if remote_hosts.len() == 0 {
        return Err(ReignError::InsufficientArguments { given: 0 });
    }
    let mut ops: Vec<ReignOperation> = Vec::new();
    let n = remote_hosts.len();
    let mut i: usize = 0;
    while i < n
        invariant
            n == remote_hosts@.len(),
            i <= n,
            ops@.len() == i,
            forall|j: int|
                0 <= j < i ==> {
                    &&& (#[trigger] ops@[j]).reign_name@ == reign_name@
                    &&& ops@[j].inventory@ == inventory@
                    &&& ops@[j].remote_host@ == remote_hosts@[j]@
                    &&& ops@[j].remote_user@ == remote_user@
                    &&& ops@[j].op_uuid@.len() == 36
                    &&& ops@[j].default_env@.len() == 3
                    &&& ops@[j].default_env@[0].0@ == "DEBUG"@
                    &&& ops@[j].default_env@[0].1@ == debug@
                    &&& ops@[j].default_env@[1].0@ == "RUN_AS"@
                    &&& ops@[j].default_env@[1].1@ == remote_user@
                    &&& ops@[j].default_env@[2].0@ == "SKIP_ENV_VALIDATION"@
                    &&& ops@[j].default_env@[2].1@ == skip_env_validation@
                },
        decreases n - i,
    {
        let op = ReignOperation::new(
            reign_name,
            inventory,
            remote_hosts[i].as_str(),
            remote_user.clone(),
            debug.clone(),
            skip_env_validation.clone(),
        );
        ops.push(op);
        i += 1;
    }
    Ok(ops)
}

} // verus!
