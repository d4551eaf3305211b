//! The per-host deployment pipeline and its failure policy.
//!
//! Six stages run for one operation: package and provision (unordered, both
//! must finish), then transfer, unpack and invoke in strict order, then
//! cleanup, which is attempted whatever happened before. The caller performs
//! the stages' external work and feeds each outcome back as an event; every
//! transition and the reported result are decided here.

use vstd::prelude::*;
use crate::context::ReignOperation;
use crate::errors::ReignError;

verus! {

/// Result of one stage's external work.
pub type StageResult = Result<(), ReignError>;

/// Where one host's pipeline stands.
#[derive(Debug, PartialEq, Eq)]
pub enum PipelineState {
    /// Not started; nothing was dispatched yet.
    Pending,
    /// Packaging and provisioning are in flight, unordered.
    Preparing,
    /// Stages 1 and 2 succeeded; the artifact is being copied over.
    Transferring,
    /// The artifact arrived; it is being extracted in the workspace.
    Unpacking,
    /// The named remote operation is running.
    Invoking,
    /// Cleanup is in flight. `pending` holds the failure to report once
    /// cleanup resolves; `None` when every stage so far succeeded.
    CleaningUp { pending: Option<ReignError> },
    /// Terminal: stages 1 to 5 all succeeded (and, under the strict policy,
    /// cleanup too).
    Succeeded,
    /// Terminal: the pipeline failed with the earliest actionable error.
    Failed { error: ReignError },
}

/// What happened outside: the scheduler started the pipeline, or one round
/// of external work resolved.
#[derive(Debug, PartialEq, Eq)]
pub enum PipelineEvent {
    /// The scheduler picked this pipeline up.
    Started,
    /// Packaging and provisioning both finished, in either order.
    Prepared(StageResult, StageResult),
    /// The secure copy finished.
    Transferred(StageResult),
    /// The remote extraction finished.
    Unpacked(StageResult),
    /// The remote operation finished.
    Invoked(StageResult),
    /// Cleanup finished (remote workspace removal and local artifact
    /// deletion, with a remote failure already demoted to a log line).
    CleanedUp(StageResult),
}

/// What the caller should do next for this pipeline.
#[derive(Clone, Copy, Debug, PartialEq, Eq)]
pub enum PipelineAction {
    /// Report the pipeline started.
    Start,
    /// Run packaging and provisioning, concurrently if convenient.
    RunPackageAndProvision,
    /// Run the secure copy of the artifact.
    RunTransfer,
    /// Extract the artifact in the remote workspace.
    RunUnpack,
    /// Run the named remote operation.
    RunInvoke,
    /// Remove the remote workspace and delete the local artifact.
    RunCleanup,
    /// Terminal: nothing is left to do.
    Done,
}

/// The transition relation. Strictness decides the one open policy point:
/// whether a cleanup failure after a fully successful run fails the host
/// (`strict_cleanup` true) or is only logged (false, the default). An event
/// that does not belong to the current state changes nothing.
pub open spec fn spec_step(
    s: PipelineState,
    e: PipelineEvent,
    strict_cleanup: bool,
) -> PipelineState {
    match (s, e) {
        (PipelineState::Pending, PipelineEvent::Started) => PipelineState::Preparing,
        (PipelineState::Preparing, PipelineEvent::Prepared(package, provision)) => match package {
            Err(err) => PipelineState::CleaningUp { pending: Some(err) },
            Ok(()) => match provision {
                Err(err) => PipelineState::CleaningUp { pending: Some(err) },
                Ok(()) => PipelineState::Transferring,
            },
        },
        (PipelineState::Transferring, PipelineEvent::Transferred(r)) => match r {
            Err(err) => PipelineState::CleaningUp { pending: Some(err) },
            Ok(()) => PipelineState::Unpacking,
        },
        (PipelineState::Unpacking, PipelineEvent::Unpacked(r)) => match r {
            Err(err) => PipelineState::CleaningUp { pending: Some(err) },
            Ok(()) => PipelineState::Invoking,
        },
        (PipelineState::Invoking, PipelineEvent::Invoked(r)) => match r {
            Err(err) => PipelineState::CleaningUp { pending: Some(err) },
            Ok(()) => PipelineState::CleaningUp { pending: None },
        },
        (PipelineState::CleaningUp { pending }, PipelineEvent::CleanedUp(r)) => match pending {
            Some(err) => PipelineState::Failed { error: err },
            None => match r {
                Ok(()) => PipelineState::Succeeded,
                Err(err) => if strict_cleanup {
                    PipelineState::Failed { error: err }
                } else {
                    PipelineState::Succeeded
                },
            },
        },
        (other, _) => other,
    }
}

/// The work owed in each state.
pub open spec fn spec_action(s: PipelineState) -> PipelineAction {
    match s {
        PipelineState::Pending => PipelineAction::Start,
        PipelineState::Preparing => PipelineAction::RunPackageAndProvision,
        PipelineState::Transferring => PipelineAction::RunTransfer,
        PipelineState::Unpacking => PipelineAction::RunUnpack,
        PipelineState::Invoking => PipelineAction::RunInvoke,
        PipelineState::CleaningUp { .. } => PipelineAction::RunCleanup,
        PipelineState::Succeeded => PipelineAction::Done,
        PipelineState::Failed { .. } => PipelineAction::Done,
    }
}

/// States in which one of stages 3 to 5 (transfer, unpack, invoke) is being
/// dispatched.
pub open spec fn is_dispatch_state(s: PipelineState) -> bool {
    s is Transferring || s is Unpacking || s is Invoking
}

/// States from which stages 3 to 5 can never be dispatched again: cleanup
/// is in flight or the pipeline has resolved.
pub open spec fn is_settled_state(s: PipelineState) -> bool {
    s is CleaningUp || s is Succeeded || s is Failed
}

/// The state after a whole sequence of events.
pub open spec fn spec_run_events(
    s: PipelineState,
    events: Seq<PipelineEvent>,
    strict_cleanup: bool,
) -> PipelineState
    decreases events.len(),
{
    if events.len() == 0 {
        s
    } else {
        spec_run_events(spec_step(s, events[0], strict_cleanup), events.drop_first(), strict_cleanup)
    }
}

/// Every state a run passes through, the starting one included.
pub open spec fn spec_trace(
    s: PipelineState,
    events: Seq<PipelineEvent>,
    strict_cleanup: bool,
) -> Seq<PipelineState>
    decreases events.len(),
{
    if events.len() == 0 {
        seq![s]
    } else {
        seq![s] + spec_trace(spec_step(s, events[0], strict_cleanup), events.drop_first(), strict_cleanup)
    }
}

/// Once a pipeline is settled, every later state is settled too: whatever
/// events still arrive, stages 3 to 5 are never dispatched again.
pub proof fn lemma_settled_is_closed(
    s: PipelineState,
    events: Seq<PipelineEvent>,
    strict_cleanup: bool,
)
    requires
        is_settled_state(s),
    ensures
        forall|i: int|
            0 <= i < spec_trace(s, events, strict_cleanup).len() ==> is_settled_state(
                #[trigger] spec_trace(s, events, strict_cleanup)[i],
            ),
    decreases events.len(),
{
    if events.len() > 0 {
        let s2 = spec_step(s, events[0], strict_cleanup);
        assert(is_settled_state(s2));
        lemma_settled_is_closed(s2, events.drop_first(), strict_cleanup);
        let t = spec_trace(s, events, strict_cleanup);
        let t2 = spec_trace(s2, events.drop_first(), strict_cleanup);
        assert forall|i: int| 0 <= i < t.len() implies is_settled_state(t[i]) by {
            if i > 0 {
                assert(t[i] == t2[i - 1]);
            }
        }
    }
}

/// If packaging (stage 1) fails, cleanup still runs at once, and stages 3 to
/// 5 are never dispatched afterwards, whatever the other outcomes were.
pub proof fn lemma_package_failure_skips_to_cleanup(
    package_error: ReignError,
    provision: StageResult,
    later_events: Seq<PipelineEvent>,
    strict_cleanup: bool,
)
    ensures
        spec_step(
            PipelineState::Preparing,
            PipelineEvent::Prepared(Err(package_error), provision),
            strict_cleanup,
        ) == (PipelineState::CleaningUp { pending: Some(package_error) }),
        forall|i: int|
            0 <= i < spec_trace(
                PipelineState::CleaningUp { pending: Some(package_error) },
                later_events,
                strict_cleanup,
            ).len() ==> !is_dispatch_state(
                #[trigger] spec_trace(
                    PipelineState::CleaningUp { pending: Some(package_error) },
                    later_events,
                    strict_cleanup,
                )[i],
            ),
{
    let cleaning = PipelineState::CleaningUp { pending: Some(package_error) };
    lemma_settled_is_closed(cleaning, later_events, strict_cleanup);
}

/// If the remote invocation (stage 5) fails, the reported failure is the
/// invocation's, even when the cleanup that follows fails too.
pub proof fn lemma_invoke_failure_wins_over_cleanup(
    invoke_error: ReignError,
    cleanup: StageResult,
    strict_cleanup: bool,
)
    ensures
        spec_step(
            spec_step(
                PipelineState::Invoking,
                PipelineEvent::Invoked(Err(invoke_error)),
                strict_cleanup,
            ),
            PipelineEvent::CleanedUp(cleanup),
            strict_cleanup,
        ) == (PipelineState::Failed { error: invoke_error }),
{
}

/// A terminal pipeline no longer moves: a second cleanup resolution changes
/// nothing and raises no error.
pub proof fn lemma_second_cleanup_is_noop(
    s: PipelineState,
    cleanup: StageResult,
    strict_cleanup: bool,
)
    requires
        s is Succeeded || s is Failed,
    ensures
        spec_step(s, PipelineEvent::CleanedUp(cleanup), strict_cleanup) == s,
{
}

/// The events one full run feeds the pipeline, given what each stage's
/// external work would return: a failed preparation goes straight to
/// cleanup, a failure at transfer, unpack or invoke aborts the stages after
/// it, and cleanup is always among the events.
pub open spec fn spec_run_plan(
    package: StageResult,
    provision: StageResult,
    transfer: StageResult,
    unpack: StageResult,
    invoke: StageResult,
    cleanup: StageResult,
) -> Seq<PipelineEvent> {
    let middle = if package is Err || provision is Err {
        Seq::empty()
    } else if transfer is Err {
        seq![PipelineEvent::Transferred(transfer)]
    } else if unpack is Err {
        seq![PipelineEvent::Transferred(transfer), PipelineEvent::Unpacked(unpack)]
    } else {
        seq![
            PipelineEvent::Transferred(transfer),
            PipelineEvent::Unpacked(unpack),
            PipelineEvent::Invoked(invoke),
        ]
    };
    seq![PipelineEvent::Started, PipelineEvent::Prepared(package, provision)] + middle + seq![
        PipelineEvent::CleanedUp(cleanup),
    ]
}

/// The one result a full run owes: the earliest stage failure, in stage
/// order; or, when stages 1 to 5 all succeeded, success — with a cleanup
/// failure counting only under the strict policy.
pub open spec fn spec_pipeline_outcome(
    package: StageResult,
    provision: StageResult,
    transfer: StageResult,
    unpack: StageResult,
    invoke: StageResult,
    cleanup: StageResult,
    strict_cleanup: bool,
) -> PipelineState {
    match package {
        Err(e) => PipelineState::Failed { error: e },
        Ok(()) => match provision {
            Err(e) => PipelineState::Failed { error: e },
            Ok(()) => match transfer {
                Err(e) => PipelineState::Failed { error: e },
                Ok(()) => match unpack {
                    Err(e) => PipelineState::Failed { error: e },
                    Ok(()) => match invoke {
                        Err(e) => PipelineState::Failed { error: e },
                        Ok(()) => match cleanup {
                            Err(e) => if strict_cleanup {
                                PipelineState::Failed { error: e }
                            } else {
                                PipelineState::Succeeded
                            },
                            Ok(()) => PipelineState::Succeeded,
                        },
                    },
                },
            },
        },
    }
}

/// Consuming one event of a run: the remaining events run from the stepped
/// state.
proof fn lemma_run_events_cons(
    s: PipelineState,
    e: PipelineEvent,
    rest: Seq<PipelineEvent>,
    strict_cleanup: bool,
)
    ensures
        spec_run_events(s, seq![e] + rest, strict_cleanup) == spec_run_events(
            spec_step(s, e, strict_cleanup),
            rest,
            strict_cleanup,
        ),
{
    let evs = seq![e] + rest;
    assert(evs[0] == e);
    assert(evs.drop_first() =~= rest);
}

/// The whole failure policy in one statement: a full run, fed the six
/// stages' outcomes, ends in the state that reports the earliest failure,
/// and succeeds exactly when stages 1 to 5 all succeeded (under the default
/// policy; under the strict one, cleanup must succeed too).
pub proof fn lemma_full_run_reports_earliest_failure(
    package: StageResult,
    provision: StageResult,
    transfer: StageResult,
    unpack: StageResult,
    invoke: StageResult,
    cleanup: StageResult,
    strict_cleanup: bool,
)
    ensures
        spec_run_events(
            PipelineState::Pending,
            spec_run_plan(package, provision, transfer, unpack, invoke, cleanup),
            strict_cleanup,
        ) == spec_pipeline_outcome(
            package,
            provision,
            transfer,
            unpack,
            invoke,
            cleanup,
            strict_cleanup,
        ),
{
    let plan = spec_run_plan(package, provision, transfer, unpack, invoke, cleanup);
    let prepared = PipelineEvent::Prepared(package, provision);
    let cleaned = PipelineEvent::CleanedUp(cleanup);
    let s1 = spec_step(PipelineState::Pending, PipelineEvent::Started, strict_cleanup);
    let s2 = spec_step(s1, prepared, strict_cleanup);
    if package is Err || provision is Err {
        let rest1 = seq![prepared, cleaned];
        assert(plan =~= seq![PipelineEvent::Started] + rest1);
        lemma_run_events_cons(PipelineState::Pending, PipelineEvent::Started, rest1, strict_cleanup);
        assert(rest1 =~= seq![prepared] + seq![cleaned]);
        lemma_run_events_cons(s1, prepared, seq![cleaned], strict_cleanup);
        assert(seq![cleaned] =~= seq![cleaned] + Seq::<PipelineEvent>::empty());
        lemma_run_events_cons(s2, cleaned, Seq::empty(), strict_cleanup);
    } else {
        let transferred = PipelineEvent::Transferred(transfer);
        let s3 = spec_step(s2, transferred, strict_cleanup);
        if transfer is Err {
            let rest1 = seq![prepared, transferred, cleaned];
            assert(plan =~= seq![PipelineEvent::Started] + rest1);
            lemma_run_events_cons(
                PipelineState::Pending,
                PipelineEvent::Started,
                rest1,
                strict_cleanup,
            );
            assert(rest1 =~= seq![prepared] + seq![transferred, cleaned]);
            lemma_run_events_cons(s1, prepared, seq![transferred, cleaned], strict_cleanup);
            assert(seq![transferred, cleaned] =~= seq![transferred] + seq![cleaned]);
            lemma_run_events_cons(s2, transferred, seq![cleaned], strict_cleanup);
            assert(seq![cleaned] =~= seq![cleaned] + Seq::<PipelineEvent>::empty());
            lemma_run_events_cons(s3, cleaned, Seq::empty(), strict_cleanup);
        } else {
            let unpacked = PipelineEvent::Unpacked(unpack);
            let s4 = spec_step(s3, unpacked, strict_cleanup);
            if unpack is Err {
                let rest1 = seq![prepared, transferred, unpacked, cleaned];
                assert(plan =~= seq![PipelineEvent::Started] + rest1);
                lemma_run_events_cons(
                    PipelineState::Pending,
                    PipelineEvent::Started,
                    rest1,
                    strict_cleanup,
                );
                assert(rest1 =~= seq![prepared] + seq![transferred, unpacked, cleaned]);
                lemma_run_events_cons(
                    s1,
                    prepared,
                    seq![transferred, unpacked, cleaned],
                    strict_cleanup,
                );
                assert(seq![transferred, unpacked, cleaned] =~= seq![transferred] + seq![
                    unpacked,
                    cleaned,
                ]);
                lemma_run_events_cons(s2, transferred, seq![unpacked, cleaned], strict_cleanup);
                assert(seq![unpacked, cleaned] =~= seq![unpacked] + seq![cleaned]);
                lemma_run_events_cons(s3, unpacked, seq![cleaned], strict_cleanup);
                assert(seq![cleaned] =~= seq![cleaned] + Seq::<PipelineEvent>::empty());
                lemma_run_events_cons(s4, cleaned, Seq::empty(), strict_cleanup);
            } else {
                let invoked = PipelineEvent::Invoked(invoke);
                let s5 = spec_step(s4, invoked, strict_cleanup);
                let rest1 = seq![prepared, transferred, unpacked, invoked, cleaned];
                assert(plan =~= seq![PipelineEvent::Started] + rest1);
                lemma_run_events_cons(
                    PipelineState::Pending,
                    PipelineEvent::Started,
                    rest1,
                    strict_cleanup,
                );
                assert(rest1 =~= seq![prepared] + seq![transferred, unpacked, invoked, cleaned]);
                lemma_run_events_cons(
                    s1,
                    prepared,
                    seq![transferred, unpacked, invoked, cleaned],
                    strict_cleanup,
                );
                assert(seq![transferred, unpacked, invoked, cleaned] =~= seq![transferred] + seq![
                    unpacked,
                    invoked,
                    cleaned,
                ]);
                lemma_run_events_cons(
                    s2,
                    transferred,
                    seq![unpacked, invoked, cleaned],
                    strict_cleanup,
                );
                assert(seq![unpacked, invoked, cleaned] =~= seq![unpacked] + seq![invoked, cleaned]);
                lemma_run_events_cons(s3, unpacked, seq![invoked, cleaned], strict_cleanup);
                assert(seq![invoked, cleaned] =~= seq![invoked] + seq![cleaned]);
                lemma_run_events_cons(s4, invoked, seq![cleaned], strict_cleanup);
                assert(seq![cleaned] =~= seq![cleaned] + Seq::<PipelineEvent>::empty());
                lemma_run_events_cons(s5, cleaned, Seq::empty(), strict_cleanup);
            }
        }
    }
}

/// One host's pipeline: its operation, the policy switch for cleanup
/// failures, and where it stands.
#[derive(Debug)]
pub struct DeploymentPipeline {
    /// The deployment this pipeline drives.
    pub operation: ReignOperation,
    /// Whether a cleanup failure after a successful run fails the host.
    pub strict_cleanup: bool,
    /// Where the pipeline stands.
    pub state: PipelineState,
}

impl DeploymentPipeline {
    /// A pipeline that has not started.
    pub fn new(operation: ReignOperation, strict_cleanup: bool) -> (r: Self)
        ensures
            r.state == PipelineState::Pending,
            r.operation == operation,
            r.strict_cleanup == strict_cleanup,
    {
        DeploymentPipeline { operation, strict_cleanup, state: PipelineState::Pending }
    }

    /// The work owed in the current state.
    pub fn next_action(&self) -> (r: PipelineAction)
        ensures
            r == spec_action(self.state),
    {
        match &self.state {
            PipelineState::Pending => PipelineAction::Start,
            PipelineState::Preparing => PipelineAction::RunPackageAndProvision,
            PipelineState::Transferring => PipelineAction::RunTransfer,
            PipelineState::Unpacking => PipelineAction::RunUnpack,
            PipelineState::Invoking => PipelineAction::RunInvoke,
            PipelineState::CleaningUp { .. } => PipelineAction::RunCleanup,
            PipelineState::Succeeded => PipelineAction::Done,
            PipelineState::Failed { .. } => PipelineAction::Done,
        }
    }

    /// Feed one resolved event in and move to the next state.
    pub fn handle(&mut self, event: PipelineEvent)
        ensures
            final(self).state == spec_step(old(self).state, event, old(self).strict_cleanup),
            final(self).operation == old(self).operation,
            final(self).strict_cleanup == old(self).strict_cleanup,
    {
        let mut state = PipelineState::Pending;
        core::mem::swap(&mut state, &mut self.state);
        self.state = match (state, event) {
            (PipelineState::Pending, PipelineEvent::Started) => PipelineState::Preparing,
            (PipelineState::Preparing, PipelineEvent::Prepared(package, provision)) => match package {
                Err(err) => PipelineState::CleaningUp { pending: Some(err) },
                Ok(()) => match provision {
                    Err(err) => PipelineState::CleaningUp { pending: Some(err) },
                    Ok(()) => PipelineState::Transferring,
                },
            },
            (PipelineState::Transferring, PipelineEvent::Transferred(r)) => match r {
                Err(err) => PipelineState::CleaningUp { pending: Some(err) },
                Ok(()) => PipelineState::Unpacking,
            },
            (PipelineState::Unpacking, PipelineEvent::Unpacked(r)) => match r {
                Err(err) => PipelineState::CleaningUp { pending: Some(err) },
                Ok(()) => PipelineState::Invoking,
            },
            (PipelineState::Invoking, PipelineEvent::Invoked(r)) => match r {
                Err(err) => PipelineState::CleaningUp { pending: Some(err) },
                Ok(()) => PipelineState::CleaningUp { pending: None },
            },
            (PipelineState::CleaningUp { pending }, PipelineEvent::CleanedUp(r)) => match pending {
                Some(err) => PipelineState::Failed { error: err },
                None => match r {
                    Ok(()) => PipelineState::Succeeded,
                    Err(err) => if self.strict_cleanup {
                        PipelineState::Failed { error: err }
                    } else {
                        PipelineState::Succeeded
                    },
                },
            },
            (other, _) => other,
        };
    }

    /// The pipeline's result once it is terminal; `None` while it still runs.
    pub fn result(&self) -> (r: Option<Result<(), ReignError>>)
        ensures
            self.state is Succeeded ==> r == Some(Result::<(), ReignError>::Ok(())),
            self.state matches PipelineState::Failed { error } ==> r == Some(
                Result::<(), ReignError>::Err(error),
            ),
            !(self.state is Succeeded || self.state is Failed) ==> r is None,
    {
        match &self.state {
            PipelineState::Succeeded => Some(Ok(())),
            PipelineState::Failed { error } => Some(Err(error.clone())),
            _ => None,
        }
    }
}

/// What the local filesystem still holds for one operation: the archive
/// artifact, and whether the remote workspace still exists.
#[derive(Clone, Copy, Debug, PartialEq, Eq, Structural)]
pub struct ContextArtifacts {
    /// The local archive artifact exists.
    pub artifact_present: bool,
    /// The remote workspace directory exists.
    pub workspace_present: bool,
}

/// What cleanup leaves behind: nothing, whatever was there before.
pub open spec fn spec_after_cleanup(s: ContextArtifacts) -> ContextArtifacts {
    ContextArtifacts { artifact_present: false, workspace_present: false }
}

impl ContextArtifacts {
    /// Remove whatever the operation left. A missing artifact or workspace
    /// counts as already clean, never as an error, so running cleanup on an
    /// already-cleaned context succeeds and changes nothing.
    pub fn cleanup(&mut self) -> (r: StageResult)
        ensures
            *final(self) == spec_after_cleanup(*old(self)),
            r is Ok,
    {
        self.artifact_present = false;
        self.workspace_present = false;
        Ok(())
    }
}

/// Cleanup is idempotent: cleaning an already-cleaned context changes
/// nothing (and, by `ContextArtifacts::cleanup`, raises no error).
pub proof fn lemma_cleanup_idempotent(s: ContextArtifacts)
    ensures
        spec_after_cleanup(spec_after_cleanup(s)) == spec_after_cleanup(s),
{
}

} // verus!
