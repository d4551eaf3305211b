use reign_ng::context::ReignOperation;
use reign_ng::errors::ReignError;
use reign_ng::pipeline::ContextArtifacts;
use reign_ng::pipeline::DeploymentPipeline;
use reign_ng::pipeline::PipelineAction;
use reign_ng::pipeline::PipelineEvent;
use reign_ng::pipeline::PipelineState;

fn operation() -> ReignOperation {
    ReignOperation {
        op_uuid: String::from("abc123"),
        inventory: String::from("inv"),
        reign_name: String::from("deploy"),
        remote_user: String::new(),
        remote_host: String::from("example.com"),
        default_env: vec![],
    }
}

fn stage_error(command: &str) -> ReignError {
    ReignError::ProcessExitedNonZero {
        command: String::from(command),
        code: 2,
    }
}

#[test]
fn happy_path_succeeds() {
    let mut p = DeploymentPipeline::new(operation(), false);
    assert_eq!(p.next_action(), PipelineAction::Start);
    p.handle(PipelineEvent::Started);
    assert_eq!(p.next_action(), PipelineAction::RunPackageAndProvision);
    p.handle(PipelineEvent::Prepared(Ok(()), Ok(())));
    assert_eq!(p.next_action(), PipelineAction::RunTransfer);
    p.handle(PipelineEvent::Transferred(Ok(())));
    assert_eq!(p.next_action(), PipelineAction::RunUnpack);
    p.handle(PipelineEvent::Unpacked(Ok(())));
    assert_eq!(p.next_action(), PipelineAction::RunInvoke);
    p.handle(PipelineEvent::Invoked(Ok(())));
    assert_eq!(p.next_action(), PipelineAction::RunCleanup);
    p.handle(PipelineEvent::CleanedUp(Ok(())));
    assert_eq!(p.next_action(), PipelineAction::Done);
    assert_eq!(p.result(), Some(Ok(())));
}

#[test]
fn package_failure_skips_to_cleanup_and_reports_it() {
    let mut p = DeploymentPipeline::new(operation(), false);
    p.handle(PipelineEvent::Started);
    p.handle(PipelineEvent::Prepared(Err(stage_error("tar")), Ok(())));
    // Stages 3-5 are never dispatched: the next work owed is cleanup.
    assert_eq!(p.next_action(), PipelineAction::RunCleanup);
    p.handle(PipelineEvent::CleanedUp(Ok(())));
    assert_eq!(p.result(), Some(Err(stage_error("tar"))));
}

#[test]
fn provision_failure_also_cleans_up() {
    let mut p = DeploymentPipeline::new(operation(), false);
    p.handle(PipelineEvent::Started);
    p.handle(PipelineEvent::Prepared(Ok(()), Err(stage_error("ssh"))));
    assert_eq!(p.next_action(), PipelineAction::RunCleanup);
    p.handle(PipelineEvent::CleanedUp(Ok(())));
    assert_eq!(p.result(), Some(Err(stage_error("ssh"))));
}

#[test]
fn package_failure_wins_when_both_preparation_stages_fail() {
    let mut p = DeploymentPipeline::new(operation(), false);
    p.handle(PipelineEvent::Started);
    p.handle(PipelineEvent::Prepared(
        Err(stage_error("tar")),
        Err(stage_error("ssh")),
    ));
    p.handle(PipelineEvent::CleanedUp(Ok(())));
    assert_eq!(p.result(), Some(Err(stage_error("tar"))));
}

#[test]
fn invoke_failure_is_reported_even_when_cleanup_fails() {
    let mut p = DeploymentPipeline::new(operation(), false);
    p.handle(PipelineEvent::Started);
    p.handle(PipelineEvent::Prepared(Ok(()), Ok(())));
    p.handle(PipelineEvent::Transferred(Ok(())));
    p.handle(PipelineEvent::Unpacked(Ok(())));
    p.handle(PipelineEvent::Invoked(Err(stage_error("shable"))));
    p.handle(PipelineEvent::CleanedUp(Err(stage_error("rm"))));
    assert_eq!(p.result(), Some(Err(stage_error("shable"))));
}

#[test]
fn transfer_failure_aborts_remaining_stages() {
    let mut p = DeploymentPipeline::new(operation(), false);
    p.handle(PipelineEvent::Started);
    p.handle(PipelineEvent::Prepared(Ok(()), Ok(())));
    p.handle(PipelineEvent::Transferred(Err(stage_error("scp"))));
    assert_eq!(p.next_action(), PipelineAction::RunCleanup);
    p.handle(PipelineEvent::CleanedUp(Ok(())));
    assert_eq!(p.result(), Some(Err(stage_error("scp"))));
}

#[test]
fn cleanup_failure_after_success_is_only_logged_by_default() {
    let mut p = DeploymentPipeline::new(operation(), false);
    p.handle(PipelineEvent::Started);
    p.handle(PipelineEvent::Prepared(Ok(()), Ok(())));
    p.handle(PipelineEvent::Transferred(Ok(())));
    p.handle(PipelineEvent::Unpacked(Ok(())));
    p.handle(PipelineEvent::Invoked(Ok(())));
    p.handle(PipelineEvent::CleanedUp(Err(stage_error("rm"))));
    assert_eq!(p.result(), Some(Ok(())));
}

#[test]
fn cleanup_failure_after_success_fails_the_host_when_strict() {
    let mut p = DeploymentPipeline::new(operation(), true);
    p.handle(PipelineEvent::Started);
    p.handle(PipelineEvent::Prepared(Ok(()), Ok(())));
    p.handle(PipelineEvent::Transferred(Ok(())));
    p.handle(PipelineEvent::Unpacked(Ok(())));
    p.handle(PipelineEvent::Invoked(Ok(())));
    p.handle(PipelineEvent::CleanedUp(Err(stage_error("rm"))));
    assert_eq!(p.result(), Some(Err(stage_error("rm"))));
}

#[test]
fn second_cleanup_on_terminal_pipeline_changes_nothing() {
    let mut p = DeploymentPipeline::new(operation(), false);
    p.handle(PipelineEvent::Started);
    p.handle(PipelineEvent::Prepared(Ok(()), Ok(())));
    p.handle(PipelineEvent::Transferred(Ok(())));
    p.handle(PipelineEvent::Unpacked(Ok(())));
    p.handle(PipelineEvent::Invoked(Ok(())));
    p.handle(PipelineEvent::CleanedUp(Ok(())));
    assert_eq!(p.state, PipelineState::Succeeded);
    p.handle(PipelineEvent::CleanedUp(Err(stage_error("rm"))));
    assert_eq!(p.state, PipelineState::Succeeded);
    assert_eq!(p.result(), Some(Ok(())));
}

#[test]
fn mismatched_event_changes_nothing() {
    let mut p = DeploymentPipeline::new(operation(), false);
    p.handle(PipelineEvent::Transferred(Ok(())));
    assert_eq!(p.state, PipelineState::Pending);
}

#[test]
fn artifact_cleanup_is_idempotent() {
    let mut a = ContextArtifacts {
        artifact_present: true,
        workspace_present: true,
    };
    assert_eq!(a.cleanup(), Ok(()));
    assert!(!a.artifact_present);
    assert!(!a.workspace_present);
    // Cleaning the already-cleaned context: no error, nothing changes.
    assert_eq!(a.cleanup(), Ok(()));
    assert!(!a.artifact_present);
    assert!(!a.workspace_present);
}
