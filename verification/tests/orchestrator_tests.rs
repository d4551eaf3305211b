use reign_ng::context::ReignOperation;
use reign_ng::errors::ReignError;
use reign_ng::pipeline::DeploymentPipeline;
use reign_ng::pipeline::PipelineAction;
use reign_ng::pipeline::PipelineEvent;
use reign_ng::orchestrator::aggregate;
use reign_ng::orchestrator::build_operations;
use reign_ng::orchestrator::elapsed_seconds;
use reign_ng::orchestrator::failed_hosts;
use reign_ng::orchestrator::may_schedule;
use reign_ng::orchestrator::ConcurrencyGate;
use reign_ng::orchestrator::HostReport;

fn report(host: &str, outcome: Result<(), ReignError>) -> HostReport {
    HostReport {
        host: String::from(host),
        outcome,
        seconds: 1,
    }
}

fn failure() -> ReignError {
    ReignError::ProcessExitedNonZero {
        command: String::from("scp x"),
        code: 12,
    }
}

#[test]
fn one_failed_host_is_named_exactly() {
    let reports = vec![
        report("a.example.com", Ok(())),
        report("b.example.com", Err(failure())),
        report("c.example.com", Ok(())),
    ];
    assert_eq!(failed_hosts(&reports), vec!["b.example.com"]);
    let aggregated = aggregate(&reports);
    assert_eq!(
        aggregated.err().expect("one host failed").failed_hosts,
        vec!["b.example.com"]
    );
}

#[test]
fn all_hosts_succeeding_is_success() {
    let reports = vec![report("a", Ok(())), report("b", Ok(()))];
    assert!(aggregate(&reports).is_ok());
    assert!(failed_hosts(&reports).is_empty());
}

#[test]
fn every_failed_host_is_kept_in_order() {
    let reports = vec![
        report("a", Err(failure())),
        report("b", Ok(())),
        report("c", Err(failure())),
    ];
    assert_eq!(failed_hosts(&reports), vec!["a", "c"]);
}

#[test]
fn fan_out_names_the_failed_host_and_cleans_every_host() {
    let hosts = ["a.example.com", "b.example.com", "c.example.com"];
    let mut reports = Vec::new();
    for host in hosts {
        let operation = ReignOperation {
            op_uuid: format!("id-{host}"),
            inventory: String::from("inv"),
            reign_name: String::from("deploy"),
            remote_user: String::new(),
            remote_host: String::from(host),
            default_env: vec![],
        };
        let mut p = DeploymentPipeline::new(operation, false);
        p.handle(PipelineEvent::Started);
        p.handle(PipelineEvent::Prepared(Ok(()), Ok(())));
        // Only the middle host's transfer fails.
        let transfer = if host == "b.example.com" {
            Err(failure())
        } else {
            Ok(())
        };
        p.handle(PipelineEvent::Transferred(transfer));
        if host != "b.example.com" {
            p.handle(PipelineEvent::Unpacked(Ok(())));
            p.handle(PipelineEvent::Invoked(Ok(())));
        }
        // Whatever happened, every host's pipeline owes a cleanup.
        assert_eq!(p.next_action(), PipelineAction::RunCleanup);
        p.handle(PipelineEvent::CleanedUp(Ok(())));
        reports.push(HostReport {
            host: String::from(host),
            outcome: p.result().expect("the pipeline is terminal"),
            seconds: 0,
        });
    }
    let aggregated = aggregate(&reports);
    assert_eq!(
        aggregated.err().expect("one host failed").failed_hosts,
        vec!["b.example.com"]
    );
}

#[test]
fn gate_never_admits_more_than_its_limit() {
    let mut gate = ConcurrencyGate::new(2);
    assert!(gate.try_start());
    assert!(gate.in_flight <= gate.limit);
    assert!(gate.try_start());
    assert!(gate.in_flight <= gate.limit);
    // Five hosts want to run, the limit is two: the third is refused.
    assert!(!gate.try_start());
    assert_eq!(gate.in_flight, 2);
    gate.finish();
    assert!(gate.try_start());
    assert_eq!(gate.in_flight, 2);
}

#[test]
fn default_gate_limit_is_at_least_one() {
    let gate = ConcurrencyGate::with_default_limit();
    assert!(gate.limit >= 1);
    assert_eq!(gate.in_flight, 0);
}

#[test]
fn cancellation_stops_new_scheduling_only() {
    let mut gate = ConcurrencyGate::new(2);
    assert!(may_schedule(false, &gate));
    assert!(gate.try_start());
    assert!(!may_schedule(true, &gate));
    // The in-flight pipeline keeps its slot until it resolves.
    assert_eq!(gate.in_flight, 1);
}

#[test]
fn elapsed_is_clamped_at_zero() {
    assert_eq!(elapsed_seconds(10, 25), 15);
    assert_eq!(elapsed_seconds(25, 10), 0);
    assert_eq!(elapsed_seconds(-5, 5), 10);
}

#[test]
fn empty_host_list_is_an_argument_error() {
    let hosts: Vec<String> = vec![];
    let r = build_operations(
        "deploy",
        "inv",
        &hosts,
        &String::new(),
        &String::new(),
        &String::new(),
    );
    assert_eq!(
        r.err().expect("no hosts given"),
        ReignError::InsufficientArguments { given: 0 }
    );
}

#[test]
fn one_context_is_built_per_host() {
    let hosts = vec![String::from("a.example.com"), String::from("b.example.com")];
    let ops = build_operations(
        "deploy",
        "inv",
        &hosts,
        &String::from("ops"),
        &String::from("1"),
        &String::new(),
    )
    .expect("hosts were given");
    assert_eq!(ops.len(), 2);
    assert_eq!(ops[0].remote_host, "a.example.com");
    assert_eq!(ops[1].remote_host, "b.example.com");
    for op in &ops {
        assert_eq!(op.reign_name, "deploy");
        assert_eq!(op.inventory, "inv");
        assert_eq!(op.remote_user, "ops");
        assert_eq!(op.op_uuid.len(), 36);
    }
    assert_ne!(ops[0].op_uuid, ops[1].op_uuid);
}
