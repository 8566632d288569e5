use tunnel_supervisor::command::{Invocation, TunnelCommand};
use tunnel_supervisor::error::SupervisorError;
use tunnel_supervisor::registry::CommandRegistry;
use tunnel_supervisor::runner::ExitOutcome;
use tunnel_supervisor::supervisor::{StopRequest, ToggleOutcome, TunnelSupervisor};
use tunnel_supervisor::worker::{StopReason, Worker, WorkerStep};

fn strings(items: &[&str]) -> Vec<String> {
    items.iter().map(|s| s.to_string()).collect()
}

fn echo_registry() -> CommandRegistry {
    let mut registry = CommandRegistry::new();
    registry.insert(
        "prod".to_string(),
        TunnelCommand {
            command: "echo".to_string(),
            args: strings(&["-N", "up"]),
            kill_command: "echo".to_string(),
            kill_args: strings(&["down"]),
        },
    );
    registry
}

fn two_tunnels() -> TunnelSupervisor {
    let mut registry = CommandRegistry::new();
    for id in ["A", "B"] {
        registry.insert(
            id.to_string(),
            TunnelCommand {
                command: format!("start-{}", id),
                args: strings(&["-N"]),
                kill_command: format!("stop-{}", id),
                kill_args: strings(&["-f", id]),
            },
        );
    }
    TunnelSupervisor::new(registry)
}

fn expect_worker(outcome: Result<ToggleOutcome, SupervisorError>) -> Worker {
    match outcome {
        Ok(ToggleOutcome::Activated(worker)) => worker,
        other => panic!("expected an activation, got {:?}", other),
    }
}

fn expect_stop(outcome: Result<ToggleOutcome, SupervisorError>) -> Invocation {
    match outcome {
        Ok(ToggleOutcome::Deactivated(stop)) => stop,
        other => panic!("expected a deactivation, got {:?}", other),
    }
}

/// Stands in for the process runner: notes what it is asked to run and lets
/// the stop command of tunnel "A" fail.
fn run_stop(request: &StopRequest, log: &mut Vec<(String, String, Vec<String>)>) -> ExitOutcome {
    log.push((
        request.id.clone(),
        request.invocation.program.clone(),
        request.invocation.args.clone(),
    ));
    if request.id == "A" {
        ExitOutcome::Exited(Some(1))
    } else {
        ExitOutcome::Exited(Some(0))
    }
}

#[test]
fn new_supervisor_has_no_active_tunnel() {
    let supervisor = TunnelSupervisor::new(echo_registry());
    assert!(!supervisor.is_active("prod"));
    assert!(supervisor.desired().is_empty());
    assert!(supervisor.registry().contains("prod"));
}

#[test]
fn toggle_of_an_unknown_id_is_not_found() {
    let mut supervisor = TunnelSupervisor::new(echo_registry());
    assert!(matches!(
        supervisor.toggle("staging"),
        Err(SupervisorError::NotFound)
    ));
    assert!(matches!(supervisor.toggle(""), Err(SupervisorError::NotFound)));
}

#[test]
fn toggle_of_an_unknown_id_leaves_the_desired_state_alone() {
    let mut supervisor = TunnelSupervisor::new(echo_registry());
    assert!(supervisor.toggle("staging").is_err());
    assert!(supervisor.desired().is_empty());
    assert!(!supervisor.is_active("staging"));

    expect_worker(supervisor.toggle("prod"));
    assert!(supervisor.toggle("staging").is_err());
    assert!(supervisor.toggle("staging").is_err());
    assert_eq!(supervisor.desired().snapshot(), strings(&["prod"]));
    assert!(!supervisor.is_active("staging"));
}

#[test]
fn toggle_on_an_empty_registry_is_not_found() {
    let mut supervisor = TunnelSupervisor::new(CommandRegistry::new());
    assert!(matches!(
        supervisor.toggle("prod"),
        Err(SupervisorError::NotFound)
    ));
    assert!(supervisor.desired().is_empty());
    assert!(supervisor.shutdown().is_empty());
}

#[test]
fn toggle_activates_an_inactive_tunnel() {
    let mut supervisor = TunnelSupervisor::new(echo_registry());
    let worker = expect_worker(supervisor.toggle("prod"));
    assert_eq!(worker.id(), "prod");
    assert_eq!(worker.attempts(), 0);
    assert!(supervisor.is_active("prod"));
    assert_eq!(supervisor.desired().snapshot(), strings(&["prod"]));
}

#[test]
fn toggle_deactivates_an_active_tunnel() {
    let mut supervisor = TunnelSupervisor::new(echo_registry());
    expect_worker(supervisor.toggle("prod"));
    let stop = expect_stop(supervisor.toggle("prod"));
    assert_eq!(stop.program, "echo");
    assert_eq!(stop.args, strings(&["down"]));
    assert_eq!(stop.path, None);
    assert!(!supervisor.is_active("prod"));
    assert!(supervisor.desired().is_empty());
}

#[test]
fn toggle_alternates_between_on_and_off() {
    let mut supervisor = TunnelSupervisor::new(echo_registry());
    for _ in 0..3 {
        expect_worker(supervisor.toggle("prod"));
        assert!(supervisor.is_active("prod"));
        expect_stop(supervisor.toggle("prod"));
        assert!(!supervisor.is_active("prod"));
    }
}

#[test]
fn toggle_of_one_tunnel_leaves_the_other_alone() {
    let mut supervisor = two_tunnels();
    expect_worker(supervisor.toggle("A"));
    expect_worker(supervisor.toggle("B"));
    let stop = expect_stop(supervisor.toggle("A"));
    assert_eq!(stop.program, "stop-A");
    assert_eq!(stop.args, strings(&["-f", "A"]));
    assert!(!supervisor.is_active("A"));
    assert!(supervisor.is_active("B"));
    assert_eq!(supervisor.desired().snapshot(), strings(&["B"]));
    expect_worker(supervisor.toggle("A"));
    assert_eq!(supervisor.desired().snapshot(), strings(&["B", "A"]));
}

#[test]
fn prod_is_switched_on_and_off_again() {
    let mut supervisor = TunnelSupervisor::new(echo_registry());
    let mut starts: Vec<Invocation> = Vec::new();
    let mut stops: Vec<Invocation> = Vec::new();

    let worker = expect_worker(supervisor.toggle("prod"));
    assert_eq!(supervisor.desired().snapshot(), strings(&["prod"]));
    let worker = match supervisor.next_step(worker, None) {
        WorkerStep::Run(attempt) => {
            starts.push(Invocation {
                program: attempt.invocation().program.clone(),
                args: attempt.invocation().args.clone(),
                path: attempt.invocation().path.clone(),
            });
            attempt.finish(&ExitOutcome::Exited(Some(0)))
        }
        WorkerStep::Stop(reason) => panic!("ended early: {:?}", reason),
    };
    assert_eq!(starts.len(), 1);
    assert_eq!(starts[0].program, "echo");
    assert_eq!(starts[0].args, strings(&["-N", "up"]));

    stops.push(expect_stop(supervisor.toggle("prod")));
    assert_eq!(supervisor.desired().snapshot(), Vec::<String>::new());
    assert_eq!(stops.len(), 1);
    assert_eq!(stops[0].program, "echo");
    assert_eq!(stops[0].args, strings(&["down"]));

    match supervisor.next_step(worker, None) {
        WorkerStep::Run(_) => panic!("the start command was run again"),
        WorkerStep::Stop(reason) => assert_eq!(reason, StopReason::Deactivated),
    }
    assert_eq!(starts.len(), 1);
}

#[test]
fn shutdown_asks_for_every_stop_command_once() {
    let mut supervisor = two_tunnels();
    expect_worker(supervisor.toggle("A"));
    expect_worker(supervisor.toggle("B"));

    let requests = supervisor.shutdown();
    let mut log = Vec::new();
    let mut faults = Vec::new();
    for request in &requests {
        faults.push(run_stop(request, &mut log).stop_fault());
    }

    assert_eq!(
        log,
        vec![
            ("A".to_string(), "stop-A".to_string(), strings(&["-f", "A"])),
            ("B".to_string(), "stop-B".to_string(), strings(&["-f", "B"])),
        ]
    );
    assert_eq!(faults, vec![Some(SupervisorError::StopCommandFailed), None]);
    assert!(supervisor.desired().is_empty());
    assert!(!supervisor.is_active("A"));
    assert!(!supervisor.is_active("B"));
}

#[test]
fn shutdown_follows_the_order_of_activation() {
    let mut supervisor = two_tunnels();
    expect_worker(supervisor.toggle("B"));
    expect_worker(supervisor.toggle("A"));
    let requests = supervisor.shutdown();
    let ids: Vec<&str> = requests.iter().map(|r| r.id.as_str()).collect();
    assert_eq!(ids, vec!["B", "A"]);
    for request in &requests {
        assert_eq!(request.invocation.path, None);
    }
}

#[test]
fn shutdown_skips_tunnels_that_were_switched_off() {
    let mut supervisor = two_tunnels();
    expect_worker(supervisor.toggle("A"));
    expect_worker(supervisor.toggle("B"));
    expect_stop(supervisor.toggle("A"));
    let requests = supervisor.shutdown();
    assert_eq!(requests.len(), 1);
    assert_eq!(requests[0].id, "B");
    assert_eq!(requests[0].invocation.program, "stop-B");
    assert_eq!(requests[0].invocation.args, strings(&["-f", "B"]));
}

#[test]
fn shutdown_of_an_idle_supervisor_asks_for_nothing() {
    let mut supervisor = two_tunnels();
    assert!(supervisor.shutdown().is_empty());
    expect_worker(supervisor.toggle("A"));
    expect_stop(supervisor.toggle("A"));
    assert!(supervisor.shutdown().is_empty());
}

#[test]
fn second_shutdown_asks_for_nothing() {
    let mut supervisor = two_tunnels();
    expect_worker(supervisor.toggle("A"));
    assert_eq!(supervisor.shutdown().len(), 1);
    assert!(supervisor.shutdown().is_empty());
}

#[test]
fn shutdown_keeps_the_registry() {
    let mut supervisor = two_tunnels();
    expect_worker(supervisor.toggle("A"));
    supervisor.shutdown();
    assert!(supervisor.registry().contains("A"));
    assert!(supervisor.registry().contains("B"));
    let worker = expect_worker(supervisor.toggle("A"));
    assert_eq!(worker.attempts(), 0);
    assert!(supervisor.is_active("A"));
}
