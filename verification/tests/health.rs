use cline_desktop::health::{
    check_grpc_health, monitor_grpc_health, wait_for_grpc_ready, wait_should_poll, HealthMonitor,
    HealthStatus, ProbeOutcome,
};

#[test]
fn check_once_is_unhealthy_when_nothing_listens() {
    // A dead endpoint yields a transport failure, never an error.
    let status = check_grpc_health(ProbeOutcome::TransportFailure);
    assert!(matches!(status, HealthStatus::Unhealthy));
}

#[test]
fn check_once_classifies_status_codes() {
    assert!(matches!(check_grpc_health(ProbeOutcome::Response(200)), HealthStatus::Healthy));
    assert!(matches!(check_grpc_health(ProbeOutcome::Response(204)), HealthStatus::Healthy));
    assert!(matches!(check_grpc_health(ProbeOutcome::Response(299)), HealthStatus::Healthy));
    assert!(matches!(check_grpc_health(ProbeOutcome::Response(199)), HealthStatus::Unhealthy));
    assert!(matches!(check_grpc_health(ProbeOutcome::Response(300)), HealthStatus::Unhealthy));
    assert!(matches!(check_grpc_health(ProbeOutcome::Response(404)), HealthStatus::Unhealthy));
    assert!(matches!(check_grpc_health(ProbeOutcome::Response(500)), HealthStatus::Unhealthy));
}

#[test]
fn wait_times_out_against_permanently_unhealthy_endpoint() {
    // Two seconds of patience, polls every half second: four probes.
    let probes = vec![ProbeOutcome::TransportFailure; 4];
    let report = wait_for_grpc_ready(&probes, 2);
    assert!(!report.ready);
    assert_eq!(report.polls, 4);
}

#[test]
fn wait_returns_promptly_once_healthy() {
    // Healthy on the fourth probe (1.5 s in): ready one poll later.
    let probes = vec![
        ProbeOutcome::TransportFailure,
        ProbeOutcome::TransportFailure,
        ProbeOutcome::TransportFailure,
        ProbeOutcome::Response(200),
        ProbeOutcome::TransportFailure,
        ProbeOutcome::TransportFailure,
    ];
    let report = wait_for_grpc_ready(&probes, 3);
    assert!(report.ready);
    assert_eq!(report.polls, 4);
}

#[test]
fn wait_with_zero_timeout_never_polls() {
    let probes: Vec<ProbeOutcome> = Vec::new();
    let report = wait_for_grpc_ready(&probes, 0);
    assert!(!report.ready);
    assert_eq!(report.polls, 0);
}

#[test]
fn wait_ignores_probes_beyond_the_timeout() {
    // Healthy only after the window closes: still a timeout.
    let probes = vec![
        ProbeOutcome::TransportFailure,
        ProbeOutcome::TransportFailure,
        ProbeOutcome::Response(200),
    ];
    let report = wait_for_grpc_ready(&probes, 1);
    assert!(!report.ready);
    assert_eq!(report.polls, 2);
}

#[test]
fn monitor_notifies_once_per_edge() {
    // Scripted probe outcomes [U, U, H, H, U, H]: three edges.
    let u = ProbeOutcome::TransportFailure;
    let h = ProbeOutcome::Response(200);
    let probes = vec![u, u, h, h, u, h];
    let notifications = monitor_grpc_health(&probes);
    assert_eq!(notifications.len(), 3);
    assert!(matches!(notifications[0], HealthStatus::Healthy));
    assert!(matches!(notifications[1], HealthStatus::Unhealthy));
    assert!(matches!(notifications[2], HealthStatus::Healthy));
}

#[test]
fn monitor_is_silent_while_status_is_stable() {
    let probes = vec![ProbeOutcome::TransportFailure; 5];
    assert_eq!(monitor_grpc_health(&probes).len(), 0);
    let probes = vec![ProbeOutcome::Response(200); 5];
    // The first observation (out of Unknown) is not an edge either.
    assert_eq!(monitor_grpc_health(&probes).len(), 0);
}

#[test]
fn observe_fires_exactly_on_flips() {
    let mut monitor = HealthMonitor::new();
    assert!(!monitor.observe(HealthStatus::Unhealthy));
    assert!(!monitor.observe(HealthStatus::Unhealthy));
    assert!(monitor.observe(HealthStatus::Healthy));
    assert!(!monitor.observe(HealthStatus::Healthy));
    assert!(monitor.observe(HealthStatus::Unhealthy));
    assert!(monitor.observe(HealthStatus::Healthy));
}

#[test]
fn wait_step_gives_up_exactly_at_the_timeout() {
    assert!(wait_should_poll(0, 1));
    assert!(wait_should_poll(999, 1));
    assert!(!wait_should_poll(1000, 1));
    assert!(!wait_should_poll(0, 0));
    assert!(wait_should_poll(29_999, 30));
    assert!(!wait_should_poll(30_000, 30));
}
