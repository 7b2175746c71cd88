use backend_supervisor::outcome::ReadinessOutcome;
use backend_supervisor::probe::{
    backend_host, backend_port, classify, health_url, is_success_code, reachable, run_script, step,
    HealthStatus,
    ProbeAction, ProbeConfig, ProbeEvent, ProbeReply, ProbeState, ProbeTransition,
};
use backend_supervisor::supervisor::Supervisor;

fn body(status: &str) -> ProbeReply {
    ProbeReply::Response { code: 200, status: Some(status.to_string()) }
}

fn silence() -> ProbeReply {
    ProbeReply::NoResponse { reason: "connection refused".to_string() }
}

#[test]
fn standard_profile_is_150_seconds() {
    let config = ProbeConfig::standard();
    assert_eq!(config.interval_ms, 500);
    assert_eq!(config.max_attempts, 300);
    assert!(config.request_timeout_ms < config.interval_ms);
    assert!(config.is_well_formed());
    assert_eq!(config.budget_ms(), 150_000);
    assert_eq!(config.timeout_message(), "Backend did not become healthy within 150s");
}

#[test]
fn quick_profile_is_30_seconds() {
    let config = ProbeConfig::quick();
    assert_eq!(config.interval_ms, 500);
    assert_eq!(config.max_attempts, 60);
    assert_eq!(config.budget_ms(), 30_000);
    assert_eq!(config.timeout_message(), "Backend did not become healthy within 30s");
}

#[test]
fn new_accepts_well_formed_numbers_only() {
    assert_eq!(
        ProbeConfig::new(500, 100, 60),
        Some(ProbeConfig { interval_ms: 500, request_timeout_ms: 100, max_attempts: 60 })
    );
    assert_eq!(ProbeConfig::new(500, 100, 0), None);
    assert_eq!(ProbeConfig::new(500, 0, 60), None);
    assert_eq!(ProbeConfig::new(500, 500, 60), None);
    assert_eq!(ProbeConfig::new(500, 2000, 60), None);
    assert_eq!(ProbeConfig::new(0, 0, 1), None);
}

#[test]
fn timeout_message_counts_whole_seconds() {
    let config = ProbeConfig { interval_ms: 999, request_timeout_ms: 1, max_attempts: 1 };
    assert_eq!(config.timeout_message(), "Backend did not become healthy within 0s");
    let config = ProbeConfig { interval_ms: 1500, request_timeout_ms: 1, max_attempts: 3 };
    assert_eq!(config.budget_ms(), 4500);
    assert_eq!(config.timeout_message(), "Backend did not become healthy within 4s");
}

#[test]
fn budget_of_the_largest_numbers_fits() {
    let config = ProbeConfig {
        interval_ms: u32::MAX,
        request_timeout_ms: u32::MAX - 1,
        max_attempts: u32::MAX,
    };
    assert_eq!(config.budget_ms(), 18_446_744_065_119_617_025);
    assert_eq!(config.worst_case_ms(), 36_893_488_125_944_266_755);
    assert_eq!(
        config.timeout_message(),
        "Backend did not become healthy within 18446744065119617s"
    );
}

#[test]
fn worst_case_of_half_second_interval_and_sixty_attempts() {
    let config = ProbeConfig::quick();
    let bound = 60 * (u128::from(config.interval_ms) + u128::from(config.request_timeout_ms));
    assert_eq!(config.worst_case_ms(), bound);
    assert_eq!(config.worst_case_ms(), 45_000);
    let replies: Vec<ProbeReply> = (0..100).map(|_| silence()).collect();
    let run = run_script(&config, &replies);
    let longest = u128::from(run.attempts) * u128::from(config.request_timeout_ms)
        + u128::from(run.slept_ms);
    assert_eq!(run.attempts, 60);
    assert_eq!(run.slept_ms, 30_000);
    assert!(longest <= bound);
    assert_eq!(run_script(&config, &replies), run);
}

#[test]
fn health_endpoint_address() {
    assert_eq!(backend_host(), "127.0.0.1");
    assert_eq!(backend_port(), "8000");
    assert_eq!(health_url(), "http://127.0.0.1:8000/api/v1/health");
}

#[test]
fn classify_healthy_body() {
    assert_eq!(classify(&body("healthy")), HealthStatus::Healthy);
    assert_eq!(
        classify(&ProbeReply::Response { code: 299, status: Some("healthy".to_string()) }),
        HealthStatus::Healthy
    );
}

#[test]
fn classify_other_status_is_unhealthy() {
    assert_eq!(classify(&body("starting")), HealthStatus::Unhealthy("status starting".to_string()));
    assert_eq!(classify(&body("")), HealthStatus::Unhealthy("status ".to_string()));
    assert_eq!(classify(&body("Healthy")), HealthStatus::Unhealthy("status Healthy".to_string()));
    assert_eq!(classify(&body("healthy ")), HealthStatus::Unhealthy("status healthy ".to_string()));
}

#[test]
fn classify_unreadable_body_is_unhealthy() {
    assert_eq!(
        classify(&ProbeReply::Response { code: 200, status: None }),
        HealthStatus::Unhealthy("unreadable body".to_string())
    );
}

#[test]
fn classify_other_codes_are_unhealthy_whatever_the_body() {
    for (code, text) in [
        (0u16, "HTTP 0"),
        (99, "HTTP 99"),
        (100, "HTTP 100"),
        (199, "HTTP 199"),
        (300, "HTTP 300"),
        (404, "HTTP 404"),
        (500, "HTTP 500"),
        (503, "HTTP 503"),
        (999, "HTTP 999"),
        (1000, "HTTP 1000"),
        (65535, "HTTP 65535"),
    ] {
        let reply = ProbeReply::Response { code, status: Some("healthy".to_string()) };
        assert_eq!(classify(&reply), HealthStatus::Unhealthy(text.to_string()));
        assert!(!reachable(&reply));
    }
}

#[test]
fn classify_no_response_is_unreachable() {
    assert_eq!(
        classify(&silence()),
        HealthStatus::Unreachable("connection refused".to_string())
    );
}

#[test]
fn reachable_is_a_success_code_whatever_the_body() {
    assert!(reachable(&body("healthy")));
    assert!(reachable(&body("starting")));
    assert!(reachable(&ProbeReply::Response { code: 200, status: None }));
    assert!(reachable(&ProbeReply::Response { code: 204, status: None }));
    assert!(reachable(&ProbeReply::Response { code: 299, status: None }));
    assert!(!reachable(&ProbeReply::Response { code: 199, status: None }));
    assert!(!reachable(&ProbeReply::Response { code: 300, status: None }));
    assert!(!reachable(&silence()));
}

#[test]
fn wake_asks_for_a_probe() {
    let config = ProbeConfig::quick();
    let next = step(&config, ProbeState::initial(), &ProbeEvent::Wake);
    assert_eq!(
        next,
        ProbeTransition {
            state: ProbeState::Polling { attempt: 0 },
            action: ProbeAction::Probe { timeout_ms: 250 },
        }
    );
}

#[test]
fn unhealthy_results_keep_polling() {
    let config = ProbeConfig::quick();
    let replies = [
        body("starting"),
        body("degraded"),
        ProbeReply::Response { code: 200, status: None },
        ProbeReply::Response { code: 503, status: Some("healthy".to_string()) },
        silence(),
    ];
    for reply in replies.iter() {
        let status = classify(reply);
        assert_ne!(status, HealthStatus::Healthy);
        let next = step(&config, ProbeState::Polling { attempt: 7 }, &ProbeEvent::Result(status));
        assert_eq!(next.state, ProbeState::Polling { attempt: 8 });
        assert_eq!(next.action, ProbeAction::Sleep { ms: 500 });
        assert_eq!(next.action.outcome(&config), None);
    }
}

#[test]
fn healthy_result_ends_in_ready() {
    let config = ProbeConfig::quick();
    let next = step(
        &config,
        ProbeState::Polling { attempt: 3 },
        &ProbeEvent::Result(HealthStatus::Healthy),
    );
    assert_eq!(next.state, ProbeState::Ready);
    assert_eq!(next.action, ProbeAction::EmitReady);
    assert_eq!(next.action.outcome(&config), Some(ReadinessOutcome::Ready));
    assert!(next.state.is_terminal());
}

#[test]
fn exhausted_budget_ends_in_failed() {
    let config = ProbeConfig::quick();
    let next = step(&config, ProbeState::Polling { attempt: 60 }, &ProbeEvent::Wake);
    assert_eq!(next.state, ProbeState::Failed);
    assert_eq!(next.action, ProbeAction::EmitTimeout);
    assert_eq!(
        next.action.outcome(&config),
        Some(ReadinessOutcome::Error("Backend did not become healthy within 30s".to_string()))
    );
    let late = step(
        &config,
        ProbeState::Polling { attempt: 60 },
        &ProbeEvent::Result(HealthStatus::Healthy),
    );
    assert_eq!(late.state, ProbeState::Failed);
    assert_eq!(late.action, ProbeAction::EmitTimeout);
}

#[test]
fn terminal_states_halt() {
    let config = ProbeConfig::quick();
    for state in [ProbeState::Ready, ProbeState::Failed] {
        for event in [
            ProbeEvent::Wake,
            ProbeEvent::Result(HealthStatus::Healthy),
            ProbeEvent::Result(HealthStatus::Unreachable("gone".to_string())),
        ] {
            let next = step(&config, state, &event);
            assert_eq!(next.state, state);
            assert_eq!(next.action, ProbeAction::Halt);
            assert_eq!(next.action.outcome(&config), None);
        }
    }
}

#[test]
fn ready_fires_after_exactly_five_attempts() {
    let config = ProbeConfig::quick();
    let replies = vec![
        body("starting"),
        body("starting"),
        body("starting"),
        body("starting"),
        body("healthy"),
    ];
    let run = run_script(&config, &replies);
    assert_eq!(run.state, ProbeState::Ready);
    assert_eq!(run.emitted, vec![ReadinessOutcome::Ready]);
    assert_eq!(run.attempts, 5);
    assert_eq!(run.slept_ms, 2000);
}

#[test]
fn ready_fires_once_when_several_replies_qualify() {
    let config = ProbeConfig::quick();
    let replies = vec![body("starting"), body("healthy"), body("healthy"), body("healthy")];
    let run = run_script(&config, &replies);
    assert_eq!(run.state, ProbeState::Ready);
    assert_eq!(run.emitted, vec![ReadinessOutcome::Ready]);
    assert_eq!(run.attempts, 2);
    assert_eq!(run.slept_ms, 500);
}

#[test]
fn no_response_within_budget_gives_timeout_error_and_leaves_process() {
    let mut supervisor: Supervisor<u32> = Supervisor::new();
    assert_eq!(supervisor.install(4711), None);
    let config = ProbeConfig::standard();
    let replies: Vec<ProbeReply> = (0..300).map(|_| silence()).collect();
    let run = run_script(&config, &replies);
    assert_eq!(run.state, ProbeState::Failed);
    assert_eq!(
        run.emitted,
        vec![ReadinessOutcome::Error("Backend did not become healthy within 150s".to_string())]
    );
    assert_eq!(run.attempts, 300);
    assert_eq!(run.slept_ms, 150_000);
    assert!(supervisor.is_running());
}

#[test]
fn healthy_reply_beyond_budget_comes_too_late() {
    let config = ProbeConfig { interval_ms: 10, request_timeout_ms: 5, max_attempts: 3 };
    let replies = vec![silence(), silence(), silence(), body("healthy")];
    let run = run_script(&config, &replies);
    assert_eq!(run.state, ProbeState::Failed);
    assert_eq!(run.attempts, 3);
    assert_eq!(run.slept_ms, 30);
    assert_eq!(
        run.emitted,
        vec![ReadinessOutcome::Error("Backend did not become healthy within 0s".to_string())]
    );
}

#[test]
fn healthy_on_last_attempt_is_ready() {
    let config = ProbeConfig { interval_ms: 10, request_timeout_ms: 5, max_attempts: 3 };
    let replies = vec![silence(), silence(), body("healthy")];
    let run = run_script(&config, &replies);
    assert_eq!(run.state, ProbeState::Ready);
    assert_eq!(run.attempts, 3);
    assert_eq!(run.slept_ms, 20);
    assert_eq!(run.emitted, vec![ReadinessOutcome::Ready]);
}

#[test]
fn short_script_leaves_prober_polling() {
    let config = ProbeConfig::quick();
    let run = run_script(&config, &vec![silence(), body("starting")]);
    assert_eq!(run.state, ProbeState::Polling { attempt: 2 });
    assert!(run.emitted.is_empty());
    assert_eq!(run.attempts, 2);
    assert_eq!(run.slept_ms, 1000);
    let run = run_script(&config, &Vec::new());
    assert_eq!(run.state, ProbeState::Polling { attempt: 0 });
    assert!(run.emitted.is_empty());
    assert_eq!(run.attempts, 0);
    assert_eq!(run.slept_ms, 0);
}

#[test]
fn driving_by_hand_agrees_with_the_script() {
    let config = ProbeConfig { interval_ms: 100, request_timeout_ms: 10, max_attempts: 4 };
    let replies = vec![silence(), body("starting"), body("healthy")];
    let mut state = ProbeState::initial();
    let mut emitted = Vec::new();
    let mut asked = 0usize;
    let mut slept: u64 = 0;
    loop {
        let woke = step(&config, state, &ProbeEvent::Wake);
        state = woke.state;
        match woke.action {
            ProbeAction::Probe { timeout_ms } => {
                assert_eq!(timeout_ms, 10);
                let status = classify(&replies[asked]);
                asked += 1;
                let told = step(&config, state, &ProbeEvent::Result(status));
                state = told.state;
                match told.action {
                    ProbeAction::Sleep { ms } => slept += u64::from(ms),
                    action => {
                        emitted.extend(action.outcome(&config));
                    }
                }
            }
            ProbeAction::Halt => break,
            action => emitted.extend(action.outcome(&config)),
        }
    }
    let run = run_script(&config, &replies);
    assert_eq!(run.state, state);
    assert_eq!(run.emitted, emitted);
    assert_eq!(run.attempts as usize, asked);
    assert_eq!(run.slept_ms, slept);
    assert_eq!(emitted, vec![ReadinessOutcome::Ready]);
}

#[test]
fn success_codes_are_200_to_299() {
    for code in 0..=u16::MAX {
        assert_eq!(is_success_code(code), (200..=299).contains(&code));
    }
}
