use tunnel_sidecar::config::{join, AuthRequest, DaemonConfig, TunnelConfig};
use tunnel_sidecar::error::{push_decimal, StartError};
use tunnel_sidecar::orchestrator::{Action, Event, Orchestrator, Phase};
use tunnel_sidecar::poller::{PollDecision, ReadinessPoller, DEFAULT_MAX_ATTEMPTS};

fn strings(v: &[&str]) -> Vec<String> {
    v.iter().map(|s| s.to_string()).collect()
}

/// Drives a poller against a filesystem that creates the socket just before
/// look number `created_at`; returns the look at which it was seen.
fn poll_fake_fs(created_at: u32) -> Result<u32, ()> {
    let mut poller = ReadinessPoller::new(DEFAULT_MAX_ATTEMPTS);
    let mut look: u32 = 0;
    loop {
        match poller.observe(look >= created_at) {
            PollDecision::Ready => return Ok(look),
            PollDecision::Wait => look += 1,
            PollDecision::TimedOut => return Err(()),
        }
    }
}

fn started(key: Option<&str>) -> (Orchestrator, Action) {
    Orchestrator::start(key.map(|k| k.to_string()), None, None, "/data")
}

/// Runs the sequence up to the login, with the socket seen at the given look.
fn up_to_login(socket_at: u32) -> Orchestrator {
    let (mut o, _) = started(Some("abc"));
    assert!(matches!(o.step(Event::Completed), Action::SpawnDaemon { .. }));
    assert!(matches!(o.step(Event::Completed), Action::ProbeSocket { .. }));
    for _ in 0..socket_at {
        assert!(matches!(o.step(Event::SocketProbed(false)), Action::Sleep { millis: 500 }));
        assert!(matches!(o.step(Event::Completed), Action::ProbeSocket { .. }));
    }
    assert!(matches!(o.step(Event::SocketProbed(true)), Action::RunLogin { .. }));
    o
}

#[test]
fn ready_within_budget_and_timeout_after() {
    for n in 0..=12u32 {
        let r = poll_fake_fs(n);
        if n <= 10 {
            assert_eq!(r, Ok(n));
        } else {
            assert_eq!(r, Err(()));
        }
    }
}

#[test]
fn poller_counts_waits() {
    let mut p = ReadinessPoller::new(2);
    assert_eq!(p.observe(false), PollDecision::Wait);
    assert_eq!(p.attempts, 1);
    assert_eq!(p.observe(false), PollDecision::Wait);
    assert_eq!(p.observe(false), PollDecision::TimedOut);
    assert_eq!(p.attempts, 2);
    assert_eq!(p.observe(true), PollDecision::Ready);
}

#[test]
fn orchestrator_times_out_after_ten_waits() {
    let (mut o, _) = started(Some("k"));
    o.step(Event::Completed);
    o.step(Event::Completed);
    for _ in 0..10 {
        assert!(matches!(o.step(Event::SocketProbed(false)), Action::Sleep { .. }));
        o.step(Event::Completed);
    }
    match o.step(Event::SocketProbed(false)) {
        Action::Stop(e) => {
            assert!(matches!(e, StartError::Timeout));
            assert_eq!(e.message(), "Tailscaled socket was not created in time");
        }
        other => panic!("unexpected {:?}", other),
    }
    assert_eq!(o.phase, Phase::Failed);
}

#[test]
fn rejected_login_surfaces_code_and_stderr() {
    let mut o = up_to_login(0);
    let a = o.step(Event::LoginExited { exit_code: Some(1), stderr: "key expired".to_string() });
    match a {
        Action::Stop(StartError::Auth { exit_code, ref stderr }) => {
            assert_eq!(exit_code, 1);
            assert_eq!(stderr, "key expired");
        }
        other => panic!("unexpected {:?}", other),
    }
    assert_eq!(o.phase, Phase::Failed);
    // Nothing starts the relay afterwards.
    for e in [
        Event::Completed,
        Event::SocketProbed(true),
        Event::LoginExited { exit_code: Some(0), stderr: String::new() },
    ] {
        assert!(matches!(o.step(e), Action::Idle));
    }
    assert_eq!(o.phase, Phase::Failed);
}

#[test]
fn login_ended_by_signal_reports_minus_one() {
    let mut o = up_to_login(1);
    match o.step(Event::LoginExited { exit_code: None, stderr: "killed".to_string() }) {
        Action::Stop(e) => {
            assert_eq!(e.message(), "Tailscale login failed (exit -1): killed");
        }
        other => panic!("unexpected {:?}", other),
    }
}

#[test]
fn login_that_cannot_run_is_reported() {
    let mut o = up_to_login(0);
    match o.step(Event::Failed("no such file".to_string())) {
        Action::Stop(e) => {
            assert!(matches!(e, StartError::LoginLaunch(_)));
            assert_eq!(e.message(), "Failed to execute tailscale up: no such file");
        }
        other => panic!("unexpected {:?}", other),
    }
}

#[test]
fn missing_key_spawns_nothing() {
    let (mut o, a) = started(None);
    let mut spawns = 0;
    match a {
        Action::Stop(e) => {
            assert!(matches!(e, StartError::MissingAuthKey));
            assert_eq!(
                e.message(),
                "TAILSCALE_AUTH_KEY not found (set env var or apps/desktop/.env)"
            );
        }
        other => panic!("unexpected {:?}", other),
    }
    assert_eq!(o.phase, Phase::Failed);
    for e in [Event::Completed, Event::Completed, Event::SocketProbed(true)] {
        if matches!(o.step(e), Action::SpawnDaemon { .. }) {
            spawns += 1;
        }
    }
    assert_eq!(spawns, 0);
}

#[test]
fn dir_and_spawn_failures_stop_the_sequence() {
    let (mut o, _) = started(Some("k"));
    match o.step(Event::Failed("denied".to_string())) {
        Action::Stop(e) => assert_eq!(e.message(), "Failed to create tailscale dir: denied"),
        other => panic!("unexpected {:?}", other),
    }
    let (mut o, _) = started(Some("k"));
    o.step(Event::Completed);
    match o.step(Event::Failed("missing binary".to_string())) {
        Action::Stop(e) => {
            assert_eq!(e.message(), "Failed to spawn tailscaled sidecar: missing binary")
        }
        other => panic!("unexpected {:?}", other),
    }
}

#[test]
fn end_to_end_scenario_targets_configured_server() {
    let (mut o, a) = Orchestrator::start(
        Some("abc".to_string()),
        Some("10.0.0.5".to_string()),
        Some("4000".to_string()),
        "/tmp/x",
    );
    match a {
        Action::CreateDir { path } => assert_eq!(path, "/tmp/x/tailscale"),
        other => panic!("unexpected {:?}", other),
    }
    match o.step(Event::Completed) {
        Action::SpawnDaemon { program, args } => {
            assert_eq!(program, "tailscaled");
            assert_eq!(
                args,
                strings(&[
                    "--tun=userspace-networking",
                    "--socks5-server=localhost:1055",
                    "--state",
                    "/tmp/x/tailscale/tailscaled.state",
                    "--socket",
                    "/tmp/x/tailscale/tailscaled.sock",
                ])
            );
        }
        other => panic!("unexpected {:?}", other),
    }
    match o.step(Event::Completed) {
        Action::ProbeSocket { path } => assert_eq!(path, "/tmp/x/tailscale/tailscaled.sock"),
        other => panic!("unexpected {:?}", other),
    }
    // The socket appears at the second look after the first.
    for _ in 0..2 {
        assert!(matches!(o.step(Event::SocketProbed(false)), Action::Sleep { millis: 500 }));
        assert!(matches!(o.step(Event::Completed), Action::ProbeSocket { .. }));
    }
    match o.step(Event::SocketProbed(true)) {
        Action::RunLogin { program, args } => {
            assert_eq!(program, "tailscale");
            assert_eq!(
                args,
                strings(&[
                    "--socket",
                    "/tmp/x/tailscale/tailscaled.sock",
                    "up",
                    "--authkey",
                    "abc",
                    "--hostname",
                    "la-caja-desktop-client",
                    "--accept-routes",
                ])
            );
        }
        other => panic!("unexpected {:?}", other),
    }
    match o.step(Event::LoginExited { exit_code: Some(0), stderr: String::new() }) {
        Action::StartRelay(plan) => {
            assert_eq!(plan.listen_addr, "127.0.0.1:3001");
            assert_eq!(plan.socks_addr, "127.0.0.1:1055");
            assert_eq!(plan.target, "10.0.0.5:4000");
        }
        other => panic!("unexpected {:?}", other),
    }
    assert_eq!(o.phase, Phase::Relaying);
    assert!(matches!(o.step(Event::Completed), Action::Idle));
}

#[test]
fn defaults_apply_when_server_unset() {
    let t = TunnelConfig::resolve(Some("k".to_string()), None, None).unwrap();
    assert_eq!(t.server_ip, "100.109.89.122");
    assert_eq!(t.server_port, "3000");
    assert_eq!(t.target_addr(), "100.109.89.122:3000");
    assert!(TunnelConfig::resolve(None, Some("1.2.3.4".to_string()), None).is_none());
}

#[test]
fn paths_join_with_one_separator() {
    assert_eq!(join("/a", "b"), "/a/b");
    assert_eq!(join("/a/", "b"), "/a/b");
    assert_eq!(join("", "b"), "b");
    let d = DaemonConfig::in_data_dir("/var/app/");
    assert_eq!(d.dir, "/var/app/tailscale");
    assert_eq!(d.state_file_path, "/var/app/tailscale/tailscaled.state");
}

#[test]
fn login_args_without_route_flag() {
    let mut r = AuthRequest::for_node("key".to_string(), "/s".to_string());
    r.accept_routes = false;
    assert_eq!(
        r.login_args(),
        strings(&["--socket", "/s", "up", "--authkey", "key", "--hostname", "la-caja-desktop-client"])
    );
}

#[test]
fn decimal_text_of_exit_codes() {
    for (i, t) in [(0, "0"), (7, "7"), (42, "42"), (-3, "-3"), (i32::MIN, "-2147483648"), (i32::MAX, "2147483647")] {
        let mut s = String::from("x");
        push_decimal(i, &mut s);
        assert_eq!(s, format!("x{}", t));
    }
}

#[test]
fn auth_error_message_holds_code_and_text() {
    let e = StartError::Auth { exit_code: 1, stderr: "key expired".to_string() };
    assert_eq!(e.message(), "Tailscale login failed (exit 1): key expired");
}
