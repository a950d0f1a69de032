//! The teardown and recovery plans, and the start protocol's failure
//! paths.

use vnexus_core::{
    CmdResult, NetAction, Phase, PingResult, SpawnOutcome, TunError, TunProcess, command_outcome,
    emergency_cleanup, exit_cleanup, render,
};

fn rendered(actions: &[NetAction]) -> Vec<String> {
    actions
        .iter()
        .map(|a| {
            let c = render(a);
            format!("{} {}", c.program, c.args.join(" "))
        })
        .collect()
}

fn ran_ok() -> Result<String, TunError> {
    Ok(String::new())
}

fn ctl_bypass_action() -> NetAction {
    NetAction::AddBypassRoute {
        dest: "203.0.113.9".to_string(),
        gateway: "192.168.0.1".to_string(),
    }
}

#[test]
fn emergency_cleanup_plan_is_exact() {
    let actions = emergency_cleanup();
    assert_eq!(
        rendered(&actions),
        vec![
            "taskkill /F /IM tun2socks-windows-amd64.exe".to_string(),
            "netsh advfirewall firewall delete rule name=V-Nexus_KS_Block".to_string(),
            "netsh advfirewall firewall delete rule name=V-Nexus_KS_AllowVPN".to_string(),
            "netsh advfirewall firewall delete rule name=V-Nexus_KS_Lan".to_string(),
            "netsh advfirewall firewall delete rule name=V-Nexus_KS_DNS".to_string(),
            "route delete 0.0.0.0 mask 0.0.0.0 10.0.0.1".to_string(),
            "route delete 0.0.0.0 mask 0.0.0.0 10.4.2.1".to_string(),
        ]
    );
}

#[test]
fn emergency_cleanup_repeats_identically() {
    // Running it twice issues the same deletions again; every one
    // tolerates deleting what is already gone.
    assert_eq!(rendered(&emergency_cleanup()), rendered(&emergency_cleanup()));
}

#[test]
fn exit_cleanup_with_no_session() {
    let mut ctl = TunProcess::new();
    let plan = exit_cleanup(&mut ctl);
    assert_eq!(plan.kill_child, None);
    assert_eq!(
        rendered(&plan.actions),
        vec![
            "taskkill /F /IM xray.exe".to_string(),
            "taskkill /F /IM tun2socks-windows-amd64.exe".to_string(),
        ]
    );
}

#[test]
fn exit_cleanup_mid_session_reverts_routes() {
    let mut ctl = TunProcess::new();
    ctl.start_tun("198.51.100.7".to_string(), 1080, false, None, "192.168.0.1".to_string())
        .unwrap();
    ctl.start_tun_bypass_result(ran_ok()).unwrap();
    ctl.start_tun_spawn_result(Ok(3));
    let plan = exit_cleanup(&mut ctl);
    assert_eq!(plan.kill_child, Some(3));
    assert_eq!(
        rendered(&plan.actions),
        vec![
            "taskkill /F /IM xray.exe".to_string(),
            "taskkill /F /IM tun2socks-windows-amd64.exe".to_string(),
            "route delete 198.51.100.7".to_string(),
            "route delete 0.0.0.0 mask 0.0.0.0 10.0.0.1".to_string(),
        ]
    );
    assert_eq!(ctl.phase, Phase::Idle);
}

#[test]
fn bypass_failure_aborts_with_captured_output() {
    let mut ctl = TunProcess::new();
    ctl.start_tun("203.0.113.9".to_string(), 1080, false, None, "192.168.0.1".to_string())
        .unwrap();
    let bypass_cmd = render(&ctl_bypass_action());
    let outcome = command_outcome(
        bypass_cmd,
        CmdResult::Output {
            stdout: "The route addition failed: element not found.".to_string(),
            stderr: String::new(),
            code: 1,
        },
    );
    let r = ctl.start_tun_bypass_result(outcome);
    let e = r.err().unwrap();
    assert_eq!(
        e.message(),
        "Command failed: STDOUT: The route addition failed: element not found. || STDERR: "
    );
    // Nothing was spawned; the controller is idle and can start again.
    assert_eq!(ctl.phase, Phase::Idle);
    assert!(ctl
        .start_tun("203.0.113.9".to_string(), 1080, false, None, "192.168.0.1".to_string())
        .is_ok());
}

#[test]
fn spawn_failure_rolls_back_bypass_route() {
    let mut ctl = TunProcess::new();
    ctl.start_tun("203.0.113.9".to_string(), 1080, false, None, "192.168.0.1".to_string())
        .unwrap();
    ctl.start_tun_bypass_result(ran_ok()).unwrap();
    let outcome = ctl.start_tun_spawn_result(Err("program not found".to_string()));
    match outcome {
        SpawnOutcome::Abort { rollback, error } => {
            assert_eq!(rendered(&rollback), vec!["route delete 203.0.113.9".to_string()]);
            assert_eq!(error.message(), "Failed to spawn Tun2Socks: program not found");
        },
        SpawnOutcome::Proceed { .. } => panic!("spawn failure must abort"),
    }
    assert_eq!(ctl.phase, Phase::Idle);
}

#[test]
fn interface_timeout_leaves_session_for_stop() {
    let mut ctl = TunProcess::new();
    ctl.start_tun("203.0.113.9".to_string(), 1080, true, None, "192.168.0.1".to_string())
        .unwrap();
    ctl.start_tun_bypass_result(ran_ok()).unwrap();
    ctl.start_tun_spawn_result(Ok(11));
    let r = ctl.start_tun_interface_result(false);
    assert_eq!(r.err().unwrap().message(), "Interface tun0 did not appear within 5000ms");
    // The helper stays running; a stop performs the full rollback.
    assert_eq!(ctl.phase, Phase::Active);
    let stop = ctl.stop_tun();
    assert_eq!(stop.kill_child, Some(11));
    assert!(rendered(&stop.actions).contains(&"route delete 203.0.113.9".to_string()));
}

#[test]
fn dns_defaults_to_public_fallback_pair() {
    let mut ctl = TunProcess::new();
    ctl.start_tun("203.0.113.9".to_string(), 1080, false, None, "192.168.0.1".to_string())
        .unwrap();
    ctl.start_tun_bypass_result(ran_ok()).unwrap();
    ctl.start_tun_spawn_result(Ok(1));
    ctl.start_tun_interface_result(true).unwrap();
    let dns = render(&ctl.start_tun_ip_result(ran_ok()).unwrap());
    assert_eq!(
        dns.args[3],
        "Set-DnsClientServerAddress -InterfaceAlias 'tun0' -ServerAddresses ('1.1.1.1', '1.0.0.1')"
    );
}

#[test]
fn empty_dns_list_also_falls_back() {
    let mut ctl = TunProcess::new();
    ctl.start_tun(
        "203.0.113.9".to_string(),
        1080,
        false,
        Some(vec![]),
        "192.168.0.1".to_string(),
    )
    .unwrap();
    ctl.start_tun_bypass_result(ran_ok()).unwrap();
    ctl.start_tun_spawn_result(Ok(1));
    ctl.start_tun_interface_result(true).unwrap();
    let dns = render(&ctl.start_tun_ip_result(ran_ok()).unwrap());
    assert!(dns.args[3].ends_with("('1.1.1.1', '1.0.0.1')"));
}

#[test]
fn kill_switch_off_adds_no_rules() {
    let mut ctl = TunProcess::new();
    ctl.start_tun("203.0.113.9".to_string(), 1080, false, None, "192.168.0.1".to_string())
        .unwrap();
    let after = ctl.start_tun_bypass_result(ran_ok()).unwrap();
    assert!(after.kill_switch_rules.is_empty());
}

#[test]
fn ip_configuration_failure_fails_start_without_rollback() {
    let mut ctl = TunProcess::new();
    ctl.start_tun("203.0.113.9".to_string(), 1080, false, None, "192.168.0.1".to_string())
        .unwrap();
    ctl.start_tun_bypass_result(ran_ok()).unwrap();
    ctl.start_tun_spawn_result(Ok(5));
    ctl.start_tun_interface_result(true).unwrap();
    let cfg_cmd = render(&NetAction::ConfigureInterfaceAddress);
    let outcome = command_outcome(
        cfg_cmd,
        CmdResult::Output {
            stdout: String::new(),
            stderr: "The parameter is incorrect.".to_string(),
            code: 1,
        },
    );
    let r = ctl.start_tun_ip_result(outcome);
    assert!(r.is_err());
    // Still active: the caller is expected to stop for cleanup.
    assert_eq!(ctl.phase, Phase::Active);
    assert_eq!(ctl.stop_tun().kill_child, Some(5));
}

#[test]
fn ping_results_carry_outcome() {
    let p = PingResult::failed();
    assert!(!p.success);
    assert_eq!(p.latency, 0);
    let p = PingResult::succeeded(38);
    assert!(p.success);
    assert_eq!(p.latency, 38);
}
