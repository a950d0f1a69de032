//! A full session walked end to end: start with the kill switch on and a
//! caller-chosen DNS server, then stop, twice.

use vnexus_core::{
    NetAction, Phase, RouteCandidate, SpawnOutcome, TunError, TunProcess, render, select_gateway,
};

fn ran_ok() -> Result<String, TunError> {
    Ok(String::new())
}

#[test]
fn full_session_round_trip() {
    // Mocked routing table: one physical gateway.
    let candidates = vec![RouteCandidate {
        next_hop: "192.168.1.1".to_string(),
        interface_alias: "Ethernet".to_string(),
        metric: 25,
    }];
    let gateway = select_gateway(&candidates).unwrap();
    assert_eq!(gateway, "192.168.1.1");

    let mut ctl = TunProcess::new();
    let begin = ctl
        .start_tun(
            "203.0.113.9".to_string(),
            10808,
            true,
            Some(vec!["9.9.9.9".to_string()]),
            gateway,
        )
        .unwrap();

    // Stale-route cleanup: the endpoint's route and the two known stale
    // tunnel gateways.
    assert_eq!(begin.cleanup.len(), 3);
    let c0 = render(&begin.cleanup[0]);
    assert_eq!(c0.program, "route");
    assert_eq!(c0.args, vec!["delete".to_string(), "203.0.113.9".to_string()]);

    // The bypass route: 203.0.113.9/32 via 192.168.1.1 metric 5.
    let bypass = render(&begin.bypass);
    assert_eq!(bypass.program, "route");
    assert_eq!(
        bypass.args,
        vec![
            "add".to_string(),
            "203.0.113.9".to_string(),
            "mask".to_string(),
            "255.255.255.255".to_string(),
            "192.168.1.1".to_string(),
            "metric".to_string(),
            "5".to_string(),
        ]
    );

    let after = ctl.start_tun_bypass_result(ran_ok()).unwrap();

    // Four named firewall rules.
    assert_eq!(after.kill_switch_rules.len(), 4);
    let names: Vec<String> = after
        .kill_switch_rules
        .iter()
        .map(|a| render(a).args.join(" "))
        .collect();
    assert!(names[0].contains("name=V-Nexus_KS_Block"));
    assert!(names[1].contains("name=V-Nexus_KS_AllowVPN"));
    assert!(names[1].contains("remoteip=203.0.113.9"));
    assert!(names[2].contains("name=V-Nexus_KS_Lan"));
    assert!(names[3].contains("name=V-Nexus_KS_DNS"));

    // The helper is spawned against the chosen proxy port.
    assert_eq!(
        after.spawn_args,
        vec![
            "-device".to_string(),
            "tun://tun0".to_string(),
            "-proxy".to_string(),
            "socks5://127.0.0.1:10808".to_string(),
            "-loglevel".to_string(),
            "info".to_string(),
        ]
    );

    let outcome = ctl.start_tun_spawn_result(Ok(42));
    let poller = match outcome {
        SpawnOutcome::Proceed { poller } => poller,
        SpawnOutcome::Abort { .. } => panic!("spawn should proceed"),
    };
    assert_eq!(poller.timeout_ms, 5000);
    assert_eq!(poller.interval_ms, 200);

    let ready = ctl.start_tun_interface_result(true).unwrap();
    assert_eq!(ready.settle_ms, 1000);
    let cfg = render(&ready.configure);
    assert_eq!(cfg.program, "cmd");
    assert_eq!(
        cfg.args[1],
        "netsh interface ip set address name=\"tun0\" static 10.0.0.2 255.255.255.0 gateway=10.0.0.1 gwmetric=1"
    );

    // The interface is configured with the caller's DNS server.
    let dns_action = ctl.start_tun_ip_result(ran_ok()).unwrap();
    let dns = render(&dns_action);
    assert_eq!(dns.program, "powershell");
    assert_eq!(
        dns.args,
        vec![
            "-ExecutionPolicy".to_string(),
            "Bypass".to_string(),
            "-Command".to_string(),
            "Set-DnsClientServerAddress -InterfaceAlias 'tun0' -ServerAddresses ('9.9.9.9')"
                .to_string(),
        ]
    );

    let msg = ctl.start_tun_dns_result(ran_ok()).unwrap();
    assert_eq!(msg, "Tun Mode Started Successfully");
    assert_eq!(ctl.phase, Phase::Active);

    // Stop removes all of the above.
    let stop = ctl.stop_tun();
    assert_eq!(stop.kill_child, Some(42));
    assert_eq!(stop.message, "Tun Stopped");
    let rendered: Vec<String> = stop.actions.iter().map(|a| {
        let c = render(a);
        format!("{} {}", c.program, c.args.join(" "))
    }).collect();
    assert_eq!(rendered.len(), 6);
    assert_eq!(rendered[0], "taskkill /F /IM tun2socks-windows-amd64.exe");
    assert_eq!(rendered[1], "route delete 203.0.113.9");
    assert_eq!(rendered[2], "netsh advfirewall firewall delete rule name=V-Nexus_KS_Block");
    assert_eq!(rendered[3], "netsh advfirewall firewall delete rule name=V-Nexus_KS_AllowVPN");
    assert_eq!(rendered[4], "netsh advfirewall firewall delete rule name=V-Nexus_KS_Lan");
    assert_eq!(rendered[5], "netsh advfirewall firewall delete rule name=V-Nexus_KS_DNS");

    // Stop is idempotent: a second call still succeeds, with nothing
    // recorded to kill or revert.
    let stop2 = ctl.stop_tun();
    assert_eq!(stop2.kill_child, None);
    assert_eq!(stop2.message, "Tun Stopped");
    assert_eq!(stop2.actions.len(), 5);
    assert!(matches!(&stop2.actions[0], NetAction::KillProcessByName { image } if image == "tun2socks-windows-amd64.exe"));
    assert!(matches!(&stop2.actions[1], NetAction::DeleteFirewallRule { .. }));
}

#[test]
fn second_start_rejected_while_active() {
    let mut ctl = TunProcess::new();
    ctl.start_tun(
        "198.51.100.7".to_string(),
        1080,
        false,
        None,
        "10.0.0.254".to_string(),
    )
    .unwrap();
    // A start is in flight: an overlapping start is refused and changes
    // nothing.
    let second = ctl.start_tun(
        "198.51.100.8".to_string(),
        1081,
        true,
        None,
        "10.0.0.254".to_string(),
    );
    let err = second.err().expect("second start must be refused");
    assert_eq!(err.message(), "Tun is already running");
    assert_eq!(ctl.server_ip.as_deref(), Some("198.51.100.7"));
    assert_eq!(ctl.phase, Phase::BypassPending);
}
