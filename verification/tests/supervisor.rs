//! The proxy-engine supervisor: supersede semantics and idempotent stop.

use vnexus_core::{ConfigResult, XrayState, render, xray_spawn_args};

#[test]
fn starts_record_and_stop_releases() {
    let mut sup = XrayState::new();
    assert!(!sup.is_xray_running());

    assert_eq!(sup.start_xray_begin(), None);
    let msg = sup.start_xray_spawned(7);
    assert_eq!(msg, "Xray started successfully");
    assert!(sup.is_xray_running());

    let (kill, safety_net, msg) = sup.stop_xray();
    assert_eq!(kill, Some(7));
    assert_eq!(msg, "Xray stopped");
    assert!(!sup.is_xray_running());
    // The by-name force-kill backs up a possibly stale handle.
    let c = render(&safety_net);
    assert_eq!(c.program, "taskkill");
    assert_eq!(c.args, vec!["/F".to_string(), "/IM".to_string(), "xray.exe".to_string()]);

    // Stopping again is a success, not an error.
    let (kill, _, msg) = sup.stop_xray();
    assert_eq!(kill, None);
    assert_eq!(msg, "Xray was not running");
}

#[test]
fn second_start_supersedes_first() {
    let mut sup = XrayState::new();
    sup.start_xray_begin();
    sup.start_xray_spawned(7);

    // The first handle is handed out for termination before the second
    // spawn can ever be recorded: supersede, not stack.
    let kill = sup.start_xray_begin();
    assert_eq!(kill, Some(7));
    assert!(!sup.is_xray_running());
    sup.start_xray_spawned(9);
    assert!(sup.is_xray_running());

    let (kill, _, _) = sup.stop_xray();
    assert_eq!(kill, Some(9));
}

#[test]
fn engine_runs_against_generated_config() {
    let config = ConfigResult {
        path: "C:\\app\\config.json".to_string(),
        content: "{}".to_string(),
    };
    assert_eq!(
        xray_spawn_args(&config),
        vec!["run".to_string(), "-c".to_string(), "C:\\app\\config.json".to_string()]
    );
}
