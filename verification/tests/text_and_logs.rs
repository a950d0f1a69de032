//! Text utilities, log-line classification, and the command runner's
//! outcome mapping.

use vnexus_core::{
    CmdResult, CommandSpec, LogLevel, TunError, classify_output_line, command_outcome,
    helper_stderr_event, helper_stdout_event, join_quoted, str_contains_ci, u16_dec,
};

fn route_print() -> CommandSpec {
    CommandSpec { program: "route".to_string(), args: vec!["print".to_string()] }
}

#[test]
fn decimal_rendering() {
    assert_eq!(u16_dec(0), "0");
    assert_eq!(u16_dec(7), "7");
    assert_eq!(u16_dec(10), "10");
    assert_eq!(u16_dec(10808), "10808");
    assert_eq!(u16_dec(65535), "65535");
}

#[test]
fn contains_ignoring_case() {
    assert!(str_contains_ci("Hello World", "WORLD"));
    assert!(str_contains_ci("TAP-Windows", "tap"));
    assert!(str_contains_ci("abc", ""));
    assert!(str_contains_ci("", ""));
    assert!(!str_contains_ci("abc", "abcd"));
    assert!(!str_contains_ci("", "a"));
    assert!(!str_contains_ci("Ethernet", "tun"));
    assert!(str_contains_ci("v-NEXUS adapter", "V-Nexus"));
}

#[test]
fn stderr_lines_reclassified_by_keyword() {
    assert_eq!(classify_output_line("FATAL: bind failed"), LogLevel::Error);
    assert_eq!(classify_output_line("an Error occurred"), LogLevel::Error);
    assert_eq!(classify_output_line("panic: index out of range"), LogLevel::Error);
    assert_eq!(classify_output_line("Failed to open device"), LogLevel::Error);
    assert_eq!(classify_output_line("listening on tun0"), LogLevel::Info);
    assert_eq!(classify_output_line("wintun driver loaded"), LogLevel::Info);
    assert_eq!(classify_output_line(""), LogLevel::Info);
}

#[test]
fn helper_events_are_tagged() {
    let e = helper_stdout_event("ready");
    assert_eq!(e.level, LogLevel::Info);
    assert_eq!(e.message, "[Tun2Socks] ready");

    let e = helper_stderr_event("fatal handshake error");
    assert_eq!(e.level, LogLevel::Error);
    assert_eq!(e.message, "[Tun2Socks] fatal handshake error");

    let e = helper_stderr_event("netstack initialized");
    assert_eq!(e.level, LogLevel::Info);
    assert_eq!(e.message, "[Tun2Socks] netstack initialized");
}

#[test]
fn quoted_join_forms() {
    assert_eq!(join_quoted(&vec![]), "");
    assert_eq!(join_quoted(&vec!["9.9.9.9".to_string()]), "'9.9.9.9'");
    assert_eq!(
        join_quoted(&vec!["1.1.1.1".to_string(), "1.0.0.1".to_string()]),
        "'1.1.1.1', '1.0.0.1'"
    );
}

#[test]
fn command_outcome_mapping() {
    let ok = command_outcome(
        route_print(),
        CmdResult::Output { stdout: "OK!\n".to_string(), stderr: String::new(), code: 0 },
    );
    assert_eq!(ok.unwrap(), "OK!\n");

    // The host's network tools routinely report errors on the success
    // stream; both streams are kept.
    let failed = command_outcome(
        route_print(),
        CmdResult::Output {
            stdout: "The route addition failed".to_string(),
            stderr: "access denied".to_string(),
            code: 1,
        },
    );
    let e = failed.err().unwrap();
    assert_eq!(
        e.message(),
        "Command failed: STDOUT: The route addition failed || STDERR: access denied"
    );
    match &e {
        TunError::CommandFailed { command, args, exit_code, .. } => {
            assert_eq!(command, "route");
            assert_eq!(args, &vec!["print".to_string()]);
            assert_eq!(*exit_code, 1);
        }
        _ => panic!("expected CommandFailed"),
    }

    let unlaunchable = command_outcome(
        route_print(),
        CmdResult::Unlaunchable { message: "program not found".to_string() },
    );
    let e = unlaunchable.err().unwrap();
    assert_eq!(e.message(), "Command failed: STDOUT:  || STDERR: program not found");
    match &e {
        TunError::CommandFailed { exit_code, .. } => assert_eq!(*exit_code, -1),
        _ => panic!("expected CommandFailed"),
    }
}

#[test]
fn error_messages() {
    assert_eq!(TunError::AlreadyRunning.message(), "Tun is already running");
    assert_eq!(
        TunError::SpawnFailed { message: "no file".to_string() }.message(),
        "Failed to spawn Tun2Socks: no file"
    );
    assert_eq!(
        TunError::InterfaceTimeout.message(),
        "Interface tun0 did not appear within 5000ms"
    );
}
