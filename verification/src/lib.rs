//! Control plane for a personal VPN/proxy client.
//!
//! The crate holds the decision logic of the tunnel session controller: the
//! ordered start/stop protocol for the tunnel helper process, the supervisor
//! of the proxy engine process, gateway selection, the kill-switch rule set,
//! and the idempotent teardown and crash-recovery plans.  Every network or
//! process mutation is described as a plain data value (a command line or an
//! action), so the logic that chooses and orders the mutations is verified
//! here, while an unverified shell executes them against the host.

mod cmd;
mod diag;
mod errors;
mod gateway;
mod laws;
mod logs;
mod model;
mod net;
mod poller;
mod text;
mod tun;
mod xray;

pub use cmd::{CommandSpec, CmdResult, command_outcome};
pub use diag::PingResult;
pub use errors::TunError;
pub use model::{RouteV, NetModel, bypass_route, apply_action, apply_plan, lemma_apply_plan_concat, lemma_apply_plan_one};
pub use net::{NetAction, NetActionV, render, spec_program, spec_args, ks_rule_names, helper_image, engine_image};
pub use gateway::{is_digit, all_digits, dec_val, is_octet, is_ipv4_literal, is_ipv4_str, RouteCandidate, eligible, is_best_candidate, select_gateway};
pub use laws::{lemma_stop_plan_effect, lemma_emergency_plan_effect, lemma_stop_when_idle_is_noop, start_network_actions, lemma_bypass_route_round_trip, lemma_enable_prefix_adds_only_ks_rules, lemma_stop_clears_kill_switch, lemma_emergency_clears_kill_switch, lemma_emergency_cleanup_idempotent};
pub use logs::{LogLevel, LogEvent, looks_like_error, classify_output_line, helper_stdout_event, helper_stderr_event};
pub use poller::InterfacePoller;
pub use xray::{ConfigResult, XrayState, xray_spawn_args, lemma_start_supersedes};
pub use tun::{Phase, TunProcess, StartBegin, AfterBypass, SpawnOutcome, InterfaceReady, StopPlan, default_dns, effective_dns, stale_cleanup_plan, kill_switch_enable_plan, kill_switch_delete_plan, spawn_args_plan, stop_plan_actions, emergency_plan, exit_plan, emergency_cleanup, exit_cleanup, lemma_start_is_exclusive};
pub use text::{contains_ci, str_contains_ci, spec_dec, u16_dec, quoted_list, join_quoted};
