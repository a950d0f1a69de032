//! The tunnel session controller: the ordered start/stop protocol, the
//! session record, and the teardown and crash-recovery plans.
//!
//! The controller is a state machine the shell drives.  Each step decides
//! what must happen next — which commands to run, what to spawn, how long
//! to wait — and hands it out as data; the shell performs it and reports
//! the outcome to the next step.  The steps are strictly ordered: several
//! have hard dependencies on the previous step's success, and the
//! contracts pin both the emitted plans and the session record after every
//! transition.

use vstd::prelude::*;
use crate::errors::TunError;
use crate::net::NetAction;
use crate::net::NetActionV;
use crate::net::{ks_block_name, ks_allow_vpn_name, ks_lan_name, ks_dns_name};
use crate::net::{helper_image, engine_image};
use crate::poller::InterfacePoller;
use crate::text::{spec_dec, u16_dec};

verus! {

/// Where one tunnel session stands.  `Idle` and `Active` are the resting
/// states; the rest are the strictly ordered steps of a start in flight.
#[derive(PartialEq, Eq, Structural, Clone, Copy, Debug)]
pub enum Phase {
    Idle,
    BypassPending,
    SpawnPending,
    InterfacePending,
    IpPending,
    DnsPending,
    Active,
}

/// The session controller.  At most one session is active at a time; the
/// record of what was applied (endpoint, gateway, child handle) is what
/// makes teardown exact rather than guessed.
pub struct TunProcess {
    pub phase: Phase,
    pub server_ip: Option<String>,
    pub default_gateway: Option<String>,
    pub child: Option<u64>,
    pub kill_switch: bool,
    pub proxy_port: u16,
    pub dns_servers: Vec<String>,
}

/// What the first start step hands the shell: best-effort cleanup of any
/// stale routes from a crashed prior session, then the bypass route that
/// must succeed before anything is spawned.
pub struct StartBegin {
    pub cleanup: Vec<NetAction>,
    pub bypass: NetAction,
}

/// What follows a successful bypass-route install: the kill-switch rules
/// to apply best-effort (empty when the kill switch is off), and the
/// argument vector the tunnel helper is spawned with.
pub struct AfterBypass {
    pub kill_switch_rules: Vec<NetAction>,
    pub spawn_args: Vec<String>,
}

/// The decision after the spawn attempt: wait for the interface with the
/// given poller, or abort, rolling back the bypass route.
pub enum SpawnOutcome {
    Proceed { poller: InterfacePoller },
    Abort { rollback: Vec<NetAction>, error: TunError },
}

/// The decision after the interface appeared: settle briefly, then apply
/// the fixed interface address configuration.
pub struct InterfaceReady {
    pub settle_ms: u64,
    pub configure: NetAction,
}

/// Everything a stop performs: the owned child handle to terminate first,
/// then the command actions, in order.
pub struct StopPlan {
    pub kill_child: Option<u64>,
    pub actions: Vec<NetAction>,
    pub message: String,
}

/// The fixed public fallback pair used when the caller supplies no DNS
/// servers.
pub open spec fn default_dns() -> Seq<Seq<char>> {
    seq!["1.1.1.1"@, "1.0.0.1"@]
}

/// The DNS servers a session configures: the caller's list, or the
/// fallback pair if none were given.
pub open spec fn effective_dns(requested: Option<Seq<Seq<char>>>) -> Seq<Seq<char>> {
    match requested {
        Some(l) => if l.len() > 0 {
            l
        } else {
            default_dns()
        },
        None => default_dns(),
    }
}

/// Best-effort cleanup run before a start: the endpoint's own route and
/// the two known stale tunnel-gateway default routes.
pub open spec fn stale_cleanup_plan(server_ip: Seq<char>) -> Seq<NetActionV> {
    seq![
        NetActionV::DeleteRoute { dest: server_ip },
        NetActionV::DeleteRouteVia {
            dest: "0.0.0.0"@,
            mask: "0.0.0.0"@,
            gateway: "10.0.0.1"@,
        },
        NetActionV::DeleteRouteVia {
            dest: "0.0.0.0"@,
            mask: "0.0.0.0"@,
            gateway: "10.4.2.1"@,
        },
    ]
}

/// The four kill-switch rules, in creation order: block everything first,
/// then the allowances that make the block liveable.
pub open spec fn kill_switch_enable_plan(server_ip: Seq<char>) -> Seq<NetActionV> {
    seq![
        NetActionV::AddFirewallBlockAll,
        NetActionV::AddFirewallAllowServer { server_ip },
        NetActionV::AddFirewallAllowLan,
        NetActionV::AddFirewallAllowDns,
    ]
}

/// Unconditional deletion of all four kill-switch rules by name,
/// regardless of whether their creation ever succeeded.
pub open spec fn kill_switch_delete_plan() -> Seq<NetActionV> {
    seq![
        NetActionV::DeleteFirewallRule { name: ks_block_name() },
        NetActionV::DeleteFirewallRule { name: ks_allow_vpn_name() },
        NetActionV::DeleteFirewallRule { name: ks_lan_name() },
        NetActionV::DeleteFirewallRule { name: ks_dns_name() },
    ]
}

/// The tunnel helper's argument vector: bind the virtual device to the
/// local SOCKS listener on the given port.
pub open spec fn spawn_args_plan(port: u16) -> Seq<Seq<char>> {
    seq![
        "-device"@,
        "tun://tun0"@,
        "-proxy"@,
        "socks5://127.0.0.1:"@ + spec_dec(port as nat),
        "-loglevel"@,
        "info"@,
    ]
}

/// Everything a stop runs after terminating the child: the by-name
/// force-kill safety net, the recorded bypass route's deletion (when one
/// was recorded), and the four kill-switch rule deletions.
pub open spec fn stop_plan_actions(recorded: Option<Seq<char>>) -> Seq<NetActionV> {
    seq![NetActionV::KillProcessByName { image: helper_image() }] + (match recorded {
        Some(ip) => seq![NetActionV::DeleteRoute { dest: ip }],
        None => Seq::<NetActionV>::empty(),
    }) + kill_switch_delete_plan()
}

/// The crash-recovery plan run once at application startup, before any
/// user action: force-kill the helper by name, blindly delete the four
/// kill-switch rules, and delete the known stale tunnel-gateway default
/// routes.  It assumes nothing about in-memory state.
pub open spec fn emergency_plan() -> Seq<NetActionV> {
    seq![NetActionV::KillProcessByName { image: helper_image() }] + kill_switch_delete_plan()
        + seq![
        NetActionV::DeleteRouteVia {
            dest: "0.0.0.0"@,
            mask: "0.0.0.0"@,
            gateway: "10.0.0.1"@,
        },
        NetActionV::DeleteRouteVia {
            dest: "0.0.0.0"@,
            mask: "0.0.0.0"@,
            gateway: "10.4.2.1"@,
        },
    ]
}

/// The plan run when the application exits: force-kill both external
/// processes by name, and drop the recorded bypass route and the tunnel
/// gateway override if a session had recorded one.
pub open spec fn exit_plan(recorded: Option<Seq<char>>) -> Seq<NetActionV> {
    seq![
        NetActionV::KillProcessByName { image: engine_image() },
        NetActionV::KillProcessByName { image: helper_image() },
    ] + (match recorded {
        Some(ip) => seq![
            NetActionV::DeleteRoute { dest: ip },
            NetActionV::DeleteRouteVia {
                dest: "0.0.0.0"@,
                mask: "0.0.0.0"@,
                gateway: "10.0.0.1"@,
            },
        ],
        None => Seq::<NetActionV>::empty(),
    })
}

fn default_dns_vec() -> (v: Vec<String>)
    ensures
        v.deep_view() == default_dns(),
{
    let mut v: Vec<String> = Vec::new();
    v.push(String::from_str("1.1.1.1"));
    v.push(String::from_str("1.0.0.1"));
    assert(v.deep_view() =~~= default_dns());
    v
}

impl TunProcess {
    /// No session, nothing recorded, nothing owned.
    pub open spec fn is_idle(self) -> bool {
        &&& self.phase == Phase::Idle
        &&& self.server_ip is None
        &&& self.default_gateway is None
        &&& self.child is None
    }

    /// A session is active or a start is in flight; a further start is
    /// refused until an explicit stop.
    pub open spec fn busy(self) -> bool {
        self.phase != Phase::Idle
    }

    /// The session invariant: the endpoint and gateway are recorded for
    /// exactly the lifetime of a session (they are what teardown reverts),
    /// and the child handle is owned exactly from a successful spawn on.
    pub open spec fn wf(self) -> bool {
        &&& (self.phase == Phase::Idle ==> self.server_ip is None && self.default_gateway is None
            && self.child is None)
        &&& (self.phase != Phase::Idle ==> self.server_ip is Some
            && self.default_gateway is Some)
        &&& (self.phase == Phase::BypassPending || self.phase == Phase::SpawnPending
            ==> self.child is None)
        &&& (self.phase == Phase::InterfacePending || self.phase == Phase::IpPending
            || self.phase == Phase::DnsPending || self.phase == Phase::Active
            ==> self.child is Some)
    }

    /// The record a start writes before its first network mutation.
    pub open spec fn spec_start_accepted(
        pre: TunProcess,
        post: TunProcess,
        server_ip: String,
        proxy_port: u16,
        kill_switch: bool,
        gateway: String,
    ) -> bool {
        &&& post.phase == Phase::BypassPending
        &&& post.server_ip == Some(server_ip)
        &&& post.default_gateway == Some(gateway)
        &&& post.child == None::<u64>
        &&& post.kill_switch == kill_switch
        &&& post.proxy_port == proxy_port
    }

    pub fn new() -> (s: Self)
        ensures
            s.is_idle(),
            s.wf(),
            s.kill_switch == false,
            s.proxy_port == 0,
            s.dns_servers@.len() == 0,
    {
        TunProcess {
            phase: Phase::Idle,
            server_ip: None,
            default_gateway: None,
            child: None,
            kill_switch: false,
            proxy_port: 0,
            dns_servers: Vec::new(),
        }
    }

    /// Step one of a start, entered with the already-resolved physical
    /// gateway.  A busy controller refuses with `AlreadyRunning` and is
    /// left untouched.  An idle one records the session parameters and
    /// hands out the stale-route cleanup (best-effort) and the bypass
    /// route install (which must succeed before anything else happens).
    pub fn start_tun(
        &mut self,
        server_ip: String,
        proxy_port: u16,
        kill_switch: bool,
        dns_servers: Option<Vec<String>>,
        gateway: String,
    ) -> (r: Result<StartBegin, TunError>)
        requires
            old(self).wf(),
        ensures
            final(self).wf(),
            old(self).busy() ==> (r matches Err(TunError::AlreadyRunning) && *final(self) == *old(
                self,
            )),
            !old(self).busy() ==> (r matches Ok(sb) && {
                &&& sb.cleanup.deep_view() == stale_cleanup_plan(server_ip@)
                &&& sb.bypass@ == (NetActionV::AddBypassRoute {
                    dest: server_ip@,
                    gateway: gateway@,
                })
                &&& Self::spec_start_accepted(
                    *old(self),
                    *final(self),
                    server_ip,
                    proxy_port,
                    kill_switch,
                    gateway,
                )
                &&& final(self).dns_servers.deep_view() == effective_dns(dns_servers.deep_view())
            }),
    {
        if !matches!(self.phase, Phase::Idle) {
            return Err(TunError::AlreadyRunning);
        }
        let dns = match dns_servers {
            Some(v) => {
                if v.len() > 0 {
                    v
                } else {
                    default_dns_vec()
                }
            },
            None => default_dns_vec(),
        };
        self.phase = Phase::BypassPending;
        self.server_ip = Some(server_ip.clone());
        self.default_gateway = Some(gateway.clone());
        self.child = None;
        self.kill_switch = kill_switch;
        self.proxy_port = proxy_port;
        self.dns_servers = dns;
        let mut cleanup: Vec<NetAction> = Vec::new();
        cleanup.push(NetAction::DeleteRoute { dest: server_ip.clone() });
        cleanup.push(
            NetAction::DeleteRouteVia {
                dest: String::from_str("0.0.0.0"),
                mask: String::from_str("0.0.0.0"),
                gateway: String::from_str("10.0.0.1"),
            },
        );
        cleanup.push(
            NetAction::DeleteRouteVia {
                dest: String::from_str("0.0.0.0"),
                mask: String::from_str("0.0.0.0"),
                gateway: String::from_str("10.4.2.1"),
            },
        );
        assert(cleanup.deep_view() =~~= stale_cleanup_plan(server_ip@));
        let bypass = NetAction::AddBypassRoute { dest: server_ip, gateway };
        Ok(StartBegin { cleanup, bypass })
    }

    /// Step two: the outcome of the bypass-route install, as mapped by the
    /// command runner.  On failure the whole start aborts with that very
    /// failure, with no process spawned and the session cleared — without
    /// the bypass route, tunnel traffic to the endpoint would loop through
    /// the tunnel itself.  On success the kill-switch rules (if requested;
    /// applied best-effort, their failures are logged, never fatal) and
    /// the helper's spawn arguments are handed out.
    pub fn start_tun_bypass_result(&mut self, outcome: Result<String, TunError>) -> (r: Result<
        AfterBypass,
        TunError,
    >)
        requires
            old(self).wf(),
            old(self).phase == Phase::BypassPending,
        ensures
            final(self).wf(),
            outcome matches Err(e) ==> (r matches Err(e2) && e2 == e && final(self).is_idle()),
            outcome is Ok ==> (r matches Ok(ab) && {
                &&& ab.kill_switch_rules.deep_view() == (if old(self).kill_switch {
                    kill_switch_enable_plan(old(self).server_ip->0@)
                } else {
                    Seq::<NetActionV>::empty()
                })
                &&& ab.spawn_args.deep_view() == spawn_args_plan(old(self).proxy_port)
                &&& *final(self) == (TunProcess { phase: Phase::SpawnPending, ..*old(self) })
            }),
    {
        if let Err(e) = outcome {
            self.phase = Phase::Idle;
            self.server_ip = None;
            self.default_gateway = None;
            self.child = None;
            return Err(e);
        }
        let mut rules: Vec<NetAction> = Vec::new();
        if self.kill_switch {
            let ip = match &self.server_ip {
                Some(ip) => ip.clone(),
                None => String::new(),  // unreachable under wf
            };
            rules.push(NetAction::AddFirewallBlockAll);
            rules.push(NetAction::AddFirewallAllowServer { server_ip: ip });
            rules.push(NetAction::AddFirewallAllowLan);
            rules.push(NetAction::AddFirewallAllowDns);
            assert(rules.deep_view() =~~= kill_switch_enable_plan(old(self).server_ip->0@));
        } else {
            assert(rules.deep_view() =~~= Seq::<NetActionV>::empty());
        }
        let mut spawn_args: Vec<String> = Vec::new();
        spawn_args.push(String::from_str("-device"));
        spawn_args.push(String::from_str("tun://tun0"));
        spawn_args.push(String::from_str("-proxy"));
        let mut proxy_url = String::from_str("socks5://127.0.0.1:");
        let port_dec = u16_dec(self.proxy_port);
        proxy_url.append(port_dec.as_str());
        spawn_args.push(proxy_url);
        spawn_args.push(String::from_str("-loglevel"));
        spawn_args.push(String::from_str("info"));
        assert(spawn_args.deep_view() =~~= spawn_args_plan(old(self).proxy_port));
        self.phase = Phase::SpawnPending;
        Ok(AfterBypass { kill_switch_rules: rules, spawn_args })
    }

    /// Step three: the outcome of spawning the tunnel helper.  On failure
    /// the bypass route from step two is rolled back and the start aborts
    /// with `SpawnFailed`.  On success the controller owns the child and
    /// hands out the interface-readiness poller: five seconds, probed
    /// every two hundred milliseconds.
    pub fn start_tun_spawn_result(&mut self, spawned: Result<u64, String>) -> (r: SpawnOutcome)
        requires
            old(self).wf(),
            old(self).phase == Phase::SpawnPending,
        ensures
            final(self).wf(),
            match spawned {
                Ok(handle) => (r matches SpawnOutcome::Proceed { poller } && poller
                    == (InterfacePoller { timeout_ms: 5000u64, interval_ms: 200u64, elapsed_ms: 0u64 })
                    && *final(self) == (TunProcess {
                    phase: Phase::InterfacePending,
                    child: Some(handle),
                    ..*old(self)
                })),
                Err(message) => (r matches SpawnOutcome::Abort { rollback, error } && rollback
                    .deep_view() == seq![
                    NetActionV::DeleteRoute { dest: old(self).server_ip->0@ },
                ] && error == (TunError::SpawnFailed { message }) && final(self).is_idle()),
            },
    {
        match spawned {
            Ok(handle) => {
                self.child = Some(handle);
                self.phase = Phase::InterfacePending;
                SpawnOutcome::Proceed { poller: InterfacePoller::new(5000, 200) }
            },
            Err(message) => {
                let ip = match &self.server_ip {
                    Some(ip) => ip.clone(),
                    None => String::new(),  // unreachable under wf
                };
                self.phase = Phase::Idle;
                self.server_ip = None;
                self.default_gateway = None;
                self.child = None;
                let mut rollback: Vec<NetAction> = Vec::new();
                rollback.push(NetAction::DeleteRoute { dest: ip });
                assert(rollback.deep_view() =~~= seq![
                    NetActionV::DeleteRoute { dest: old(self).server_ip->0@ },
                ]);
                SpawnOutcome::Abort { rollback, error: TunError::SpawnFailed { message } }
            },
        }
    }

    /// Step four: whether the virtual interface became configurable within
    /// the bounded wait.  On timeout the start fails with
    /// `InterfaceTimeout` but the session stays active with the helper
    /// running: the caller is expected to call stop for full rollback.  On
    /// readiness, settle for a second (interfaces can report present
    /// before they are writable), then apply the address configuration.
    pub fn start_tun_interface_result(&mut self, ready: bool) -> (r: Result<
        InterfaceReady,
        TunError,
    >)
        requires
            old(self).wf(),
            old(self).phase == Phase::InterfacePending,
        ensures
            final(self).wf(),
            ready ==> (r matches Ok(ir) && ir.settle_ms == 1000 && ir.configure@
                == NetActionV::ConfigureInterfaceAddress && *final(self) == (TunProcess {
                phase: Phase::IpPending,
                ..*old(self)
            })),
            !ready ==> (r matches Err(TunError::InterfaceTimeout) && *final(self) == (TunProcess {
                phase: Phase::Active,
                ..*old(self)
            })),
    {
        if ready {
            self.phase = Phase::IpPending;
            Ok(InterfaceReady { settle_ms: 1000, configure: NetAction::ConfigureInterfaceAddress })
        } else {
            self.phase = Phase::Active;
            Err(TunError::InterfaceTimeout)
        }
    }

    /// Step five: the outcome of the interface address configuration.  A
    /// failure fails the start but deliberately does not roll back the
    /// running process or installed routes — the caller calls stop.  On
    /// success the DNS configuration for the session's server list is
    /// handed out.
    pub fn start_tun_ip_result(&mut self, outcome: Result<String, TunError>) -> (r: Result<
        NetAction,
        TunError,
    >)
        requires
            old(self).wf(),
            old(self).phase == Phase::IpPending,
        ensures
            final(self).wf(),
            outcome matches Err(e) ==> (r matches Err(e2) && e2 == e && *final(self) == (TunProcess {
                phase: Phase::Active,
                ..*old(self)
            })),
            outcome is Ok ==> (r matches Ok(a) && a@ == (NetActionV::ConfigureDns {
                servers: old(self).dns_servers.deep_view(),
            }) && *final(self) == (TunProcess { phase: Phase::DnsPending, ..*old(self) })),
    {
        if let Err(e) = outcome {
            self.phase = Phase::Active;
            return Err(e);
        }
        self.phase = Phase::DnsPending;
        Ok(NetAction::ConfigureDns { servers: self.dns_servers.clone() })
    }

    /// The last step: the outcome of the DNS configuration.  A failure
    /// fails the start, again without rollback; on success the session is
    /// fully up.
    pub fn start_tun_dns_result(&mut self, outcome: Result<String, TunError>) -> (r: Result<
        String,
        TunError,
    >)
        requires
            old(self).wf(),
            old(self).phase == Phase::DnsPending,
        ensures
            final(self).wf(),
            *final(self) == (TunProcess { phase: Phase::Active, ..*old(self) }),
            outcome matches Err(e) ==> (r matches Err(e2) && e2 == e),
            outcome is Ok ==> (r matches Ok(msg) && msg@ == "Tun Mode Started Successfully"@),
    {
        self.phase = Phase::Active;
        if let Err(e) = outcome {
            return Err(e);
        }
        Ok(String::from_str("Tun Mode Started Successfully"))
    }

    /// Stops the session.  Always succeeds, whatever the phase — the
    /// caller never needs to ask "am I running" first.  The child dies
    /// before route and firewall cleanup (a live helper could reinstall a
    /// default route), the recorded bypass route is deleted exactly if one
    /// was recorded, and all four kill-switch rules are deleted
    /// unconditionally by name.  The session record is cleared.
    pub fn stop_tun(&mut self) -> (r: StopPlan)
        ensures
            final(self).is_idle(),
            final(self).wf(),
            r.kill_child == old(self).child,
            r.actions.deep_view() == stop_plan_actions(old(self).server_ip.deep_view()),
            r.message@ == "Tun Stopped"@,
    {
        let kill_child = self.child.take();
        let recorded = self.server_ip.take();
        self.default_gateway = None;
        self.phase = Phase::Idle;
        let mut actions: Vec<NetAction> = Vec::new();
        actions.push(
            NetAction::KillProcessByName { image: String::from_str("tun2socks-windows-amd64.exe") },
        );
        match recorded {
            Some(ip) => {
                actions.push(NetAction::DeleteRoute { dest: ip });
            },
            None => {},
        }
        push_kill_switch_deletes(&mut actions);
        assert(actions.deep_view() =~~= stop_plan_actions(old(self).server_ip.deep_view()));
        StopPlan { kill_child, actions, message: String::from_str("Tun Stopped") }
    }
}

fn push_kill_switch_deletes(actions: &mut Vec<NetAction>)
    ensures
        final(actions).deep_view() == old(actions).deep_view() + kill_switch_delete_plan(),
{
    actions.push(NetAction::DeleteFirewallRule { name: String::from_str("V-Nexus_KS_Block") });
    actions.push(NetAction::DeleteFirewallRule { name: String::from_str("V-Nexus_KS_AllowVPN") });
    actions.push(NetAction::DeleteFirewallRule { name: String::from_str("V-Nexus_KS_Lan") });
    actions.push(NetAction::DeleteFirewallRule { name: String::from_str("V-Nexus_KS_DNS") });
    assert(actions.deep_view() =~~= old(actions).deep_view() + kill_switch_delete_plan());
}

/// The crash-recovery actions run once at application startup (see
/// [`emergency_plan`]).  All are independent and best-effort; deleting
/// what does not exist is not an error.
pub fn emergency_cleanup() -> (actions: Vec<NetAction>)
    ensures
        actions.deep_view() == emergency_plan(),
{
    let mut actions: Vec<NetAction> = Vec::new();
    actions.push(
        NetAction::KillProcessByName { image: String::from_str("tun2socks-windows-amd64.exe") },
    );
    assert(actions.deep_view() =~~= seq![
        NetActionV::KillProcessByName { image: helper_image() },
    ]);
    push_kill_switch_deletes(&mut actions);
    let ghost mid = actions.deep_view();
    actions.push(
        NetAction::DeleteRouteVia {
            dest: String::from_str("0.0.0.0"),
            mask: String::from_str("0.0.0.0"),
            gateway: String::from_str("10.0.0.1"),
        },
    );
    actions.push(
        NetAction::DeleteRouteVia {
            dest: String::from_str("0.0.0.0"),
            mask: String::from_str("0.0.0.0"),
            gateway: String::from_str("10.4.2.1"),
        },
    );
    proof {
        assert(actions.deep_view() =~~= mid + seq![
            NetActionV::DeleteRouteVia {
                dest: "0.0.0.0"@,
                mask: "0.0.0.0"@,
                gateway: "10.0.0.1"@,
            },
            NetActionV::DeleteRouteVia {
                dest: "0.0.0.0"@,
                mask: "0.0.0.0"@,
                gateway: "10.4.2.1"@,
            },
        ]);
        assert(actions.deep_view() =~~= emergency_plan());
    }
    actions
}

/// The actions run when the application exits (see [`exit_plan`]), beyond
/// terminating the owned handles: both external processes are force-killed
/// by name, and the recorded routes are dropped.  Clears the session.
pub fn exit_cleanup(tun: &mut TunProcess) -> (r: StopPlan)
    ensures
        final(tun).is_idle(),
        final(tun).wf(),
        r.kill_child == old(tun).child,
        r.actions.deep_view() == exit_plan(old(tun).server_ip.deep_view()),
        r.message@ == "Shutdown cleanup complete"@,
{
    let kill_child = tun.child.take();
    let recorded = tun.server_ip.take();
    tun.default_gateway = None;
    tun.phase = Phase::Idle;
    let mut actions: Vec<NetAction> = Vec::new();
    actions.push(NetAction::KillProcessByName { image: String::from_str("xray.exe") });
    actions.push(
        NetAction::KillProcessByName { image: String::from_str("tun2socks-windows-amd64.exe") },
    );
    match recorded {
        Some(ip) => {
            actions.push(NetAction::DeleteRoute { dest: ip });
            actions.push(
                NetAction::DeleteRouteVia {
                    dest: String::from_str("0.0.0.0"),
                    mask: String::from_str("0.0.0.0"),
                    gateway: String::from_str("10.0.0.1"),
                },
            );
        },
        None => {},
    }
    assert(actions.deep_view() =~~= exit_plan(old(tun).server_ip.deep_view()));
    StopPlan { kill_child, actions, message: String::from_str("Shutdown cleanup complete") }
}

/// An accepted start makes the controller busy, and `start_tun` refuses a
/// busy controller with `AlreadyRunning`, leaving it untouched — so of two
/// overlapping starts serialized on the session, only the first can
/// produce a session; the second is rejected.
pub proof fn lemma_start_is_exclusive(
    pre: TunProcess,
    post: TunProcess,
    server_ip: String,
    proxy_port: u16,
    kill_switch: bool,
    gateway: String,
)
    requires
        TunProcess::spec_start_accepted(pre, post, server_ip, proxy_port, kill_switch, gateway),
    ensures
        post.busy(),
{
}

} // verus!
