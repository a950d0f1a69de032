//! The controller's guarantees, proved over the host model: what the
//! start, stop and emergency-cleanup plans do to the routing table and
//! firewall, for every initial host state.

use vstd::prelude::*;
use crate::model::{NetModel, RouteV, bypass_route, apply_action, apply_plan};
use crate::model::{lemma_apply_plan_concat, lemma_apply_plan_one};
use crate::net::NetActionV;
use crate::net::{ks_block_name, ks_allow_vpn_name, ks_lan_name, ks_dns_name, ks_rule_names};
use crate::tun::{
    stale_cleanup_plan,
    kill_switch_enable_plan,
    kill_switch_delete_plan,
    stop_plan_actions,
    emergency_plan,
};

verus! {

proof fn lemma_apply2(m: NetModel, a: NetActionV, b: NetActionV)
    ensures
        apply_plan(m, seq![a, b]) == apply_action(apply_action(m, a), b),
{
    let p = seq![a, b];
    assert(p.drop_first() =~= seq![b]);
    assert(apply_plan(m, p) == apply_plan(apply_action(m, a), seq![b]));
    lemma_apply_plan_one(apply_action(m, a), b);
}

proof fn lemma_apply3(m: NetModel, a: NetActionV, b: NetActionV, c: NetActionV)
    ensures
        apply_plan(m, seq![a, b, c]) == apply_action(
            apply_action(apply_action(m, a), b),
            c,
        ),
{
    let p = seq![a, b, c];
    assert(p.drop_first() =~= seq![b, c]);
    assert(apply_plan(m, p) == apply_plan(apply_action(m, a), seq![b, c]));
    lemma_apply2(apply_action(m, a), b, c);
}

proof fn lemma_apply4(m: NetModel, a: NetActionV, b: NetActionV, c: NetActionV, d: NetActionV)
    ensures
        apply_plan(m, seq![a, b, c, d]) == apply_action(
            apply_action(apply_action(apply_action(m, a), b), c),
            d,
        ),
{
    let p = seq![a, b, c, d];
    assert(p.drop_first() =~= seq![b, c, d]);
    assert(apply_plan(m, p) == apply_plan(apply_action(m, a), seq![b, c, d]));
    lemma_apply3(apply_action(m, a), b, c, d);
}

/// Deleting the four kill-switch rules removes exactly their names and
/// touches nothing else.
proof fn lemma_ks_delete_effect(m: NetModel)
    ensures
        apply_plan(m, kill_switch_delete_plan()) == (NetModel {
            rules: m.rules.remove(ks_block_name()).remove(ks_allow_vpn_name()).remove(
                ks_lan_name(),
            ).remove(ks_dns_name()),
            ..m
        }),
{
    let p = kill_switch_delete_plan();
    lemma_apply4(m, p[0], p[1], p[2], p[3]);
    assert(p =~= seq![p[0], p[1], p[2], p[3]]);
}

/// The full effect of a stop's command actions: the helper is dead, the
/// recorded bypass route (if any) is gone, the four kill-switch rule
/// names are gone, and nothing else changed.
pub proof fn lemma_stop_plan_effect(m: NetModel, recorded: Option<Seq<char>>)
    ensures
        apply_plan(m, stop_plan_actions(recorded)) == (NetModel {
            helper_running: false,
            routes: match recorded {
                Some(ip) => m.routes.filter(|r: RouteV| r.dest != ip),
                None => m.routes,
            },
            rules: m.rules.remove(ks_block_name()).remove(ks_allow_vpn_name()).remove(
                ks_lan_name(),
            ).remove(ks_dns_name()),
            engine_running: m.engine_running,
        }),
{
    let kill = seq![NetActionV::KillProcessByName { image: crate::net::helper_image() }];
    let mid = match recorded {
        Some(ip) => seq![NetActionV::DeleteRoute { dest: ip }],
        None => Seq::<NetActionV>::empty(),
    };
    let p = stop_plan_actions(recorded);
    lemma_apply_plan_concat(m, kill + mid, kill_switch_delete_plan());
    lemma_apply_plan_concat(m, kill, mid);
    lemma_apply_plan_one(m, kill[0]);
    let m1 = apply_action(m, kill[0]);
    match recorded {
        Some(ip) => {
            lemma_apply_plan_one(m1, mid[0]);
        },
        None => {
            assert(apply_plan(m1, mid) == m1);
        },
    }
    lemma_ks_delete_effect(apply_plan(m1, mid));
}

/// The full effect of emergency cleanup: the helper is dead, the four
/// kill-switch rule names are gone, the two stale tunnel-gateway default
/// routes are gone, and nothing else changed.
pub proof fn lemma_emergency_plan_effect(m: NetModel)
    ensures
        apply_plan(m, emergency_plan()) == (NetModel {
            helper_running: false,
            routes: m.routes.filter(
                |r: RouteV|
                    !(r.dest == "0.0.0.0"@ && r.mask == "0.0.0.0"@ && r.gateway == "10.0.0.1"@),
            ).filter(
                |r: RouteV|
                    !(r.dest == "0.0.0.0"@ && r.mask == "0.0.0.0"@ && r.gateway == "10.4.2.1"@),
            ),
            rules: m.rules.remove(ks_block_name()).remove(ks_allow_vpn_name()).remove(
                ks_lan_name(),
            ).remove(ks_dns_name()),
            engine_running: m.engine_running,
        }),
{
    let kill = seq![NetActionV::KillProcessByName { image: crate::net::helper_image() }];
    let stale = seq![
        NetActionV::DeleteRouteVia { dest: "0.0.0.0"@, mask: "0.0.0.0"@, gateway: "10.0.0.1"@ },
        NetActionV::DeleteRouteVia { dest: "0.0.0.0"@, mask: "0.0.0.0"@, gateway: "10.4.2.1"@ },
    ];
    lemma_apply_plan_concat(m, kill + kill_switch_delete_plan(), stale);
    lemma_apply_plan_concat(m, kill, kill_switch_delete_plan());
    lemma_apply_plan_one(m, kill[0]);
    let m1 = apply_action(m, kill[0]);
    lemma_ks_delete_effect(m1);
    let m2 = apply_plan(m1, kill_switch_delete_plan());
    lemma_apply2(m2, stale[0], stale[1]);
}

/// Stopping with no active session performs no network mutation: on a
/// host that carries no leftover session artifacts — helper dead, no
/// kill-switch rule present — the idle stop plan (which records no bypass
/// route) leaves the host exactly as it was.  Its actions are best-effort
/// no-ops.
pub proof fn lemma_stop_when_idle_is_noop(m: NetModel)
    requires
        !m.helper_running,
        !m.rules.contains(ks_block_name()),
        !m.rules.contains(ks_allow_vpn_name()),
        !m.rules.contains(ks_lan_name()),
        !m.rules.contains(ks_dns_name()),
    ensures
        apply_plan(m, stop_plan_actions(None)) == m,
{
    lemma_stop_plan_effect(m, None);
    assert(m.rules.remove(ks_block_name()).remove(ks_allow_vpn_name()).remove(
        ks_lan_name(),
    ).remove(ks_dns_name()) =~= m.rules);
    assert(apply_plan(m, stop_plan_actions(None)) =~= m);
}

/// The network mutations of one fully successful start, in order: stale
/// route cleanup, the bypass route install, the kill-switch rules when
/// requested, and the two interface configuration steps (which touch no
/// route or rule).
pub open spec fn start_network_actions(
    server_ip: Seq<char>,
    gateway: Seq<char>,
    kill_switch: bool,
    dns: Seq<Seq<char>>,
) -> Seq<NetActionV> {
    stale_cleanup_plan(server_ip) + seq![
        NetActionV::AddBypassRoute { dest: server_ip, gateway },
    ] + (if kill_switch {
        kill_switch_enable_plan(server_ip)
    } else {
        Seq::<NetActionV>::empty()
    }) + seq![
        NetActionV::ConfigureInterfaceAddress,
        NetActionV::ConfigureDns { servers: dns },
    ]
}

/// After a successful start, a bypass route to exactly the session's
/// endpoint via the resolved gateway exists (and, when the kill switch
/// was requested, all four rules are present); after the subsequent stop,
/// no route to that endpoint remains.
pub proof fn lemma_bypass_route_round_trip(
    m: NetModel,
    server_ip: Seq<char>,
    gateway: Seq<char>,
    kill_switch: bool,
    dns: Seq<Seq<char>>,
)
    ensures
        ({
            let started = apply_plan(m, start_network_actions(server_ip, gateway, kill_switch, dns));
            let stopped = apply_plan(started, stop_plan_actions(Some(server_ip)));
            &&& started.routes.contains(bypass_route(server_ip, gateway))
            &&& (kill_switch ==> started.rules.contains(ks_block_name()) && started.rules.contains(
                ks_allow_vpn_name(),
            ) && started.rules.contains(ks_lan_name()) && started.rules.contains(ks_dns_name()))
            &&& forall|r: RouteV| #[trigger] stopped.routes.contains(r) ==> r.dest != server_ip
        }),
{
    let clean = stale_cleanup_plan(server_ip);
    let add = seq![NetActionV::AddBypassRoute { dest: server_ip, gateway }];
    let ks = if kill_switch {
        kill_switch_enable_plan(server_ip)
    } else {
        Seq::<NetActionV>::empty()
    };
    let cfg = seq![
        NetActionV::ConfigureInterfaceAddress,
        NetActionV::ConfigureDns { servers: dns },
    ];
    lemma_apply_plan_concat(m, clean + add + ks, cfg);
    lemma_apply_plan_concat(m, clean + add, ks);
    lemma_apply_plan_concat(m, clean, add);
    lemma_apply3(m, clean[0], clean[1], clean[2]);
    assert(clean =~= seq![clean[0], clean[1], clean[2]]);
    let m1 = apply_plan(m, clean);
    lemma_apply_plan_one(m1, add[0]);
    let m2 = apply_action(m1, add[0]);
    assert(m2.routes.contains(bypass_route(server_ip, gateway)));
    let m3 = apply_plan(m2, ks);
    if kill_switch {
        lemma_apply4(m2, ks[0], ks[1], ks[2], ks[3]);
        assert(ks =~= seq![ks[0], ks[1], ks[2], ks[3]]);
    }
    assert(m3.routes == m2.routes);
    let m4 = apply_plan(m3, cfg);
    lemma_apply2(m3, cfg[0], cfg[1]);
    assert(m4.routes == m3.routes);
    assert(m4.rules == m3.rules);
    lemma_stop_plan_effect(m4, Some(server_ip));
}

/// Enabling the kill switch is all-or-logged-partial: however many of its
/// four rule creations actually succeeded (any prefix of the plan), the
/// only rules that can have appeared are the four kill-switch names, and
/// nothing else on the host changed.
pub proof fn lemma_enable_prefix_adds_only_ks_rules(m: NetModel, server_ip: Seq<char>, k: int)
    requires
        0 <= k <= 4,
    ensures
        ({
            let m1 = apply_plan(m, kill_switch_enable_plan(server_ip).take(k));
            &&& m1.routes == m.routes
            &&& m1.helper_running == m.helper_running
            &&& m1.engine_running == m.engine_running
            &&& forall|n: Seq<char>|
                #[trigger] m1.rules.contains(n) ==> m.rules.contains(n) || n == ks_block_name()
                    || n == ks_allow_vpn_name() || n == ks_lan_name() || n == ks_dns_name()
        }),
{
    let p = kill_switch_enable_plan(server_ip);
    if k == 0 {
        assert(p.take(0) =~= Seq::<NetActionV>::empty());
    } else if k == 1 {
        assert(p.take(1) =~= seq![p[0]]);
        lemma_apply_plan_one(m, p[0]);
    } else if k == 2 {
        assert(p.take(2) =~= seq![p[0], p[1]]);
        lemma_apply2(m, p[0], p[1]);
    } else if k == 3 {
        assert(p.take(3) =~= seq![p[0], p[1], p[2]]);
        lemma_apply3(m, p[0], p[1], p[2]);
    } else {
        assert(p.take(4) =~= seq![p[0], p[1], p[2], p[3]]);
        lemma_apply4(m, p[0], p[1], p[2], p[3]);
    }
}

/// After any stop, the kill-switch rule set is fully absent — whatever
/// subset of it enabling managed to create — and every other firewall
/// rule is exactly as it was.
pub proof fn lemma_stop_clears_kill_switch(m: NetModel, recorded: Option<Seq<char>>)
    ensures
        ({
            let m1 = apply_plan(m, stop_plan_actions(recorded));
            &&& forall|k: int|
                0 <= k < 4 ==> !(#[trigger] m1.rules.contains(ks_rule_names()[k]))
            &&& forall|n: Seq<char>|
                n != ks_block_name() && n != ks_allow_vpn_name() && n != ks_lan_name() && n
                    != ks_dns_name() ==> (#[trigger] m1.rules.contains(n)) == m.rules.contains(n)
        }),
{
    lemma_stop_plan_effect(m, recorded);
    let m1 = apply_plan(m, stop_plan_actions(recorded));
    assert forall|k: int| 0 <= k < 4 implies !(#[trigger] m1.rules.contains(
        ks_rule_names()[k],
    )) by {
        assert(ks_rule_names()[0] == ks_block_name());
        assert(ks_rule_names()[1] == ks_allow_vpn_name());
        assert(ks_rule_names()[2] == ks_lan_name());
        assert(ks_rule_names()[3] == ks_dns_name());
    }
}

/// The same, after emergency cleanup.
pub proof fn lemma_emergency_clears_kill_switch(m: NetModel)
    ensures
        ({
            let m1 = apply_plan(m, emergency_plan());
            &&& forall|k: int|
                0 <= k < 4 ==> !(#[trigger] m1.rules.contains(ks_rule_names()[k]))
            &&& forall|n: Seq<char>|
                n != ks_block_name() && n != ks_allow_vpn_name() && n != ks_lan_name() && n
                    != ks_dns_name() ==> (#[trigger] m1.rules.contains(n)) == m.rules.contains(n)
        }),
{
    lemma_emergency_plan_effect(m);
    let m1 = apply_plan(m, emergency_plan());
    assert forall|k: int| 0 <= k < 4 implies !(#[trigger] m1.rules.contains(
        ks_rule_names()[k],
    )) by {
        assert(ks_rule_names()[0] == ks_block_name());
        assert(ks_rule_names()[1] == ks_allow_vpn_name());
        assert(ks_rule_names()[2] == ks_lan_name());
        assert(ks_rule_names()[3] == ks_dns_name());
    }
}

/// Emergency cleanup run twice in a row is a no-op the second time: every
/// one of its actions tolerates deleting what is already gone.
pub proof fn lemma_emergency_cleanup_idempotent(m: NetModel)
    ensures
        apply_plan(apply_plan(m, emergency_plan()), emergency_plan()) == apply_plan(
            m,
            emergency_plan(),
        ),
{
    lemma_emergency_plan_effect(m);
    let m1 = apply_plan(m, emergency_plan());
    lemma_emergency_plan_effect(m1);
    let m2 = apply_plan(m1, emergency_plan());
    assert(m2.rules =~= m1.rules);
    assert(m2.routes =~= m1.routes);
    assert(m2 =~= m1);
}

} // verus!
