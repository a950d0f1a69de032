//! An abstract model of the host network stack, and the meaning of each
//! [`NetAction`](crate::net::NetAction) on it.
//!
//! The model keeps exactly what the controller's guarantees speak of: the
//! routing table as a set of routes, the set of firewall rule names, and
//! whether the two external processes are alive.  Additions insert, and
//! every teardown action is a best-effort removal: deleting what is absent
//! changes nothing, which is what makes stop and emergency cleanup
//! idempotent.

use vstd::prelude::*;
use crate::net::NetActionV;
use crate::net::{ks_block_name, ks_allow_vpn_name, ks_lan_name, ks_dns_name};
use crate::net::{helper_image, engine_image};

verus! {

/// One routing-table entry.
#[verifier::ext_equal]
pub ghost struct RouteV {
    pub dest: Seq<char>,
    pub mask: Seq<char>,
    pub gateway: Seq<char>,
    pub metric: Seq<char>,
}

/// The state of the host network stack that the controller mutates.
#[verifier::ext_equal]
pub ghost struct NetModel {
    pub routes: Set<RouteV>,
    pub rules: Set<Seq<char>>,
    pub helper_running: bool,
    pub engine_running: bool,
}

/// The bypass route for `dest` via `gateway`: host-scoped, metric 5.
pub open spec fn bypass_route(dest: Seq<char>, gateway: Seq<char>) -> RouteV {
    RouteV { dest, mask: "255.255.255.255"@, gateway, metric: "5"@ }
}

/// What one action does to the host.
pub open spec fn apply_action(m: NetModel, a: NetActionV) -> NetModel {
    match a {
        NetActionV::AddBypassRoute { dest, gateway } => NetModel {
            routes: m.routes.insert(bypass_route(dest, gateway)),
            ..m
        },
        NetActionV::DeleteRoute { dest } => NetModel {
            routes: m.routes.filter(|r: RouteV| r.dest != dest),
            ..m
        },
        NetActionV::DeleteRouteVia { dest, mask, gateway } => NetModel {
            routes: m.routes.filter(
                |r: RouteV| !(r.dest == dest && r.mask == mask && r.gateway == gateway),
            ),
            ..m
        },
        NetActionV::AddFirewallBlockAll => NetModel {
            rules: m.rules.insert(ks_block_name()),
            ..m
        },
        NetActionV::AddFirewallAllowServer { .. } => NetModel {
            rules: m.rules.insert(ks_allow_vpn_name()),
            ..m
        },
        NetActionV::AddFirewallAllowLan => NetModel { rules: m.rules.insert(ks_lan_name()), ..m },
        NetActionV::AddFirewallAllowDns => NetModel { rules: m.rules.insert(ks_dns_name()), ..m },
        NetActionV::DeleteFirewallRule { name } => NetModel { rules: m.rules.remove(name), ..m },
        NetActionV::KillProcessByName { image } => {
            if image == helper_image() {
                NetModel { helper_running: false, ..m }
            } else if image == engine_image() {
                NetModel { engine_running: false, ..m }
            } else {
                m
            }
        },
        NetActionV::ConfigureInterfaceAddress => m,
        NetActionV::ConfigureDns { .. } => m,
    }
}

/// What a whole plan does, action by action, first to last.
pub open spec fn apply_plan(m: NetModel, plan: Seq<NetActionV>) -> NetModel
    decreases plan.len(),
{
    if plan.len() == 0 {
        m
    } else {
        apply_plan(apply_action(m, plan[0]), plan.drop_first())
    }
}

/// Running a concatenated plan is running its parts in order.
pub proof fn lemma_apply_plan_concat(m: NetModel, s1: Seq<NetActionV>, s2: Seq<NetActionV>)
    ensures
        apply_plan(m, s1 + s2) == apply_plan(apply_plan(m, s1), s2),
    decreases s1.len(),
{
    if s1.len() == 0 {
        assert(s1 + s2 =~= s2);
    } else {
        assert((s1 + s2)[0] == s1[0]);
        assert((s1 + s2).drop_first() =~= s1.drop_first() + s2);
        lemma_apply_plan_concat(apply_action(m, s1[0]), s1.drop_first(), s2);
    }
}

/// A one-action plan is that action.
pub proof fn lemma_apply_plan_one(m: NetModel, a: NetActionV)
    ensures
        apply_plan(m, seq![a]) == apply_action(m, a),
{
    assert(seq![a].drop_first() =~= Seq::<NetActionV>::empty());
    assert(seq![a][0] == a);
    assert(apply_plan(m, seq![a]) == apply_plan(apply_action(m, a), Seq::<NetActionV>::empty()));
    assert(apply_plan(apply_action(m, a), Seq::<NetActionV>::empty()) == apply_action(m, a));
}

} // verus!
