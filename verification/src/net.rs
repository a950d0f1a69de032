//! The alphabet of host network-stack mutations, and their rendering into
//! the exact command lines the host tools expect.
//!
//! Every routing-table, firewall or process mutation the controller ever
//! asks for is one [`NetAction`].  The shell turns an action into a
//! [`CommandSpec`] with [`render`] and runs it; the model in [`crate::model`]
//! gives each action its meaning, so teardown and recovery plans can be
//! proved exact.

use vstd::prelude::*;
use crate::cmd::CommandSpec;

verus! {

/// One host mutation, as plain data.
pub enum NetAction {
    /// `route add <dest> mask 255.255.255.255 <gateway> metric 5`: the
    /// host-scoped bypass route for the tunnel endpoint.
    AddBypassRoute { dest: String, gateway: String },
    /// `route delete <dest>`: drops every route to `dest`.
    DeleteRoute { dest: String },
    /// `route delete <dest> mask <mask> <gateway>`: drops one specific route.
    DeleteRouteVia { dest: String, mask: String, gateway: String },
    /// The kill-switch base rule: block all outbound traffic.
    AddFirewallBlockAll,
    /// The kill-switch allowance for the tunnel endpoint itself.
    AddFirewallAllowServer { server_ip: String },
    /// The kill-switch allowance for the private address ranges.
    AddFirewallAllowLan,
    /// The kill-switch allowance for DNS over UDP port 53.
    AddFirewallAllowDns,
    /// `netsh advfirewall firewall delete rule name=<name>`.
    DeleteFirewallRule { name: String },
    /// `taskkill /F /IM <image>`: force-kill by process image name.
    KillProcessByName { image: String },
    /// The fixed static address/mask/gateway assignment of the virtual
    /// interface.
    ConfigureInterfaceAddress,
    /// The DNS server assignment of the virtual interface.
    ConfigureDns { servers: Vec<String> },
}

/// The mathematical shape of a [`NetAction`].
pub ghost enum NetActionV {
    AddBypassRoute { dest: Seq<char>, gateway: Seq<char> },
    DeleteRoute { dest: Seq<char> },
    DeleteRouteVia { dest: Seq<char>, mask: Seq<char>, gateway: Seq<char> },
    AddFirewallBlockAll,
    AddFirewallAllowServer { server_ip: Seq<char> },
    AddFirewallAllowLan,
    AddFirewallAllowDns,
    DeleteFirewallRule { name: Seq<char> },
    KillProcessByName { image: Seq<char> },
    ConfigureInterfaceAddress,
    ConfigureDns { servers: Seq<Seq<char>> },
}

impl View for NetAction {
    type V = NetActionV;

    open spec fn view(&self) -> NetActionV {
        match self {
            NetAction::AddBypassRoute { dest, gateway } => NetActionV::AddBypassRoute {
                dest: dest@,
                gateway: gateway@,
            },
            NetAction::DeleteRoute { dest } => NetActionV::DeleteRoute { dest: dest@ },
            NetAction::DeleteRouteVia { dest, mask, gateway } => NetActionV::DeleteRouteVia {
                dest: dest@,
                mask: mask@,
                gateway: gateway@,
            },
            NetAction::AddFirewallBlockAll => NetActionV::AddFirewallBlockAll,
            NetAction::AddFirewallAllowServer { server_ip } => NetActionV::AddFirewallAllowServer {
                server_ip: server_ip@,
            },
            NetAction::AddFirewallAllowLan => NetActionV::AddFirewallAllowLan,
            NetAction::AddFirewallAllowDns => NetActionV::AddFirewallAllowDns,
            NetAction::DeleteFirewallRule { name } => NetActionV::DeleteFirewallRule {
                name: name@,
            },
            NetAction::KillProcessByName { image } => NetActionV::KillProcessByName {
                image: image@,
            },
            NetAction::ConfigureInterfaceAddress => NetActionV::ConfigureInterfaceAddress,
            NetAction::ConfigureDns { servers } => NetActionV::ConfigureDns {
                servers: servers.deep_view(),
            },
        }
    }
}

impl DeepView for NetAction {
    type V = NetActionV;

    open spec fn deep_view(&self) -> NetActionV {
        self.view()
    }
}

/// The four kill-switch rule names, in creation order.
pub open spec fn ks_block_name() -> Seq<char> {
    "V-Nexus_KS_Block"@
}

pub open spec fn ks_allow_vpn_name() -> Seq<char> {
    "V-Nexus_KS_AllowVPN"@
}

pub open spec fn ks_lan_name() -> Seq<char> {
    "V-Nexus_KS_Lan"@
}

pub open spec fn ks_dns_name() -> Seq<char> {
    "V-Nexus_KS_DNS"@
}

pub open spec fn ks_rule_names() -> Seq<Seq<char>> {
    seq![ks_block_name(), ks_allow_vpn_name(), ks_lan_name(), ks_dns_name()]
}

/// The image name of the tunnel helper process.
pub open spec fn helper_image() -> Seq<char> {
    "tun2socks-windows-amd64.exe"@
}

/// The image name of the proxy engine process.
pub open spec fn engine_image() -> Seq<char> {
    "xray.exe"@
}

/// The program a rendered action runs.
pub open spec fn spec_program(a: NetActionV) -> Seq<char> {
    match a {
        NetActionV::AddBypassRoute { .. } => "route"@,
        NetActionV::DeleteRoute { .. } => "route"@,
        NetActionV::DeleteRouteVia { .. } => "route"@,
        NetActionV::AddFirewallBlockAll => "netsh"@,
        NetActionV::AddFirewallAllowServer { .. } => "cmd"@,
        NetActionV::AddFirewallAllowLan => "netsh"@,
        NetActionV::AddFirewallAllowDns => "netsh"@,
        NetActionV::DeleteFirewallRule { .. } => "netsh"@,
        NetActionV::KillProcessByName { .. } => "taskkill"@,
        NetActionV::ConfigureInterfaceAddress => "cmd"@,
        NetActionV::ConfigureDns { .. } => "powershell"@,
    }
}

/// The exact argument vector a rendered action carries.
pub open spec fn spec_args(a: NetActionV) -> Seq<Seq<char>> {
    match a {
        NetActionV::AddBypassRoute { dest, gateway } => seq![
            "add"@,
            dest,
            "mask"@,
            "255.255.255.255"@,
            gateway,
            "metric"@,
            "5"@,
        ],
        NetActionV::DeleteRoute { dest } => seq!["delete"@, dest],
        NetActionV::DeleteRouteVia { dest, mask, gateway } => seq![
            "delete"@,
            dest,
            "mask"@,
            mask,
            gateway,
        ],
        NetActionV::AddFirewallBlockAll => seq![
            "advfirewall"@,
            "firewall"@,
            "add"@,
            "rule"@,
            "name="@ + ks_block_name(),
            "dir=out"@,
            "action=block"@,
            "enable=yes"@,
        ],
        NetActionV::AddFirewallAllowServer { server_ip } => seq![
            "/C"@,
            "netsh advfirewall firewall add rule name="@ + ks_allow_vpn_name()
                + " dir=out action=allow remoteip="@ + server_ip + " enable=yes"@,
        ],
        NetActionV::AddFirewallAllowLan => seq![
            "advfirewall"@,
            "firewall"@,
            "add"@,
            "rule"@,
            "name="@ + ks_lan_name(),
            "dir=out"@,
            "action=allow"@,
            "remoteip=192.168.0.0/16,10.0.0.0/8,172.16.0.0/12,127.0.0.1"@,
            "enable=yes"@,
        ],
        NetActionV::AddFirewallAllowDns => seq![
            "advfirewall"@,
            "firewall"@,
            "add"@,
            "rule"@,
            "name="@ + ks_dns_name(),
            "dir=out"@,
            "action=allow"@,
            "protocol=UDP"@,
            "remoteport=53"@,
            "enable=yes"@,
        ],
        NetActionV::DeleteFirewallRule { name } => seq![
            "advfirewall"@,
            "firewall"@,
            "delete"@,
            "rule"@,
            "name="@ + name,
        ],
        NetActionV::KillProcessByName { image } => seq!["/F"@, "/IM"@, image],
        NetActionV::ConfigureInterfaceAddress => seq![
            "/C"@,
            "netsh interface ip set address name=\"tun0\" static 10.0.0.2 255.255.255.0 gateway=10.0.0.1 gwmetric=1"@,
        ],
        NetActionV::ConfigureDns { servers } => seq![
            "-ExecutionPolicy"@,
            "Bypass"@,
            "-Command"@,
            "Set-DnsClientServerAddress -InterfaceAlias 'tun0' -ServerAddresses ("@
                + crate::text::quoted_list(servers) + ")"@,
        ],
    }
}

fn named(prefix: &str, name: &str) -> (r: String)
    ensures
        r@ == prefix@ + name@,
{
    let mut r = String::from_str(prefix);
    r.append(name);
    r
}

/// Turns an action into the exact command line the host tools expect.
pub fn render(a: &NetAction) -> (c: CommandSpec)
    ensures
        c.program@ == spec_program(a@),
        c.args.deep_view() == spec_args(a@),
{
    match a {
        NetAction::AddBypassRoute { dest, gateway } => {
            let mut args: Vec<String> = Vec::new();
            args.push(String::from_str("add"));
            args.push(dest.clone());
            args.push(String::from_str("mask"));
            args.push(String::from_str("255.255.255.255"));
            args.push(gateway.clone());
            args.push(String::from_str("metric"));
            args.push(String::from_str("5"));
            assert(args.deep_view() =~~= spec_args(a@));
            CommandSpec { program: String::from_str("route"), args }
        },
        NetAction::DeleteRoute { dest } => {
            let mut args: Vec<String> = Vec::new();
            args.push(String::from_str("delete"));
            args.push(dest.clone());
            assert(args.deep_view() =~~= spec_args(a@));
            CommandSpec { program: String::from_str("route"), args }
        },
        NetAction::DeleteRouteVia { dest, mask, gateway } => {
            let mut args: Vec<String> = Vec::new();
            args.push(String::from_str("delete"));
            args.push(dest.clone());
            args.push(String::from_str("mask"));
            args.push(mask.clone());
            args.push(gateway.clone());
            assert(args.deep_view() =~~= spec_args(a@));
            CommandSpec { program: String::from_str("route"), args }
        },
        NetAction::AddFirewallBlockAll => {
            let mut args: Vec<String> = Vec::new();
            args.push(String::from_str("advfirewall"));
            args.push(String::from_str("firewall"));
            args.push(String::from_str("add"));
            args.push(String::from_str("rule"));
            args.push(named("name=", "V-Nexus_KS_Block"));
            args.push(String::from_str("dir=out"));
            args.push(String::from_str("action=block"));
            args.push(String::from_str("enable=yes"));
            assert(args.deep_view() =~~= spec_args(a@));
            CommandSpec { program: String::from_str("netsh"), args }
        },
        NetAction::AddFirewallAllowServer { server_ip } => {
            let mut line = String::from_str("netsh advfirewall firewall add rule name=");
            line.append("V-Nexus_KS_AllowVPN");
            line.append(" dir=out action=allow remoteip=");
            line.append(server_ip.as_str());
            line.append(" enable=yes");
            let mut args: Vec<String> = Vec::new();
            args.push(String::from_str("/C"));
            args.push(line);
            assert(args.deep_view() =~~= spec_args(a@));
            CommandSpec { program: String::from_str("cmd"), args }
        },
        NetAction::AddFirewallAllowLan => {
            let mut args: Vec<String> = Vec::new();
            args.push(String::from_str("advfirewall"));
            args.push(String::from_str("firewall"));
            args.push(String::from_str("add"));
            args.push(String::from_str("rule"));
            args.push(named("name=", "V-Nexus_KS_Lan"));
            args.push(String::from_str("dir=out"));
            args.push(String::from_str("action=allow"));
            args.push(String::from_str("remoteip=192.168.0.0/16,10.0.0.0/8,172.16.0.0/12,127.0.0.1"));
            args.push(String::from_str("enable=yes"));
            assert(args.deep_view() =~~= spec_args(a@));
            CommandSpec { program: String::from_str("netsh"), args }
        },
        NetAction::AddFirewallAllowDns => {
            let mut args: Vec<String> = Vec::new();
            args.push(String::from_str("advfirewall"));
            args.push(String::from_str("firewall"));
            args.push(String::from_str("add"));
            args.push(String::from_str("rule"));
            args.push(named("name=", "V-Nexus_KS_DNS"));
            args.push(String::from_str("dir=out"));
            args.push(String::from_str("action=allow"));
            args.push(String::from_str("protocol=UDP"));
            args.push(String::from_str("remoteport=53"));
            args.push(String::from_str("enable=yes"));
            assert(args.deep_view() =~~= spec_args(a@));
            CommandSpec { program: String::from_str("netsh"), args }
        },
        NetAction::DeleteFirewallRule { name } => {
            let mut args: Vec<String> = Vec::new();
            args.push(String::from_str("advfirewall"));
            args.push(String::from_str("firewall"));
            args.push(String::from_str("delete"));
            args.push(String::from_str("rule"));
            args.push(named("name=", name.as_str()));
            assert(args.deep_view() =~~= spec_args(a@));
            CommandSpec { program: String::from_str("netsh"), args }
        },
        NetAction::KillProcessByName { image } => {
            let mut args: Vec<String> = Vec::new();
            args.push(String::from_str("/F"));
            args.push(String::from_str("/IM"));
            args.push(image.clone());
            assert(args.deep_view() =~~= spec_args(a@));
            CommandSpec { program: String::from_str("taskkill"), args }
        },
        NetAction::ConfigureInterfaceAddress => {
            let mut args: Vec<String> = Vec::new();
            args.push(String::from_str("/C"));
            args.push(String::from_str(
                "netsh interface ip set address name=\"tun0\" static 10.0.0.2 255.255.255.0 gateway=10.0.0.1 gwmetric=1",
            ));
            assert(args.deep_view() =~~= spec_args(a@));
            CommandSpec { program: String::from_str("cmd"), args }
        },
        NetAction::ConfigureDns { servers } => {
            let mut line = String::from_str(
                "Set-DnsClientServerAddress -InterfaceAlias 'tun0' -ServerAddresses (",
            );
            let list = crate::text::join_quoted(servers);
            line.append(list.as_str());
            line.append(")");
            let mut args: Vec<String> = Vec::new();
            args.push(String::from_str("-ExecutionPolicy"));
            args.push(String::from_str("Bypass"));
            args.push(String::from_str("-Command"));
            args.push(line);
            assert(args.deep_view() =~~= spec_args(a@));
            CommandSpec { program: String::from_str("powershell"), args }
        },
    }
}

} // verus!
