//! Which checks run, under which labels, and in which order.

use vstd::prelude::*;
use vstd::string::*;

use crate::options::WatArgs;

verus! {

/// A machine that the network checks reach.
#[derive(Clone, Copy, Debug, PartialEq, Eq, Structural)]
pub enum Host {
    /// Cloudflare's public resolver.
    CloudflareDns,
    /// Google's public resolver.
    GoogleDns,
    /// Apple's content delivery network.
    AppleCdn,
    /// The home server, on the local network.
    PythagorasLocal,
    /// The home server, over tailscale.
    PythagorasTailnet,
}

/// A group of network interfaces whose IPv4 address is shown.
#[derive(Clone, Copy, Debug, PartialEq, Eq, Structural)]
pub enum InterfaceGroup {
    Wifi,
    Other,
}

/// One check, shown on one status line.
#[derive(Clone, Copy, Debug, PartialEq, Eq, Structural)]
pub enum Check {
    Charging,
    ThermalPressure,
    DiskSpaceFree,
    AudioOutput,
    Ipv4Address(InterfaceGroup),
    Tailscale,
    ScreenLocked(Host),
    Ping(Host),
    SshPing(Host),
    /// The network speed test.
    NetworkQuality,
    Iperf3(Host),
}

/// The name by which `host` is reached.
pub open spec fn spec_host_name(host: Host) -> Seq<char> {
    match host {
        Host::CloudflareDns => "1.1.1.1"@,
        Host::GoogleDns => "8.8.8.8"@,
        Host::AppleCdn => "mensura.cdn-apple.com"@,
        Host::PythagorasLocal => "Pythagoras.tlb"@,
        Host::PythagorasTailnet => "Pythagoras-ts.wyvern-climb.ts.net"@,
    }
}

/// The name by which `host` is reached.
pub fn host_name(host: Host) -> (r: &'static str)
    ensures
        r@ == spec_host_name(host),
{
    match host {
        Host::CloudflareDns => "1.1.1.1",
        Host::GoogleDns => "8.8.8.8",
        Host::AppleCdn => "mensura.cdn-apple.com",
        Host::PythagorasLocal => "Pythagoras.tlb",
        Host::PythagorasTailnet => "Pythagoras-ts.wyvern-climb.ts.net",
    }
}

/// The interfaces of a group, in the order in which they are asked.
pub open spec fn spec_interfaces(group: InterfaceGroup) -> Seq<Seq<char>> {
    match group {
        InterfaceGroup::Wifi => seq!["en0"@],
        InterfaceGroup::Other => seq!["en17"@, "en23"@, "bridge0"@],
    }
}

/// The interfaces of a group, in the order in which they are asked.
pub fn interfaces(group: InterfaceGroup) -> (r: Vec<&'static str>)
    ensures
        r@.len() == spec_interfaces(group).len(),
        forall|i: int| 0 <= i < r@.len() ==> (#[trigger] r@[i])@ == spec_interfaces(group)[i],
{
    let mut r: Vec<&'static str> = Vec::new();
    match group {
        InterfaceGroup::Wifi => {
            r.push("en0");
        },
        InterfaceGroup::Other => {
            r.push("en17");
            r.push("en23");
            r.push("bridge0");
        },
    }
    r
}

/// The label of a check's status line.
pub open spec fn spec_check_label(check: Check) -> Seq<char> {
    match check {
        Check::Charging => "Charging"@,
        Check::ThermalPressure => "🔥 thermal pressure"@,
        Check::DiskSpaceFree => "💾 disk space free"@,
        Check::AudioOutput => "🔈 audio output"@,
        Check::Ipv4Address(InterfaceGroup::Wifi) => "IPv4 address (WiFi)"@,
        Check::Ipv4Address(InterfaceGroup::Other) => "IPv4 address (other)"@,
        Check::Tailscale => "tailscale"@,
        Check::ScreenLocked(h) => spec_host_name(h) + " locked?"@,
        Check::Ping(h) => "ping "@ + spec_host_name(h),
        Check::SshPing(h) => "sshping "@ + spec_host_name(h),
        Check::NetworkQuality => "networkQuality"@,
        Check::Iperf3(h) => spec_host_name(h) + " iperf3"@,
    }
}

/// The label of a check's status line.
pub fn check_label(check: Check) -> (r: String)
    ensures
        r@ == spec_check_label(check),
{
    match check {
        Check::Charging => String::from_str("Charging"),
        Check::ThermalPressure => String::from_str("🔥 thermal pressure"),
        Check::DiskSpaceFree => String::from_str("💾 disk space free"),
        Check::AudioOutput => String::from_str("🔈 audio output"),
        Check::Ipv4Address(InterfaceGroup::Wifi) => String::from_str("IPv4 address (WiFi)"),
        Check::Ipv4Address(InterfaceGroup::Other) => String::from_str("IPv4 address (other)"),
        Check::Tailscale => String::from_str("tailscale"),
        Check::ScreenLocked(h) => {
            let mut r = String::from_str(host_name(h));
            r.append(" locked?");
            r
        },
        Check::Ping(h) => {
            let mut r = String::from_str("ping ");
            r.append(host_name(h));
            r
        },
        Check::SshPing(h) => {
            let mut r = String::from_str("sshping ");
            r.append(host_name(h));
            r
        },
        Check::NetworkQuality => String::from_str("networkQuality"),
        Check::Iperf3(h) => {
            let mut r = String::from_str(host_name(h));
            r.append(" iperf3");
            r
        },
    }
}

/// The checks that run at once, and the checks that start after them.
#[derive(Debug)]
pub struct LaunchPlan {
    /// Started together, first.
    pub first: Vec<Check>,
    /// Whether the checks of `first` are awaited before `second` starts,
    /// so that the speed tests run on an idle network.
    pub wait_for_first: bool,
    /// Started after `first` (or after it finished, see `wait_for_first`).
    pub second: Vec<Check>,
}

/// The system checks.
pub open spec fn system_checks() -> Seq<Check> {
    seq![
        Check::Charging,
        Check::ThermalPressure,
        Check::DiskSpaceFree,
        Check::AudioOutput,
        Check::Ipv4Address(InterfaceGroup::Wifi),
        Check::Ipv4Address(InterfaceGroup::Other),
        Check::Tailscale,
    ]
}

/// The miscellaneous checks.
pub open spec fn misc_checks() -> Seq<Check> {
    seq![Check::ScreenLocked(Host::PythagorasLocal), Check::ScreenLocked(Host::PythagorasTailnet)]
}

/// The ping checks.
pub open spec fn ping_checks() -> Seq<Check> {
    seq![
        Check::Ping(Host::CloudflareDns),
        Check::Ping(Host::GoogleDns),
        Check::Ping(Host::AppleCdn),
        Check::Ping(Host::PythagorasLocal),
        Check::Ping(Host::PythagorasTailnet),
    ]
}

/// The sshping checks.
pub open spec fn sshping_checks() -> Seq<Check> {
    seq![Check::SshPing(Host::PythagorasLocal), Check::SshPing(Host::PythagorasTailnet)]
}

/// `s` where `on`, nothing otherwise.
pub open spec fn selected_if(on: bool, s: Seq<Check>) -> Seq<Check> {
    if on {
        s
    } else {
        seq![]
    }
}

/// The checks started at once, in order.
pub open spec fn planned_first(args: WatArgs) -> Seq<Check> {
    selected_if(args.spec_include_system(), system_checks()) + selected_if(args.spec_include_misc(), misc_checks())
        + selected_if(args.spec_include_ping(), ping_checks()) + selected_if(
        args.spec_include_sshping(),
        sshping_checks(),
    )
}

/// The checks started afterwards, in order.
pub open spec fn planned_second(args: WatArgs) -> Seq<Check> {
    selected_if(args.spec_include_network_quality(), seq![Check::NetworkQuality]) + selected_if(
        args.spec_include_iperf3(),
        seq![Check::Iperf3(Host::PythagorasLocal)],
    ) + selected_if(args.spec_include_iperf3_tailscale(), seq![Check::Iperf3(Host::PythagorasTailnet)])
}

/// Appends `checks` to `v`.
fn push_all(v: &mut Vec<Check>, checks: &[Check])
    ensures
        final(v)@ == old(v)@ + checks@,
{
    let mut i: usize = 0;
    while i < checks.len()
        invariant
            i <= checks@.len(),
            v@ == old(v)@ + checks@.subrange(0, i as int),
        decreases checks.len() - i,
    {
        v.push(checks[i]);
        i = i + 1;
        assert(v@ =~= old(v)@ + checks@.subrange(0, i as int));
    }
    assert(checks@.subrange(0, checks@.len() as int) =~= checks@);
}

/// The checks that the options select, in the order in which they start.
pub fn launch_plan(args: &WatArgs) -> (plan: LaunchPlan)
    ensures
        plan.first@ == planned_first(*args),
        plan.second@ == planned_second(*args),
        plan.wait_for_first == args.network_quality_separately,
{
    let mut first: Vec<Check> = Vec::new();
    if args.include_system() {
        let checks = [
            Check::Charging,
            Check::ThermalPressure,
            Check::DiskSpaceFree,
            Check::AudioOutput,
            Check::Ipv4Address(InterfaceGroup::Wifi),
            Check::Ipv4Address(InterfaceGroup::Other),
            Check::Tailscale,
        ];
        push_all(&mut first, &checks);
        assert(checks@ =~= system_checks());
    }
    if args.include_misc() {
        let checks = [
            Check::ScreenLocked(Host::PythagorasLocal),
            Check::ScreenLocked(Host::PythagorasTailnet),
        ];
        push_all(&mut first, &checks);
        assert(checks@ =~= misc_checks());
    }
    if args.include_ping() {
        let checks = [
            Check::Ping(Host::CloudflareDns),
            Check::Ping(Host::GoogleDns),
            Check::Ping(Host::AppleCdn),
            Check::Ping(Host::PythagorasLocal),
            Check::Ping(Host::PythagorasTailnet),
        ];
        push_all(&mut first, &checks);
        assert(checks@ =~= ping_checks());
    }
    if args.include_sshping() {
        let checks = [Check::SshPing(Host::PythagorasLocal), Check::SshPing(Host::PythagorasTailnet)];
        push_all(&mut first, &checks);
        assert(checks@ =~= sshping_checks());
    }
    assert(first@ =~= planned_first(*args));
    let mut second: Vec<Check> = Vec::new();
    if args.include_network_quality() {
        second.push(Check::NetworkQuality);
    }
    if args.include_iperf3() {
        second.push(Check::Iperf3(Host::PythagorasLocal));
    }
    if args.include_iperf3_tailscale() {
        second.push(Check::Iperf3(Host::PythagorasTailnet));
    }
    assert(second@ =~= planned_second(*args));
    LaunchPlan { first, wait_for_first: args.network_quality_separately, second }
}

/// The option that selects a check: 0 system, 1 misc, 2 ping, 3 sshping,
/// 4 network quality, 5 iperf3, 6 iperf3 over tailscale.
pub open spec fn selecting_option(check: Check) -> int {
    match check {
        Check::ScreenLocked(_) => 1,
        Check::Ping(_) => 2,
        Check::SshPing(_) => 3,
        Check::NetworkQuality => 4,
        Check::Iperf3(Host::PythagorasTailnet) => 6,
        Check::Iperf3(_) => 5,
        _ => 0,
    }
}

/// Whether the option numbered `option` (see `selecting_option`) is on.
pub open spec fn option_on(args: WatArgs, option: int) -> bool {
    if option == 0 {
        args.spec_include_system()
    } else if option == 1 {
        args.spec_include_misc()
    } else if option == 2 {
        args.spec_include_ping()
    } else if option == 3 {
        args.spec_include_sshping()
    } else if option == 4 {
        args.spec_include_network_quality()
    } else if option == 5 {
        args.spec_include_iperf3()
    } else {
        args.spec_include_iperf3_tailscale()
    }
}

/// Every check that the options can select, once each.
pub open spec fn all_checks() -> Seq<Check> {
    system_checks() + misc_checks() + ping_checks() + sshping_checks() + seq![
        Check::NetworkQuality,
        Check::Iperf3(Host::PythagorasLocal),
        Check::Iperf3(Host::PythagorasTailnet),
    ]
}

/// All checks that a launch plan starts, first ones first.
pub open spec fn planned(args: WatArgs) -> Seq<Check> {
    planned_first(args) + planned_second(args)
}

proof fn lemma_concat_distinct(a: Seq<Check>, b: Seq<Check>)
    requires
        a.no_duplicates(),
        b.no_duplicates(),
        forall|i: int, j: int| 0 <= i < a.len() && 0 <= j < b.len() ==> a[i] != b[j],
    ensures
        (a + b).no_duplicates(),
{
    let c = a + b;
    assert forall|i: int, j: int| 0 <= i < c.len() && 0 <= j < c.len() && i != j implies c[i]
        != c[j] by {
        if i < a.len() && j >= a.len() {
            assert(c[j] == b[j - a.len()]);
        } else if j < a.len() && i >= a.len() {
            assert(c[i] == b[i - a.len()]);
        } else if i >= a.len() && j >= a.len() {
            assert(c[i] == b[i - a.len()]);
            assert(c[j] == b[j - a.len()]);
        }
    }
}

/// Each block of checks that an option selects: the same block, or nothing.
proof fn lemma_selected_if(on: bool, s: Seq<Check>, option: int)
    requires
        s.no_duplicates(),
        forall|i: int| 0 <= i < s.len() ==> selecting_option(#[trigger] s[i]) == option,
    ensures
        selected_if(on, s).no_duplicates(),
        forall|i: int| 0 <= i < selected_if(on, s).len() ==> selecting_option(#[trigger] selected_if(on, s)[i]) == option,
{
}

proof fn lemma_blocks_distinct()
    ensures
        system_checks().no_duplicates(),
        misc_checks().no_duplicates(),
        ping_checks().no_duplicates(),
        sshping_checks().no_duplicates(),
{
    let sys = system_checks();
    assert forall|i: int, j: int| 0 <= i < sys.len() && 0 <= j < sys.len() && i != j implies sys[i] != sys[j] by {}
    let ping = ping_checks();
    assert forall|i: int, j: int| 0 <= i < ping.len() && 0 <= j < ping.len() && i != j implies ping[i] != ping[j] by {}
}

/// A launch plan starts no check twice.
#[verifier::spinoff_prover]
proof fn lemma_plan_distinct(args: WatArgs)
    ensures
        planned(args).no_duplicates(),
{
    let sys = system_checks();
    let misc = misc_checks();
    let ping = ping_checks();
    let ssh = sshping_checks();
    lemma_blocks_distinct();
    let a = selected_if(args.spec_include_system(), sys);
    let b = selected_if(args.spec_include_misc(), misc);
    let p = selected_if(args.spec_include_ping(), ping);
    let d = selected_if(args.spec_include_sshping(), ssh);
    let e = selected_if(args.spec_include_network_quality(), seq![Check::NetworkQuality]);
    let f = selected_if(args.spec_include_iperf3(), seq![Check::Iperf3(Host::PythagorasLocal)]);
    let g = selected_if(args.spec_include_iperf3_tailscale(), seq![Check::Iperf3(Host::PythagorasTailnet)]);
    lemma_selected_if(args.spec_include_system(), sys, 0);
    lemma_selected_if(args.spec_include_misc(), misc, 1);
    lemma_selected_if(args.spec_include_ping(), ping, 2);
    lemma_selected_if(args.spec_include_sshping(), ssh, 3);
    lemma_selected_if(args.spec_include_network_quality(), seq![Check::NetworkQuality], 4);
    lemma_selected_if(args.spec_include_iperf3(), seq![Check::Iperf3(Host::PythagorasLocal)], 5);
    lemma_selected_if(args.spec_include_iperf3_tailscale(), seq![Check::Iperf3(Host::PythagorasTailnet)], 6);
    lemma_concat_distinct(a, b);
    assert forall|i: int| 0 <= i < (a + b).len() implies #[trigger] selecting_option((a + b)[i]) <= 1 by {
        if i >= a.len() {
            assert((a + b)[i] == b[i - a.len()]);
        }
    }
    lemma_concat_distinct(a + b, p);
    assert forall|i: int| 0 <= i < (a + b + p).len() implies #[trigger] selecting_option((a + b + p)[i]) <= 2 by {
        if i >= (a + b).len() {
            assert((a + b + p)[i] == p[i - (a + b).len()]);
        } else {
            assert((a + b + p)[i] == (a + b)[i]);
        }
    }
    lemma_concat_distinct(a + b + p, d);
    assert forall|i: int| 0 <= i < (a + b + p + d).len() implies #[trigger] selecting_option((a + b + p + d)[i]) <= 3 by {
        if i >= (a + b + p).len() {
            assert((a + b + p + d)[i] == d[i - (a + b + p).len()]);
        } else {
            assert((a + b + p + d)[i] == (a + b + p)[i]);
        }
    }
    lemma_concat_distinct(e, f);
    assert forall|i: int| 0 <= i < (e + f).len() implies 4 <= #[trigger] selecting_option((e + f)[i]) <= 5 by {
        if i >= e.len() {
            assert((e + f)[i] == f[i - e.len()]);
        }
    }
    lemma_concat_distinct(e + f, g);
    assert forall|i: int| 0 <= i < (e + f + g).len() implies 4 <= #[trigger] selecting_option((e + f + g)[i]) by {
        if i >= (e + f).len() {
            assert((e + f + g)[i] == g[i - (e + f).len()]);
        } else {
            assert((e + f + g)[i] == (e + f)[i]);
        }
    }
    lemma_concat_distinct(a + b + p + d, e + f + g);
    assert(planned(args) == (a + b + p + d) + (e + f + g));
}

/// A check that an option which is on selects is in the plan.
#[verifier::spinoff_prover]
proof fn lemma_plan_includes_selected(args: WatArgs, k: int)
    requires
        0 <= k < all_checks().len(),
        option_on(args, selecting_option(all_checks()[k])),
    ensures
        planned(args).contains(all_checks()[k]),
{
    lemma_all_checks_blocks();
    let c = all_checks()[k];
    let a = selected_if(args.spec_include_system(), system_checks());
    let b = selected_if(args.spec_include_misc(), misc_checks());
    let p = selected_if(args.spec_include_ping(), ping_checks());
    let d = selected_if(args.spec_include_sshping(), sshping_checks());
    let e = selected_if(args.spec_include_network_quality(), seq![Check::NetworkQuality]);
    let f = selected_if(args.spec_include_iperf3(), seq![Check::Iperf3(Host::PythagorasLocal)]);
    let g = selected_if(args.spec_include_iperf3_tailscale(), seq![Check::Iperf3(Host::PythagorasTailnet)]);
    let first = planned_first(args);
    let second = planned_second(args);
    let pl = planned(args);
    if k < 16 {
        let j = if k < 7 {
            assert((a + b)[k] == c);
            assert((a + b + p)[k] == c);
            k
        } else if k < 9 {
            assert((a + b)[a.len() + k - 7] == c);
            assert((a + b + p)[a.len() + k - 7] == c);
            a.len() + k - 7
        } else if k < 14 {
            assert((a + b + p)[(a + b).len() + k - 9] == c);
            (a + b).len() + k - 9
        } else {
            assert(first[(a + b + p).len() + k - 14] == c);
            (a + b + p).len() + k - 14
        };
        assert(first[j] == c);
        assert(pl[j] == c);
    } else {
        let j = if k == 16 {
            assert((e + f)[0] == c);
            0
        } else if k == 17 {
            assert((e + f)[e.len() as int] == c);
            e.len() as int
        } else {
            (e + f).len() as int
        };
        assert(second[j] == c);
        assert(pl[first.len() + j] == c);
    }
}

/// A launch plan starts every check at most once, and it starts a check
/// exactly when the option that selects the check is on.
pub proof fn lemma_plan_runs_selected_checks_once(args: WatArgs)
    ensures
        planned(args).no_duplicates(),
        forall|c: Check| all_checks().contains(c) ==> (planned(args).contains(c) <==> option_on(args, selecting_option(c))),
        forall|c: Check| planned(args).contains(c) ==> all_checks().contains(c),
{
    lemma_plan_distinct(args);
    let all = all_checks();
    let pl = planned(args);
    assert forall|c: Check| all.contains(c) implies (pl.contains(c) <==> option_on(args, selecting_option(c))) by {
        let k = choose|k: int| 0 <= k < all.len() && all[k] == c;
        if option_on(args, selecting_option(c)) {
            lemma_plan_includes_selected(args, k);
        }
        if pl.contains(c) {
            let j = choose|j: int| 0 <= j < pl.len() && pl[j] == c;
            lemma_planned_item(args, j);
        }
    }
    assert forall|c: Check| pl.contains(c) implies all.contains(c) by {
        let j = choose|j: int| 0 <= j < pl.len() && pl[j] == c;
        lemma_planned_item(args, j);
    }
}

/// Where each block of checks stands in `all_checks`.
proof fn lemma_all_checks_blocks()
    ensures
        forall|k: int| 0 <= k < 7 ==> all_checks()[k] == #[trigger] system_checks()[k],
        forall|k: int| 0 <= k < 2 ==> all_checks()[7 + k] == #[trigger] misc_checks()[k],
        forall|k: int| 0 <= k < 5 ==> all_checks()[9 + k] == #[trigger] ping_checks()[k],
        forall|k: int| 0 <= k < 2 ==> all_checks()[14 + k] == #[trigger] sshping_checks()[k],
        all_checks()[16] == Check::NetworkQuality,
        all_checks()[17] == Check::Iperf3(Host::PythagorasLocal),
        all_checks()[18] == Check::Iperf3(Host::PythagorasTailnet),
        all_checks().len() == 19,
{
}

/// Every check started first is one of `all_checks`, selected by an option
/// that is on.
#[verifier::spinoff_prover]
proof fn lemma_first_item(args: WatArgs, j: int)
    requires
        0 <= j < planned_first(args).len(),
    ensures
        option_on(args, selecting_option(planned_first(args)[j])),
        all_checks().contains(planned_first(args)[j]),
{
    lemma_all_checks_blocks();
    let all = all_checks();
    let a = selected_if(args.spec_include_system(), system_checks());
    let b = selected_if(args.spec_include_misc(), misc_checks());
    let p = selected_if(args.spec_include_ping(), ping_checks());
    let d = selected_if(args.spec_include_sshping(), sshping_checks());
    let first = planned_first(args);
    let c = first[j];
    if j < (a + b + p).len() {
        assert(c == (a + b + p)[j]);
        if j < (a + b).len() {
            assert(c == (a + b)[j]);
            if j < a.len() {
                assert(c == a[j]);
                assert(all[j] == c);
            } else {
                assert(c == b[j - a.len()]);
                assert(all[7 + j - a.len()] == c);
            }
        } else {
            assert(c == p[j - (a + b).len()]);
            assert(all[9 + j - (a + b).len()] == c);
        }
    } else {
        assert(c == d[j - (a + b + p).len()]);
        assert(all[14 + j - (a + b + p).len()] == c);
    }
}

/// Every check started afterwards is one of `all_checks`, selected by an
/// option that is on.
#[verifier::spinoff_prover]
proof fn lemma_second_item(args: WatArgs, j: int)
    requires
        0 <= j < planned_second(args).len(),
    ensures
        option_on(args, selecting_option(planned_second(args)[j])),
        all_checks().contains(planned_second(args)[j]),
{
    lemma_all_checks_blocks();
    let all = all_checks();
    let e = selected_if(args.spec_include_network_quality(), seq![Check::NetworkQuality]);
    let f = selected_if(args.spec_include_iperf3(), seq![Check::Iperf3(Host::PythagorasLocal)]);
    let g = selected_if(args.spec_include_iperf3_tailscale(), seq![Check::Iperf3(Host::PythagorasTailnet)]);
    let second = planned_second(args);
    let c = second[j];
    if j < (e + f).len() {
        assert(c == (e + f)[j]);
        if j < e.len() {
            assert(c == e[j]);
            assert(all[16] == c);
        } else {
            assert(c == f[j - e.len()]);
            assert(all[17] == c);
        }
    } else {
        assert(c == g[j - (e + f).len()]);
        assert(all[18] == c);
    }
}

/// Every check of a plan is one of `all_checks`, selected by an option that
/// is on.
proof fn lemma_planned_item(args: WatArgs, j: int)
    requires
        0 <= j < planned(args).len(),
    ensures
        option_on(args, selecting_option(planned(args)[j])),
        all_checks().contains(planned(args)[j]),
{
    let first = planned_first(args);
    if j < first.len() {
        assert(planned(args)[j] == first[j]);
        lemma_first_item(args, j);
    } else {
        assert(planned(args)[j] == planned_second(args)[j - first.len()]);
        lemma_second_item(args, j - first.len());
    }
}

/// Without the default selection no screen-lock check runs; `--system` alone
/// starts exactly the seven system checks, in order, and nothing after them.
pub proof fn lemma_screen_locks_only_by_default(args: WatArgs, host: Host)
    ensures
        !args.default ==> !planned(args).contains(Check::ScreenLocked(host)),
        args == (WatArgs {
            default: false,
            system: true,
            ping: false,
            sshping: false,
            network_quality: false,
            network_quality_separately: false,
            iperf3: false,
            iperf3_tailscale: false,
            completions: None,
        }) ==> planned_first(args) == system_checks() && planned_second(args) == Seq::<Check>::empty(),
{
    if !args.default && planned(args).contains(Check::ScreenLocked(host)) {
        let j = choose|j: int| 0 <= j < planned(args).len() && planned(args)[j] == Check::ScreenLocked(host);
        lemma_planned_item(args, j);
        assert(args.default);
    }
    if args.default == false && args.system && !args.ping && !args.sshping && !args.network_quality
        && !args.iperf3 && !args.iperf3_tailscale {
        assert(planned_first(args) =~= system_checks());
        assert(planned_second(args) =~= Seq::<Check>::empty());
    }
}

} // verus!
