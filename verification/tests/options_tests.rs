use wat::options::{resolve_options, CompletionShell, OptionsOutcome, WatArgs};
use wat::plan::{check_label, host_name, interfaces, launch_plan, Check, Host, InterfaceGroup};

fn no_options() -> WatArgs {
    WatArgs {
        default: false,
        system: false,
        ping: false,
        sshping: false,
        network_quality: false,
        network_quality_separately: false,
        iperf3: false,
        iperf3_tailscale: false,
        completions: None,
    }
}

#[test]
fn default_selects_everything_but_iperf3_over_tailscale() {
    let args = WatArgs { default: true, ..no_options() };
    assert!(args.include_misc());
    assert!(args.include_ping());
    assert!(args.include_system());
    assert!(args.include_sshping());
    assert!(args.include_network_quality());
    assert!(args.include_iperf3());
    assert!(!args.include_iperf3_tailscale());
    let both = WatArgs { default: true, iperf3_tailscale: true, ..no_options() };
    assert!(both.include_iperf3_tailscale());
}

#[test]
fn single_options_select_their_checks() {
    let args = WatArgs { ping: true, ..no_options() };
    assert!(args.include_ping());
    assert!(!args.include_system());
    assert!(!args.include_misc());
    assert!(args.was_any_non_default_specified());
    assert!(!no_options().was_any_non_default_specified());
    let separately = WatArgs { network_quality_separately: true, ..no_options() };
    assert!(!separately.was_any_non_default_specified());
}

#[test]
fn no_options_defaults_to_all() {
    match resolve_options(no_options()) {
        OptionsOutcome::Run { args, defaulted } => {
            assert!(defaulted);
            assert_eq!(args, WatArgs { default: true, ..no_options() });
        }
        other => panic!("{:?}", other),
    }
}

#[test]
fn resolving_twice_changes_nothing() {
    let once = match resolve_options(no_options()) {
        OptionsOutcome::Run { args, .. } => args,
        other => panic!("{:?}", other),
    };
    assert_eq!(resolve_options(once), OptionsOutcome::Run { args: once, defaulted: false });
}

#[test]
fn chosen_options_are_kept() {
    let args = WatArgs { iperf3: true, ..no_options() };
    assert_eq!(resolve_options(args), OptionsOutcome::Run { args, defaulted: false });
}

#[test]
fn completions_come_first() {
    let args = WatArgs { completions: Some(CompletionShell::Fish), ping: true, ..no_options() };
    assert_eq!(resolve_options(args), OptionsOutcome::PrintCompletions(CompletionShell::Fish));
}

#[test]
fn default_plan_starts_every_selected_check_once() {
    let args = WatArgs { default: true, ..no_options() };
    let plan = launch_plan(&args);
    assert_eq!(plan.first.len(), 16);
    assert_eq!(plan.first[0], Check::Charging);
    assert_eq!(plan.first[7], Check::ScreenLocked(Host::PythagorasLocal));
    assert_eq!(plan.first[15], Check::SshPing(Host::PythagorasTailnet));
    assert_eq!(plan.second, vec![Check::NetworkQuality, Check::Iperf3(Host::PythagorasLocal)]);
    assert!(!plan.wait_for_first);
    let mut all = plan.first.clone();
    all.extend(plan.second.iter().copied());
    for (i, a) in all.iter().enumerate() {
        for b in &all[i + 1..] {
            assert_ne!(a, b);
        }
    }
}

#[test]
fn plan_for_single_options() {
    let plan = launch_plan(&WatArgs { iperf3_tailscale: true, ..no_options() });
    assert!(plan.first.is_empty());
    assert_eq!(plan.second, vec![Check::Iperf3(Host::PythagorasTailnet)]);
    let plan = launch_plan(&WatArgs {
        network_quality: true,
        network_quality_separately: true,
        ping: true,
        ..no_options()
    });
    assert_eq!(plan.first.len(), 5);
    assert_eq!(plan.second, vec![Check::NetworkQuality]);
    assert!(plan.wait_for_first);
    assert!(launch_plan(&no_options()).first.is_empty());
}

#[test]
fn labels_and_hosts() {
    assert_eq!(check_label(Check::Charging), "Charging");
    assert_eq!(check_label(Check::ThermalPressure), "🔥 thermal pressure");
    assert_eq!(check_label(Check::Ipv4Address(InterfaceGroup::Other)), "IPv4 address (other)");
    assert_eq!(check_label(Check::ScreenLocked(Host::PythagorasLocal)), "Pythagoras.tlb locked?");
    assert_eq!(check_label(Check::Ping(Host::CloudflareDns)), "ping 1.1.1.1");
    assert_eq!(
        check_label(Check::SshPing(Host::PythagorasTailnet)),
        "sshping Pythagoras-ts.wyvern-climb.ts.net"
    );
    assert_eq!(check_label(Check::Iperf3(Host::PythagorasLocal)), "Pythagoras.tlb iperf3");
    assert_eq!(check_label(Check::NetworkQuality), "networkQuality");
    assert_eq!(host_name(Host::AppleCdn), "mensura.cdn-apple.com");
    assert_eq!(interfaces(InterfaceGroup::Wifi), vec!["en0"]);
    assert_eq!(interfaces(InterfaceGroup::Other), vec!["en17", "en23", "bridge0"]);
}
