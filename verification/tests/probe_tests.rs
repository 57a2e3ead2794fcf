use wat::plan::{interfaces, InterfaceGroup};
use wat::probes::{
    audio_output_message, auto_color_good_or_bad, charging_label, charging_step, disk_free_label,
    disk_message_from, disk_space_message, disk_space_step, ipv4_step, iperf3_message,
    ping_message, screen_lock_message, speedtest_line_readable, speedtest_message,
    thermal_pressure_message, ChargingStep, DiskSpaceError, DiskStep, Ipv4Step,
};
use wat::style::Tint;

#[test]
fn speedtest_shows_the_download_figure() {
    assert_eq!(speedtest_message("  Download:   660.958 Mbps \r").as_deref(), Some("660.958 Mbps"));
    assert_eq!(speedtest_message("Upload: 35 Mbps"), None);
    assert_eq!(speedtest_message(""), None);
    assert!(speedtest_line_readable("Download: 1"));
    assert!(speedtest_line_readable("Latency"));
    assert!(!speedtest_line_readable("Download"));
    assert!(!speedtest_line_readable("Downloadé"));
    assert_eq!(speedtest_message("DownloadX 5").as_deref(), Some("5"));
}

#[test]
fn iperf3_skips_blank_and_done_lines() {
    assert_eq!(iperf3_message("\r"), None);
    assert_eq!(iperf3_message(" iperf Done.\n"), None);
    assert_eq!(
        iperf3_message("[  7]   0.00-10.00  sec  6.84 GBytes  5.87 Gbits/sec  receiver\r").as_deref(),
        Some("[  7]   0.00-10.00  sec  6.84 GBytes  5.87 Gbits/sec  receiver")
    );
}

#[test]
fn ping_skips_blank_lines() {
    assert_eq!(ping_message(" \t"), None);
    assert_eq!(ping_message("\n64 bytes from 1.1.1.1\r").as_deref(), Some("64 bytes from 1.1.1.1"));
}

#[test]
fn screen_lock_prefers_unlocked() {
    assert_eq!(screen_lock_message("unlocked\n"), "🚫 unlocked");
    assert_eq!(screen_lock_message("locked\n"), "🔒 locked");
    assert_eq!(screen_lock_message("ssh: connect timed out"), "—");
    assert_eq!(screen_lock_message(""), "—");
}

#[test]
fn audio_output_is_trimmed() {
    assert_eq!(audio_output_message("USB Audio Device\n"), "USB Audio Device");
}

#[test]
fn thermal_pressure_is_good_when_nominal() {
    let m = thermal_pressure_message("Current pressure level: Nominal\n");
    assert_eq!((m.text.as_str(), m.tint), ("Nominal", Tint::Green));
    let m = thermal_pressure_message("Current pressure level: Heavy");
    assert_eq!((m.text.as_str(), m.tint), ("🔥 Heavy", Tint::Red));
    let m = thermal_pressure_message(" Nominal ");
    assert_eq!((m.text.as_str(), m.tint), ("Nominal", Tint::Green));
    let m = auto_color_good_or_bad("ok", "ok", "!");
    assert_eq!((m.text.as_str(), m.tint), ("ok", Tint::Green));
    let m = auto_color_good_or_bad("bad", "ok", "! ");
    assert_eq!((m.text.as_str(), m.tint), ("! bad", Tint::Red));
}

#[test]
fn charging_thresholds() {
    let cases = [
        (0, "🚨 0 watts", Tint::Red),
        (30, "🚨 30 watts", Tint::Red),
        (31, "\u{26a0}\u{fe0f} 31 watts", Tint::Orange),
        (59, "\u{26a0}\u{fe0f} 59 watts", Tint::Orange),
        (60, "🔌 60 watts", Tint::Plain),
        (95, "🔌 95 watts", Tint::Plain),
        (96, "🔌 96 watts", Tint::Blue),
        (139, "🔌 139 watts", Tint::Blue),
        (140, "🔌 140 watts", Tint::Green),
        (141, "🔌 141 watts", Tint::Purple),
        (4294967295, "🔌 4294967295 watts", Tint::Purple),
    ];
    for (watts, text, tint) in cases {
        let m = charging_label(watts);
        assert_eq!((m.text.as_str(), m.tint), (text, tint));
    }
}

#[test]
fn charging_stops_at_a_line_that_is_no_wattage() {
    assert!(matches!(charging_step("n/a"), ChargingStep::Stop));
    assert!(matches!(charging_step(""), ChargingStep::Stop));
    match charging_step("\r+140\r") {
        ChargingStep::Show(m) => assert_eq!((m.text.as_str(), m.tint), ("🔌 140 watts", Tint::Green)),
        ChargingStep::Stop => panic!("expected a message"),
    }
}

#[test]
fn disk_labels() {
    let cases = [
        ("244", "G", "244 GB", Tint::Green),
        ("200", "G", "200 GB", Tint::Bold),
        ("100", "T", "100 TB", Tint::Bold),
        ("99", "G", "🤔 99 GB", Tint::Yellow),
        ("49", "G", "\u{26a0}\u{fe0f} 49 GB", Tint::Orange),
        ("19", "T", "🚨 19 TB", Tint::Red),
        ("900", "M", "🚨 900 MB", Tint::Red),
        ("900", "K", "🚨 900 KB", Tint::Red),
    ];
    for (number, unit, text, tint) in cases {
        let m = disk_free_label(number, unit);
        assert_eq!((m.text.as_str(), m.tint), (text, tint));
    }
}

#[test]
fn disk_space_reads_the_available_column() {
    let m = disk_space_message("/dev/disk3s1s1   494G   10G  244G     4%  /").unwrap();
    assert_eq!((m.text.as_str(), m.tint), ("244 GB", Tint::Green));
    let m = disk_space_message("/dev/sda1 1 2 n/a 0% /").unwrap();
    assert_eq!((m.text.as_str(), m.tint), ("n/a", Tint::Plain));
    let m = disk_space_message("fs 1 2 1.5T 9% /").unwrap();
    assert_eq!((m.text.as_str(), m.tint), ("🚨 5 TB", Tint::Red));
    let m = disk_space_message("fs 1 2 9.8G 9% /").unwrap();
    assert_eq!((m.text.as_str(), m.tint), ("🚨 8 GB", Tint::Red));
    let m = disk_space_message("/dev/disk3s1 994Gi 750Gi 244Gi 76% /").unwrap();
    assert_eq!((m.text.as_str(), m.tint), ("244Gi", Tint::Plain));
    assert_eq!(
        disk_space_message("fs 1 2 99999999999999999999999G 9% /").unwrap_err(),
        DiskSpaceError::UnparsableSize
    );
    let g = |s: &str| Some(s.to_string());
    let m = disk_message_from("244Gi", Some(vec![g("244"), g("G"), g("i")])).unwrap();
    assert_eq!((m.text.as_str(), m.tint), ("244Gi", Tint::Plain));
    let m = disk_message_from("12G", Some(vec![g("12"), g("G"), g("")])).unwrap();
    assert_eq!((m.text.as_str(), m.tint), ("🚨 12 GB", Tint::Red));
    assert_eq!(
        disk_message_from("1G", Some(vec![Some("1".to_string())])).unwrap_err(),
        DiskSpaceError::UnexpectedGroups
    );
    assert_eq!(
        disk_message_from("1G", Some(vec![Some("1".to_string()), Some("G".to_string()), None])).unwrap_err(),
        DiskSpaceError::UnexpectedGroups
    );
}

#[test]
fn disk_space_skips_the_header_then_stops() {
    assert!(matches!(
        disk_space_step(true, "Filesystem Size Used Avail Capacity Mounted"),
        Ok(DiskStep::SkipHeader)
    ));
    match disk_space_step(false, "/dev/disk1 500G 400G 45G 90% /") {
        Ok(DiskStep::ShowAndStop(m)) => {
            assert_eq!((m.text.as_str(), m.tint), ("\u{26a0}\u{fe0f} 45 GB", Tint::Orange))
        }
        other => panic!("{:?}", other),
    }
}

#[test]
fn ipv4_reports_the_first_address() {
    let other = interfaces(InterfaceGroup::Other);
    assert!(matches!(ipv4_step(&other, &vec![]), Ipv4Step::Query(0)));
    assert!(matches!(ipv4_step(&other, &vec!["\n".to_string()]), Ipv4Step::Query(1)));
    match ipv4_step(&other, &vec!["".to_string(), "192.168.1.2\n".to_string()]) {
        Ipv4Step::Report(m) => assert_eq!(m, "192.168.1.2 (en23)"),
        other => panic!("{:?}", other),
    }
    let wifi = interfaces(InterfaceGroup::Wifi);
    match ipv4_step(&wifi, &vec!["10.0.0.7\n".to_string()]) {
        Ipv4Step::Report(m) => assert_eq!(m, "10.0.0.7 (en0)"),
        other => panic!("{:?}", other),
    }
    match ipv4_step(&wifi, &vec!["".to_string()]) {
        Ipv4Step::Report(m) => assert_eq!(m, "—"),
        other => panic!("{:?}", other),
    }
}

#[test]
fn ipv4_works_with_any_interface_list() {
    match ipv4_step(&vec![], &vec![]) {
        Ipv4Step::Report(m) => assert_eq!(m, "—"),
        other => panic!("{:?}", other),
    }
    let names = vec!["utun3", "en5"];
    assert!(matches!(ipv4_step(&names, &vec![" ".to_string()]), Ipv4Step::Query(1)));
    match ipv4_step(&names, &vec![" ".to_string(), "100.64.0.1".to_string()]) {
        Ipv4Step::Report(m) => assert_eq!(m, "100.64.0.1 (en5)"),
        other => panic!("{:?}", other),
    }
}

#[test]
fn binary_sizes_are_shown_as_df_writes_them() {
    assert!(matches!(disk_space_step(true, "Filesystem Size Used Avail"), Ok(DiskStep::SkipHeader)));
    match disk_space_step(false, "/dev/disk3s1 994Gi 750Gi 244Gi\n") {
        Ok(DiskStep::ShowAndStop(m)) => assert_eq!((m.text.as_str(), m.tint), ("244Gi", Tint::Plain)),
        other => panic!("{:?}", other),
    }
    match disk_space_step(false, "/dev/sda1 994G 750G 244G 76% /") {
        Ok(DiskStep::ShowAndStop(m)) => assert_eq!((m.text.as_str(), m.tint), ("244 GB", Tint::Green)),
        other => panic!("{:?}", other),
    }
}
