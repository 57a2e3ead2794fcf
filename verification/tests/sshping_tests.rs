use wat::sshping::{compose_message, SshPingError, SshPingFigures};

#[test]
fn figures_are_gathered_line_by_line() {
    let f = SshPingFigures::new();
    assert_eq!(f.message(), "");
    let f = f.observe_line("Connect time   1,234,567ns").unwrap();
    assert_eq!(f.connect_micros, Some(1234));
    assert_eq!(f.message(), "(↔ 1.234ms)");
    let f = f.observe_line("Average     277,000ns").unwrap();
    assert_eq!(f.average_micros, Some(277));
    let f = f.observe_line("Std deviation 10,999ns").unwrap();
    assert_eq!(f.std_dev_micros, Some(10));
    assert_eq!(f.message(), "⌀ 277µs ± 𝜎 10µs (↔ 1.234ms)");
}

#[test]
fn a_figure_once_seen_stays() {
    let f = SshPingFigures::new().observe_line("Average 5000ns").unwrap();
    let g = f.observe_line("Ping 979/1000:   277 us").unwrap();
    assert_eq!(g, f);
    let h = g.observe_line("Average 9,000ns").unwrap();
    assert_eq!(h.average_micros, Some(9));
}

#[test]
fn unreadable_figures_are_refused() {
    let f = SshPingFigures::new();
    assert_eq!(f.observe_line("Average ,ns"), Err(SshPingError::UnparsableFigure));
    assert_eq!(
        f.observe_line("Average 99999999999999999999999ns"),
        Err(SshPingError::UnparsableFigure)
    );
    assert_eq!(
        f.observe_found(&None, &Some(vec![Some("1".to_string()), None]), &None),
        Err(SshPingError::UnexpectedGroups)
    );
}

#[test]
fn message_parts_are_joined_in_order() {
    assert_eq!(compose_message(None, None, None), "");
    assert_eq!(compose_message(Some("1µs"), None, Some("2ms")), "⌀ 1µs (↔ 2ms)");
    assert_eq!(compose_message(None, Some("3ns"), None), "± 𝜎 3ns");
    assert_eq!(compose_message(Some("a"), Some("b"), Some("c")), "⌀ a ± 𝜎 b (↔ c)");
}

#[test]
fn running_pings_are_shown_until_a_figure_is_seen() {
    let line = "Ping 979/0:                    277 us\r";
    let f = SshPingFigures::new().observe_line(line).unwrap();
    assert_eq!(f.status_line(line), "Ping 979/0:                    277 us");
    let line = "Average 277,000ns\r";
    let g = f.observe_line(line).unwrap();
    assert_eq!(g.status_line(line), "⌀ 277µs");
    let line = "Ping 1004/0:                   723 us";
    let h = g.observe_line(line).unwrap();
    assert_eq!(h.status_line(line), "⌀ 277µs");
}
