use wat::tailscale::{tailscale_message, ExitNodeStatus, Peer, StatusReport, TailscaleRun, TailscaleStatus};

fn peer(id: &str, host: &str) -> (String, Peer) {
    (format!("key-{}", id), Peer { id: id.to_string(), host_name: host.to_string() })
}

fn parsed(exit: Option<(&str, bool)>, peers: Vec<(String, Peer)>) -> TailscaleRun {
    TailscaleRun::Finished {
        exit_code: Some(0),
        report: StatusReport::Parsed(TailscaleStatus {
            exit_node_status: exit.map(|(id, online)| ExitNodeStatus { id: id.to_string(), online }),
            peers,
        }),
    }
}

#[test]
fn failures_are_reported() {
    assert_eq!(tailscale_message(&TailscaleRun::SpawnFailed), "❌ <<< Could not spawn child process. >>>");
    assert_eq!(tailscale_message(&TailscaleRun::WaitFailed), "❌  <<< Failed to wait on child process. >>>");
    let down = TailscaleRun::Finished { exit_code: Some(1), report: StatusReport::NoStdout };
    assert_eq!(tailscale_message(&down), "🚫 down");
    let killed = TailscaleRun::Finished { exit_code: None, report: StatusReport::Unparsable };
    assert_eq!(tailscale_message(&killed), "🚫 down");
    let no_out = TailscaleRun::Finished { exit_code: Some(0), report: StatusReport::NoStdout };
    assert_eq!(tailscale_message(&no_out), "<<< Could not get stdout from child process. >>>");
    let bad = TailscaleRun::Finished { exit_code: Some(0), report: StatusReport::Unparsable };
    assert_eq!(tailscale_message(&bad), "<<< ❌ Could not parse status JSON. >>>");
}

#[test]
fn exit_node_is_named_by_its_peer() {
    assert_eq!(tailscale_message(&parsed(None, vec![peer("a", "alpha")])), "\u{2194}\u{fe0f} up");
    assert_eq!(tailscale_message(&parsed(None, vec![])), "\u{2194}\u{fe0f} up");
    let peers = vec![peer("a", "alpha"), peer("b", "beta")];
    assert_eq!(
        tailscale_message(&parsed(Some(("b", true)), peers)),
        "🆙 up (\u{27a1}\u{fe0f} using online exit node: beta)"
    );
    let peers = vec![peer("b", "beta")];
    assert_eq!(
        tailscale_message(&parsed(Some(("b", false)), peers)),
        "🆙 up (\u{203c}\u{fe0f} using OFFLINE exit node: beta)"
    );
    let peers = vec![peer("a", "alpha")];
    assert_eq!(
        tailscale_message(&parsed(Some(("z", true)), peers)),
        "🆙 up (\u{203c}\u{fe0f} unidentifiable exit node)"
    );
}

#[test]
fn peer_order_does_not_change_the_line() {
    let one = parsed(Some(("b", true)), vec![peer("a", "alpha"), peer("b", "beta"), peer("c", "gamma")]);
    let other = parsed(Some(("b", true)), vec![peer("c", "gamma"), peer("b", "beta"), peer("a", "alpha")]);
    assert_eq!(tailscale_message(&one), tailscale_message(&other));
}
