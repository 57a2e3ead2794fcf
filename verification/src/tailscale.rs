//! The tailscale status line: what `tailscale status --json` tells about the
//! connection and its exit node.

use vstd::prelude::*;
use vstd::string::*;

use crate::text::same_text;

verus! {

/// The exit node that tailscale routes through.
#[derive(Debug)]
pub struct ExitNodeStatus {
    pub id: String,
    pub online: bool,
}

/// A machine of the tailnet.
#[derive(Debug)]
pub struct Peer {
    pub id: String,
    pub host_name: String,
}

/// What `tailscale status --json` reports, as far as the status line needs
/// it. `peers` holds the entries of the report's peer map (key and peer), in
/// the order in which the map was walked.
#[derive(Debug)]
pub struct TailscaleStatus {
    pub exit_node_status: Option<ExitNodeStatus>,
    pub peers: Vec<(String, Peer)>,
}

/// What came of the status report on standard output.
#[derive(Debug)]
pub enum StatusReport {
    /// Standard output was not at hand.
    NoStdout,
    /// The report was no status in JSON.
    Unparsable,
    /// The report.
    Parsed(TailscaleStatus),
}

/// What came of running `tailscale status --json`.
#[derive(Debug)]
pub enum TailscaleRun {
    /// The command could not be started.
    SpawnFailed,
    /// Waiting for the command failed.
    WaitFailed,
    /// The command ended with this exit code (none when a signal ended it),
    /// having written this report.
    Finished { exit_code: Option<i32>, report: StatusReport },
}

/// The index of the first peer from `from` on whose id is `id`.
pub open spec fn first_peer_with_id(peers: Seq<(String, Peer)>, id: Seq<char>, from: int) -> Option<int>
    decreases peers.len() - from,
{
    if from < 0 || from >= peers.len() {
        None
    } else if peers[from].1.id@ == id {
        Some(from)
    } else {
        first_peer_with_id(peers, id, from + 1)
    }
}

/// The status line of a connected tailscale: `↔️ up` without an exit node;
/// with one, which (by the host name of the first peer with its id), online
/// or not.
pub open spec fn spec_status_message(status: TailscaleStatus) -> Seq<char> {
    match status.exit_node_status {
        None => "\u{2194}\u{fe0f} up"@,
        Some(exit) => match first_peer_with_id(status.peers@, exit.id@, 0) {
            Some(k) => if exit.online {
                "🆙 up (\u{27a1}\u{fe0f} using online exit node: "@ + status.peers@[k].1.host_name@ + ")"@
            } else {
                "🆙 up (\u{203c}\u{fe0f} using OFFLINE exit node: "@ + status.peers@[k].1.host_name@ + ")"@
            },
            None => "🆙 up (\u{203c}\u{fe0f} unidentifiable exit node)"@,
        },
    }
}

/// The status line for a run of `tailscale status --json`.
pub open spec fn spec_tailscale_message(run: TailscaleRun) -> Seq<char> {
    match run {
        TailscaleRun::SpawnFailed => "❌ <<< Could not spawn child process. >>>"@,
        TailscaleRun::WaitFailed => "❌  <<< Failed to wait on child process. >>>"@,
        TailscaleRun::Finished { exit_code, report } => if exit_code != Some(0i32) {
            "🚫 down"@
        } else {
            match report {
                StatusReport::NoStdout => "<<< Could not get stdout from child process. >>>"@,
                StatusReport::Unparsable => "<<< ❌ Could not parse status JSON. >>>"@,
                StatusReport::Parsed(status) => spec_status_message(status),
            }
        },
    }
}

/// The index of the first peer whose id is `id`.
fn find_peer(peers: &Vec<(String, Peer)>, id: &str) -> (r: Option<usize>)
    ensures
        match r {
            Some(k) => first_peer_with_id(peers@, id@, 0) == Some(k as int) && k < peers@.len(),
            None => first_peer_with_id(peers@, id@, 0) is None,
        },
{
    proof {
        lemma_first_peer_from(peers@, id@, 0);
    }
    let mut i: usize = 0;
    while i < peers.len()
        invariant
            i <= peers@.len(),
            first_peer_with_id(peers@, id@, 0) == first_peer_with_id(peers@, id@, i as int),
        decreases peers.len() - i,
    {
        if same_text(peers[i].1.id.as_str(), id) {
            return Some(i);
        }
        i = i + 1;
    }
    None
}

/// The status line of a connected tailscale (see `spec_status_message`).
pub fn status_message(status: &TailscaleStatus) -> (r: String)
    ensures
        r@ == spec_status_message(*status),
{
    match &status.exit_node_status {
        None => String::from_str("\u{2194}\u{fe0f} up"),
        Some(exit) => match find_peer(&status.peers, exit.id.as_str()) {
            Some(k) => {
                let mut text = if exit.online {
                    String::from_str("🆙 up (\u{27a1}\u{fe0f} using online exit node: ")
                } else {
                    String::from_str("🆙 up (\u{203c}\u{fe0f} using OFFLINE exit node: ")
                };
                let ghost lead = text@;
                text.append(status.peers[k].1.host_name.as_str());
                text.append(")");
                assert(text@ =~= lead + status.peers@[k as int].1.host_name@ + ")"@);
                text
            },
            None => String::from_str("🆙 up (\u{203c}\u{fe0f} unidentifiable exit node)"),
        },
    }
}

/// The status line for a run of `tailscale status --json`: why it failed,
/// `down` for an exit code other than 0, else what the report tells.
pub fn tailscale_message(run: &TailscaleRun) -> (r: String)
    ensures
        r@ == spec_tailscale_message(*run),
{
    match run {
        TailscaleRun::SpawnFailed => String::from_str("❌ <<< Could not spawn child process. >>>"),
        TailscaleRun::WaitFailed => String::from_str("❌  <<< Failed to wait on child process. >>>"),
        TailscaleRun::Finished { exit_code, report } => {
            let succeeded = match exit_code {
                Some(code) => *code == 0,
                None => false,
            };
            if !succeeded {
                String::from_str("🚫 down")
            } else {
                match report {
                    StatusReport::NoStdout => String::from_str(
                        "<<< Could not get stdout from child process. >>>",
                    ),
                    StatusReport::Unparsable => String::from_str(
                        "<<< ❌ Could not parse status JSON. >>>",
                    ),
                    StatusReport::Parsed(status) => status_message(status),
                }
            }
        },
    }
}

proof fn lemma_first_peer_from(peers: Seq<(String, Peer)>, id: Seq<char>, from: int)
    requires
        0 <= from,
    ensures
        first_peer_with_id(peers, id, from) matches Some(k) ==> from <= k < peers.len() && peers[k].1.id@ == id
            && forall|j: int| from <= j < k ==> #[trigger] peers[j].1.id@ != id,
        (exists|j: int| from <= j < peers.len() && #[trigger] peers[j].1.id@ == id) ==> first_peer_with_id(peers, id, from) is Some,
    decreases peers.len() - from,
{
    if from < peers.len() && peers[from].1.id@ != id {
        lemma_first_peer_from(peers, id, from + 1);
        if exists|j: int| from <= j < peers.len() && #[trigger] peers[j].1.id@ == id {
            let j = choose|j: int| from <= j < peers.len() && #[trigger] peers[j].1.id@ == id;
            assert(from + 1 <= j);
        }
    }
}

/// The exit node is named by a peer exactly when some peer has its id, and
/// then by the first such peer in the order the peers were walked: the
/// status line never names a peer of another id.
pub proof fn lemma_exit_node_named_by_matching_peer(peers: Seq<(String, Peer)>, id: Seq<char>)
    ensures
        first_peer_with_id(peers, id, 0) matches Some(k) ==> 0 <= k < peers.len() && peers[k].1.id@ == id
            && forall|j: int| 0 <= j < k ==> #[trigger] peers[j].1.id@ != id,
        (exists|j: int| 0 <= j < peers.len() && #[trigger] peers[j].1.id@ == id) <==> first_peer_with_id(peers, id, 0) is Some,
{
    lemma_first_peer_from(peers, id, 0);
}

/// Whether at most one peer has the id `id`.
pub open spec fn at_most_one_with_id(peers: Seq<(String, Peer)>, id: Seq<char>) -> bool {
    forall|i: int, j: int|
        0 <= i < peers.len() && 0 <= j < peers.len() && #[trigger] peers[i].1.id@ == id
            && #[trigger] peers[j].1.id@ == id ==> i == j
}

/// The status line does not depend on the order in which the peer map was
/// walked: two reports with the same exit node and the same peer entries (in
/// any order) give the same line, when at most one peer has the exit node's
/// id.
pub proof fn lemma_status_independent_of_peer_order(a: TailscaleStatus, b: TailscaleStatus)
    requires
        a.exit_node_status == b.exit_node_status,
        forall|e: (String, Peer)| a.peers@.contains(e) <==> b.peers@.contains(e),
        a.exit_node_status matches Some(x) ==> at_most_one_with_id(a.peers@, x.id@),
    ensures
        spec_status_message(a) == spec_status_message(b),
{
    if let Some(x) = a.exit_node_status {
        let id = x.id@;
        let pa = a.peers@;
        let pb = b.peers@;
        lemma_first_peer_from(pa, id, 0);
        lemma_first_peer_from(pb, id, 0);
        match first_peer_with_id(pa, id, 0) {
            Some(k) => {
                assert(pa.contains(pa[k]));
                assert(pb.contains(pa[k]));
                let j = choose|j: int| 0 <= j < pb.len() && pb[j] == pa[k];
                assert(pb[j].1.id@ == id);
                let m = first_peer_with_id(pb, id, 0)->0;
                assert(pb.contains(pb[m]));
                assert(pa.contains(pb[m]));
                let i = choose|i: int| 0 <= i < pa.len() && pa[i] == pb[m];
                assert(pa[i].1.id@ == id);
                assert(i == k);
            },
            None => {
                if let Some(m) = first_peer_with_id(pb, id, 0) {
                    assert(pb.contains(pb[m]));
                    assert(pa.contains(pb[m]));
                    let i = choose|i: int| 0 <= i < pa.len() && pa[i] == pb[m];
                    assert(pa[i].1.id@ == id);
                }
            },
        }
    }
}

/// Tailscale is reported down whenever the status command ends other than
/// with exit code 0, whatever it wrote.
pub proof fn lemma_down_unless_exit_zero(exit_code: Option<i32>, report: StatusReport)
    ensures
        exit_code != Some(0i32) ==> spec_tailscale_message(TailscaleRun::Finished { exit_code, report }) == "🚫 down"@,
{
}

} // verus!
