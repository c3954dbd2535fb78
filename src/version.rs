//! The text that reports the daemon's version.
use vstd::prelude::*;
use vstd::string::StringExecFns;

verus! {

/// The daemon's version report, one field per line.
pub open spec fn daemon_version_spec(
    arch: Seq<char>,
    channel: Seq<char>,
    version: Seq<char>,
    commit_id: Seq<char>,
) -> Seq<char> {
    "Arch: "@ + arch + "\nChannel: "@ + channel + "\nVersion: "@ + version + "\nCommit ID: "@ + commit_id
}

/// Formats the daemon's version report.
pub fn daemon_version_text(arch: &str, channel: &str, version: &str, commit_id: &str) -> (r: String)
    ensures
        r@ == daemon_version_spec(arch@, channel@, version@, commit_id@),
{
    let mut t = String::from_str("Arch: ");
    t.append(arch);
    t.append("\nChannel: ");
    t.append(channel);
    t.append("\nVersion: ");
    t.append(version);
    t.append("\nCommit ID: ");
    t.append(commit_id);
    t
}

} // verus!
