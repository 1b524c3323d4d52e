//! Local target selection: the stdin sentinel, the resolved filesystem path,
//! and the display label shown on the editor side.

use vstd::prelude::*;
use vstd::string::StringExecFns;

verus! {

/// How the file content will be supplied.
#[derive(PartialEq, Eq, Structural, Clone, Copy, Debug)]
pub enum Mode {
    File,
    Stdin,
}

/// What the client will read and announce; produced once per invocation and
/// immutable thereafter.
#[derive(Debug)]
pub struct TargetSelection {
    pub mode: Mode,
    /// Canonical absolute path, present only in `File` mode and only when the
    /// local filesystem yielded a canonical form for the argument.
    pub resolved_path: Option<String>,
    /// Human-readable label identifying the file on the editor side.
    pub display_name: String,
}

/// The positional argument that selects reading from stdin.
pub open spec fn stdin_sentinel() -> Seq<char> {
    "-"@
}

/// The display label for stdin input.
pub open spec fn untitled_label() -> Seq<char> {
    "untitled"@
}

/// Display label shown on the editor side: `<hostname>:<label>`.
pub open spec fn spec_display_name(hostname: Seq<char>, label: Seq<char>) -> Seq<char> {
    hostname + ":"@ + label
}

/// Build the `<hostname>:<label>` display label.
fn display_label(hostname: &String, label: &str) -> (r: String)
    ensures
        r@ == spec_display_name(hostname@, label@),
{
    let mut r = hostname.clone();
    r.append(":");
    r.append(label);
    r
}

/// The resolved filesystem path for a positional argument: absent for the
/// stdin sentinel, and absent whenever the local filesystem offered no
/// canonical form (a missing file is valid input — the remote side may be
/// creating it); otherwise the canonical absolute form the filesystem
/// reported, which the caller hands in.
pub fn realpath(filepath: &String, canonical: Option<String>) -> (r: Option<String>)
    ensures
        filepath@ == stdin_sentinel() ==> r is None,
        filepath@ != stdin_sentinel() ==> r == canonical,
{
    let dash = "-".to_owned();
    if *filepath == dash {
        None
    } else {
        canonical
    }
}

/// Select the target from the single positional argument, the local hostname,
/// and the canonical form the local filesystem reported for the argument
/// (absent when the file does not exist or could not be canonicalized).
///
/// The display label always carries the argument as given, never the
/// canonical form; this resolver performs no I/O and never fails.
pub fn resolve_target(filepath: &String, hostname: &String, canonical: Option<String>) -> (t:
    TargetSelection)
    ensures
        filepath@ == stdin_sentinel() ==> {
            &&& t.mode == Mode::Stdin
            &&& t.resolved_path is None
            &&& t.display_name@ == spec_display_name(hostname@, untitled_label())
        },
        filepath@ != stdin_sentinel() ==> {
            &&& t.mode == Mode::File
            &&& t.resolved_path == canonical
            &&& t.display_name@ == spec_display_name(hostname@, filepath@)
        },
{
    let dash = "-".to_owned();
    if *filepath == dash {
        TargetSelection {
            mode: Mode::Stdin,
            resolved_path: None,
            display_name: display_label(hostname, "untitled"),
        }
    } else {
        TargetSelection {
            mode: Mode::File,
            resolved_path: realpath(filepath, canonical),
            display_name: display_label(hostname, filepath.as_str()),
        }
    }
}

} // verus!
