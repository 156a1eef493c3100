//! The self-update logic: semantic-version comparison of the local build
//! against the remote release tag, the per-cycle update decision, and the
//! three-phase atomic-swap protocol that replaces the running executable.

use vstd::prelude::*;
use vstd::string::StrSliceExecFns;

verus! {

// ---------------------------------------------------------------------------
// Semantic versions
// ---------------------------------------------------------------------------

/// A parsed semantic version: the numeric triple and the pre-release
/// identifiers (empty for a release). Build metadata carries no precedence
/// and is not kept.
#[derive(Debug)]
pub struct Version {
    pub major: u64,
    pub minor: u64,
    pub patch: u64,
    pub pre: String,
}

impl View for Version {
    type V = (u64, u64, u64, Seq<char>);

    open spec fn view(&self) -> (u64, u64, u64, Seq<char>) {
        (self.major, self.minor, self.patch, self.pre@)
    }
}

/// What `semver::Version::parse` returns for a text, as plain values: the
/// numeric triple and the pre-release identifiers, or nothing for a malformed
/// version.
pub uninterp spec fn parsed_semver(s: Seq<char>) -> Option<(u64, u64, u64, Seq<char>)>;

/// Relies on `semver::Version::parse`: a malformed text is an error; a parsed
/// version is handed back as its numeric triple and pre-release identifiers.
#[verifier::external_body]
fn semver_parse(s: &str) -> (r: Option<Version>)
    ensures
        match r {
            Some(v) => parsed_semver(s@) == Some((v.major, v.minor, v.patch, v.pre@)),
            None => parsed_semver(s@) is None,
        },
{
    match semver::Version::parse(s) {
        Ok(v) => Some(
            Version {
                major: v.major,
                minor: v.minor,
                patch: v.patch,
                pre: v.pre.as_str().to_string(),
            },
        ),
        Err(_) => None,
    }
}

/// How two pre-release identifier lists compare under semantic-versioning
/// precedence.
pub uninterp spec fn spec_prerelease_lt(a: Seq<char>, b: Seq<char>) -> bool;

/// Relies on `semver::Prerelease::new` and its `Ord` impl: the
/// semantic-versioning precedence of two pre-release identifier lists. A text
/// that is no valid pre-release compares as not-less.
#[verifier::external_body]
fn prerelease_lt(a: &str, b: &str) -> (r: bool)
    ensures
        r == spec_prerelease_lt(a@, b@),
{
    match (semver::Prerelease::new(a), semver::Prerelease::new(b)) {
        (Ok(x), Ok(y)) => x < y,
        _ => false,
    }
}

/// The text with every leading `v` removed.
pub open spec fn strip_v(s: Seq<char>) -> Seq<char>
    decreases s.len(),
{
    if s.len() > 0 && s[0] == 'v' {
        strip_v(s.drop_first())
    } else {
        s
    }
}

/// Removes every leading `v` from a version tag.
fn strip_v_prefix(s: &str) -> (r: &str)
    ensures
        r@ == strip_v(s@),
{
    let n = s.unicode_len();
    let mut i: usize = 0;
    proof {
        assert(s@.skip(0) =~= s@);
    }
    while i < n && s.get_char(i) == 'v'
        invariant
            i <= n,
            n == s@.len(),
            strip_v(s@) == strip_v(s@.skip(i as int)),
        decreases n - i,
    {
        proof {
            assert(s@.skip(i as int)[0] == s@[i as int]);
            assert(s@.skip(i as int).drop_first() =~= s@.skip(i + 1));
        }
        i += 1;
    }
    proof {
        assert(strip_v(s@.skip(i as int)) == s@.skip(i as int));
        assert(s@.skip(i as int) =~= s@.subrange(i as int, n as int));
    }
    s.substring_char(i, n)
}

/// Parses a version tag: any leading `v` is stripped, the rest must be a
/// semantic version.
pub fn parse_version(text: &str) -> (r: Option<Version>)
    ensures
        match r {
            Some(v) => parsed_semver(strip_v(text@)) == Some(v@),
            None => parsed_semver(strip_v(text@)) is None,
        },
{
    semver_parse(strip_v_prefix(text))
}

/// Semantic-versioning precedence: the numeric triple decides first; at an
/// equal triple a release outranks a pre-release, and two pre-releases
/// compare by their identifiers. Build metadata carries no precedence.
pub open spec fn spec_version_gt(a: (u64, u64, u64, Seq<char>), b: (u64, u64, u64, Seq<char>)) -> bool {
    if a.0 != b.0 {
        a.0 > b.0
    } else if a.1 != b.1 {
        a.1 > b.1
    } else if a.2 != b.2 {
        a.2 > b.2
    } else if a.3.len() == 0 {
        b.3.len() != 0
    } else if b.3.len() == 0 {
        false
    } else {
        spec_prerelease_lt(b.3, a.3)
    }
}

/// Whether version `a` outranks version `b`.
pub fn version_gt(a: &Version, b: &Version) -> (r: bool)
    ensures
        r == spec_version_gt(a@, b@),
{
    if a.major != b.major {
        a.major > b.major
    } else if a.minor != b.minor {
        a.minor > b.minor
    } else if a.patch != b.patch {
        a.patch > b.patch
    } else if a.pre.as_str().is_empty() {
        !b.pre.as_str().is_empty()
    } else if b.pre.as_str().is_empty() {
        false
    } else {
        prerelease_lt(b.pre.as_str(), a.pre.as_str())
    }
}

// ---------------------------------------------------------------------------
// The update decision
// ---------------------------------------------------------------------------

/// What one update-check cycle decides.
#[derive(Debug)]
pub enum UpdateDecision {
    /// The remote tag or the local version did not parse; the cycle is
    /// abandoned and the timer goes on.
    ParseFailed,
    /// The remote release does not outrank the local build; nothing to do.
    UpToDate,
    /// A newer release exists but carries no downloadable asset.
    NoAsset,
    /// A newer release exists: download its first asset and swap it in.
    Install { url: String },
}

/// Decides one update-check cycle from the remote release tag, the local
/// build version, and the release's asset addresses. An update is installed
/// exactly when both versions parse, the remote one outranks the local one,
/// and at least one asset exists; its address is the first asset's.
pub fn check_for_updates(remote_tag: &str, local_version: &str, asset_urls: &Vec<String>) -> (r:
    UpdateDecision)
    ensures
        ({
            let rp = parsed_semver(strip_v(remote_tag@));
            let lp = parsed_semver(strip_v(local_version@));
            match r {
                UpdateDecision::ParseFailed => rp is None || lp is None,
                UpdateDecision::UpToDate => rp is Some && lp is Some && !spec_version_gt(
                    rp->0,
                    lp->0,
                ),
                UpdateDecision::NoAsset => rp is Some && lp is Some && spec_version_gt(rp->0, lp->0)
                    && asset_urls@.len() == 0,
                UpdateDecision::Install { url } => rp is Some && lp is Some && spec_version_gt(
                    rp->0,
                    lp->0,
                ) && asset_urls@.len() > 0 && url@ == asset_urls@[0]@,
            }
        }),
{
    let remote = parse_version(remote_tag);
    let local = parse_version(local_version);
    match (remote, local) {
        (Some(rv), Some(lv)) => {
            if version_gt(&rv, &lv) {
                if asset_urls.len() > 0 {
                    UpdateDecision::Install { url: asset_urls[0].clone() }
                } else {
                    UpdateDecision::NoAsset
                }
            } else {
                UpdateDecision::UpToDate
            }
        },
        _ => UpdateDecision::ParseFailed,
    }
}

// ---------------------------------------------------------------------------
// The atomic-swap protocol
// ---------------------------------------------------------------------------

/// Phase of the three-phase swap that replaces the running executable.
#[derive(Debug, Clone, Copy, PartialEq, Eq, Structural)]
pub enum SwapPhase {
    /// Nothing done yet.
    Idle,
    /// The new binary is fully written to a temporary path.
    Staged,
    /// The current executable was renamed to the backup path; the executable
    /// path is empty until the promote rename lands.
    BackedUp,
    /// The new binary sits at the executable path; spawn it and exit.
    Promoted,
    /// An early failure: the original executable is untouched and keeps
    /// running.
    Aborted,
    /// The promote rename failed after the backup rename succeeded: the
    /// executable path is left empty, the known crash window of the protocol.
    ExecutableMissing,
}

/// The filesystem operation a phase performs next.
#[derive(Debug, Clone, Copy, PartialEq, Eq, Structural)]
pub enum SwapOp {
    /// Write the downloaded binary to a temporary path.
    StageTemp,
    /// Rename the current executable to the backup path.
    BackupCurrent,
    /// Rename the temporary file onto the executable path.
    PromoteTemp,
}

/// What the executable's path holds in a phase.
#[derive(Debug, Clone, Copy, PartialEq, Eq, Structural)]
pub enum ExecutableImage {
    Original,
    Replacement,
    Missing,
}

/// The operation owed in a phase, if the protocol is not over.
pub open spec fn spec_swap_next_op(p: SwapPhase) -> Option<SwapOp> {
    match p {
        SwapPhase::Idle => Some(SwapOp::StageTemp),
        SwapPhase::Staged => Some(SwapOp::BackupCurrent),
        SwapPhase::BackedUp => Some(SwapOp::PromoteTemp),
        SwapPhase::Promoted => None,
        SwapPhase::Aborted => None,
        SwapPhase::ExecutableMissing => None,
    }
}

/// The phase after the pending operation reported success or failure. A
/// failure before the backup rename aborts; a failure of the promote rename
/// leaves the executable path empty; terminal phases stay.
pub open spec fn spec_swap_step(p: SwapPhase, succeeded: bool) -> SwapPhase {
    match p {
        SwapPhase::Idle => if succeeded {
            SwapPhase::Staged
        } else {
            SwapPhase::Aborted
        },
        SwapPhase::Staged => if succeeded {
            SwapPhase::BackedUp
        } else {
            SwapPhase::Aborted
        },
        SwapPhase::BackedUp => if succeeded {
            SwapPhase::Promoted
        } else {
            SwapPhase::ExecutableMissing
        },
        SwapPhase::Promoted => SwapPhase::Promoted,
        SwapPhase::Aborted => SwapPhase::Aborted,
        SwapPhase::ExecutableMissing => SwapPhase::ExecutableMissing,
    }
}

/// What the executable's path holds in each phase.
pub open spec fn spec_executable_at(p: SwapPhase) -> ExecutableImage {
    match p {
        SwapPhase::Idle => ExecutableImage::Original,
        SwapPhase::Staged => ExecutableImage::Original,
        SwapPhase::BackedUp => ExecutableImage::Missing,
        SwapPhase::Promoted => ExecutableImage::Replacement,
        SwapPhase::Aborted => ExecutableImage::Original,
        SwapPhase::ExecutableMissing => ExecutableImage::Missing,
    }
}

/// The operation owed in a phase.
pub fn swap_next_op(p: SwapPhase) -> (r: Option<SwapOp>)
    ensures
        r == spec_swap_next_op(p),
{
    match p {
        SwapPhase::Idle => Some(SwapOp::StageTemp),
        SwapPhase::Staged => Some(SwapOp::BackupCurrent),
        SwapPhase::BackedUp => Some(SwapOp::PromoteTemp),
        SwapPhase::Promoted => None,
        SwapPhase::Aborted => None,
        SwapPhase::ExecutableMissing => None,
    }
}

/// Advances the protocol by the outcome of the pending operation.
pub fn swap_step(p: SwapPhase, succeeded: bool) -> (r: SwapPhase)
    ensures
        r == spec_swap_step(p, succeeded),
{
    match p {
        SwapPhase::Idle => if succeeded {
            SwapPhase::Staged
        } else {
            SwapPhase::Aborted
        },
        SwapPhase::Staged => if succeeded {
            SwapPhase::BackedUp
        } else {
            SwapPhase::Aborted
        },
        SwapPhase::BackedUp => if succeeded {
            SwapPhase::Promoted
        } else {
            SwapPhase::ExecutableMissing
        },
        SwapPhase::Promoted => SwapPhase::Promoted,
        SwapPhase::Aborted => SwapPhase::Aborted,
        SwapPhase::ExecutableMissing => SwapPhase::ExecutableMissing,
    }
}

/// The phase after a whole run of operation outcomes.
pub open spec fn spec_swap_run(p: SwapPhase, results: Seq<bool>) -> SwapPhase
    decreases results.len(),
{
    if results.len() == 0 {
        p
    } else {
        spec_swap_run(spec_swap_step(p, results[0]), results.drop_first())
    }
}

proof fn lemma_swap_run_terminal(p: SwapPhase, results: Seq<bool>)
    requires
        p == SwapPhase::Aborted || p == SwapPhase::ExecutableMissing || p == SwapPhase::Promoted,
    ensures
        spec_swap_run(p, results) == p,
    decreases results.len(),
{
    if results.len() > 0 {
        lemma_swap_run_terminal(spec_swap_step(p, results[0]), results.drop_first());
    }
}

/// Law: run from the start, the protocol either leaves the original
/// executable in place (an abort, possible only before the backup rename),
/// fully replaces it (which takes every operation to succeed), or ends in the
/// flagged crash window where the executable path is empty.
pub proof fn lemma_swap_outcomes(results: Seq<bool>)
    ensures
        ({
            let f = spec_swap_run(SwapPhase::Idle, results);
            &&& f == SwapPhase::Aborted ==> spec_executable_at(f) == ExecutableImage::Original
            &&& f == SwapPhase::Promoted ==> results.len() >= 3 && results[0] && results[1]
                && results[2]
            &&& spec_executable_at(f) == ExecutableImage::Missing ==> f == SwapPhase::BackedUp || f
                == SwapPhase::ExecutableMissing
        }),
{
    let f = spec_swap_run(SwapPhase::Idle, results);
    if results.len() == 0 {
        assert(f == SwapPhase::Idle);
    } else {
        let rs1 = results.drop_first();
        assert(f == spec_swap_run(spec_swap_step(SwapPhase::Idle, results[0]), rs1));
        if !results[0] {
            lemma_swap_run_terminal(SwapPhase::Aborted, rs1);
            assert(f == SwapPhase::Aborted);
        } else {
            assert(f == spec_swap_run(SwapPhase::Staged, rs1));
            if rs1.len() == 0 {
                assert(f == SwapPhase::Staged);
            } else {
                let rs2 = rs1.drop_first();
                assert(f == spec_swap_run(spec_swap_step(SwapPhase::Staged, rs1[0]), rs2));
                assert(rs1[0] == results[1]);
                if !rs1[0] {
                    lemma_swap_run_terminal(SwapPhase::Aborted, rs2);
                    assert(f == SwapPhase::Aborted);
                } else {
                    assert(f == spec_swap_run(SwapPhase::BackedUp, rs2));
                    if rs2.len() == 0 {
                        assert(f == SwapPhase::BackedUp);
                    } else {
                        let rs3 = rs2.drop_first();
                        assert(f == spec_swap_run(
                            spec_swap_step(SwapPhase::BackedUp, rs2[0]),
                            rs3,
                        ));
                        assert(rs2[0] == results[2]);
                        if !rs2[0] {
                            lemma_swap_run_terminal(SwapPhase::ExecutableMissing, rs3);
                            assert(f == SwapPhase::ExecutableMissing);
                        } else {
                            lemma_swap_run_terminal(SwapPhase::Promoted, rs3);
                            assert(f == SwapPhase::Promoted);
                        }
                    }
                }
            }
        }
    }
}

} // verus!
