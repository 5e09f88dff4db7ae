//! The three resolvers and the whole-invocation entry points. Each resolver
//! only gathers the store's answers into the plain outcome values of the
//! decision layer and hands them to its contracted decision, so what is
//! returned for each outcome is verified there; only the gathering itself
//! rests on the trusted boundary.

use vstd::prelude::*;

use crate::decide::{
    completed_invocation, decide_divergence, decide_identity, skipped_invocation,
    summary_decision, DivergenceProbe, HeadLookup, LookupError,
};
use crate::git;
use crate::summary::{Divergence, StatusSummary};

verus! {

/// Status enumeration includes untracked files, mirroring an interactive
/// status view rather than a commit-only view.
pub const INCLUDE_UNTRACKED: bool = true;

/// Determine the short display name of the checked-out reference, as
/// `identity_decision` prescribes for what the store answers: the name when
/// the head is a named branch; absent when it is detached or unborn; any
/// other lookup failure is fatal and propagates with the store's message.
pub fn resolve_identity(repo: &git2::Repository) -> (r: Result<Option<String>, LookupError>) {
    let lookup = match git::repo_head(repo) {
        Ok(head) => HeadLookup::Resolved {
            is_branch: git::reference_is_branch(&head),
            shorthand: git::reference_shorthand(&head),
        },
        Err(e) => HeadLookup::Failed {
            class: git::error_class(&e),
            message: git::error_message(&e),
        },
    };
    decide_identity(lookup)
}

/// How far the divergence lookup chain gets against the store: the first
/// outcome that stops it, or the measured pair.
fn probe_divergence(repo: &git2::Repository) -> (p: DivergenceProbe) {
    let head = match git::repo_head(repo) {
        Ok(h) => h,
        Err(e) => {
            return DivergenceProbe::HeadFailed { class: git::error_class(&e) };
        },
    };
    if !git::reference_is_branch(&head) {
        return DivergenceProbe::NotABranch;
    }
    let local = match git::reference_target(&head) {
        Some(t) => t,
        None => {
            return DivergenceProbe::NoLocalTip;
        },
    };
    let upstream_ref = match git::branch_upstream(head) {
        Ok(u) => u,
        Err(e) => {
            return DivergenceProbe::UpstreamFailed { class: git::error_class(&e) };
        },
    };
    let upstream = match git::reference_target(&upstream_ref) {
        Some(t) => t,
        None => {
            return DivergenceProbe::NoUpstreamTip;
        },
    };
    match git::graph_ahead_behind(repo, local, upstream) {
        Ok(p) => DivergenceProbe::Measured { ahead: p.0, behind: p.1 },
        Err(_) => DivergenceProbe::MeasureFailed,
    }
}

/// Resolve the ahead/behind divergence of the checked-out branch against
/// its configured upstream, as `divergence_decision` prescribes for what
/// the store answers: best-effort, never fatal — the expected no-upstream
/// states yield `NoUpstream` and every absorbed failure `Unavailable`.
pub fn resolve_divergence(repo: &git2::Repository) -> (r: Divergence) {
    decide_divergence(probe_divergence(repo))
}

/// Measure the divergence between two concrete commit tips. A failed graph
/// walk is absorbed into `Unavailable`; two identical tips always measure
/// as zero ahead and zero behind.
pub fn divergence_between(repo: &git2::Repository, local: git2::Oid, upstream: git2::Oid) -> (r:
    Divergence)
    ensures
        local == upstream ==> (r matches Divergence::Measured(d) ==> d.ahead == 0 && d.behind
            == 0),
{
    let probe = match git::graph_ahead_behind(repo, local, upstream) {
        Ok(p) => DivergenceProbe::Measured { ahead: p.0, behind: p.1 },
        Err(_) => DivergenceProbe::MeasureFailed,
    };
    decide_divergence(probe)
}

/// Compute the whole summary for an opened repository, as
/// `summary_decision` prescribes for the three resolvers' results: a fatal
/// identity or enumeration failure aborts with that error, and otherwise
/// the enumerated records — untracked files included — are classified and
/// assembled with the identity and the divergence.
pub fn status_summary(repo: &git2::Repository) -> (r: Result<StatusSummary, LookupError>) {
    let identity = resolve_identity(repo);
    let divergence = resolve_divergence(repo);
    let enumeration = match git::enumerate_status(repo, INCLUDE_UNTRACKED) {
        Ok(records) => Ok(records),
        Err(e) => Err(LookupError { message: git::error_message(&e) }),
    };
    summary_decision(identity, divergence, enumeration)
}

/// Entry point for one invocation: discover the repository containing
/// `path` and summarize it. A location outside any repository, or a bare
/// repository, is the contracted skip — no summary and no error; otherwise
/// the summary or the fatal failure is handed through unchanged.
pub fn summarize(path: &str) -> (r: Result<Option<StatusSummary>, LookupError>) {
    let repo = match git::discover_repo(path) {
        Some(repo) => repo,
        None => {
            return skipped_invocation();
        },
    };
    if git::repo_is_bare(&repo) {
        return skipped_invocation();
    }
    completed_invocation(status_summary(&repo))
}

} // verus!
