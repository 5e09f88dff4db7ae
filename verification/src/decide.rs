//! The decision layer under the resolvers: plain-value models of what the
//! repository store's queries can come back with, and the contracted
//! decisions the library owes for each outcome. The resolvers only gather
//! these outcomes and hand them here, so every rule — which head states
//! yield an identity, which failures are absorbed and which are fatal, when
//! an invocation is skipped — is stated in an `ensures` and verified.

use vstd::prelude::*;

use crate::classify::{classify, count_in};
use crate::flags::{Category, StatusFlags};
use crate::summary::{assemble, Divergence, DivergenceCount, StatusSummary};

verus! {

/// A fatal failure of the underlying repository store while resolving the
/// identity or enumerating the change set.
#[derive(Clone, Debug, PartialEq, Eq)]
pub struct LookupError {
    pub message: String,
}

/// The failure classes the decisions tell apart: an unborn head, a missing
/// object (no upstream configured, nothing found), or anything else the
/// store reported.
#[derive(Clone, Copy, Debug, PartialEq, Eq, Structural)]
pub enum ErrClass {
    UnbornBranch,
    NotFound,
    Other,
}

/// A head lookup reduced to plain values: either the head resolved (to a
/// branch or not, with whatever short name the store gave), or it failed
/// with a classified error and the store's message.
#[derive(Clone, Debug, PartialEq, Eq)]
pub enum HeadLookup {
    Resolved { is_branch: bool, shorthand: Option<String> },
    Failed { class: ErrClass, message: String },
}

/// What identity resolution owes for each head lookup outcome: the short
/// name when the head is a named branch; absent when the head is detached
/// (not a branch) or unborn; a fatal error carrying the store's message for
/// any other failure.
pub open spec fn identity_decision(h: HeadLookup) -> Result<Option<String>, LookupError> {
    match h {
        HeadLookup::Resolved { is_branch, shorthand } => if is_branch {
            Ok(shorthand)
        } else {
            Ok(None)
        },
        HeadLookup::Failed { class, message } => if class == ErrClass::UnbornBranch {
            Ok(None)
        } else {
            Err(LookupError { message })
        },
    }
}

/// Decide the branch identity from a head lookup outcome.
pub fn decide_identity(h: HeadLookup) -> (r: Result<Option<String>, LookupError>)
    ensures
        r == identity_decision(h),
{
    match h {
        HeadLookup::Resolved { is_branch, shorthand } => {
            if is_branch {
                Ok(shorthand)
            } else {
                Ok(None)
            }
        },
        HeadLookup::Failed { class, message } => {
            if class == ErrClass::UnbornBranch {
                Ok(None)
            } else {
                Err(LookupError { message })
            }
        },
    }
}

/// How far divergence resolution got before it had to stop, as plain
/// values: the first outcome on this list that occurred.
#[derive(Clone, Copy, Debug, PartialEq, Eq, Structural)]
pub enum DivergenceProbe {
    /// The head lookup itself failed, with this class.
    HeadFailed { class: ErrClass },
    /// The head resolved but is not a named branch (detached), so no
    /// upstream can be configured for it.
    NotABranch,
    /// The head is a branch but has no resolvable commit tip.
    NoLocalTip,
    /// The upstream lookup failed, with this class (a not-found failure
    /// means no upstream is configured).
    UpstreamFailed { class: ErrClass },
    /// The upstream reference exists but has no resolvable commit tip.
    NoUpstreamTip,
    /// Both tips existed and the graph walk measured this pair.
    Measured { ahead: usize, behind: usize },
    /// Both tips existed but the graph walk failed.
    MeasureFailed,
}

/// What divergence resolution owes for each probe outcome. Divergence is
/// best-effort and never fatal: an unborn head, a detached head, a missing
/// upstream or a missing tip is the expected no-upstream state; every other
/// failure is absorbed as unavailable; a measured pair is handed through
/// unchanged.
pub open spec fn divergence_decision(p: DivergenceProbe) -> Divergence {
    match p {
        DivergenceProbe::HeadFailed { class } => if class == ErrClass::UnbornBranch {
            Divergence::NoUpstream
        } else {
            Divergence::Unavailable
        },
        DivergenceProbe::NotABranch => Divergence::NoUpstream,
        DivergenceProbe::NoLocalTip => Divergence::NoUpstream,
        DivergenceProbe::UpstreamFailed { class } => if class == ErrClass::NotFound {
            Divergence::NoUpstream
        } else {
            Divergence::Unavailable
        },
        DivergenceProbe::NoUpstreamTip => Divergence::NoUpstream,
        DivergenceProbe::Measured { ahead, behind } => Divergence::Measured(
            DivergenceCount { ahead, behind },
        ),
        DivergenceProbe::MeasureFailed => Divergence::Unavailable,
    }
}

/// Decide the divergence from a probe outcome.
pub fn decide_divergence(p: DivergenceProbe) -> (r: Divergence)
    ensures
        r == divergence_decision(p),
{
    match p {
        DivergenceProbe::HeadFailed { class } => {
            if class == ErrClass::UnbornBranch {
                Divergence::NoUpstream
            } else {
                Divergence::Unavailable
            }
        },
        DivergenceProbe::NotABranch => Divergence::NoUpstream,
        DivergenceProbe::NoLocalTip => Divergence::NoUpstream,
        DivergenceProbe::UpstreamFailed { class } => {
            if class == ErrClass::NotFound {
                Divergence::NoUpstream
            } else {
                Divergence::Unavailable
            }
        },
        DivergenceProbe::NoUpstreamTip => Divergence::NoUpstream,
        DivergenceProbe::Measured { ahead, behind } => Divergence::Measured(
            DivergenceCount { ahead, behind },
        ),
        DivergenceProbe::MeasureFailed => Divergence::Unavailable,
    }
}

/// Assemble an invocation's outcome from the three resolvers' results.
/// There is no partial-result mode: a fatal identity failure aborts with
/// that error, then a fatal enumeration failure with that one; otherwise
/// the records are classified and combined with the identity and the
/// divergence into the summary.
pub fn summary_decision(
    identity: Result<Option<String>, LookupError>,
    divergence: Divergence,
    enumeration: Result<Vec<StatusFlags>, LookupError>,
) -> (r: Result<StatusSummary, LookupError>)
    ensures
        identity matches Err(e) ==> r == Err::<StatusSummary, LookupError>(e),
        identity is Ok ==> (enumeration matches Err(e) ==> r == Err::<StatusSummary, LookupError>(
            e,
        )),
        identity matches Ok(name) ==> (enumeration matches Ok(records) ==> (r matches Ok(s)
            && s.identity == name
            && s.divergence == divergence.spec_count()
            && s.counts.new == count_in(records@, Category::New)
            && s.counts.modified == count_in(records@, Category::Modified)
            && s.counts.deleted == count_in(records@, Category::Deleted)
            && s.counts.untracked == count_in(records@, Category::Untracked)
            && s.counts.conflicted == count_in(records@, Category::Conflicted))),
{
    let name = match identity {
        Ok(n) => n,
        Err(e) => {
            return Err(e);
        },
    };
    let records = match enumeration {
        Ok(rs) => rs,
        Err(e) => {
            return Err(e);
        },
    };
    let counts = classify(&records);
    Ok(assemble(name, divergence, counts))
}

/// A skipped invocation — the location is not inside any repository, or
/// the repository is bare: no summary and no error, a normal outcome.
pub fn skipped_invocation() -> (r: Result<Option<StatusSummary>, LookupError>)
    ensures
        r == Ok::<Option<StatusSummary>, LookupError>(None),
{
    Ok(None)
}

/// A completed invocation hands the summary, or the fatal failure, through
/// unchanged.
pub fn completed_invocation(inner: Result<StatusSummary, LookupError>) -> (r: Result<
    Option<StatusSummary>,
    LookupError,
>)
    ensures
        inner matches Ok(s) ==> r == Ok::<Option<StatusSummary>, LookupError>(Some(s)),
        inner matches Err(e) ==> r == Err::<Option<StatusSummary>, LookupError>(e),
{
    match inner {
        Ok(s) => Ok(Some(s)),
        Err(e) => Err(e),
    }
}

} // verus!
