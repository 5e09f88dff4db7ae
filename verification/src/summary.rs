//! The summary assembler: combines the branch identity, the upstream
//! divergence and the file-status counters into the one structured result
//! a renderer consumes, and fixes the ordering contract of that result.

use vstd::prelude::*;

use crate::classify::Counts;

verus! {

/// How far the local branch has diverged from its upstream: `ahead` commits
/// reachable only from the local tip, `behind` commits reachable only from
/// the upstream tip.
#[derive(Clone, Copy, Debug, PartialEq, Eq, Structural)]
pub struct DivergenceCount {
    pub ahead: usize,
    pub behind: usize,
}

/// The outcome of divergence resolution. `NoUpstream` (an unborn or detached
/// head, no configured upstream, or an unresolvable tip) and `Unavailable`
/// (a lower-level lookup failed and was absorbed) both render as "no
/// divergence data", but stay distinguishable inside the library.
#[derive(Clone, Copy, Debug, PartialEq, Eq, Structural)]
pub enum Divergence {
    Measured(DivergenceCount),
    NoUpstream,
    Unavailable,
}

impl Divergence {
    /// The externally visible form: counts when measured, absent otherwise.
    pub open spec fn spec_count(self) -> Option<DivergenceCount> {
        match self {
            Divergence::Measured(d) => Some(d),
            Divergence::NoUpstream => None,
            Divergence::Unavailable => None,
        }
    }

    pub fn count(&self) -> (r: Option<DivergenceCount>)
        ensures
            r == self.spec_count(),
    {
        match self {
            Divergence::Measured(d) => Some(*d),
            Divergence::NoUpstream => None,
            Divergence::Unavailable => None,
        }
    }
}

/// The aggregate result of one invocation: the sole output of the library.
#[derive(Clone, Debug, PartialEq, Eq)]
pub struct StatusSummary {
    /// Short display name of the checked-out branch; absent when the head
    /// is unborn or detached.
    pub identity: Option<String>,
    /// Ahead/behind counts against the configured upstream; absent when
    /// there is no upstream or the lookup failed.
    pub divergence: Option<DivergenceCount>,
    /// The five file-status counters.
    pub counts: Counts,
}

/// One element of the rendered file-status portion, in render order.
#[derive(Clone, Copy, Debug, PartialEq, Eq, Structural)]
pub enum Segment {
    Clean,
    New(usize),
    Modified(usize),
    Deleted(usize),
    Untracked(usize),
    Conflicted(usize),
}

/// The ordering contract the assembler guarantees to the renderer: a single
/// clean marker when the four cleanliness-deciding counters are all zero
/// (whatever the conflicted counter holds), otherwise one segment per
/// nonzero counter, in the fixed order new, modified, deleted, untracked,
/// conflicted.
pub open spec fn plan_of(c: Counts) -> Seq<Segment> {
    if c.file_total() == 0 {
        seq![Segment::Clean]
    } else {
        (if c.new > 0 {
            seq![Segment::New(c.new)]
        } else {
            Seq::empty()
        }) + (if c.modified > 0 {
            seq![Segment::Modified(c.modified)]
        } else {
            Seq::empty()
        }) + (if c.deleted > 0 {
            seq![Segment::Deleted(c.deleted)]
        } else {
            Seq::empty()
        }) + (if c.untracked > 0 {
            seq![Segment::Untracked(c.untracked)]
        } else {
            Seq::empty()
        }) + (if c.conflicted > 0 {
            seq![Segment::Conflicted(c.conflicted)]
        } else {
            Seq::empty()
        })
    }
}

/// A change set whose new, modified, deleted and untracked counters are all
/// zero renders as the single clean marker, whatever the conflicted counter
/// holds.
pub proof fn lemma_clean_marker(c: Counts)
    requires
        c.file_total() == 0,
    ensures
        plan_of(c) == seq![Segment::Clean],
{
}

/// Combine the three resolvers' results into the summary. Pure aggregation:
/// the identity and counters are taken over unchanged, and the divergence
/// is reduced to its externally visible optional form.
pub fn assemble(identity: Option<String>, divergence: Divergence, counts: Counts) -> (s:
    StatusSummary)
    ensures
        s.identity == identity,
        s.divergence == divergence.spec_count(),
        s.counts == counts,
{
    StatusSummary { identity, divergence: divergence.count(), counts }
}

impl StatusSummary {
    /// True exactly when the file-status portion renders as the clean marker.
    pub fn is_clean(&self) -> (r: bool)
        ensures
            r <==> self.counts.file_total() == 0,
    {
        self.counts.is_clean()
    }

    /// The ordered file-status segments for the renderer, exactly as
    /// `plan_of` lays them out.
    pub fn render_plan(&self) -> (r: Vec<Segment>)
        ensures
            r@ == plan_of(self.counts),
    {
        let mut r: Vec<Segment> = Vec::new();
        if self.counts.is_clean() {
            r.push(Segment::Clean);
        } else {
            if self.counts.new > 0 {
                r.push(Segment::New(self.counts.new));
            }
            if self.counts.modified > 0 {
                r.push(Segment::Modified(self.counts.modified));
            }
            if self.counts.deleted > 0 {
                r.push(Segment::Deleted(self.counts.deleted));
            }
            if self.counts.untracked > 0 {
                r.push(Segment::Untracked(self.counts.untracked));
            }
            if self.counts.conflicted > 0 {
                r.push(Segment::Conflicted(self.counts.conflicted));
            }
        }
        proof {
            assert(r@ =~= plan_of(self.counts));
        }
        r
    }
}

} // verus!
