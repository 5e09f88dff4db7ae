//! Tests of the status classifier and the summary assembler on constructed
//! change sets.

use statusline::classify::{classify, Counts};
use statusline::flags::{categorize, Category, StatusFlags};
use statusline::summary::{assemble, Divergence, DivergenceCount, Segment};

fn no_facets() -> StatusFlags {
    StatusFlags {
        staged_new: false,
        staged_modified: false,
        staged_renamed: false,
        staged_typechanged: false,
        staged_deleted: false,
        worktree_modified: false,
        worktree_typechanged: false,
        worktree_renamed: false,
        worktree_deleted: false,
        worktree_new: false,
        conflicted: false,
    }
}

#[test]
fn partition_sums_to_path_count() {
    let mut records: Vec<StatusFlags> = Vec::new();
    let mut f1 = no_facets();
    f1.staged_new = true;
    let mut f2 = no_facets();
    f2.staged_modified = true;
    f2.worktree_modified = true;
    let mut f3 = no_facets();
    f3.worktree_typechanged = true;
    let mut f4 = no_facets();
    f4.staged_deleted = true;
    f4.worktree_deleted = true;
    let mut f5 = no_facets();
    f5.worktree_new = true;
    let mut f6 = no_facets();
    f6.conflicted = true;
    records.push(f1);
    records.push(f2);
    records.push(f3);
    records.push(f4);
    records.push(f5);
    records.push(f6);
    let c = classify(&records);
    assert_eq!(
        c.new + c.modified + c.deleted + c.untracked + c.conflicted,
        records.len()
    );
    assert_eq!(
        c,
        Counts {
            new: 2,
            modified: 1,
            deleted: 1,
            untracked: 1,
            conflicted: 1
        }
    );
}

#[test]
fn untracked_only_counts_as_untracked() {
    let mut f = no_facets();
    f.worktree_new = true;
    let mut records: Vec<StatusFlags> = Vec::new();
    records.push(f);
    let c = classify(&records);
    assert_eq!(
        c,
        Counts {
            new: 0,
            modified: 0,
            deleted: 0,
            untracked: 1,
            conflicted: 0
        }
    );
}

#[test]
fn staged_precedes_worktree_modification() {
    let mut f = no_facets();
    f.staged_modified = true;
    f.worktree_modified = true;
    let mut records: Vec<StatusFlags> = Vec::new();
    records.push(f);
    let c = classify(&records);
    assert_eq!(c.new, 1);
    assert_eq!(c.modified, 0);
}

#[test]
fn empty_change_set_is_clean() {
    let records: Vec<StatusFlags> = Vec::new();
    let c = classify(&records);
    assert_eq!(
        c,
        Counts {
            new: 0,
            modified: 0,
            deleted: 0,
            untracked: 0,
            conflicted: 0
        }
    );
    let s = assemble(None, Divergence::NoUpstream, c);
    assert!(s.is_clean());
    assert_eq!(s.render_plan(), vec![Segment::Clean]);
}

#[test]
fn category_per_facet_group() {
    let mut renamed = no_facets();
    renamed.staged_renamed = true;
    assert_eq!(categorize(&renamed), Some(Category::New));
    let mut typechanged = no_facets();
    typechanged.worktree_typechanged = true;
    assert_eq!(categorize(&typechanged), Some(Category::Modified));
    let mut staged_del = no_facets();
    staged_del.staged_deleted = true;
    assert_eq!(categorize(&staged_del), Some(Category::Deleted));
    let mut wt_del = no_facets();
    wt_del.worktree_deleted = true;
    assert_eq!(categorize(&wt_del), Some(Category::Deleted));
    let mut confl = no_facets();
    confl.conflicted = true;
    assert_eq!(categorize(&confl), Some(Category::Conflicted));
    assert_eq!(categorize(&no_facets()), None);
}

#[test]
fn conflicts_alone_still_render_clean_marker() {
    let mut f = no_facets();
    f.conflicted = true;
    let mut records: Vec<StatusFlags> = Vec::new();
    records.push(f);
    let c = classify(&records);
    assert_eq!(c.conflicted, 1);
    let s = assemble(None, Divergence::NoUpstream, c);
    assert!(s.is_clean());
    assert_eq!(s.render_plan(), vec![Segment::Clean]);
}

#[test]
fn render_plan_orders_nonzero_counters() {
    let c = Counts {
        new: 1,
        modified: 2,
        deleted: 0,
        untracked: 3,
        conflicted: 4,
    };
    let s = assemble(None, Divergence::Unavailable, c);
    assert!(!s.is_clean());
    assert_eq!(
        s.render_plan(),
        vec![
            Segment::New(1),
            Segment::Modified(2),
            Segment::Untracked(3),
            Segment::Conflicted(4)
        ]
    );
}

#[test]
fn end_to_end_assembled_summary() {
    let mut staged = no_facets();
    staged.staged_new = true;
    let mut modified = no_facets();
    modified.worktree_modified = true;
    let mut untracked = no_facets();
    untracked.worktree_new = true;
    let mut records: Vec<StatusFlags> = Vec::new();
    records.push(staged);
    records.push(modified);
    records.push(untracked);
    let c = classify(&records);
    let s = assemble(
        Some("main".to_string()),
        Divergence::Measured(DivergenceCount { ahead: 2, behind: 1 }),
        c,
    );
    assert_eq!(s.identity, Some("main".to_string()));
    assert_eq!(s.divergence, Some(DivergenceCount { ahead: 2, behind: 1 }));
    assert_eq!(
        s.counts,
        Counts {
            new: 1,
            modified: 1,
            deleted: 0,
            untracked: 1,
            conflicted: 0
        }
    );
}

#[test]
fn classification_ignores_enumeration_order() {
    let mut a = no_facets();
    a.staged_new = true;
    let mut b = no_facets();
    b.worktree_modified = true;
    let mut c = no_facets();
    c.worktree_new = true;
    let mut forward: Vec<StatusFlags> = Vec::new();
    forward.push(a);
    forward.push(b);
    forward.push(c);
    let mut backward: Vec<StatusFlags> = Vec::new();
    backward.push(c);
    backward.push(b);
    backward.push(a);
    assert_eq!(classify(&forward), classify(&backward));
}

#[test]
fn divergence_count_reduction() {
    let d = Divergence::Measured(DivergenceCount { ahead: 5, behind: 7 });
    assert_eq!(d.count(), Some(DivergenceCount { ahead: 5, behind: 7 }));
    assert_eq!(Divergence::NoUpstream.count(), None);
    assert_eq!(Divergence::Unavailable.count(), None);
}
