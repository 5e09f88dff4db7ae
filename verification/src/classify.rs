//! The status classifier: folds a repository's changed paths into five
//! aggregate counters. Each path is counted under exactly one category, so
//! the counters never double-count and always sum to the number of paths
//! that carry at least one facet.

use vstd::multiset::Multiset;
use vstd::prelude::*;

use crate::flags::{category_of, categorize, lemma_category_total, Category, StatusFlags};

verus! {

/// The five aggregate counters of a status summary.
#[derive(Clone, Copy, Debug, PartialEq, Eq, Structural)]
pub struct Counts {
    pub new: usize,
    pub modified: usize,
    pub deleted: usize,
    pub untracked: usize,
    pub conflicted: usize,
}

/// How many paths of `s` fall under category `c`.
pub open spec fn count_in(s: Seq<StatusFlags>, c: Category) -> nat
    decreases s.len(),
{
    if s.len() == 0 {
        0
    } else {
        count_in(s.drop_last(), c) + (if category_of(s.last()) == Some(c) {
            1nat
        } else {
            0nat
        })
    }
}

/// The classification is a disjoint partition: when every path carries at
/// least one facet, the five counters sum to exactly the number of paths —
/// none is dropped, none is counted twice.
pub proof fn lemma_partition(s: Seq<StatusFlags>)
    requires
        forall|i: int| 0 <= i < s.len() ==> s[i].has_facet(),
    ensures
        count_in(s, Category::New) + count_in(s, Category::Modified) + count_in(
            s,
            Category::Deleted,
        ) + count_in(s, Category::Untracked) + count_in(s, Category::Conflicted) == s.len(),
    decreases s.len(),
{
    if s.len() > 0 {
        assert(forall|i: int| 0 <= i < s.drop_last().len() ==> s.drop_last()[i] == s[i]);
        lemma_partition(s.drop_last());
        assert(s.last() == s[s.len() - 1]);
        lemma_category_total(s.last());
    }
}

/// Membership in category `c`, as a predicate value.
pub open spec fn in_category(c: Category) -> spec_fn(StatusFlags) -> bool {
    |f: StatusFlags| category_of(f) == Some(c)
}

proof fn lemma_filter_insert(
    m: Multiset<StatusFlags>,
    x: StatusFlags,
    p: spec_fn(StatusFlags) -> bool,
)
    ensures
        m.insert(x).filter(p).len() == m.filter(p).len() + (if p(x) {
            1nat
        } else {
            0nat
        }),
{
    broadcast use vstd::multiset::group_multiset_axioms;

    if p(x) {
        assert(m.insert(x).filter(p) =~= m.filter(p).insert(x));
    } else {
        assert(m.insert(x).filter(p) =~= m.filter(p));
    }
}

/// A category's tally is the size of a multiset filter, so it sees only
/// which facet sets occur and how often, never their order.
pub proof fn lemma_count_in_multiset(s: Seq<StatusFlags>, c: Category)
    ensures
        count_in(s, c) == s.to_multiset().filter(in_category(c)).len(),
    decreases s.len(),
{
    broadcast use vstd::seq_lib::group_to_multiset_ensures;
    broadcast use vstd::multiset::group_multiset_axioms;

    if s.len() == 0 {
        vstd::multiset::lemma_multiset_empty_len(s.to_multiset());
        assert(s.to_multiset().filter(in_category(c)) =~= Multiset::<StatusFlags>::empty());
    } else {
        let s0 = s.drop_last();
        let x = s.last();
        lemma_count_in_multiset(s0, c);
        assert(s0.push(x) =~= s);
        assert(s.to_multiset() =~= s0.to_multiset().insert(x));
        lemma_filter_insert(s0.to_multiset(), x, in_category(c));
    }
}

/// The classifier is order-independent: two change sets holding the same
/// facet sets with the same multiplicities tally the same in every
/// category, whatever order the paths were enumerated in.
pub proof fn lemma_order_independent(s1: Seq<StatusFlags>, s2: Seq<StatusFlags>, c: Category)
    requires
        s1.to_multiset() == s2.to_multiset(),
    ensures
        count_in(s1, c) == count_in(s2, c),
{
    lemma_count_in_multiset(s1, c);
    lemma_count_in_multiset(s2, c);
}

/// An empty change set yields zero in every counter.
pub proof fn lemma_empty_counts(s: Seq<StatusFlags>, c: Category)
    requires
        s.len() == 0,
    ensures
        count_in(s, c) == 0,
{
}

impl Counts {
    /// The total over the four counters that decide cleanliness. The
    /// conflicted counter is deliberately left out: cleanliness is judged
    /// on the other four alone.
    pub open spec fn file_total(self) -> int {
        self.new + self.modified + self.deleted + self.untracked
    }

    /// A change set is rendered as clean when none of the four
    /// cleanliness-deciding counters is positive.
    pub fn is_clean(&self) -> (r: bool)
        ensures
            r <==> self.file_total() == 0,
    {
        self.new == 0 && self.modified == 0 && self.deleted == 0 && self.untracked == 0
    }
}

/// Fold a change set into the five counters: each path is counted under
/// the category `category_of` assigns it, and nowhere else. By
/// `lemma_order_independent`, the result does not depend on the order the
/// paths were enumerated in.
pub fn classify(records: &Vec<StatusFlags>) -> (c: Counts)
    ensures
        c.new == count_in(records@, Category::New),
        c.modified == count_in(records@, Category::Modified),
        c.deleted == count_in(records@, Category::Deleted),
        c.untracked == count_in(records@, Category::Untracked),
        c.conflicted == count_in(records@, Category::Conflicted),
{
    let mut n_new: usize = 0;
    let mut n_modified: usize = 0;
    let mut n_deleted: usize = 0;
    let mut n_untracked: usize = 0;
    let mut n_conflicted: usize = 0;
    let mut i: usize = 0;
    while i < records.len()
        invariant
            i <= records@.len(),
            n_new == count_in(records@.subrange(0, i as int), Category::New),
            n_modified == count_in(records@.subrange(0, i as int), Category::Modified),
            n_deleted == count_in(records@.subrange(0, i as int), Category::Deleted),
            n_untracked == count_in(records@.subrange(0, i as int), Category::Untracked),
            n_conflicted == count_in(records@.subrange(0, i as int), Category::Conflicted),
            n_new <= i,
            n_modified <= i,
            n_deleted <= i,
            n_untracked <= i,
            n_conflicted <= i,
        decreases records@.len() - i,
    {
        proof {
            assert(records@.subrange(0, i + 1).drop_last() =~= records@.subrange(0, i as int));
            assert(records@.subrange(0, i + 1).last() == records@[i as int]);
        }
        match categorize(&records[i]) {
            Some(Category::New) => n_new = n_new + 1,
            Some(Category::Modified) => n_modified = n_modified + 1,
            Some(Category::Deleted) => n_deleted = n_deleted + 1,
            Some(Category::Untracked) => n_untracked = n_untracked + 1,
            Some(Category::Conflicted) => n_conflicted = n_conflicted + 1,
            None => {},
        }
        i = i + 1;
    }
    proof {
        assert(records@.subrange(0, records@.len() as int) =~= records@);
    }
    Counts {
        new: n_new,
        modified: n_modified,
        deleted: n_deleted,
        untracked: n_untracked,
        conflicted: n_conflicted,
    }
}

} // verus!
