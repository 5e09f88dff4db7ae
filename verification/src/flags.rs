//! Per-path change facets and their classification into a single category.
//!
//! A changed path carries a set of independent boolean facets (staged-side,
//! worktree-side, conflicted). The classifier maps each facet set to exactly
//! one category by a fixed precedence: staged changes first, then worktree
//! modifications, then deletions, then untracked files, then conflicts.

use vstd::prelude::*;

verus! {

/// The facets a single changed path may carry. A path may carry several
/// facets at once (for example staged-modified and worktree-modified).
#[derive(Clone, Copy, Debug, PartialEq, Eq, Structural)]
pub struct StatusFlags {
    pub staged_new: bool,
    pub staged_modified: bool,
    pub staged_renamed: bool,
    pub staged_typechanged: bool,
    pub staged_deleted: bool,
    pub worktree_modified: bool,
    pub worktree_typechanged: bool,
    pub worktree_renamed: bool,
    pub worktree_deleted: bool,
    pub worktree_new: bool,
    pub conflicted: bool,
}

/// The five disjoint categories a changed path is counted under.
#[derive(Clone, Copy, Debug, PartialEq, Eq, Structural)]
pub enum Category {
    New,
    Modified,
    Deleted,
    Untracked,
    Conflicted,
}

impl StatusFlags {
    /// A path with no facet at all carries no information and is counted
    /// under no category.
    pub open spec fn has_facet(self) -> bool {
        self.staged_new || self.staged_modified || self.staged_renamed
            || self.staged_typechanged || self.staged_deleted
            || self.worktree_modified || self.worktree_typechanged
            || self.worktree_renamed || self.worktree_deleted
            || self.worktree_new || self.conflicted
    }

    pub fn new(
        staged_new: bool,
        staged_modified: bool,
        staged_renamed: bool,
        staged_typechanged: bool,
        staged_deleted: bool,
        worktree_modified: bool,
        worktree_typechanged: bool,
        worktree_renamed: bool,
        worktree_deleted: bool,
        worktree_new: bool,
        conflicted: bool,
    ) -> (r: StatusFlags)
        ensures
            r == (StatusFlags {
                staged_new,
                staged_modified,
                staged_renamed,
                staged_typechanged,
                staged_deleted,
                worktree_modified,
                worktree_typechanged,
                worktree_renamed,
                worktree_deleted,
                worktree_new,
                conflicted,
            }),
    {
        StatusFlags {
            staged_new,
            staged_modified,
            staged_renamed,
            staged_typechanged,
            staged_deleted,
            worktree_modified,
            worktree_typechanged,
            worktree_renamed,
            worktree_deleted,
            worktree_new,
            conflicted,
        }
    }

}

/// The classification precedence: the first matching group wins, so each
/// path is counted exactly once even though its facets overlap. Staged
/// (index-side) changes take precedence over worktree ones; the conflicted
/// facet is checked last, as its own category.
pub open spec fn category_of(f: StatusFlags) -> Option<Category> {
    if f.staged_new || f.staged_modified || f.staged_renamed || f.staged_typechanged {
        Some(Category::New)
    } else if f.worktree_modified || f.worktree_typechanged || f.worktree_renamed {
        Some(Category::Modified)
    } else if f.staged_deleted || f.worktree_deleted {
        Some(Category::Deleted)
    } else if f.worktree_new {
        Some(Category::Untracked)
    } else if f.conflicted {
        Some(Category::Conflicted)
    } else {
        None
    }
}

/// Classify one changed path.
pub fn categorize(f: &StatusFlags) -> (r: Option<Category>)
    ensures
        r == category_of(*f),
{
    if f.staged_new || f.staged_modified || f.staged_renamed || f.staged_typechanged {
        Some(Category::New)
    } else if f.worktree_modified || f.worktree_typechanged || f.worktree_renamed {
        Some(Category::Modified)
    } else if f.staged_deleted || f.worktree_deleted {
        Some(Category::Deleted)
    } else if f.worktree_new {
        Some(Category::Untracked)
    } else if f.conflicted {
        Some(Category::Conflicted)
    } else {
        None
    }
}

/// A path falls under some category exactly when it carries some facet.
pub proof fn lemma_category_total(f: StatusFlags)
    ensures
        category_of(f) is Some <==> f.has_facet(),
{
}

/// A path whose only facet is worktree-new is counted as untracked,
/// never under any other category.
pub proof fn lemma_untracked_only(f: StatusFlags)
    requires
        f.worktree_new,
        !f.staged_new,
        !f.staged_modified,
        !f.staged_renamed,
        !f.staged_typechanged,
        !f.staged_deleted,
        !f.worktree_modified,
        !f.worktree_typechanged,
        !f.worktree_renamed,
        !f.worktree_deleted,
        !f.conflicted,
    ensures
        category_of(f) == Some(Category::Untracked),
{
}

/// Index-side precedence: a path that is both staged-modified and
/// worktree-modified is counted as new, not as modified.
pub proof fn lemma_staged_precedence(f: StatusFlags)
    requires
        f.staged_modified,
        f.worktree_modified,
    ensures
        category_of(f) == Some(Category::New),
{
}

} // verus!
