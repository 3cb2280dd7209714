//! Revision walking: an ordered traversal of the commit graph.

use vstd::prelude::*;

use crate::error::{GitError, bare_message, contextual_message};
use crate::native;
use crate::repo::Repository;

verus! {

/// Orderings that may be specified for a revision walk. Each ordering is one
/// independent bit; the native library combines them by bitwise OR.
#[derive(Clone, Copy, PartialEq, Eq, Structural, Debug)]
pub enum Sort {
    /// Sort the repository contents in no particular ordering.
    ///
    /// This sorting is arbitrary, implementation-specific, and subject to
    /// change at any time. This is the default sorting for new walkers.
    Unsorted,
    /// Sort the repository contents in topological order (children before
    /// parents).
    ///
    /// This sorting mode can be combined with time sorting.
    Topological,
    /// Sort the repository contents by commit time.
    ///
    /// This sorting mode can be combined with topological sorting.
    Time,
    /// Iterate through the repository contents in reverse order.
    ///
    /// This sorting mode can be combined with any others.
    Reverse,
}

impl Sort {
    /// The flag bit of this ordering, as the native library defines it.
    pub open spec fn spec_bits(self) -> u32 {
        match self {
            Sort::Unsorted => 0u32,
            Sort::Topological => 1u32,
            Sort::Time => 2u32,
            Sort::Reverse => 4u32,
        }
    }

    /// The flag bit of this ordering, as the native library defines it.
    pub fn bits(self) -> (b: u32)
        ensures
            b == self.spec_bits(),
    {
        match self {
            Sort::Unsorted => 0u32,
            Sort::Topological => 1u32,
            Sort::Time => 2u32,
            Sort::Reverse => 4u32,
        }
    }
}

/// The time and topological orderings are distinct single bits. Combining
/// them with bitwise AND therefore yields the empty flag set — the same bits
/// as requesting no ordering at all — while combining them with bitwise OR
/// requests both orderings together. The file-history query inherits the AND
/// combination, so its walk runs with no ordering requested.
pub proof fn lemma_sort_flag_combination()
    ensures
        Sort::Time.spec_bits() & Sort::Topological.spec_bits() == Sort::Unsorted.spec_bits(),
        Sort::Time.spec_bits() | Sort::Topological.spec_bits() == 3u32,
{
    assert(2u32 & 1u32 == 0u32) by (bit_vector);
    assert(2u32 | 1u32 == 3u32) by (bit_vector);
}

/// A stateful, single-direction cursor over the commit graph, borrowed from
/// the repository handle it walks.
pub struct RevWalk<'r> {
    walk: git2::Revwalk<'r>,
}

impl Repository {
    /// Create a revwalk that can be used to traverse the commit graph.
    pub fn rev_walk<'r>(&'r self) -> (r: Result<RevWalk<'r>, GitError>)
        ensures
            r matches Err(e) ==> exists|reason: Seq<char>| e@ == bare_message(reason),
    {
        match native::repo_revwalk(&self.inner) {
            Ok(walk) => Ok(RevWalk { walk }),
            Err(reason) => Err(GitError::bare(reason.as_str())),
        }
    }
}

impl<'r> RevWalk<'r> {
    /// The next commit id of the walk, as the full forty hex digits.
    ///
    /// An error during iteration is treated as the end of the sequence:
    /// callers cannot tell a finished walk from one stopped by an error. The
    /// walk is not restartable; push new roots to traverse again.
    pub fn next(&mut self) -> (r: Option<String>)
        ensures
            r matches Some(oid) ==> oid@.len() == 40,
    {
        match native::walk_next(&mut self.walk) {
            Some(Ok(oid)) => Some(oid),
            Some(Err(_)) => None,
            None => None,
        }
    }

    /// Reset a revwalk to allow re-configuring it.
    ///
    /// The revwalk is automatically reset when iteration of its commits
    /// completes.
    pub fn reset(&mut self) -> (r: Result<(), GitError>)
        ensures
            r matches Err(e) ==> exists|reason: Seq<char>| e@ == bare_message(reason),
    {
        match native::walk_reset(&mut self.walk) {
            Ok(u) => Ok(u),
            Err(reason) => Err(GitError::bare(reason.as_str())),
        }
    }

    /// Set the sorting mode for a revwalk.
    pub fn set_sorting(&mut self, sorting: Sort) -> (r: Result<(), GitError>)
        ensures
            r matches Err(e) ==> exists|reason: Seq<char>| e@ == bare_message(reason),
    {
        match native::walk_set_sorting(&mut self.walk, sorting.bits()) {
            Ok(u) => Ok(u),
            Err(reason) => Err(GitError::bare(reason.as_str())),
        }
    }

    /// Simplify the history by first-parent.
    ///
    /// No parents other than the first for each commit will be enqueued.
    pub fn simplify_first_parent(&mut self) -> (r: Result<(), GitError>)
        ensures
            r matches Err(e) ==> exists|reason: Seq<char>| e@ == bare_message(reason),
    {
        match native::walk_simplify_first_parent(&mut self.walk) {
            Ok(u) => Ok(u),
            Err(reason) => Err(GitError::bare(reason.as_str())),
        }
    }

    /// Mark a commit to start traversal from.
    ///
    /// The given id must belong to a commitish on the walked repository.
    ///
    /// The given commit will be used as one of the roots when starting the
    /// revision walk. At least one commit must be pushed onto the walker
    /// before a walk can be started.
    pub fn push(&mut self, oid: String) -> (r: Result<(), GitError>)
        ensures
            r matches Err(e) ==> (exists|reason: Seq<char>|
                e@ == contextual_message("Invalid oid"@, reason)) || (exists|reason: Seq<char>|
                e@ == bare_message(reason)),
    {
        let parsed = match native::oid_parse(oid.as_str()) {
            Ok(p) => p,
            Err(reason) => {
                return Err(GitError::contextual("Invalid oid", reason.as_str()));
            },
        };
        match native::walk_push(&mut self.walk, parsed) {
            Ok(u) => Ok(u),
            Err(reason) => Err(GitError::bare(reason.as_str())),
        }
    }

    /// Push the repository's HEAD.
    ///
    /// For more information, see `push`.
    pub fn push_head(&mut self) -> (r: Result<(), GitError>)
        ensures
            r matches Err(e) ==> exists|reason: Seq<char>| e@ == bare_message(reason),
    {
        match native::walk_push_head(&mut self.walk) {
            Ok(u) => Ok(u),
            Err(reason) => Err(GitError::bare(reason.as_str())),
        }
    }

    /// Push matching references.
    ///
    /// The ids pointed to by the references that match the given glob pattern
    /// will be pushed to the revision walker.
    ///
    /// A leading 'refs/' is implied if not present, as well as a trailing
    /// '/\*' if the glob lacks '?', '\*' or '['.
    ///
    /// Any references matching this glob which do not point to a commitish
    /// will be ignored.
    pub fn push_glob(&mut self, glob: String) -> (r: Result<(), GitError>)
        ensures
            r matches Err(e) ==> exists|reason: Seq<char>| e@ == bare_message(reason),
    {
        match native::walk_push_glob(&mut self.walk, glob.as_str()) {
            Ok(u) => Ok(u),
            Err(reason) => Err(GitError::bare(reason.as_str())),
        }
    }

    /// Push and hide the respective endpoints of the given range.
    ///
    /// The range should be of the form `<commit>..<commit>` where each
    /// `<commit>` is in the form accepted by `revparse_single`. The left-hand
    /// commit will be hidden and the right-hand commit pushed.
    pub fn push_range(&mut self, range: String) -> (r: Result<(), GitError>)
        ensures
            r matches Err(e) ==> exists|reason: Seq<char>| e@ == bare_message(reason),
    {
        match native::walk_push_range(&mut self.walk, range.as_str()) {
            Ok(u) => Ok(u),
            Err(reason) => Err(GitError::bare(reason.as_str())),
        }
    }

    /// Push the id pointed to by a reference.
    ///
    /// The reference must point to a commitish.
    pub fn push_ref(&mut self, reference: String) -> (r: Result<(), GitError>)
        ensures
            r matches Err(e) ==> exists|reason: Seq<char>| e@ == bare_message(reason),
    {
        match native::walk_push_ref(&mut self.walk, reference.as_str()) {
            Ok(u) => Ok(u),
            Err(reason) => Err(GitError::bare(reason.as_str())),
        }
    }

    /// Mark a commit (and its ancestors) as not of interest to this revwalk.
    pub fn hide_commit(&mut self, oid: String) -> (r: Result<(), GitError>)
        ensures
            r matches Err(e) ==> (exists|reason: Seq<char>|
                e@ == contextual_message("Invalid oid"@, reason)) || (exists|reason: Seq<char>|
                e@ == bare_message(reason)),
    {
        let parsed = match native::oid_parse(oid.as_str()) {
            Ok(p) => p,
            Err(reason) => {
                return Err(GitError::contextual("Invalid oid", reason.as_str()));
            },
        };
        match native::walk_hide(&mut self.walk, parsed) {
            Ok(u) => Ok(u),
            Err(reason) => Err(GitError::bare(reason.as_str())),
        }
    }

    /// Hide the repository's HEAD.
    ///
    /// For more information, see `hide`.
    pub fn hide_head(&mut self) -> (r: Result<(), GitError>)
        ensures
            r matches Err(e) ==> exists|reason: Seq<char>| e@ == bare_message(reason),
    {
        match native::walk_hide_head(&mut self.walk) {
            Ok(u) => Ok(u),
            Err(reason) => Err(GitError::bare(reason.as_str())),
        }
    }

    /// Hide matching references.
    ///
    /// The ids pointed to by the references that match the given glob pattern
    /// and their ancestors will be hidden from the output on the revision
    /// walk.
    ///
    /// A leading 'refs/' is implied if not present, as well as a trailing
    /// '/\*' if the glob lacks '?', '\*' or '['.
    ///
    /// Any references matching this glob which do not point to a commitish
    /// will be ignored.
    pub fn hide_glob(&mut self, glob: String) -> (r: Result<(), GitError>)
        ensures
            r matches Err(e) ==> exists|reason: Seq<char>| e@ == bare_message(reason),
    {
        match native::walk_hide_glob(&mut self.walk, glob.as_str()) {
            Ok(u) => Ok(u),
            Err(reason) => Err(GitError::bare(reason.as_str())),
        }
    }

    /// Hide the id pointed to by a reference.
    ///
    /// The reference must point to a commitish.
    pub fn hide_ref(&mut self, reference: String) -> (r: Result<(), GitError>)
        ensures
            r matches Err(e) ==> exists|reason: Seq<char>| e@ == bare_message(reason),
    {
        match native::walk_hide_ref(&mut self.walk, reference.as_str()) {
            Ok(u) => Ok(u),
            Err(reason) => Err(GitError::bare(reason.as_str())),
        }
    }
}

} // verus!
