//! Diffs between trees and the working directory.
//!
//! A [`Diff`] handle records how to derive its native diff — which kind of
//! comparison, against which tree — together with the repository root each
//! part retains. The native diff is derived anew whenever the records are
//! read, so the working-directory side reflects the state at that moment;
//! merged diffs re-derive each merged part and merge them natively.

use std::rc::Rc;
use vstd::prelude::*;

use crate::deltas::{Deltas, DiffDelta, DiffFile};
use crate::error::{GitError, bare_message};
use crate::native;
use crate::repo::Repository;
use crate::tree::Tree;

verus! {

/// Options for building a diff. Only listed here for compatibility of the
/// surface; the diffs below are built with default native options.
#[derive(Debug)]
pub struct DiffOptions {
    /// When generating output, include the names of unmodified files if they
    /// are included in the `Diff`. Normally these are skipped in the formats
    /// that list files (e.g. name-only, name-status, raw). Even with this
    /// these will not be included in the patch format.
    pub show_unmodified: Option<bool>,
}

/// One derivable part of a diff: a comparison of a tree (or the empty tree)
/// against the working directory, with or without index reconciliation,
/// rooted at its own repository.
pub(crate) struct DiffPart {
    pub(crate) root: Rc<git2::Repository>,
    pub(crate) old_tree_oid: Option<String>,
    pub(crate) with_index: bool,
}

/// A shared-derived handle to a diff: the repository root it retains, plus
/// the parts whose native diffs it derives and merges on each read.
pub struct Diff {
    pub(crate) repo: Rc<git2::Repository>,
    pub(crate) parts: Vec<DiffPart>,
}

impl Diff {
    /// The native root this handle retains.
    pub closed spec fn root(self) -> Rc<git2::Repository> {
        self.repo
    }

    /// How many parts this diff merges.
    pub closed spec fn parts_len(self) -> int {
        self.parts@.len() as int
    }

    fn part_clone(part: &DiffPart) -> DiffPart {
        let old_tree_oid = match &part.old_tree_oid {
            Some(oid) => Some(oid.clone()),
            None => None,
        };
        DiffPart { root: part.root.clone(), old_tree_oid, with_index: part.with_index }
    }

    /// Derive the native diff of one part.
    fn native_part_diff<'r>(part: &'r DiffPart) -> Result<git2::Diff<'r>, String> {
        match &part.old_tree_oid {
            Some(oid_str) => {
                let oid = native::oid_parse(oid_str.as_str())?;
                let tree = native::repo_find_tree(&part.root, oid)?;
                if part.with_index {
                    native::repo_diff_tree_to_workdir_with_index(&part.root, Some(&tree))
                } else {
                    native::repo_diff_tree_to_workdir(&part.root, Some(&tree))
                }
            },
            None => {
                if part.with_index {
                    native::repo_diff_tree_to_workdir_with_index(&part.root, None)
                } else {
                    native::repo_diff_tree_to_workdir(&part.root, None)
                }
            },
        }
    }

    /// Derive every part and natively merge them in order, reporting the
    /// first failure; used to validate a merge now and to build the merged
    /// diff on read.
    fn derive_and_merge_all<'a>(own: &'a Vec<DiffPart>, other: &'a Vec<DiffPart>) -> Result<
        Option<git2::Diff<'a>>,
        String,
    > {
        let mut base: Option<git2::Diff<'a>> = None;
        let mut i: usize = 0;
        while i < own.len()
            decreases own@.len() - i,
        {
            let derived = Self::native_part_diff(&own[i])?;
            base = match base {
                Some(mut merged) => {
                    native::diff_merge(&mut merged, &derived)?;
                    Some(merged)
                },
                None => Some(derived),
            };
            i = i + 1;
        }
        let mut j: usize = 0;
        while j < other.len()
            decreases other@.len() - j,
        {
            let derived = Self::native_part_diff(&other[j])?;
            base = match base {
                Some(mut merged) => {
                    native::diff_merge(&mut merged, &derived)?;
                    Some(merged)
                },
                None => Some(derived),
            };
            j = j + 1;
        }
        Ok(base)
    }

    /// Merge another diff into this one.
    ///
    /// This merges items from the "from" list into this list: the result has
    /// all items that appear in either. If an item appears in both lists,
    /// then it will be "merged" to appear as if the old version was from the
    /// "onto" list and the new version is from the "from" list. The native
    /// merge is performed at once, so an incompatibility is reported here and
    /// leaves this diff unchanged; the merged parts are then re-derived and
    /// merged anew whenever the records are read.
    pub fn merge(&mut self, diff: &Diff) -> (r: Result<(), GitError>)
        ensures
            final(self).root() == old(self).root(),
            r is Ok ==> final(self).parts_len() == old(self).parts_len() + diff.parts_len(),
            r matches Err(e) ==> *final(self) == *old(self) && exists|reason: Seq<char>|
                e@ == bare_message(reason),
    {
        let failed: Option<String> = match Self::derive_and_merge_all(&self.parts, &diff.parts) {
            Ok(_) => None,
            Err(reason) => Some(reason),
        };
        match failed {
            Some(reason) => {
                return Err(GitError::bare(reason.as_str()));
            },
            None => {},
        }
        let ghost orig_len = self.parts@.len() as int;
        let mut i: usize = 0;
        while i < diff.parts.len()
            invariant
                0 <= i <= diff.parts@.len(),
                self.parts@.len() == orig_len + i as int,
                self.repo == old(self).repo,
            decreases diff.parts@.len() - i,
        {
            self.parts.push(Self::part_clone(&diff.parts[i]));
            i = i + 1;
        }
        Ok(())
    }

    /// Returns a cursor over the records in this diff, snapshotted from the
    /// natively derived (and merged) diff as it stands now.
    pub fn deltas(&self) -> (r: Result<Deltas, GitError>)
        ensures
            r matches Ok(d) ==> d.pos() == 0,
            r matches Err(e) ==> exists|reason: Seq<char>| e@ == bare_message(reason),
    {
        let no_more: Vec<DiffPart> = Vec::new();
        let derived = match Self::derive_and_merge_all(&self.parts, &no_more) {
            Ok(derived) => derived,
            Err(reason) => {
                return Err(GitError::bare(reason.as_str()));
            },
        };
        let base = match derived {
            Some(base) => base,
            None => {
                return Ok(Deltas::from_items(Vec::new()));
            },
        };
        let n = native::diff_num_deltas(&base);
        let mut items: Vec<DiffDelta> = Vec::new();
        let mut j: usize = 0;
        while j < n
            decreases n - j,
        {
            match native::diff_get_delta(&base, j) {
                Some(delta) => {
                    items.push(snapshot_delta(&delta));
                },
                None => {},
            }
            j = j + 1;
        }
        Ok(Deltas::from_items(items))
    }

    /// Check if deltas are sorted case sensitively or insensitively, on the
    /// natively derived diff as it stands now.
    pub fn is_sorted_icase(&self) -> (r: Result<bool, GitError>)
        ensures
            r matches Err(e) ==> exists|reason: Seq<char>| e@ == bare_message(reason),
    {
        if self.parts.len() == 0 {
            return Ok(false);
        }
        match Self::native_part_diff(&self.parts[0]) {
            Ok(diff) => Ok(native::diff_is_sorted_icase(&diff)),
            Err(reason) => Err(GitError::bare(reason.as_str())),
        }
    }
}

/// Snapshot one native change record into plain values.
fn snapshot_delta(delta: &git2::DiffDelta<'_>) -> DiffDelta {
    let old = delta_side_old(delta);
    let new = delta_side_new(delta);
    DiffDelta {
        status: native::delta_status(delta),
        flags_bits: native::delta_flags_bits(delta),
        nfiles: native::delta_nfiles(delta),
        old,
        new,
    }
}

fn delta_side_old(delta: &git2::DiffDelta<'_>) -> DiffFile {
    let file = native::delta_old_file(delta);
    snapshot_file(&file)
}

fn delta_side_new(delta: &git2::DiffDelta<'_>) -> DiffFile {
    let file = native::delta_new_file(delta);
    snapshot_file(&file)
}

fn snapshot_file(file: &git2::DiffFile<'_>) -> DiffFile {
    DiffFile {
        id: native::file_id_hex(file),
        path: native::file_path(file),
        size: native::file_size(file),
        binary: native::file_is_binary(file),
        not_binary: native::file_is_not_binary(file),
        valid_id: native::file_is_valid_id(file),
        present: native::file_exists_on_side(file),
        mode: native::file_mode(file),
    }
}

impl Repository {
    /// Create a diff between a tree and the working directory.
    ///
    /// The tree you provide will be used for the "old_file" side of the
    /// delta, and the working directory will be used for the "new_file" side.
    ///
    /// This is not the same as `git diff <treeish>` or `git diff-index
    /// <treeish>`. Those commands use information from the index, whereas
    /// this function strictly returns the differences between the tree and
    /// the files in the working directory, regardless of the state of the
    /// index. Use `diff_tree_to_workdir_with_index` to emulate those
    /// commands.
    ///
    /// To see the difference between this and
    /// `diff_tree_to_workdir_with_index`, consider the example of a staged
    /// file deletion where the file has then been put back into the working
    /// dir and further modified. The tree-to-workdir diff for that file is
    /// 'modified', but `git diff` would show status 'deleted' since there is
    /// a staged delete.
    ///
    /// If `None` is passed for `old_tree`, then an empty tree is used.
    pub fn diff_tree_to_workdir(&self, old_tree: Option<&Tree>) -> (r: Result<Diff, GitError>)
        ensures
            r matches Ok(d) ==> d.root() == self.root(),
    {
        self.workdir_diff(old_tree, false)
    }

    /// Create a diff between a tree and the working directory using index
    /// data to account for staged deletes, tracked files, etc.
    ///
    /// This emulates `git diff <tree>` by diffing the tree to the index and
    /// the index to the working directory and blending the results into a
    /// single diff that includes staged deleted, etc.
    pub fn diff_tree_to_workdir_with_index(&self, old_tree: Option<&Tree>) -> (r: Result<
        Diff,
        GitError,
    >)
        ensures
            r matches Ok(d) ==> d.root() == self.root(),
    {
        self.workdir_diff(old_tree, true)
    }

    fn workdir_diff(&self, old_tree: Option<&Tree>, with_index: bool) -> (r: Result<Diff, GitError>)
        ensures
            r matches Ok(d) ==> d.root() == self.root(),
    {
        let old_tree_oid = match old_tree {
            Some(tree) => Some(tree.id()),
            None => None,
        };
        let part = DiffPart { root: self.clone_root(), old_tree_oid, with_index };
        // Derive once now, so a bad tree id is reported at creation as the
        // native library would report it.
        let failed: Option<String> = match Diff::native_part_diff(&part) {
            Ok(_) => None,
            Err(reason) => Some(reason),
        };
        match failed {
            None => {
                let mut parts: Vec<DiffPart> = Vec::new();
                parts.push(part);
                Ok(Diff { repo: self.clone_root(), parts })
            },
            Some(reason) => Err(GitError::bare(reason.as_str())),
        }
    }
}

} // verus!
