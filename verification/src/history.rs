//! The file-history query: the most recent commit that last modified a path.
//!
//! The walk starts at HEAD with the sort flags combined exactly as the query
//! has always combined them — time AND topological, which is the empty flag
//! set, so the walk runs with no ordering requested (see
//! [`crate::rev_walk::lemma_sort_flag_combination`]). For each visited
//! commit, a commit with one parent answers the query when the diff of its
//! tree against its parent's tree, restricted to the path, has at least one
//! record; a root commit answers it when the path exists in its tree; a merge
//! commit never answers it. The answer is the commit's time in milliseconds.

use vstd::prelude::*;
use vstd::string::*;

use crate::error::{GitError, bare_message, expect_not_null};
use crate::native;
use crate::repo::Repository;
use crate::rev_walk::Sort;
use crate::text::{contains_nul_char, has_nul_char};

verus! {

/// Whether a visited commit answers the query, given what the native calls
/// reported of it: its parent count, the number of records in its
/// path-restricted diff against its single parent (meaningful only when it
/// has exactly one), and whether the path exists in its tree (meaningful only
/// when it has none).
pub open spec fn spec_commit_answers(
    parent_count: int,
    path_delta_count: int,
    root_tree_has_path: bool,
) -> bool {
    (parent_count == 1 && path_delta_count > 0) || (parent_count == 0 && root_tree_has_path)
}

/// The decision at the heart of the query, one visited commit at a time; a
/// merge commit (two or more parents) never answers.
pub fn commit_answers(parent_count: usize, path_delta_count: usize, root_tree_has_path: bool) -> (b:
    bool)
    ensures
        b == spec_commit_answers(
            parent_count as int,
            path_delta_count as int,
            root_tree_has_path,
        ),
{
    (parent_count == 1 && path_delta_count > 0) || (parent_count == 0 && root_tree_has_path)
}

/// What the native calls reported of one visited commit whose reads all
/// succeeded: its parent count, the number of records in its path-restricted
/// diff against its single parent (zero unless it has exactly one), whether
/// the path exists in its tree (false unless it is a root commit), and its
/// committer time in seconds (zero unless the commit answers the query, which
/// is when the time is read).
pub struct CommitObservation {
    pub parent_count: int,
    pub path_deltas: int,
    pub root_has_path: bool,
    pub seconds: int,
}

/// Whether an observed commit answers the query.
pub open spec fn observation_answers(o: CommitObservation) -> bool {
    spec_commit_answers(o.parent_count, o.path_deltas, o.root_has_path)
}

/// The commit times whose value in milliseconds fits the result type.
pub open spec fn in_millis_range(seconds: int) -> bool {
    -9223372036854775 <= seconds <= 9223372036854775
}

/// A commit time in milliseconds: exactly a thousand times the seconds, where
/// that fits the result type, and nothing otherwise.
pub fn commit_time_millis(seconds: i64) -> (r: Option<i64>)
    ensures
        match r {
            Some(ms) => in_millis_range(seconds as int) && ms as int == seconds as int * 1000,
            None => !in_millis_range(seconds as int),
        },
{
    if -9223372036854775i64 <= seconds && seconds <= 9223372036854775i64 {
        Some(seconds * 1000)
    } else {
        None
    }
}

/// The message reported when a commit's time cannot be stated in
/// milliseconds.
pub const TIME_RANGE_MESSAGE: &'static str = "commit time out of range";

/// The exact message reported when no commit modifying the path is found.
pub open spec fn no_commit_found_message(path: Seq<char>) -> Seq<char> {
    "Failed to get commit for ["@ + path + "]"@
}

fn no_commit_found_text(path: &str) -> (m: String)
    ensures
        m@ == no_commit_found_message(path@),
{
    let mut message = String::from_str("Failed to get commit for [");
    message.append(path);
    message.append("]");
    proof {
        assert(message@ =~= no_commit_found_message(path@));
    }
    message
}

/// Walk history from HEAD and find the time, in milliseconds, of the most
/// recent commit (in walk order) that last modified the path; nothing when no
/// commit did. Commits the native walk reports an error for, and commits
/// whose trees or diffs cannot be read, are skipped, as the query has always
/// skipped them. A path holding a NUL character cannot name anything in a
/// repository, so nothing is found for one.
///
/// Beside the result comes the log of observations made on the commits the
/// walk yielded, in walk order. The contract ties the answer to the walk:
/// when a time is found, it is the time of the first observed commit the
/// per-commit rule accepts — every earlier observation was rejected — and
/// when none is found, every observed commit was rejected. Which commits the
/// walk yields, and in which order, is the native library's.
pub fn get_file_modified_date(repo: &Repository, filepath: &str) -> (r: (
    Result<Option<i64>, GitError>,
    Ghost<Seq<CommitObservation>>,
))
    ensures
        r.0 matches Ok(Some(ms)) ==> {
            let visited = r.1@;
            &&& visited.len() > 0
            &&& observation_answers(visited.last())
            &&& forall|i: int|
                0 <= i < visited.len() - 1 ==> !observation_answers(#[trigger] visited[i])
            &&& in_millis_range(visited.last().seconds)
            &&& ms as int == visited.last().seconds * 1000
        },
        r.0 matches Ok(None) ==> forall|i: int|
            0 <= i < r.1@.len() ==> !observation_answers(#[trigger] r.1@[i]),
        r.0 matches Ok(Some(ms)) ==> exists|seconds: int|
            in_millis_range(seconds) && ms as int == seconds * 1000,
        r.0 matches Err(e) ==> (exists|reason: Seq<char>| e@ == bare_message(reason)) || e@
            == TIME_RANGE_MESSAGE@,
{
    let ghost mut visited: Seq<CommitObservation> = Seq::empty();
    if contains_nul_char(filepath) {
        return (Ok(None), Ghost(visited));
    }
    let mut walk = match native::repo_revwalk(&repo.inner) {
        Ok(walk) => walk,
        Err(reason) => {
            return (Err(GitError::bare(reason.as_str())), Ghost(visited));
        },
    };
    match native::walk_push_head(&mut walk) {
        Ok(u) => u,
        Err(reason) => {
            return (Err(GitError::bare(reason.as_str())), Ghost(visited));
        },
    }
    // The historical flag combination: time AND topological, the empty set.
    let sort_bits = Sort::Time.bits() & Sort::Topological.bits();
    match native::walk_set_sorting(&mut walk, sort_bits) {
        Ok(u) => u,
        Err(reason) => {
            return (Err(GitError::bare(reason.as_str())), Ghost(visited));
        },
    }
    // The walk yields each commit at most once, so it ends; the counter only
    // states a bound for the verifier.
    let mut steps: usize = 0;
    while steps < usize::MAX
        invariant
            !has_nul_char(filepath@),
            forall|i: int| 0 <= i < visited.len() ==> !observation_answers(#[trigger] visited[i]),
        decreases usize::MAX - steps,
    {
        steps = steps + 1;
        let oid_hex = match native::walk_next(&mut walk) {
            Some(Ok(oid_hex)) => oid_hex,
            Some(Err(_)) => {
                // An entry the walk could not read is skipped, like the
                // entries the per-commit reads below fail on.
                continue ;
            },
            None => {
                return (Ok(None), Ghost(visited));
            },
        };
        let oid = match native::oid_parse(oid_hex.as_str()) {
            Ok(oid) => oid,
            Err(_) => {
                continue ;
            },
        };
        let commit = match native::repo_find_commit(&repo.inner, oid) {
            Ok(commit) => commit,
            Err(_) => {
                continue ;
            },
        };
        let parent_count = native::commit_parent_count(&commit);
        let mut path_delta_count: usize = 0;
        let mut root_tree_has_path = false;
        if parent_count == 1 {
            let tree = match native::commit_tree(&commit) {
                Ok(tree) => tree,
                Err(_) => {
                    continue ;
                },
            };
            let parent_id = match native::commit_parent_id_hex(&commit, 0) {
                Ok(parent_id) => parent_id,
                Err(_) => {
                    continue ;
                },
            };
            let parent_oid = match native::oid_parse(parent_id.as_str()) {
                Ok(parent_oid) => parent_oid,
                Err(_) => {
                    continue ;
                },
            };
            let parent = match native::repo_find_commit(&repo.inner, parent_oid) {
                Ok(parent) => parent,
                Err(_) => {
                    continue ;
                },
            };
            let parent_tree = match native::commit_tree(&parent) {
                Ok(parent_tree) => parent_tree,
                Err(_) => {
                    continue ;
                },
            };
            let diff = match native::repo_diff_tree_to_tree_pathspec(
                &repo.inner,
                &tree,
                &parent_tree,
                filepath,
            ) {
                Ok(diff) => diff,
                Err(_) => {
                    continue ;
                },
            };
            path_delta_count = native::diff_num_deltas(&diff);
        } else if parent_count == 0 {
            let tree = match native::commit_tree(&commit) {
                Ok(tree) => tree,
                Err(_) => {
                    continue ;
                },
            };
            root_tree_has_path = match native::tree_entry_by_path(&tree, filepath) {
                Ok(_) => true,
                Err(_) => false,
            };
        }
        if commit_answers(parent_count, path_delta_count, root_tree_has_path) {
            let seconds = native::commit_time_seconds(&commit);
            proof {
                let ghost answering = CommitObservation {
                    parent_count: parent_count as int,
                    path_deltas: path_delta_count as int,
                    root_has_path: root_tree_has_path,
                    seconds: seconds as int,
                };
                assert forall|i: int|
                    0 <= i < visited.push(answering).len() - 1 implies !observation_answers(
                    #[trigger] visited.push(answering)[i],
                ) by {
                    assert(visited.push(answering)[i] == visited[i]);
                }
                visited = visited.push(answering);
            }
            match commit_time_millis(seconds) {
                Some(ms) => {
                    return (Ok(Some(ms)), Ghost(visited));
                },
                None => {
                    return (
                        Err(GitError::from_message(String::from_str(TIME_RANGE_MESSAGE))),
                        Ghost(visited),
                    );
                },
            }
        } else {
            proof {
                visited = visited.push(
                    CommitObservation {
                        parent_count: parent_count as int,
                        path_deltas: path_delta_count as int,
                        root_has_path: root_tree_has_path,
                        seconds: 0,
                    },
                );
            }
        }
    }
    (Ok(None), Ghost(visited))
}

impl Repository {
    /// The time, in milliseconds, of the most recent commit that last
    /// modified the path, walking history from HEAD.
    ///
    /// When no commit modified the path, fails with exactly the message that
    /// names the path; a native failure while setting the walk up is reported
    /// with the native reason.
    pub fn get_file_latest_modified_date(&self, filepath: String) -> (r: Result<i64, GitError>)
        ensures
            r matches Ok(ms) ==> exists|seconds: int|
                in_millis_range(seconds) && ms as int == seconds * 1000,
            r matches Err(e) ==> (exists|reason: Seq<char>| e@ == bare_message(reason)) || e@
                == TIME_RANGE_MESSAGE@ || e@ == no_commit_found_message(filepath@),
    {
        let (outcome, _visited) = get_file_modified_date(self, filepath.as_str());
        match outcome {
            Ok(found) => expect_not_null(found, no_commit_found_text(filepath.as_str())),
            Err(e) => Err(e),
        }
    }
}

} // verus!
