//! The owned-root repository handle.
//!
//! A [`Repository`] owns the native repository through a strong reference.
//! Every derived handle (commit, tree, reference, tag, object, diff, remote)
//! keeps its own strong reference to the same root, so the native repository
//! stays alive exactly as long as any handle derived from it is reachable,
//! and outliving the handle it was derived from is harmless.

use std::rc::Rc;
use vstd::prelude::*;
use vstd::string::*;

use crate::error::{GitError, bare_message, contextual_message};
use crate::native;

verus! {

/// A listing of the states in which a repository can be due to an ongoing
/// operation.
#[derive(Clone, Copy, PartialEq, Eq, Structural, Debug)]
pub enum RepositoryState {
    Clean,
    Merge,
    Revert,
    RevertSequence,
    CherryPick,
    CherryPickSequence,
    Bisect,
    Rebase,
    RebaseInteractive,
    RebaseMerge,
    ApplyMailbox,
    ApplyMailboxOrRebase,
}

/// Options controlling how a repository is searched for and opened.
#[derive(Clone, Copy, PartialEq, Eq, Structural, Debug)]
pub enum RepositoryOpenFlags {
    /// Only open the specified path; don't walk upward searching.
    NoSearch,
    /// Search across filesystem boundaries.
    CrossFS,
    /// Force opening as bare repository, and defer loading its config.
    Bare,
    /// Don't try appending `/.git` to the specified repository path.
    NoDotGit,
    /// Respect environment variables like `$GIT_DIR`.
    FromEnv,
}

/// An owned-root handle to an opened repository.
pub struct Repository {
    pub(crate) inner: Rc<git2::Repository>,
}

impl Repository {
    /// The native root this handle retains. Two handles with equal roots
    /// stand for the same opened repository instance.
    pub closed spec fn root(self) -> Rc<git2::Repository> {
        self.inner
    }

    /// A fresh strong reference to this handle's own root: the primitive from
    /// which every derived handle gets its retention.
    pub fn share(&self) -> (r: Repository)
        ensures
            r.root() == self.root(),
    {
        Repository { inner: self.inner.clone() }
    }

    pub(crate) fn from_native(native: git2::Repository) -> Repository {
        Repository { inner: Rc::new(native) }
    }

    /// A fresh strong reference to the root, for building derived handles.
    pub(crate) fn clone_root(&self) -> (rc: Rc<git2::Repository>)
        ensures
            rc == self.root(),
    {
        self.inner.clone()
    }

    /// Create a new repository in the specified folder.
    ///
    /// On failure the error names the path and carries the native reason.
    pub fn init(p: String) -> (r: Result<Repository, GitError>)
        ensures
            r matches Err(e) ==> exists|reason: Seq<char>|
                e@ == open_failed_message(p@, reason),
    {
        match native::repo_init(p.as_str()) {
            Ok(native) => Ok(Repository::from_native(native)),
            Err(reason) => Err(open_failed_error(p.as_str(), reason.as_str())),
        }
    }

    /// Find and open an existing repository, with additional options.
    ///
    /// Unless `NoSearch` is given, the path may point to a subdirectory of a
    /// repository and the search walks up through parent directories,
    /// stopping before entering any of `ceiling_dirs`.
    pub fn open_ext(path: String, flags: RepositoryOpenFlags, ceiling_dirs: Vec<String>) -> (r:
        Result<Repository, GitError>)
        ensures
            r matches Err(e) ==> exists|reason: Seq<char>|
                e@ == contextual_message("Failed to open git repo"@, reason),
    {
        match native::repo_open_ext(path.as_str(), &flags, &ceiling_dirs) {
            Ok(native) => Ok(Repository::from_native(native)),
            Err(reason) => Err(GitError::contextual("Failed to open git repo", reason.as_str())),
        }
    }

    /// Attempt to open an already-existing repository at or above `path`.
    ///
    /// This starts at `path` and looks up the filesystem hierarchy until it
    /// finds a repository.
    pub fn discover(path: String) -> (r: Result<Repository, GitError>)
        ensures
            r matches Err(e) ==> exists|reason: Seq<char>|
                e@ == discover_failed_message(path@, reason),
    {
        match native::repo_discover(path.as_str()) {
            Ok(native) => Ok(Repository::from_native(native)),
            Err(reason) => {
                let mut context = String::from_str("Discover git repo from [");
                context.append(path.as_str());
                context.append("] failed");
                let e = GitError::contextual(context.as_str(), reason.as_str());
                proof {
                    assert(e@ =~= discover_failed_message(path@, reason@));
                }
                Err(e)
            },
        }
    }

    /// Creates a new bare repository in the specified folder.
    ///
    /// The folder must exist prior to invoking this function.
    pub fn init_bare(path: String) -> (r: Result<Repository, GitError>)
        ensures
            r matches Err(e) ==> exists|reason: Seq<char>|
                e@ == contextual_message("Failed to init bare repo"@, reason),
    {
        match native::repo_init_bare(path.as_str()) {
            Ok(native) => Ok(Repository::from_native(native)),
            Err(reason) => Err(GitError::contextual("Failed to init bare repo", reason.as_str())),
        }
    }

    /// Clone a remote repository.
    ///
    /// See the `RepoBuilder` struct for more information. This function
    /// delegates to a fresh clone with default options.
    pub fn clone(url: String, path: String) -> (r: Result<Repository, GitError>)
        ensures
            r matches Err(e) ==> exists|reason: Seq<char>|
                e@ == contextual_message("Failed to clone repo"@, reason),
    {
        match native::repo_clone(url.as_str(), path.as_str()) {
            Ok(native) => Ok(Repository::from_native(native)),
            Err(reason) => Err(GitError::contextual("Failed to clone repo", reason.as_str())),
        }
    }

    /// Clone a remote repository, initialize and update its submodules
    /// recursively.
    pub fn clone_recurse(url: String, path: String) -> (r: Result<Repository, GitError>)
        ensures
            r matches Err(e) ==> exists|reason: Seq<char>|
                e@ == contextual_message("Failed to clone repo recursively"@, reason),
    {
        match native::repo_clone_recurse(url.as_str(), path.as_str()) {
            Ok(native) => Ok(Repository::from_native(native)),
            Err(reason) => Err(
                GitError::contextual("Failed to clone repo recursively", reason.as_str()),
            ),
        }
    }

    /// Attempt to open an already-existing repository at `path`.
    ///
    /// The path can point to either a normal or bare repository.
    pub fn new(git_dir: String) -> (r: Result<Repository, GitError>)
        ensures
            r matches Err(e) ==> exists|reason: Seq<char>|
                e@ == open_failed_message(git_dir@, reason),
    {
        match native::repo_open(git_dir.as_str()) {
            Ok(native) => Ok(Repository::from_native(native)),
            Err(reason) => Err(open_failed_error(git_dir.as_str(), reason.as_str())),
        }
    }

    /// Tests whether this repository is a shallow clone.
    pub fn is_shallow(&self) -> bool {
        native::repo_is_shallow(&self.inner)
    }

    /// Tests whether this repository is empty.
    pub fn is_empty(&self) -> (r: Result<bool, GitError>)
        ensures
            r matches Err(e) ==> exists|reason: Seq<char>| e@ == bare_message(reason),
    {
        match native::repo_is_empty(&self.inner) {
            Ok(b) => Ok(b),
            Err(reason) => Err(GitError::bare(reason.as_str())),
        }
    }

    /// Tests whether this repository is a worktree.
    pub fn is_worktree(&self) -> bool {
        native::repo_is_worktree(&self.inner)
    }

    /// Returns the path to the `.git` folder for normal repositories or the
    /// repository itself for bare repositories.
    pub fn path(&self) -> String {
        native::repo_path(&self.inner)
    }

    /// Returns the current state of this repository.
    pub fn state(&self) -> RepositoryState {
        native::repo_state(&self.inner)
    }

    /// Get the path of the working directory for this repository.
    ///
    /// If this repository is bare, then `None` is returned.
    pub fn workdir(&self) -> Option<String> {
        native::repo_workdir(&self.inner)
    }

    /// Set the path to the working directory for this repository.
    ///
    /// If `update_gitlink` is true, create/update the gitlink file in the
    /// workdir and set config "core.worktree" (if workdir is not the parent
    /// of the `.git` directory).
    pub fn set_workdir(&self, path: String, update_gitlink: bool) -> (r: Result<(), GitError>)
        ensures
            r matches Err(e) ==> exists|reason: Seq<char>| e@ == bare_message(reason),
    {
        match native::repo_set_workdir(&self.inner, path.as_str(), update_gitlink) {
            Ok(u) => Ok(u),
            Err(reason) => Err(GitError::bare(reason.as_str())),
        }
    }

    /// Get the currently active namespace for this repository.
    ///
    /// If there is no namespace, or the namespace is not valid text, `None`
    /// is returned.
    pub fn namespace(&self) -> Option<String> {
        native::repo_namespace(&self.inner)
    }

    /// Set the active namespace for this repository.
    pub fn set_namespace(&self, namespace: String) -> (r: Result<(), GitError>)
        ensures
            r matches Err(e) ==> exists|reason: Seq<char>| e@ == bare_message(reason),
    {
        match native::repo_set_namespace(&self.inner, namespace.as_str()) {
            Ok(u) => Ok(u),
            Err(reason) => Err(GitError::bare(reason.as_str())),
        }
    }

    /// Remove the active namespace for this repository.
    pub fn remove_namespace(&self) -> (r: Result<(), GitError>)
        ensures
            r matches Err(e) ==> exists|reason: Seq<char>| e@ == bare_message(reason),
    {
        match native::repo_remove_namespace(&self.inner) {
            Ok(u) => Ok(u),
            Err(reason) => Err(GitError::bare(reason.as_str())),
        }
    }

    // Reading the merge message back is the host layer's job: the native
    // binding insists the stored text is valid and aborts the process when
    // `.git/MERGE_MSG` holds anything else, and a condition on the disk
    // cannot stand in a contract here. The host layer reads the file as
    // bytes and screens them itself.
    /// Remove the Git merge message.
    pub fn remove_message(&self) -> (r: Result<(), GitError>)
        ensures
            r matches Err(e) ==> exists|reason: Seq<char>|
                e@ == contextual_message("Remove the Git merge message failed"@, reason),
    {
        match native::repo_remove_message(&self.inner) {
            Ok(u) => Ok(u),
            Err(reason) => Err(
                GitError::contextual("Remove the Git merge message failed", reason.as_str()),
            ),
        }
    }

    /// List all remotes for a given repository: the names that are valid
    /// text, in the native library's order.
    pub fn remotes(&self) -> (r: Result<Vec<String>, GitError>)
        ensures
            r matches Err(e) ==> exists|reason: Seq<char>|
                e@ == contextual_message("Fetch remotes failed"@, reason),
    {
        match native::repo_remote_names(&self.inner) {
            Ok(names) => Ok(flatten_names(names)),
            Err(reason) => Err(GitError::contextual("Fetch remotes failed", reason.as_str())),
        }
    }
}

/// Keep, in order, the entries of `names` that are present.
pub(crate) fn flatten_names(names: Vec<Option<String>>) -> (r: Vec<String>)
    ensures
        r@.map_values(|s: String| Some(s)) == names@.filter(|n: Option<String>| n is Some),
{
    let ghost all = names@;
    let mut out: Vec<String> = Vec::new();
    let mut i: usize = 0;
    proof {
        assert(all.take(0int).filter(|n: Option<String>| n is Some)
            =~= Seq::<Option<String>>::empty());
    }
    for i in 0..names.len()
        invariant
            all == names@,
            out@.map_values(|s: String| Some(s)) == all.take(i as int).filter(
                |n: Option<String>| n is Some,
            ),
    {
        proof {
            assert(all.take(i + 1int).drop_last() =~= all.take(i as int));
            reveal_with_fuel(Seq::filter, 2);
        }
        match &names[i] {
            Some(name) => {
                out.push(name.clone());
                proof {
                    assert(out@.map_values(|s: String| Some(s)) =~= all.take(i + 1int).filter(
                        |n: Option<String>| n is Some,
                    ));
                }
            },
            None => {
                proof {
                    assert(out@.map_values(|s: String| Some(s)) =~= all.take(i + 1int).filter(
                        |n: Option<String>| n is Some,
                    ));
                }
            },
        }
    }
    proof {
        assert(all.take(names@.len() as int) =~= all);
    }
    out
}

/// The retention law of the ownership bridge: derivation always flows from an
/// owned root toward a leaf, each derived handle retaining its parent's root,
/// so any chain of derivations — here a repository to one of its commits to
/// that commit's tree — ends in a handle rooted at the original native
/// repository. The derived handle therefore keeps that repository alive, and
/// stays usable, after the handles it was derived through are dropped.
pub proof fn lemma_derivation_retains_root(
    repo: Repository,
    commit: crate::commit::Commit,
    tree: crate::tree::Tree,
)
    requires
        commit.root() == repo.root(),
        tree.root() == commit.root(),
    ensures
        tree.root() == repo.root(),
{
}

/// The exact message reported when a repository cannot be opened.
pub open spec fn open_failed_message(path: Seq<char>, reason: Seq<char>) -> Seq<char> {
    "Failed to open git repo: ["@ + path + "], reason: "@ + reason
}

/// The exact message reported when discovery from a path fails.
pub open spec fn discover_failed_message(path: Seq<char>, reason: Seq<char>) -> Seq<char> {
    contextual_message("Discover git repo from ["@ + path + "] failed"@, reason)
}

fn open_failed_error(path: &str, reason: &str) -> (e: GitError)
    ensures
        e@ == open_failed_message(path@, reason@),
{
    let mut message = String::from_str("Failed to open git repo: [");
    message.append(path);
    message.append("], reason: ");
    message.append(reason);
    GitError::from_message(message)
}

impl Repository {
    /// Retrieve and resolve the reference pointed at by HEAD. The handle
    /// returned shares this handle's root.
    pub fn head(&self) -> (r: Result<crate::reference::Reference, GitError>)
        ensures
            r matches Ok(h) ==> h.root() == self.root(),
            r matches Err(e) ==> exists|reason: Seq<char>|
                e@ == contextual_message("Get the HEAD of Repository failed"@, reason),
    {
        let head = match native::repo_head(&self.inner) {
            Ok(head) => head,
            Err(reason) => {
                return Err(
                    GitError::contextual("Get the HEAD of Repository failed", reason.as_str()),
                );
            },
        };
        match native::ref_name(&head) {
            Some(name) => Ok(crate::reference::Reference::from_root(self.inner.clone(), name)),
            None => Err(
                GitError::contextual(
                    "Get the HEAD of Repository failed",
                    crate::reference::NAME_NOT_TEXT_MESSAGE,
                ),
            ),
        }
    }

    /// Lookup a tree in the repository by its id (full or zero-padded short
    /// hex form). The handle returned shares this handle's root and stores
    /// the canonical form of the id looked up.
    pub fn find_tree(&self, oid: String) -> (r: Option<crate::tree::Tree>)
        ensures
            r matches Some(t) ==> t.root() == self.root() && t.oid_spec()
                == native::canonical_oid(oid@),
    {
        let canonical = match native::oid_canonical(oid.as_str()) {
            Ok(canonical) => canonical,
            Err(_) => {
                return None;
            },
        };
        let parsed = match native::oid_parse(oid.as_str()) {
            Ok(parsed) => parsed,
            Err(_) => {
                return None;
            },
        };
        match native::repo_find_tree(&self.inner, parsed) {
            Ok(_) => Some(crate::tree::Tree::from_root(self.inner.clone(), canonical)),
            Err(_) => None,
        }
    }

    /// Lookup a blob in the repository by its id. The handle returned shares
    /// this handle's root and stores the canonical form of the id looked up.
    pub fn find_blob(&self, oid: String) -> (r: Option<crate::blob::Blob>)
        ensures
            r matches Some(b) ==> b.root() == self.root() && b.oid_spec()
                == native::canonical_oid(oid@),
    {
        let canonical = match native::oid_canonical(oid.as_str()) {
            Ok(canonical) => canonical,
            Err(_) => {
                return None;
            },
        };
        let parsed = match native::oid_parse(oid.as_str()) {
            Ok(parsed) => parsed,
            Err(_) => {
                return None;
            },
        };
        match native::repo_find_blob(&self.inner, parsed) {
            Ok(_) => Some(crate::blob::Blob::from_root(self.inner.clone(), canonical)),
            Err(_) => None,
        }
    }

    /// Lookup a commit by a full or abbreviated hex id. The handle returned
    /// shares this handle's root.
    pub fn find_commit(&self, oid: String) -> (r: Option<crate::commit::Commit>)
        ensures
            r matches Some(c) ==> c.root() == self.root(),
    {
        match native::repo_find_commit_by_prefix(&self.inner, oid.as_str()) {
            Ok(commit) => {
                let id = native::commit_id_string(&commit);
                Some(crate::commit::Commit::from_root(self.inner.clone(), id))
            },
            Err(_) => None,
        }
    }

    /// Create a new tag in the repository from an object.
    ///
    /// A new reference will also be created pointing to this tag object. If
    /// `force` is true and a reference already exists with the given name,
    /// it'll be replaced.
    ///
    /// The message will not be cleaned up.
    ///
    /// The tag name will be checked for validity. You must avoid the
    /// characters '~', '^', ':', '\\', '?', '[', and '*', and the sequences
    /// ".." and "@{" which have special meaning to revparse.
    pub fn tag(
        &self,
        name: String,
        target: &crate::object::GitObject,
        tagger: &crate::signature::Signature,
        message: String,
        force: bool,
    ) -> (r: Result<String, GitError>)
        ensures
            r matches Err(e) ==> exists|reason: Seq<char>|
                e@ == contextual_message("Failed to create tag"@, reason),
    {
        let object = match target.native_object() {
            Ok(object) => object,
            Err(reason) => {
                return Err(GitError::contextual("Failed to create tag", reason.as_str()));
            },
        };
        let signature = match crate::commit::signature_to_native(tagger) {
            Ok(signature) => signature,
            Err(e) => {
                return Err(GitError::contextual("Failed to create tag", e.message().as_str()));
            },
        };
        let result = native::repo_tag(
            &self.inner,
            name.as_str(),
            &object,
            &signature,
            message.as_str(),
            force,
        );
        match result {
            Ok(oid) => Ok(oid),
            Err(reason) => Err(GitError::contextual("Failed to create tag", reason.as_str())),
        }
    }

    /// Create a new tag in the repository from an object, without creating a
    /// reference.
    ///
    /// The message will not be cleaned up.
    ///
    /// See `tag` for the tag-name validity rules.
    pub fn tag_annotation_create(
        &self,
        name: String,
        target: &crate::object::GitObject,
        tagger: &crate::signature::Signature,
        message: String,
    ) -> (r: Result<String, GitError>)
        ensures
            r matches Err(e) ==> exists|reason: Seq<char>|
                e@ == contextual_message("Failed to create tag annotation"@, reason),
    {
        let object = match target.native_object() {
            Ok(object) => object,
            Err(reason) => {
                return Err(
                    GitError::contextual("Failed to create tag annotation", reason.as_str()),
                );
            },
        };
        let signature = match crate::commit::signature_to_native(tagger) {
            Ok(signature) => signature,
            Err(e) => {
                return Err(
                    GitError::contextual("Failed to create tag annotation", e.message().as_str()),
                );
            },
        };
        let result = native::repo_tag_annotation_create(
            &self.inner,
            name.as_str(),
            &object,
            &signature,
            message.as_str(),
        );
        match result {
            Ok(oid) => Ok(oid),
            Err(reason) => Err(
                GitError::contextual("Failed to create tag annotation", reason.as_str()),
            ),
        }
    }

    /// Create a new lightweight tag pointing at a target object.
    ///
    /// A new direct reference will be created pointing to this target object.
    /// If force is true and a reference already exists with the given name,
    /// it'll be replaced.
    pub fn tag_lightweight(
        &self,
        name: String,
        target: &crate::object::GitObject,
        force: bool,
    ) -> (r: Result<String, GitError>)
        ensures
            r matches Err(e) ==> exists|reason: Seq<char>|
                e@ == contextual_message("Failed to create lightweight tag"@, reason),
    {
        let object = match target.native_object() {
            Ok(object) => object,
            Err(reason) => {
                return Err(
                    GitError::contextual("Failed to create lightweight tag", reason.as_str()),
                );
            },
        };
        match native::repo_tag_lightweight(&self.inner, name.as_str(), &object, force) {
            Ok(oid) => Ok(oid),
            Err(reason) => Err(
                GitError::contextual("Failed to create lightweight tag", reason.as_str()),
            ),
        }
    }

    /// Lookup a tag object from the repository by its id. The handle returned
    /// shares this handle's root and stores the canonical form of the id
    /// looked up.
    pub fn find_tag(&self, oid: String) -> (r: Result<crate::tag::Tag, GitError>)
        ensures
            r matches Ok(t) ==> t.root() == self.root() && t.oid_spec()
                == native::canonical_oid(oid@),
            r matches Err(e) ==> exists|reason: Seq<char>|
                e@ == find_tag_failed_message(oid@, reason),
    {
        let canonical = match native::oid_canonical(oid.as_str()) {
            Ok(canonical) => canonical,
            Err(reason) => {
                return Err(find_tag_failed_error(oid.as_str(), reason.as_str()));
            },
        };
        let parsed = match native::oid_parse(oid.as_str()) {
            Ok(parsed) => parsed,
            Err(reason) => {
                return Err(find_tag_failed_error(oid.as_str(), reason.as_str()));
            },
        };
        match native::repo_find_tag(&self.inner, parsed) {
            Ok(_) => Ok(crate::tag::Tag::from_root(self.inner.clone(), canonical)),
            Err(reason) => Err(find_tag_failed_error(oid.as_str(), reason.as_str())),
        }
    }

    /// Lookup a tag object by prefix hash from the repository. The handle
    /// returned shares this handle's root.
    pub fn find_tag_by_prefix(&self, prefix_hash: String) -> (r: Result<crate::tag::Tag, GitError>)
        ensures
            r matches Ok(t) ==> t.root() == self.root(),
            r matches Err(e) ==> exists|reason: Seq<char>|
                e@ == find_tag_failed_message(prefix_hash@, reason),
    {
        match native::repo_find_tag_by_prefix(&self.inner, prefix_hash.as_str()) {
            Ok(tag) => {
                let id = native::tag_id_hex(&tag);
                Ok(crate::tag::Tag::from_root(self.inner.clone(), id))
            },
            Err(reason) => Err(find_tag_failed_error(prefix_hash.as_str(), reason.as_str())),
        }
    }

    /// Delete an existing tag reference.
    ///
    /// The tag name will be checked for validity; see `tag` for some rules
    /// about valid names.
    pub fn tag_delete(&self, name: String) -> (r: Result<(), GitError>)
        ensures
            r matches Err(e) ==> exists|reason: Seq<char>| e@ == bare_message(reason),
    {
        match native::repo_tag_delete(&self.inner, name.as_str()) {
            Ok(u) => Ok(u),
            Err(reason) => Err(GitError::bare(reason.as_str())),
        }
    }

    /// Get a list with all the tags in the repository.
    ///
    /// An optional fnmatch pattern can also be specified. Names that are not
    /// valid text are left out.
    pub fn tag_names(&self, pattern: Option<String>) -> (r: Result<Vec<String>, GitError>)
        ensures
            r matches Err(e) ==> exists|reason: Seq<char>|
                e@ == contextual_message("Failed to get tag names"@, reason),
    {
        let pattern_str = match &pattern {
            Some(p) => Some(p.as_str()),
            None => None,
        };
        match native::repo_tag_names(&self.inner, pattern_str) {
            Ok(names) => Ok(flatten_names(names)),
            Err(reason) => Err(GitError::contextual("Failed to get tag names", reason.as_str())),
        }
    }

    /// Visit all tags: the id (in hex form) and the full reference name bytes
    /// of each, in the order the native library visits them. A caller that
    /// wants to stop early stops reading the list.
    pub fn tag_foreach(&self) -> (r: Result<Vec<(String, Vec<u8>)>, GitError>)
        ensures
            r matches Err(e) ==> exists|reason: Seq<char>| e@ == bare_message(reason),
    {
        match native::repo_tag_entries(&self.inner) {
            Ok(entries) => Ok(entries),
            Err(reason) => Err(GitError::bare(reason.as_str())),
        }
    }

    /// Convert a tree entry to the object it points to. The handle returned
    /// shares this handle's root.
    pub fn tree_entry_to_object(&self, tree_entry: &crate::tree::TreeEntry) -> (r: Result<
        crate::object::GitObject,
        GitError,
    >)
        ensures
            r matches Ok(o) ==> o.root() == self.root(),
            r matches Err(e) ==> exists|reason: Seq<char>| e@ == bare_message(reason),
    {
        tree_entry.to_object(self)
    }

    /// Create a new commit in the repository, with no parent commits.
    ///
    /// If `update_ref` is not `None`, it is the name of the reference that
    /// will be updated to point to this commit. If the reference is not
    /// direct, it will be resolved to a direct reference. Use "HEAD" to
    /// update the HEAD of the current branch and make it point to this
    /// commit. If the reference doesn't exist yet, it will be created. If it
    /// does exist, the first parent must be the tip of this branch.
    pub fn commit(
        &self,
        update_ref: Option<String>,
        author: &crate::signature::Signature,
        committer: &crate::signature::Signature,
        message: String,
        tree: &crate::tree::Tree,
    ) -> (r: Result<String, GitError>)
        ensures
            r matches Err(e) ==> exists|reason: Seq<char>| e@ == bare_message(reason),
    {
        let native_author = match crate::commit::signature_to_native(author) {
            Ok(signature) => signature,
            Err(e) => {
                return Err(e);
            },
        };
        let native_committer = match crate::commit::signature_to_native(committer) {
            Ok(signature) => signature,
            Err(e) => {
                return Err(e);
            },
        };
        let native_tree = match tree.native_tree() {
            Ok(native_tree) => native_tree,
            Err(reason) => {
                return Err(GitError::bare(reason.as_str()));
            },
        };
        let update_ref_str = match &update_ref {
            Some(u) => Some(u.as_str()),
            None => None,
        };
        let result = native::repo_commit_create(
            &self.inner,
            update_ref_str,
            &native_author,
            &native_committer,
            message.as_str(),
            &native_tree,
        );
        match result {
            Ok(oid) => Ok(oid),
            Err(reason) => Err(GitError::bare(reason.as_str())),
        }
    }
}

/// The exact message reported when a tag cannot be found by id or prefix.
pub open spec fn find_tag_failed_message(oid: Seq<char>, reason: Seq<char>) -> Seq<char> {
    contextual_message("Find tag from OID ["@ + oid + "] failed"@, reason)
}

fn find_tag_failed_error(oid: &str, reason: &str) -> (e: GitError)
    ensures
        e@ == find_tag_failed_message(oid@, reason@),
{
    let mut context = String::from_str("Find tag from OID [");
    context.append(oid);
    context.append("] failed");
    let e = GitError::contextual(context.as_str(), reason);
    proof {
        assert(e@ =~= find_tag_failed_message(oid@, reason@));
    }
    e
}

impl Repository {
    /// Get the information for a particular remote, as a handle sharing this
    /// handle's root.
    pub fn find_remote(&self, name: String) -> (r: Option<crate::remote::Remote>)
        ensures
            r matches Some(remote) ==> remote.root() == self.root(),
    {
        // Probe the lookup so a missing remote is reported now.
        let probe = match native::repo_find_remote(&self.inner, name.as_str()) {
            Ok(_) => true,
            Err(_) => false,
        };
        if probe {
            Some(crate::remote::Remote::from_name(self.clone_root(), name))
        } else {
            None
        }
    }

    /// Add a remote with the default fetch refspec to the repository's
    /// configuration, and hand back a handle to it sharing this handle's
    /// root.
    pub fn remote(&self, name: String, url: String) -> (r: Result<
        crate::remote::Remote,
        GitError,
    >)
        ensures
            r matches Ok(remote) ==> remote.root() == self.root(),
            r matches Err(e) ==> exists|reason: Seq<char>|
                e@ == add_remote_failed_message(name@, reason),
    {
        let failed: Option<String> = match native::repo_remote_create(
            &self.inner,
            name.as_str(),
            url.as_str(),
        ) {
            Ok(_) => None,
            Err(reason) => Some(reason),
        };
        match failed {
            None => Ok(crate::remote::Remote::from_name(self.clone_root(), name)),
            Some(reason) => Err(add_remote_failed_error(name.as_str(), reason.as_str())),
        }
    }

    /// Add a remote with the provided fetch refspec to the repository's
    /// configuration, and hand back a handle to it sharing this handle's
    /// root.
    pub fn remote_with_fetch(&self, name: String, url: String, refspect: String) -> (r: Result<
        crate::remote::Remote,
        GitError,
    >)
        ensures
            r matches Ok(remote) ==> remote.root() == self.root(),
            r matches Err(e) ==> exists|reason: Seq<char>|
                e@ == contextual_message("Failed to add remote"@, reason),
    {
        let failed: Option<String> = match native::repo_remote_with_fetch(
            &self.inner,
            name.as_str(),
            url.as_str(),
            refspect.as_str(),
        ) {
            Ok(_) => None,
            Err(reason) => Some(reason),
        };
        match failed {
            None => Ok(crate::remote::Remote::from_name(self.clone_root(), name)),
            Some(reason) => Err(GitError::contextual("Failed to add remote", reason.as_str())),
        }
    }

    /// Create an anonymous remote.
    ///
    /// Create a remote with the given URL in memory. You can use this when
    /// you have a URL instead of a remote's name. Note that anonymous remotes
    /// cannot be converted to persisted remotes. The handle returned shares
    /// this handle's root.
    pub fn remote_anonymous(&self, url: String) -> (r: Result<crate::remote::Remote, GitError>)
        ensures
            r matches Ok(remote) ==> remote.root() == self.root(),
            r matches Err(e) ==> exists|reason: Seq<char>|
                e@ == contextual_message("Failed to create anonymous remote"@, reason),
    {
        let failed: Option<String> = match native::repo_remote_anonymous(
            &self.inner,
            url.as_str(),
        ) {
            Ok(_) => None,
            Err(reason) => Some(reason),
        };
        match failed {
            None => Ok(crate::remote::Remote::from_url(self.clone_root(), url)),
            Some(reason) => Err(
                GitError::contextual("Failed to create anonymous remote", reason.as_str()),
            ),
        }
    }

    /// Give a remote a new name.
    ///
    /// All remote-tracking branches and configuration settings for the remote
    /// are updated.
    ///
    /// A temporary in-memory remote cannot be given a name with this method.
    ///
    /// No loaded instances of the remote with the old name will change their
    /// name or their list of refspecs.
    ///
    /// The returned list holds the non-default refspecs which cannot be
    /// renamed and are returned for further processing by the caller; entries
    /// that are not valid text are left out.
    pub fn remote_rename(&self, name: String, new_name: String) -> (r: Result<Vec<String>, GitError>)
        ensures
            r matches Err(e) ==> exists|reason: Seq<char>|
                e@ == rename_remote_failed_message(name@, reason),
    {
        match native::repo_remote_rename(&self.inner, name.as_str(), new_name.as_str()) {
            Ok(problems) => Ok(flatten_names(problems)),
            Err(reason) => Err(rename_remote_failed_error(name.as_str(), reason.as_str())),
        }
    }

    /// Delete an existing persisted remote.
    ///
    /// All remote-tracking branches and configuration settings for the remote
    /// will be removed.
    pub fn remote_delete(&self, name: String) -> (r: Result<(), GitError>)
        ensures
            r matches Err(e) ==> exists|reason: Seq<char>| e@ == bare_message(reason),
    {
        match native::repo_remote_delete(&self.inner, name.as_str()) {
            Ok(u) => Ok(u),
            Err(reason) => Err(GitError::bare(reason.as_str())),
        }
    }

    /// Add a fetch refspec to the remote's configuration.
    ///
    /// Add the given refspec to the fetch list in the configuration. No
    /// loaded remote instances will be affected.
    pub fn remote_add_fetch(&self, name: String, refspec: String) -> (r: Result<(), GitError>)
        ensures
            r matches Err(e) ==> exists|reason: Seq<char>| e@ == bare_message(reason),
    {
        match native::repo_remote_add_fetch(&self.inner, name.as_str(), refspec.as_str()) {
            Ok(u) => Ok(u),
            Err(reason) => Err(GitError::bare(reason.as_str())),
        }
    }

    /// Add a push refspec to the remote's configuration.
    ///
    /// Add the given refspec to the push list in the configuration. No
    /// loaded remote instances will be affected.
    pub fn remote_add_push(&self, name: String, refspec: String) -> (r: Result<(), GitError>)
        ensures
            r matches Err(e) ==> exists|reason: Seq<char>| e@ == bare_message(reason),
    {
        match native::repo_remote_add_push(&self.inner, name.as_str(), refspec.as_str()) {
            Ok(u) => Ok(u),
            Err(reason) => Err(GitError::bare(reason.as_str())),
        }
    }

    /// Set the remote's URL in the configuration.
    ///
    /// Remote objects already in memory will not be affected. This assumes
    /// the common case of a single-url remote and will otherwise return an
    /// error.
    pub fn remote_set_url(&self, name: String, url: String) -> (r: Result<(), GitError>)
        ensures
            r matches Err(e) ==> exists|reason: Seq<char>| e@ == bare_message(reason),
    {
        match native::repo_remote_set_url(&self.inner, name.as_str(), url.as_str()) {
            Ok(u) => Ok(u),
            Err(reason) => Err(GitError::bare(reason.as_str())),
        }
    }

    /// Set the remote's URL for pushing in the configuration.
    ///
    /// Remote objects already in memory will not be affected. This assumes
    /// the common case of a single-url remote and will otherwise return an
    /// error.
    ///
    /// `None` indicates that it should be cleared.
    pub fn remote_set_pushurl(&self, name: String, url: Option<String>) -> (r: Result<
        (),
        GitError,
    >)
        ensures
            r matches Err(e) ==> exists|reason: Seq<char>| e@ == bare_message(reason),
    {
        let url_str = match &url {
            Some(u) => Some(u.as_str()),
            None => None,
        };
        match native::repo_remote_set_pushurl(&self.inner, name.as_str(), url_str) {
            Ok(u) => Ok(u),
            Err(reason) => Err(GitError::bare(reason.as_str())),
        }
    }
}

/// The exact message reported when a remote cannot be looked up or added.
pub open spec fn add_remote_failed_message(name: Seq<char>, reason: Seq<char>) -> Seq<char> {
    contextual_message("Failed to add remote ["@ + name + "]"@, reason)
}

fn add_remote_failed_error(name: &str, reason: &str) -> (e: GitError)
    ensures
        e@ == add_remote_failed_message(name@, reason@),
{
    let mut context = String::from_str("Failed to add remote [");
    context.append(name);
    context.append("]");
    let e = GitError::contextual(context.as_str(), reason);
    proof {
        assert(e@ =~= add_remote_failed_message(name@, reason@));
    }
    e
}

/// The exact message reported when renaming a remote fails.
pub open spec fn rename_remote_failed_message(name: Seq<char>, reason: Seq<char>) -> Seq<char> {
    contextual_message("Failed to rename remote ["@ + name + "]"@, reason)
}

fn rename_remote_failed_error(name: &str, reason: &str) -> (e: GitError)
    ensures
        e@ == rename_remote_failed_message(name@, reason@),
{
    let mut context = String::from_str("Failed to rename remote [");
    context.append(name);
    context.append("]");
    let e = GitError::contextual(context.as_str(), reason);
    proof {
        assert(e@ =~= rename_remote_failed_message(name@, reason@));
    }
    e
}

} // verus!
