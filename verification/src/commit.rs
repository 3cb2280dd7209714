//! Commits.
//!
//! A [`Commit`] handle retains the repository root plus the commit's object
//! id. Commits are immutable objects, so the id is a stable derivation path
//! whichever ancestor produced the handle — the repository, a walk, or
//! another commit's parent list — and the owned-by-value promotion of the
//! borrowing design collapses into this one uniform shape.

use std::rc::Rc;
use vstd::prelude::*;

use crate::error::{GitError, bare_message, contextual_message};
use crate::native;
use crate::native::chrono_timestamp_in_range;
use crate::object::GitObject;
use crate::signature::Signature;
use crate::tree::Tree;

verus! {

/// A shared-derived handle to a commit: the repository root it retains, plus
/// the commit's id in hex form.
pub struct Commit {
    pub(crate) repo: Rc<git2::Repository>,
    pub(crate) oid: String,
}

impl Commit {
    /// The native root this handle retains.
    pub closed spec fn root(self) -> Rc<git2::Repository> {
        self.repo
    }

    /// The commit's id, in hex form.
    pub closed spec fn oid_spec(self) -> Seq<char> {
        self.oid@
    }

    pub(crate) fn from_root(repo: Rc<git2::Repository>, oid: String) -> (c: Commit)
        ensures
            c.root() == repo,
            c.oid_spec() == oid@,
    {
        Commit { repo, oid }
    }

    /// Resolve this handle to the native commit it names.
    pub(crate) fn native_commit<'r>(&'r self) -> Result<git2::Commit<'r>, String> {
        let oid = native::oid_parse(self.oid.as_str())?;
        native::repo_find_commit(&self.repo, oid)
    }

    /// Get the id (SHA1) of a repository object.
    pub fn id(&self) -> (r: String)
        ensures
            r@ == self.oid_spec(),
    {
        self.oid.clone()
    }

    /// Get the id of the tree pointed to by this commit.
    pub fn tree_id(&self) -> (r: Result<String, GitError>)
        ensures
            r matches Err(e) ==> exists|reason: Seq<char>| e@ == bare_message(reason),
    {
        match self.native_commit() {
            Ok(commit) => Ok(native::commit_tree_id_hex(&commit)),
            Err(reason) => Err(GitError::bare(reason.as_str())),
        }
    }

    /// Get the tree pointed to by this commit. The handle returned shares
    /// this handle's root.
    pub fn tree(&self) -> (r: Result<Tree, GitError>)
        ensures
            r matches Ok(t) ==> t.root() == self.root(),
            r matches Err(e) ==> exists|reason: Seq<char>|
                e@ == contextual_message("Find tree on commit failed"@, reason),
    {
        let commit = match self.native_commit() {
            Ok(commit) => commit,
            Err(reason) => {
                return Err(GitError::contextual("Find tree on commit failed", reason.as_str()));
            },
        };
        match native::commit_tree(&commit) {
            Ok(tree) => {
                let oid = native::tree_id_hex(&tree);
                Ok(Tree::from_root(self.repo.clone(), oid))
            },
            Err(reason) => Err(GitError::contextual("Find tree on commit failed", reason.as_str())),
        }
    }

    /// Get the full message of a commit.
    ///
    /// The returned message will be slightly prettified by removing any
    /// potential leading newlines.
    ///
    /// `None` will be returned if the message is not valid text.
    pub fn message(&self) -> Option<String> {
        match self.native_commit() {
            Ok(commit) => native::commit_message(&commit),
            Err(_) => None,
        }
    }

    /// Get the full message of a commit as bytes.
    ///
    /// The returned message will be slightly prettified by removing any
    /// potential leading newlines.
    pub fn message_bytes(&self) -> (r: Result<Vec<u8>, GitError>)
        ensures
            r matches Err(e) ==> exists|reason: Seq<char>| e@ == bare_message(reason),
    {
        match self.native_commit() {
            Ok(commit) => Ok(native::commit_message_bytes(&commit)),
            Err(reason) => Err(GitError::bare(reason.as_str())),
        }
    }

    /// Get the encoding for the message of a commit, as a string representing
    /// a standard encoding name.
    ///
    /// `None` will be returned if the encoding is not known.
    pub fn message_encoding(&self) -> Option<String> {
        match self.native_commit() {
            Ok(commit) => native::commit_message_encoding(&commit),
            Err(_) => None,
        }
    }

    /// Get the full raw message of a commit.
    ///
    /// `None` will be returned if the message is not valid text.
    pub fn message_raw(&self) -> Option<String> {
        match self.native_commit() {
            Ok(commit) => native::commit_message_raw(&commit),
            Err(_) => None,
        }
    }

    /// Get the full raw message of a commit, as bytes.
    pub fn message_raw_bytes(&self) -> (r: Result<Vec<u8>, GitError>)
        ensures
            r matches Err(e) ==> exists|reason: Seq<char>| e@ == bare_message(reason),
    {
        match self.native_commit() {
            Ok(commit) => Ok(native::commit_message_raw_bytes(&commit)),
            Err(reason) => Err(GitError::bare(reason.as_str())),
        }
    }

    /// Get the full raw text of the commit header.
    ///
    /// `None` will be returned if the header is not valid text.
    pub fn raw_header(&self) -> Option<String> {
        match self.native_commit() {
            Ok(commit) => native::commit_raw_header(&commit),
            Err(_) => None,
        }
    }

    /// Get an arbitrary header field.
    pub fn header_field_bytes(&self, field: String) -> (r: Result<Vec<u8>, GitError>)
        ensures
            r matches Err(e) ==> exists|reason: Seq<char>| e@ == bare_message(reason),
    {
        let commit = match self.native_commit() {
            Ok(commit) => commit,
            Err(reason) => {
                return Err(GitError::bare(reason.as_str()));
            },
        };
        match native::commit_header_field_bytes(&commit, field.as_str()) {
            Ok(bytes) => Ok(bytes),
            Err(reason) => Err(GitError::bare(reason.as_str())),
        }
    }

    /// Get the full raw text of the commit header, as bytes.
    pub fn raw_header_bytes(&self) -> (r: Result<Vec<u8>, GitError>)
        ensures
            r matches Err(e) ==> exists|reason: Seq<char>| e@ == bare_message(reason),
    {
        match self.native_commit() {
            Ok(commit) => Ok(native::commit_raw_header_bytes(&commit)),
            Err(reason) => Err(GitError::bare(reason.as_str())),
        }
    }

    /// Get the short "summary" of the git commit message.
    ///
    /// The returned message is the summary of the commit, comprising the
    /// first paragraph of the message with whitespace trimmed and squashed.
    ///
    /// `None` may be returned if an error occurs or if the summary is not
    /// valid text.
    pub fn summary(&self) -> Option<String> {
        match self.native_commit() {
            Ok(commit) => native::commit_summary(&commit),
            Err(_) => None,
        }
    }

    /// Get the short "summary" of the git commit message, as bytes.
    ///
    /// `None` may be returned if an error occurs.
    pub fn summary_bytes(&self) -> Option<Vec<u8>> {
        match self.native_commit() {
            Ok(commit) => native::commit_summary_bytes(&commit),
            Err(_) => None,
        }
    }

    /// Get the long "body" of the git commit message.
    ///
    /// The returned message is the body of the commit, comprising everything
    /// but the first paragraph of the message. Leading and trailing
    /// whitespaces are trimmed.
    ///
    /// `None` may be returned if an error occurs or if the body is not valid
    /// text.
    pub fn body(&self) -> Option<String> {
        match self.native_commit() {
            Ok(commit) => native::commit_body(&commit),
            Err(_) => None,
        }
    }

    /// Get the long "body" of the git commit message, as bytes.
    ///
    /// `None` may be returned if an error occurs.
    pub fn body_bytes(&self) -> Option<Vec<u8>> {
        match self.native_commit() {
            Ok(commit) => native::commit_body_bytes(&commit),
            Err(_) => None,
        }
    }

    /// Get the commit time (i.e. committer time) of a commit, in seconds from
    /// the epoch.
    ///
    /// Fails with exactly the message `Invalid commit time` when the stored
    /// time lies outside the range a calendar date can be formed for; a
    /// handle whose commit can no longer be resolved reports the native
    /// reason instead (a case the borrowing design could not produce).
    pub fn time(&self) -> (r: Result<i64, GitError>)
        ensures
            r matches Ok(seconds) ==> chrono_timestamp_in_range(seconds as int),
            r matches Err(e) ==> e@ == "Invalid commit time"@ || (exists|reason: Seq<char>|
                e@ == bare_message(reason)),
    {
        let commit = match self.native_commit() {
            Ok(commit) => commit,
            Err(reason) => {
                return Err(GitError::bare(reason.as_str()));
            },
        };
        let seconds = native::commit_time_seconds(&commit);
        if native::chrono_accepts_timestamp(seconds) {
            Ok(seconds)
        } else {
            Err(GitError::from_message(String::from_str("Invalid commit time")))
        }
    }

    /// Get the author of this commit.
    pub fn author(&self) -> (r: Result<Signature, GitError>)
        ensures
            r matches Err(e) ==> exists|reason: Seq<char>| e@ == bare_message(reason),
    {
        let commit = match self.native_commit() {
            Ok(commit) => commit,
            Err(reason) => {
                return Err(GitError::bare(reason.as_str()));
            },
        };
        let (name, email, when) = native::commit_author_parts(&commit);
        Ok(Signature::from_parts(name, email, when))
    }

    /// Get the committer of this commit.
    pub fn committer(&self) -> (r: Result<Signature, GitError>)
        ensures
            r matches Err(e) ==> exists|reason: Seq<char>| e@ == bare_message(reason),
    {
        let commit = match self.native_commit() {
            Ok(commit) => commit,
            Err(reason) => {
                return Err(GitError::bare(reason.as_str()));
            },
        };
        let (name, email, when) = native::commit_committer_parts(&commit);
        Ok(Signature::from_parts(name, email, when))
    }

    /// Amend this existing commit with all non-`None` values.
    ///
    /// This creates a new commit that is exactly the same as the old commit,
    /// except that any non-`None` values will be updated. The new commit has
    /// the same parents as the old commit.
    ///
    /// For information about `update_ref`, see `Repository::commit`.
    ///
    /// A failure is reported under the `Amend commit failed` context; only a
    /// given signature whose name or email is not valid text is reported with
    /// the native reason alone.
    pub fn amend(
        &self,
        update_ref: Option<String>,
        author: Option<&Signature>,
        committer: Option<&Signature>,
        message_encoding: Option<String>,
        message: Option<String>,
        tree: Option<&Tree>,
    ) -> (r: Result<String, GitError>)
        ensures
            r matches Err(e) ==> (exists|reason: Seq<char>|
                e@ == contextual_message("Amend commit failed"@, reason)) || (
            exists|reason: Seq<char>| e@ == bare_message(reason)),
            author is None && committer is None ==> (r matches Err(e)
                ==> exists|reason: Seq<char>|
                    e@ == contextual_message("Amend commit failed"@, reason)),
    {
        let commit = match self.native_commit() {
            Ok(commit) => commit,
            Err(reason) => {
                return Err(GitError::contextual("Amend commit failed", reason.as_str()));
            },
        };
        let native_author = match author {
            Some(signature) => match signature_to_native(signature) {
                Ok(s) => Some(s),
                Err(e) => {
                    return Err(e);
                },
            },
            None => None,
        };
        let native_committer = match committer {
            Some(signature) => match signature_to_native(signature) {
                Ok(s) => Some(s),
                Err(e) => {
                    return Err(e);
                },
            },
            None => None,
        };
        let native_tree = match tree {
            Some(t) => match t.native_tree() {
                Ok(nt) => Some(nt),
                Err(reason) => {
                    return Err(GitError::contextual("Amend commit failed", reason.as_str()));
                },
            },
            None => None,
        };
        let result = native::commit_amend(
            &commit,
            as_deref_str(&update_ref),
            native_author.as_ref(),
            native_committer.as_ref(),
            as_deref_str(&message_encoding),
            as_deref_str(&message),
            native_tree.as_ref(),
        );
        match result {
            Ok(oid) => Ok(oid),
            Err(reason) => Err(GitError::contextual("Amend commit failed", reason.as_str())),
        }
    }

    /// Get the number of parents of this commit.
    pub fn parent_count(&self) -> (r: Result<usize, GitError>)
        ensures
            r matches Err(e) ==> exists|reason: Seq<char>| e@ == bare_message(reason),
    {
        match self.native_commit() {
            Ok(commit) => Ok(native::commit_parent_count(&commit)),
            Err(reason) => Err(GitError::bare(reason.as_str())),
        }
    }

    /// Get the specified parent of the commit, as a handle of its own that no
    /// longer depends on this one (it shares the same root).
    pub fn parent(&self, i: u32) -> (r: Result<Commit, GitError>)
        ensures
            r matches Ok(c) ==> c.root() == self.root(),
            r matches Err(e) ==> exists|reason: Seq<char>|
                e@ == contextual_message("Find parent commit failed"@, reason),
    {
        let pid = match self.parent_id(i) {
            Ok(pid) => pid,
            Err(e) => {
                return Err(e);
            },
        };
        let oid = match native::oid_parse(pid.as_str()) {
            Ok(oid) => oid,
            Err(reason) => {
                return Err(GitError::contextual("Find parent commit failed", reason.as_str()));
            },
        };
        match native::repo_find_commit(&self.repo, oid) {
            Ok(commit) => {
                let id = native::commit_id_string(&commit);
                Ok(Commit::from_root(self.repo.clone(), id))
            },
            Err(reason) => Err(GitError::contextual("Find parent commit failed", reason.as_str())),
        }
    }

    /// Get the specified parent id of the commit.
    ///
    /// This is different from `parent`, which will attempt to load the parent
    /// commit from the object database.
    pub fn parent_id(&self, i: u32) -> (r: Result<String, GitError>)
        ensures
            r matches Err(e) ==> exists|reason: Seq<char>|
                e@ == contextual_message("Find parent commit failed"@, reason),
    {
        let commit = match self.native_commit() {
            Ok(commit) => commit,
            Err(reason) => {
                return Err(GitError::contextual("Find parent commit failed", reason.as_str()));
            },
        };
        match native::commit_parent_id_hex(&commit, i as usize) {
            Ok(pid) => Ok(pid),
            Err(reason) => Err(GitError::contextual("Find parent commit failed", reason.as_str())),
        }
    }

    /// Casts this Commit to be usable as a `GitObject`: a fresh handle to the
    /// same object, sharing this handle's root.
    pub fn as_object(&self) -> (r: GitObject)
        ensures
            r.root() == self.root(),
            r.oid_spec() == self.oid_spec(),
    {
        GitObject::from_root(self.repo.clone(), self.oid.clone())
    }
}

/// Build the native form of a signature. Fails when the signature carries no
/// valid text for its name or email (as one read back out of a commit may),
/// or when the native library rejects the fields.
pub(crate) fn signature_to_native(signature: &Signature) -> (r: Result<
    git2::Signature<'static>,
    GitError,
>)
    ensures
        r matches Err(e) ==> exists|reason: Seq<char>|
            e@ == crate::error::bare_message(reason),
        signature@.name is None || signature@.email is None ==> r is Err,
{
    let name = match signature.name() {
        Some(name) => name,
        None => {
            return Err(GitError::bare("signature name is not valid utf-8"));
        },
    };
    let email = match signature.email() {
        Some(email) => email,
        None => {
            return Err(GitError::bare("signature email is not valid utf-8"));
        },
    };
    match native::signature_new(name, email, signature.when()) {
        Ok(s) => Ok(s),
        Err(reason) => Err(GitError::bare(reason.as_str())),
    }
}

/// The borrowed text of an optional string.
fn as_deref_str(value: &Option<String>) -> (r: Option<&str>)
    ensures
        match value {
            Some(s) => r matches Some(v) && v@ == s@,
            None => r is None,
        },
{
    match value {
        Some(s) => Some(s.as_str()),
        None => None,
    }
}

} // verus!
