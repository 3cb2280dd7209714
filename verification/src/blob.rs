//! Blobs: the raw content of files stored in the repository.

use std::rc::Rc;
use vstd::prelude::*;

use crate::error::{GitError, bare_message};
use crate::native;

verus! {

/// A shared-derived handle to a blob: the repository root it retains, plus
/// the blob's id in hex form.
pub struct Blob {
    pub(crate) repo: Rc<git2::Repository>,
    pub(crate) oid: String,
}

impl Blob {
    /// The native root this handle retains.
    pub closed spec fn root(self) -> Rc<git2::Repository> {
        self.repo
    }

    /// The blob's id, in hex form.
    pub closed spec fn oid_spec(self) -> Seq<char> {
        self.oid@
    }

    pub(crate) fn from_root(repo: Rc<git2::Repository>, oid: String) -> (b: Blob)
        ensures
            b.root() == repo,
            b.oid_spec() == oid@,
    {
        Blob { repo, oid }
    }

    /// Resolve this handle to the native blob it names.
    fn native_blob<'r>(&'r self) -> Result<git2::Blob<'r>, String> {
        let oid = native::oid_parse(self.oid.as_str())?;
        native::repo_find_blob(&self.repo, oid)
    }

    /// Get the id (SHA1) of a repository blob.
    pub fn id(&self) -> (r: String)
        ensures
            r@ == self.oid_spec(),
    {
        self.oid.clone()
    }

    /// Determine if the blob content is most certainly binary or not.
    pub fn is_binary(&self) -> (r: Result<bool, GitError>)
        ensures
            r matches Err(e) ==> exists|reason: Seq<char>| e@ == bare_message(reason),
    {
        match self.native_blob() {
            Ok(blob) => Ok(native::blob_is_binary(&blob)),
            Err(reason) => Err(GitError::bare(reason.as_str())),
        }
    }

    /// Get the content of this blob.
    pub fn content(&self) -> (r: Result<Vec<u8>, GitError>)
        ensures
            r matches Err(e) ==> exists|reason: Seq<char>| e@ == bare_message(reason),
    {
        match self.native_blob() {
            Ok(blob) => Ok(native::blob_content(&blob)),
            Err(reason) => Err(GitError::bare(reason.as_str())),
        }
    }

    /// Get the size in bytes of the contents of this blob.
    pub fn size(&self) -> (r: Result<u64, GitError>)
        ensures
            r matches Err(e) ==> exists|reason: Seq<char>| e@ == bare_message(reason),
    {
        match self.native_blob() {
            Ok(blob) => Ok(native::blob_size(&blob)),
            Err(reason) => Err(GitError::bare(reason.as_str())),
        }
    }
}

} // verus!
