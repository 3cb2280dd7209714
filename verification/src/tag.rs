//! Annotated tags.

use std::rc::Rc;
use vstd::prelude::*;

use crate::error::{GitError, bare_message, contextual_message};
use crate::native;
use crate::object::GitObject;
use crate::text::{contains_nul_char, has_nul_char};

verus! {

/// A shared-derived handle to an annotated tag: the repository root it
/// retains, plus the tag object's id in hex form.
pub struct Tag {
    pub(crate) repo: Rc<git2::Repository>,
    pub(crate) oid: String,
}

impl Tag {
    /// The native root this handle retains.
    pub closed spec fn root(self) -> Rc<git2::Repository> {
        self.repo
    }

    /// The tag object's id, in hex form.
    pub closed spec fn oid_spec(self) -> Seq<char> {
        self.oid@
    }

    pub(crate) fn from_root(repo: Rc<git2::Repository>, oid: String) -> (t: Tag)
        ensures
            t.root() == repo,
            t.oid_spec() == oid@,
    {
        Tag { repo, oid }
    }

    /// Resolve this handle to the native tag it names.
    fn native_tag<'r>(&'r self) -> Result<git2::Tag<'r>, String> {
        let oid = native::oid_parse(self.oid.as_str())?;
        native::repo_find_tag(&self.repo, oid)
    }

    /// Determine whether a tag name is valid, meaning that (when prefixed
    /// with `refs/tags/`) it is a valid reference name, and that any
    /// additional tag name restrictions are imposed (eg, it cannot start with
    /// a `-`). A name with a NUL character cannot reach the native check and
    /// is never valid.
    pub fn is_valid_name(name: String) -> (r: bool)
        ensures
            !has_nul_char(name@) ==> r == native::tag_name_valid(name@),
            has_nul_char(name@) ==> r == false,
    {
        if contains_nul_char(name.as_str()) {
            false
        } else {
            native::tag_is_valid_name(name.as_str())
        }
    }

    /// Get the id (SHA1) of a repository object.
    pub fn id(&self) -> (r: String)
        ensures
            r@ == self.oid_spec(),
    {
        self.oid.clone()
    }

    /// Get the message of a tag.
    ///
    /// Returns `None` if there is no message or if it is not valid text.
    pub fn message(&self) -> Option<String> {
        match self.native_tag() {
            Ok(tag) => native::tag_message(&tag),
            Err(_) => None,
        }
    }

    /// Get the message of a tag, as bytes.
    ///
    /// Returns `None` if there is no message.
    pub fn message_bytes(&self) -> Option<Vec<u8>> {
        match self.native_tag() {
            Ok(tag) => native::tag_message_bytes(&tag),
            Err(_) => None,
        }
    }

    /// Get the name of a tag.
    ///
    /// Returns `None` if it is not valid text.
    pub fn name(&self) -> Option<String> {
        match self.native_tag() {
            Ok(tag) => native::tag_name(&tag),
            Err(_) => None,
        }
    }

    /// Get the name of a tag, as bytes.
    pub fn name_bytes(&self) -> (r: Result<Vec<u8>, GitError>)
        ensures
            r matches Err(e) ==> exists|reason: Seq<char>| e@ == bare_message(reason),
    {
        match self.native_tag() {
            Ok(tag) => Ok(native::tag_name_bytes(&tag)),
            Err(reason) => Err(GitError::bare(reason.as_str())),
        }
    }

    /// Recursively peel a tag until a non-tag object is found. The handle
    /// returned shares this handle's root.
    pub fn peel(&self) -> (r: Result<GitObject, GitError>)
        ensures
            r matches Ok(o) ==> o.root() == self.root(),
            r matches Err(e) ==> exists|reason: Seq<char>|
                e@ == contextual_message("Peel tag failed"@, reason),
    {
        let tag = match self.native_tag() {
            Ok(tag) => tag,
            Err(reason) => {
                return Err(GitError::contextual("Peel tag failed", reason.as_str()));
            },
        };
        match native::tag_peel(&tag) {
            Ok(object) => {
                let id = native::object_id_hex(&object);
                Ok(GitObject::from_root(self.repo.clone(), id))
            },
            Err(reason) => Err(GitError::contextual("Peel tag failed", reason.as_str())),
        }
    }
}

} // verus!
