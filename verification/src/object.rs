//! Type-erased repository objects.

use std::rc::Rc;
use vstd::prelude::*;

use crate::error::{GitError, contextual_message};
use crate::native;

verus! {

/// The kinds of objects a repository stores.
#[derive(Clone, Copy, PartialEq, Eq, Structural, Debug)]
pub enum ObjectType {
    /// Any kind of git object
    Any,
    /// An object which corresponds to a git commit
    Commit,
    /// An object which corresponds to a git tree
    Tree,
    /// An object which corresponds to a git blob
    Blob,
    /// An object which corresponds to a git tag
    Tag,
}

/// A shared-derived handle to a type-erased object: the repository root it
/// retains, plus the object's id in hex form.
pub struct GitObject {
    pub(crate) repo: Rc<git2::Repository>,
    pub(crate) oid: String,
}

impl GitObject {
    /// The native root this handle retains.
    pub closed spec fn root(self) -> Rc<git2::Repository> {
        self.repo
    }

    /// The object's id, in hex form.
    pub closed spec fn oid_spec(self) -> Seq<char> {
        self.oid@
    }

    pub(crate) fn from_root(repo: Rc<git2::Repository>, oid: String) -> (o: GitObject)
        ensures
            o.root() == repo,
            o.oid_spec() == oid@,
    {
        GitObject { repo, oid }
    }

    /// Resolve this handle to the native object it names.
    pub(crate) fn native_object<'r>(&'r self) -> Result<git2::Object<'r>, String> {
        let oid = native::oid_parse(self.oid.as_str())?;
        native::repo_find_object(&self.repo, oid)
    }

    /// Get the id (SHA1) of a repository object.
    pub fn id(&self) -> (r: String)
        ensures
            r@ == self.oid_spec(),
    {
        self.oid.clone()
    }

    /// Get the type of the object.
    pub fn kind(&self) -> Option<ObjectType> {
        match self.native_object() {
            Ok(object) => native::object_kind(&object),
            Err(_) => None,
        }
    }

    /// Recursively peel an object until an object of the specified type is
    /// met.
    ///
    /// If you pass `Any` as the target type, then the object will be peeled
    /// until the type changes (e.g. a tag will be chased until the referenced
    /// object is no longer a tag). The handle returned shares this handle's
    /// root.
    pub fn peel(&self, kind: ObjectType) -> (r: Result<GitObject, GitError>)
        ensures
            r matches Ok(o) ==> o.root() == self.root(),
            r matches Err(e) ==> exists|reason: Seq<char>|
                e@ == contextual_message("Peel object failed"@, reason),
    {
        let object = match self.native_object() {
            Ok(object) => object,
            Err(reason) => {
                return Err(GitError::contextual("Peel object failed", reason.as_str()));
            },
        };
        match native::object_peel(&object, &kind) {
            Ok(peeled) => {
                let id = native::object_id_hex(&peeled);
                Ok(GitObject::from_root(self.repo.clone(), id))
            },
            Err(reason) => Err(GitError::contextual("Peel object failed", reason.as_str())),
        }
    }
}

} // verus!
