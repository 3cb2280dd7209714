//! Named pointers into the repository, such as branches, tags and HEAD.
//!
//! A [`Reference`] handle is an owning snapshot tied to a reference name: it
//! retains the repository root and resolves the name against it anew on each
//! use, so the handle stays valid however long it is kept, and reports the
//! reference's current state.

use std::rc::Rc;
use vstd::prelude::*;

use crate::error::{GitError, bare_message};
use crate::native;
use crate::tree::Tree;

verus! {

/// An enumeration of all possible kinds of references.
#[derive(Clone, Copy, PartialEq, Eq, Structural, Debug)]
pub enum ReferenceType {
    /// A reference which points at an object id.
    Direct,
    /// A reference which points at another reference.
    Symbolic,
    Unknown,
}

/// A shared-derived handle to a named reference: the repository root it
/// retains, plus the full reference name it is resolved by.
pub struct Reference {
    pub(crate) repo: Rc<git2::Repository>,
    pub(crate) name: String,
}

impl Reference {
    /// The native root this handle retains.
    pub closed spec fn root(self) -> Rc<git2::Repository> {
        self.repo
    }

    /// The full name this handle is resolved by.
    pub closed spec fn name_spec(self) -> Seq<char> {
        self.name@
    }

    /// Ensure the reference name is well-formed.
    ///
    /// Validation is performed as if `ALLOW_ONELEVEL` normalization was
    /// requested; no normalization is performed, however. `HEAD` and
    /// `refs/heads/main` are well-formed; `main`, `refs/heads/*` and
    /// `foo//bar` are not.
    pub fn is_valid_name(name: String) -> (r: bool)
        ensures
            r == native::ref_name_valid(name@),
    {
        native::ref_is_valid_name(name.as_str())
    }

    pub(crate) fn from_root(repo: Rc<git2::Repository>, name: String) -> (r: Reference)
        ensures
            r.root() == repo,
            r.name_spec() == name@,
    {
        Reference { repo, name }
    }

    /// Resolve this handle to the native reference it names.
    fn native_ref<'r>(&'r self) -> Result<git2::Reference<'r>, String> {
        native::repo_find_reference(&self.repo, self.name.as_str())
    }

    /// Check if a reference is a local branch.
    pub fn is_branch(&self) -> (r: Result<bool, GitError>)
        ensures
            r matches Err(e) ==> exists|reason: Seq<char>| e@ == bare_message(reason),
    {
        match self.native_ref() {
            Ok(reference) => Ok(native::ref_is_branch(&reference)),
            Err(reason) => Err(GitError::bare(reason.as_str())),
        }
    }

    /// Check if a reference is a note.
    pub fn is_note(&self) -> (r: Result<bool, GitError>)
        ensures
            r matches Err(e) ==> exists|reason: Seq<char>| e@ == bare_message(reason),
    {
        match self.native_ref() {
            Ok(reference) => Ok(native::ref_is_note(&reference)),
            Err(reason) => Err(GitError::bare(reason.as_str())),
        }
    }

    /// Check if a reference is a remote tracking branch.
    pub fn is_remote(&self) -> (r: Result<bool, GitError>)
        ensures
            r matches Err(e) ==> exists|reason: Seq<char>| e@ == bare_message(reason),
    {
        match self.native_ref() {
            Ok(reference) => Ok(native::ref_is_remote(&reference)),
            Err(reason) => Err(GitError::bare(reason.as_str())),
        }
    }

    /// Check if a reference is a tag.
    pub fn is_tag(&self) -> (r: Result<bool, GitError>)
        ensures
            r matches Err(e) ==> exists|reason: Seq<char>| e@ == bare_message(reason),
    {
        match self.native_ref() {
            Ok(reference) => Ok(native::ref_is_tag(&reference)),
            Err(reason) => Err(GitError::bare(reason.as_str())),
        }
    }

    /// The kind of the reference: direct, symbolic, or unknown.
    pub fn kind(&self) -> (r: Result<ReferenceType, GitError>)
        ensures
            r matches Err(e) ==> exists|reason: Seq<char>| e@ == bare_message(reason),
    {
        match self.native_ref() {
            Ok(reference) => Ok(native::ref_kind(&reference)),
            Err(reason) => Err(GitError::bare(reason.as_str())),
        }
    }

    /// Get the full name of a reference.
    ///
    /// Returns `None` if the name is not valid text or the reference is gone.
    pub fn name(&self) -> Option<String> {
        match self.native_ref() {
            Ok(reference) => native::ref_name(&reference),
            Err(_) => None,
        }
    }

    /// Get the full shorthand of a reference.
    ///
    /// This transforms the reference name into a "human-readable" version; if
    /// no shortname is appropriate, the full name is returned.
    ///
    /// Returns `None` if the shorthand is not valid text.
    pub fn shorthand(&self) -> Option<String> {
        match self.native_ref() {
            Ok(reference) => native::ref_shorthand(&reference),
            Err(_) => None,
        }
    }

    /// Get the id pointed to by a direct reference.
    ///
    /// Only available if the reference is direct (i.e. an object id
    /// reference, not a symbolic one).
    pub fn target(&self) -> Option<String> {
        match self.native_ref() {
            Ok(reference) => native::ref_target(&reference),
            Err(_) => None,
        }
    }

    /// Return the peeled id target of this reference.
    ///
    /// This peeled id only applies to direct references that point to a hard
    /// Tag object: it is the result of peeling such a Tag.
    pub fn target_peel(&self) -> Option<String> {
        match self.native_ref() {
            Ok(reference) => native::ref_target_peel(&reference),
            Err(_) => None,
        }
    }

    /// Get full name to the reference pointed to by a symbolic reference.
    ///
    /// May return `None` if the reference is either not symbolic or not
    /// valid text.
    pub fn symbolic_target(&self) -> Option<String> {
        match self.native_ref() {
            Ok(reference) => native::ref_symbolic_target(&reference),
            Err(_) => None,
        }
    }

    /// Peel a reference to a tree.
    ///
    /// This method recursively peels the reference until it reaches a tree,
    /// and hands back a tree handle retaining the same root as this one.
    pub fn peel_to_tree(&self) -> (r: Result<Tree, GitError>)
        ensures
            r matches Ok(t) ==> t.root() == self.root(),
            r matches Err(e) ==> exists|reason: Seq<char>| e@ == bare_message(reason),
    {
        let reference = match self.native_ref() {
            Ok(reference) => reference,
            Err(reason) => {
                return Err(GitError::bare(reason.as_str()));
            },
        };
        match native::ref_peel_to_tree(&reference) {
            Ok(tree) => {
                let oid = native::tree_id_hex(&tree);
                Ok(Tree::from_root(self.repo.clone(), oid))
            },
            Err(reason) => Err(GitError::bare(reason.as_str())),
        }
    }

    /// Resolve a symbolic reference to a direct reference.
    ///
    /// This method iteratively peels a symbolic reference until it resolves
    /// to a direct reference to an id.
    ///
    /// If a direct reference is named, a fresh handle to that same reference
    /// is returned. The new handle shares this handle's root.
    pub fn resolve(&self) -> (r: Result<Reference, GitError>)
        ensures
            r matches Ok(res) ==> res.root() == self.root(),
            r matches Err(e) ==> exists|reason: Seq<char>| e@ == bare_message(reason),
    {
        let reference = match self.native_ref() {
            Ok(reference) => reference,
            Err(reason) => {
                return Err(GitError::bare(reason.as_str()));
            },
        };
        let resolved = match native::ref_resolve(&reference) {
            Ok(resolved) => resolved,
            Err(reason) => {
                return Err(GitError::bare(reason.as_str()));
            },
        };
        match native::ref_name(&resolved) {
            Some(name) => Ok(Reference { repo: self.repo.clone(), name }),
            None => Err(GitError::bare(NAME_NOT_TEXT_MESSAGE)),
        }
    }

    /// Rename an existing reference.
    ///
    /// This method works for both direct and symbolic references.
    ///
    /// If the force flag is not enabled, and there's already a reference with
    /// the given name, the renaming will fail. The handle returned names the
    /// renamed reference and shares this handle's root.
    pub fn rename(&mut self, new_name: String, force: bool, msg: String) -> (r: Result<
        Reference,
        GitError,
    >)
        ensures
            r matches Ok(res) ==> res.root() == old(self).root(),
            final(self).root() == old(self).root(),
            r matches Err(e) ==> exists|reason: Seq<char>| e@ == bare_message(reason),
    {
        let mut reference = match self.native_ref() {
            Ok(reference) => reference,
            Err(reason) => {
                return Err(GitError::bare(reason.as_str()));
            },
        };
        let renamed = match native::ref_rename(
            &mut reference,
            new_name.as_str(),
            force,
            msg.as_str(),
        ) {
            Ok(renamed) => renamed,
            Err(reason) => {
                return Err(GitError::bare(reason.as_str()));
            },
        };
        match native::ref_name(&renamed) {
            Some(name) => Ok(Reference { repo: self.repo.clone(), name }),
            None => Err(GitError::bare(NAME_NOT_TEXT_MESSAGE)),
        }
    }
}

/// The native reason reported when a reference's name cannot be read back as
/// text.
pub const NAME_NOT_TEXT_MESSAGE: &'static str = "reference name is not valid utf-8";

} // verus!
