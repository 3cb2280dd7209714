//! Trees and tree entries.
//!
//! A tree is an immutable object, so whichever ancestor a tree handle was
//! derived from — the repository, a reference, or a commit — the derivation
//! path always ends in the tree's object id. A [`Tree`] handle therefore
//! uniformly retains the repository root plus that id, and every accessor
//! resolves the id anew. A [`TreeEntry`] is an owned-by-value snapshot of one
//! entry, which also retains the root so the object it points to can be
//! loaded later.

use std::rc::Rc;
use vstd::prelude::*;

use crate::error::{GitError, bare_message};
use crate::native;
use crate::object::GitObject;
use crate::repo::Repository;
use crate::text::contains_nul_char;

verus! {

/// A shared-derived handle to a tree: the repository root it retains, plus
/// the tree's object id in hex form.
pub struct Tree {
    pub(crate) repo: Rc<git2::Repository>,
    pub(crate) oid: String,
}

impl Tree {
    /// The native root this handle retains.
    pub closed spec fn root(self) -> Rc<git2::Repository> {
        self.repo
    }

    /// The tree's object id, in hex form.
    pub closed spec fn oid_spec(self) -> Seq<char> {
        self.oid@
    }

    pub(crate) fn from_root(repo: Rc<git2::Repository>, oid: String) -> (t: Tree)
        ensures
            t.root() == repo,
            t.oid_spec() == oid@,
    {
        Tree { repo, oid }
    }

    /// Resolve this handle to the native tree it names.
    pub(crate) fn native_tree<'r>(&'r self) -> Result<git2::Tree<'r>, String> {
        let oid = native::oid_parse(self.oid.as_str())?;
        native::repo_find_tree(&self.repo, oid)
    }

    /// Get the id (SHA1) of a repository object.
    pub fn id(&self) -> (r: String)
        ensures
            r@ == self.oid_spec(),
    {
        self.oid.clone()
    }

    /// Get the number of entries listed in a tree.
    pub fn len(&self) -> (r: Result<u64, GitError>)
        ensures
            r matches Err(e) ==> exists|reason: Seq<char>| e@ == bare_message(reason),
    {
        match self.native_tree() {
            Ok(tree) => Ok(native::tree_len(&tree) as u64),
            Err(reason) => Err(GitError::bare(reason.as_str())),
        }
    }

    /// Return `true` if there is no entry.
    pub fn is_empty(&self) -> (r: Result<bool, GitError>)
        ensures
            r matches Err(e) ==> exists|reason: Seq<char>| e@ == bare_message(reason),
    {
        match self.len() {
            Ok(n) => Ok(n == 0),
            Err(e) => Err(e),
        }
    }

    /// Returns a cursor over the entries in this tree.
    ///
    /// The cursor is single-pass: it yields each entry once, by position, and
    /// then yields nothing forever.
    pub fn iter(&self) -> (r: TreeIter)
        ensures
            r.tree_root() == self.root(),
            !r.is_done(),
            r.pos() == 0,
    {
        TreeIter { tree: Tree { repo: self.repo.clone(), oid: self.oid.clone() }, index: 0, done: false }
    }

    /// Lookup a tree entry by SHA value.
    pub fn get_id(&self, id: String) -> (r: Option<TreeEntry>)
        ensures
            r matches Some(e) ==> e.root() == self.root(),
    {
        let oid = match native::oid_parse(id.as_str()) {
            Ok(oid) => oid,
            Err(_) => {
                return None;
            },
        };
        let tree = match self.native_tree() {
            Ok(tree) => tree,
            Err(_) => {
                return None;
            },
        };
        let r = match native::tree_entry_by_oid(&tree, oid) {
            Some(entry) => Some(TreeEntry::snapshot(self.repo.clone(), &entry)),
            None => None,
        };
        r
    }

    /// Lookup a tree entry by its position in the tree.
    pub fn get(&self, index: u32) -> (r: Option<TreeEntry>)
        ensures
            r matches Some(e) ==> e.root() == self.root(),
    {
        let tree = match self.native_tree() {
            Ok(tree) => tree,
            Err(_) => {
                return None;
            },
        };
        let r = match native::tree_entry_by_index(&tree, index as usize) {
            Some(entry) => Some(TreeEntry::snapshot(self.repo.clone(), &entry)),
            None => None,
        };
        r
    }

    /// Lookup a tree entry by its filename. A filename with a NUL character
    /// cannot exist in a tree, so the lookup finds nothing for one.
    pub fn get_name(&self, name: String) -> (r: Option<TreeEntry>)
        ensures
            r matches Some(e) ==> e.root() == self.root(),
    {
        if contains_nul_char(name.as_str()) {
            return None;
        }
        let tree = match self.native_tree() {
            Ok(tree) => tree,
            Err(_) => {
                return None;
            },
        };
        let r = match native::tree_entry_by_name(&tree, name.as_str()) {
            Some(entry) => Some(TreeEntry::snapshot(self.repo.clone(), &entry)),
            None => None,
        };
        r
    }

    /// Lookup a tree entry by a slash-separated path, descending into
    /// subtrees.
    pub fn get_path(&self, name: String) -> (r: Option<TreeEntry>)
        ensures
            r matches Some(e) ==> e.root() == self.root(),
    {
        let tree = match self.native_tree() {
            Ok(tree) => tree,
            Err(_) => {
                return None;
            },
        };
        match native::tree_entry_by_path(&tree, name.as_str()) {
            Ok(entry) => Some(TreeEntry::snapshot(self.repo.clone(), &entry)),
            Err(_) => None,
        }
    }
}

/// A single-pass cursor over the entries of a tree, by position.
///
/// Once the cursor has yielded nothing it stays exhausted: a later call
/// cannot restart it.
pub struct TreeIter {
    tree: Tree,
    index: usize,
    done: bool,
}

impl TreeIter {
    /// The root retained by the tree this cursor walks.
    pub closed spec fn tree_root(self) -> Rc<git2::Repository> {
        self.tree.root()
    }

    /// Whether the cursor is exhausted.
    pub closed spec fn is_done(self) -> bool {
        self.done
    }

    /// How many positions the cursor has yielded.
    pub closed spec fn pos(self) -> int {
        self.index as int
    }

    /// The next entry of the tree, or nothing forever once the tree's entries
    /// (as resolved at each call) are exhausted.
    pub fn next(&mut self) -> (r: Option<TreeEntry>)
        ensures
            old(self).is_done() ==> r is None,
            r is None ==> final(self).is_done(),
            r matches Some(e) ==> {
                &&& e.root() == old(self).tree_root()
                &&& final(self).pos() == old(self).pos() + 1
                &&& !final(self).is_done()
            },
            final(self).is_done() == (old(self).is_done() || r is None),
            final(self).tree_root() == old(self).tree_root(),
    {
        if self.done {
            return None;
        }
        let tree = match self.tree.native_tree() {
            Ok(tree) => tree,
            Err(_) => {
                self.done = true;
                return None;
            },
        };
        if self.index == usize::MAX {
            self.done = true;
            return None;
        }
        let r = match native::tree_entry_by_index(&tree, self.index) {
            Some(entry) => {
                self.index = self.index + 1;
                Some(TreeEntry::snapshot(self.tree.repo.clone(), &entry))
            },
            None => {
                self.done = true;
                None
            },
        };
        r
    }
}

/// An owned-by-value snapshot of one tree entry: the id of the object it
/// points to, its filename, and the repository root it was read from.
pub struct TreeEntry {
    pub(crate) repo: Rc<git2::Repository>,
    pub(crate) id: String,
    pub(crate) name: Option<String>,
    pub(crate) name_raw: Vec<u8>,
}

impl TreeEntry {
    /// The native root this snapshot retains.
    pub closed spec fn root(self) -> Rc<git2::Repository> {
        self.repo
    }

    /// The pointed-to object's id, in hex form.
    pub closed spec fn id_spec(self) -> Seq<char> {
        self.id@
    }

    pub(crate) fn snapshot(repo: Rc<git2::Repository>, entry: &git2::TreeEntry<'_>) -> (r:
        TreeEntry)
        ensures
            r.root() == repo,
    {
        let id = native::entry_id_hex(entry);
        let name = native::entry_name(entry);
        let name_raw = native::entry_name_bytes(entry);
        TreeEntry { repo, id, name, name_raw }
    }

    /// Get the id of the object pointed to by the entry.
    pub fn id(&self) -> (r: String)
        ensures
            r@ == self.id_spec(),
    {
        self.id.clone()
    }

    /// Get the name of a tree entry.
    ///
    /// Fails when the filename is not valid text.
    pub fn name(&self) -> (r: Result<String, GitError>)
        ensures
            r matches Err(e) ==> e@ == "Invalid utf-8"@,
    {
        match &self.name {
            Some(name) => Ok(name.clone()),
            None => Err(GitError::from_message(String::from_str("Invalid utf-8"))),
        }
    }

    /// Get the filename of a tree entry, as bytes.
    pub fn name_bytes(&self) -> Vec<u8> {
        self.name_raw.clone()
    }

    /// Convert a tree entry to the object it points to, loaded from the given
    /// repository.
    pub fn to_object(&self, repo: &Repository) -> (r: Result<GitObject, GitError>)
        ensures
            r matches Ok(o) ==> o.root() == repo.root(),
            r matches Err(e) ==> exists|reason: Seq<char>| e@ == bare_message(reason),
    {
        let oid = match native::oid_parse(self.id.as_str()) {
            Ok(oid) => oid,
            Err(reason) => {
                return Err(GitError::bare(reason.as_str()));
            },
        };
        let root = repo.clone_root();
        let r = match native::repo_find_object(&root, oid) {
            Ok(object) => {
                let id = native::object_id_hex(&object);
                Ok(GitObject::from_root(repo.clone_root(), id))
            },
            Err(reason) => Err(GitError::bare(reason.as_str())),
        };
        r
    }
}

} // verus!
