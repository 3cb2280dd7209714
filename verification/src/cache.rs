//! A registry of opened repositories, keyed by path.
//!
//! The registry avoids reopening the same on-disk repository when only a path
//! string is at hand: the first lookup of a path opens the repository and
//! stores the handle, and every later lookup of the same path (used verbatim
//! as the key, not canonicalized) hands back a handle sharing the same native
//! root. Entries are never evicted. A failed open leaves the registry
//! unchanged and is reported to the caller. The registry is an explicit
//! value with no process-global state, so each user — or test — can hold its
//! own; a host that shares one across threads must put it behind its own
//! lock.

use std::rc::Rc;
use vstd::prelude::*;

use crate::error::GitError;
use crate::repo::{Repository, open_failed_message};

verus! {

/// The registry: opened repositories by the path they were opened from.
pub struct RepoCache {
    entries: Vec<(String, Repository)>,
}

impl RepoCache {
    /// How many repositories the registry holds.
    pub closed spec fn cache_len(self) -> int {
        self.entries@.len() as int
    }

    /// Whether a path has an entry.
    pub closed spec fn contains_path(self, path: Seq<char>) -> bool {
        exists|i: int|
            0 <= i < self.entries@.len() && self.entries@[i].0@ == path
    }

    /// The position of a path's entry.
    pub closed spec fn index_of(self, path: Seq<char>) -> int {
        choose|i: int| 0 <= i < self.entries@.len() && self.entries@[i].0@ == path
    }

    /// The native root stored for a path (meaningful when the path has an
    /// entry).
    pub closed spec fn root_for(self, path: Seq<char>) -> Rc<git2::Repository> {
        self.entries@[self.index_of(path)].1.root()
    }

    /// Well-formed: at most one entry per path.
    pub closed spec fn wf(self) -> bool {
        forall|i: int, j: int|
            0 <= i < j < self.entries@.len() ==> self.entries@[i].0@ != self.entries@[j].0@
    }

    /// An empty registry.
    pub fn new() -> (r: RepoCache)
        ensures
            r.wf(),
            r.cache_len() == 0,
            forall|path: Seq<char>| !r.contains_path(path),
    {
        RepoCache { entries: Vec::new() }
    }

    /// How many repositories the registry holds.
    pub fn len(&self) -> (r: usize)
        ensures
            r as int == self.cache_len(),
    {
        self.entries.len()
    }

    /// Look the path up; open and store the repository on the first lookup.
    ///
    /// A lookup of a path the registry holds always succeeds: it leaves the
    /// registry unchanged and hands back a handle rooted at the stored native
    /// repository — the handle a second lookup of the same path gets is
    /// rooted at the same instance as the first one's. A miss
    /// opens the repository, stores it under the path, and hands back a
    /// handle rooted at the stored instance. A failed open leaves the
    /// registry unchanged and reports the error, naming the path and the
    /// native reason.
    pub fn get_or_open(&mut self, path: String) -> (r: Result<Repository, GitError>)
        requires
            old(self).wf(),
        ensures
            final(self).wf(),
            r matches Ok(h) ==> final(self).contains_path(path@)
                && h.root() == final(self).root_for(path@),
            old(self).contains_path(path@) ==> *final(self) == *old(self) && r is Ok,
            r is Ok && !old(self).contains_path(path@)
                ==> final(self).cache_len() == old(self).cache_len() + 1,
            r matches Err(e) ==> *final(self) == *old(self) && exists|reason: Seq<char>|
                e@ == open_failed_message(path@, reason),
    {
        let n = self.entries.len();
        let mut i: usize = 0;
        while i < n
            invariant
                n == self.entries@.len(),
                0 <= i <= n,
                self.wf(),
                *self == *old(self),
                forall|k: int| 0 <= k < i ==> self.entries@[k].0@ != path@,
            decreases n - i,
        {
            if self.entries[i].0 == path {
                let handle = self.entries[i].1.share();
                proof {
                    assert(self.contains_path(path@));
                    let j = self.index_of(path@);
                    assert(0 <= j < self.entries@.len() && self.entries@[j].0@ == path@);
                    assert(j == i as int);
                }
                return Ok(handle);
            }
            i = i + 1;
        }
        proof {
            assert(!old(self).contains_path(path@));
        }
        let opened = match Repository::new(path.clone()) {
            Ok(opened) => opened,
            Err(e) => {
                return Err(e);
            },
        };
        let handle = opened.share();
        self.entries.push((path, opened));
        proof {
            let len = self.entries@.len() as int;
            assert(self.entries@[len - 1].0@ == path@);
            assert(self.contains_path(path@));
            let j = self.index_of(path@);
            assert(0 <= j < len && self.entries@[j].0@ == path@);
            assert forall|k: int| 0 <= k < len - 1 implies self.entries@[k].0@ != path@ by {
                assert(self.entries@[k] == old(self).entries@[k]);
            }
            assert(j == len - 1);
        }
        Ok(handle)
    }
}

} // verus!
