//! Verified core of a Git binding library.
//!
//! The heavy lifting — object storage, diffing, revision walking — is done by
//! the `git2` crate, reached only through trusted declarations whose contracts
//! state what the native calls return. Everything around those calls — handle
//! derivation, error normalization, single-use builders, the repository
//! registry, and the file-history query — is verified.
//!
//! The design that recurs across the library is an ownership bridge between
//! the native library's borrowed-reference graph and long-lived handles. An
//! owned-root handle ([`Repository`]) owns the native repository through a
//! strong reference. A shared-derived handle (commit, tree, reference, tag,
//! object, diff, remote) retains its own strong reference to the same root
//! plus plain derivation data — an object id, a reference or remote name —
//! and resolves that data against the root anew on each use. Native values
//! that borrow from the repository only ever live inside one call, so no
//! handle can outlive what it borrows from, and a derived handle stays usable
//! after every handle it was derived through is dropped; each derivation's
//! contract states that the roots are shared. Derivations whose path from the
//! root is not a stable name — a commit's i-th parent, a peeled object — are
//! pinned to the immutable object id they resolved to, which plays the role
//! of an owned-by-value promotion.

pub mod blob;
pub mod cache;
pub mod commit;
pub mod deltas;
pub mod diff;
pub mod error;
pub mod history;
mod native;
pub mod object;
pub mod reference;
pub mod remote;
pub mod repo;
pub mod repo_builder;
pub mod rev_walk;
pub mod signature;
pub mod tag;
pub mod text;
pub mod tree;

pub use blob::Blob;
pub use cache::RepoCache;
pub use commit::Commit;
pub use deltas::{Delta, Deltas, DiffDelta, DiffFile, DiffFlags, FileMode};
pub use diff::{Diff, DiffOptions};
pub use error::GitError;
pub use object::{GitObject, ObjectType};
pub use reference::{Reference, ReferenceType};
pub use remote::{
    AutotagOption, Cred, CredInfo, CredentialType, Direction, FetchOptions, FetchPrune, Progress,
    ProxyOptions, PushTransferProgress, Remote, RemoteCallbacks, RemoteRedirect, RemoteUpdateFlags,
    cred_type_contains,
};
pub use repo_builder::{CloneLocal, RepoBuilder};
pub use repo::{Repository, RepositoryOpenFlags, RepositoryState};
pub use rev_walk::{RevWalk, Sort};
pub use signature::Signature;
pub use tag::Tag;
pub use tree::{Tree, TreeEntry, TreeIter};
