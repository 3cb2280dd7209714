//! Trusted boundary with the native `git2` library.
//!
//! Every item here either declares a `git2` type so that verified code can
//! hold values of it, or wraps one native call behind a contract that Verus
//! believes. Fallible wrappers hand back the native error text as a plain
//! string; turning that text into a [`crate::GitError`] is verified code.
//!
//! Native values that borrow from the repository (commits, trees, references,
//! diffs, walkers) only ever live as locals of a verified function, borrowed
//! out of the `Rc` that an owned-root handle keeps alive; the handles that the
//! library hands out store the root plus plain derivation data instead.

use git2::Blob as NativeBlob;
use git2::Commit as NativeCommit;
use git2::Cred as NativeCred;
use git2::Diff as NativeDiff;
use git2::DiffDelta as NativeDiffDelta;
use git2::DiffFile as NativeDiffFile;
use git2::Error as NativeError;
use git2::FetchOptions as NativeFetchOptions;
use git2::Object as NativeObject;
use git2::Oid as NativeOid;
use git2::ProxyOptions as NativeProxyOptions;
use git2::Reference as NativeReference;
use git2::Remote as NativeRemote;
use git2::RemoteCallbacks as NativeRemoteCallbacks;
use git2::Repository as NativeRepository;
use git2::Revwalk as NativeRevwalk;
use git2::Signature as NativeSignature;
use git2::Tag as NativeTag;
use git2::Tree as NativeTree;
use git2::TreeEntry as NativeTreeEntry;
use git2::build::RepoBuilder as NativeRepoBuilder;
use std::rc::Rc;
use vstd::prelude::*;

use crate::deltas::{Delta, FileMode};
use crate::remote::{AutotagOption, CredInfo, CredentialType, FetchPrune, Progress, PushTransferProgress, RemoteRedirect};
use crate::repo_builder::CloneLocal;
use crate::object::ObjectType;
use crate::reference::ReferenceType;
use crate::repo::{RepositoryOpenFlags, RepositoryState};
use crate::text::has_nul_char;

verus! {

#[verifier::external_type_specification]
#[verifier::external_body]
pub struct ExRepository(NativeRepository);

#[verifier::external_type_specification]
#[verifier::external_body]
pub struct ExOid(NativeOid);

#[verifier::external_type_specification]
#[verifier::external_body]
pub struct ExError(NativeError);

#[verifier::external_type_specification]
#[verifier::external_body]
pub struct ExCommit<'a>(NativeCommit<'a>);

#[verifier::external_type_specification]
#[verifier::external_body]
pub struct ExTree<'a>(NativeTree<'a>);

#[verifier::external_type_specification]
#[verifier::external_body]
pub struct ExTreeEntry<'a>(NativeTreeEntry<'a>);

#[verifier::external_type_specification]
#[verifier::external_body]
pub struct ExObject<'a>(NativeObject<'a>);

#[verifier::external_type_specification]
#[verifier::external_body]
pub struct ExReference<'a>(NativeReference<'a>);

#[verifier::external_type_specification]
#[verifier::external_body]
pub struct ExTag<'a>(NativeTag<'a>);

#[verifier::external_type_specification]
#[verifier::external_body]
pub struct ExBlob<'a>(NativeBlob<'a>);

#[verifier::external_type_specification]
#[verifier::external_body]
pub struct ExDiff<'a>(NativeDiff<'a>);

#[verifier::external_type_specification]
#[verifier::external_body]
pub struct ExDiffDelta<'a>(NativeDiffDelta<'a>);

#[verifier::external_type_specification]
#[verifier::external_body]
pub struct ExDiffFile<'a>(NativeDiffFile<'a>);

#[verifier::external_type_specification]
#[verifier::external_body]
pub struct ExRevwalk<'a>(NativeRevwalk<'a>);

#[verifier::external_type_specification]
#[verifier::external_body]
pub struct ExRemote<'a>(NativeRemote<'a>);

#[verifier::external_type_specification]
#[verifier::external_body]
pub struct ExSignature<'a>(NativeSignature<'a>);

#[verifier::external_type_specification]
#[verifier::external_body]
pub struct ExCred(NativeCred);

#[verifier::external_type_specification]
#[verifier::external_body]
pub struct ExFetchOptions<'a>(NativeFetchOptions<'a>);

#[verifier::external_type_specification]
#[verifier::external_body]
pub struct ExProxyOptions<'a>(NativeProxyOptions<'a>);

#[verifier::external_type_specification]
#[verifier::external_body]
pub struct ExRemoteCallbacks<'a>(NativeRemoteCallbacks<'a>);

#[verifier::external_type_specification]
#[verifier::external_body]
pub struct ExRepoBuilder<'a>(NativeRepoBuilder<'a>);

// ---------------------------------------------------------------------------
// Object ids
// ---------------------------------------------------------------------------

/// The lower-case form of a hex digit; any other character is unchanged.
pub open spec fn lower_hex_char(c: char) -> char {
    if c == 'A' {
        'a'
    } else if c == 'B' {
        'b'
    } else if c == 'C' {
        'c'
    } else if c == 'D' {
        'd'
    } else if c == 'E' {
        'e'
    } else if c == 'F' {
        'f'
    } else {
        c
    }
}

/// The canonical form of the object id a hex text names: its digits lowered,
/// padded with zeros to the full forty.
pub open spec fn canonical_oid(s: Seq<char>) -> Seq<char> {
    Seq::new(40, |i: int| if i < s.len() { lower_hex_char(s[i]) } else { '0' })
}

/// Relies on git2::Oid::from_str: parses a hex object id of at most forty
/// digits, padding a shorter one with zeros, and fails on anything else.
#[verifier::external_body]
pub(crate) fn oid_parse(s: &str) -> Result<git2::Oid, String> {
    git2::Oid::from_str(s).map_err(|e| e.message().to_string())
}

/// Relies on git2::Oid::from_str and its display: parsing lowers the hex
/// digits and zero-fills the bytes the text leaves open, and the display
/// always writes the full forty digits back out.
#[verifier::external_body]
pub(crate) fn oid_canonical(s: &str) -> (r: Result<String, String>)
    ensures
        r matches Ok(c) ==> c@ == canonical_oid(s@),
{
    match git2::Oid::from_str(s) {
        Ok(oid) => Ok(oid.to_string()),
        Err(e) => Err(e.message().to_string()),
    }
}

/// Relies on git2::Oid's display: the forty-digit hex form of the id.
#[verifier::external_body]
pub(crate) fn oid_hex(oid: &git2::Oid) -> String {
    oid.to_string()
}

// ---------------------------------------------------------------------------
// Opening repositories
// ---------------------------------------------------------------------------

/// Relies on git2::Repository::init: creates a repository at the path.
#[verifier::external_body]
pub(crate) fn repo_init(path: &str) -> Result<git2::Repository, String> {
    git2::Repository::init(path).map_err(|e| e.message().to_string())
}

/// Relies on git2::Repository::init_bare: creates a bare repository.
#[verifier::external_body]
pub(crate) fn repo_init_bare(path: &str) -> Result<git2::Repository, String> {
    git2::Repository::init_bare(path).map_err(|e| e.message().to_string())
}

/// Relies on git2::Repository::open: opens an existing repository.
#[verifier::external_body]
pub(crate) fn repo_open(path: &str) -> Result<git2::Repository, String> {
    git2::Repository::open(path).map_err(|e| e.message().to_string())
}

/// Relies on git2::Repository::open_ext: opens with one search option and a
/// list of ceiling directories.
#[verifier::external_body]
pub(crate) fn repo_open_ext(
    path: &str,
    flags: &RepositoryOpenFlags,
    ceiling_dirs: &Vec<String>,
) -> Result<git2::Repository, String> {
    let native_flags = match flags {
        RepositoryOpenFlags::NoSearch => git2::RepositoryOpenFlags::NO_SEARCH,
        RepositoryOpenFlags::CrossFS => git2::RepositoryOpenFlags::CROSS_FS,
        RepositoryOpenFlags::Bare => git2::RepositoryOpenFlags::BARE,
        RepositoryOpenFlags::NoDotGit => git2::RepositoryOpenFlags::NO_DOTGIT,
        RepositoryOpenFlags::FromEnv => git2::RepositoryOpenFlags::FROM_ENV,
    };
    git2::Repository::open_ext(path, native_flags, ceiling_dirs)
        .map_err(|e| e.message().to_string())
}

/// Relies on git2::Repository::discover: walks up from the path until it
/// finds a repository.
#[verifier::external_body]
pub(crate) fn repo_discover(path: &str) -> Result<git2::Repository, String> {
    git2::Repository::discover(path).map_err(|e| e.message().to_string())
}

/// Relies on git2::Repository::clone: clones the remote at the url.
#[verifier::external_body]
pub(crate) fn repo_clone(url: &str, path: &str) -> Result<git2::Repository, String> {
    git2::Repository::clone(url, path).map_err(|e| e.message().to_string())
}

/// Relies on git2::Repository::clone_recurse: clones and updates submodules.
#[verifier::external_body]
pub(crate) fn repo_clone_recurse(url: &str, path: &str) -> Result<git2::Repository, String> {
    git2::Repository::clone_recurse(url, path).map_err(|e| e.message().to_string())
}

// ---------------------------------------------------------------------------
// Repository accessors
// ---------------------------------------------------------------------------

/// Relies on git2::Repository::is_shallow: tests for a shallow clone.
#[verifier::external_body]
pub(crate) fn repo_is_shallow(repo: &Rc<git2::Repository>) -> bool {
    repo.is_shallow()
}

/// Relies on git2::Repository::is_empty: tests whether the repository has no
/// references.
#[verifier::external_body]
pub(crate) fn repo_is_empty(repo: &Rc<git2::Repository>) -> Result<bool, String> {
    repo.is_empty().map_err(|e| e.message().to_string())
}

/// Relies on git2::Repository::is_worktree: tests for a linked worktree.
#[verifier::external_body]
pub(crate) fn repo_is_worktree(repo: &Rc<git2::Repository>) -> bool {
    repo.is_worktree()
}

/// Relies on git2::Repository::path: the `.git` folder for normal
/// repositories, the repository itself for bare ones.
#[verifier::external_body]
pub(crate) fn repo_path(repo: &Rc<git2::Repository>) -> String {
    repo.path().to_string_lossy().into_owned()
}

/// Relies on git2::Repository::state: the operation the repository is in the
/// middle of, if any.
#[verifier::external_body]
pub(crate) fn repo_state(repo: &Rc<git2::Repository>) -> RepositoryState {
    match repo.state() {
        git2::RepositoryState::Clean => RepositoryState::Clean,
        git2::RepositoryState::Merge => RepositoryState::Merge,
        git2::RepositoryState::Revert => RepositoryState::Revert,
        git2::RepositoryState::RevertSequence => RepositoryState::RevertSequence,
        git2::RepositoryState::CherryPick => RepositoryState::CherryPick,
        git2::RepositoryState::CherryPickSequence => RepositoryState::CherryPickSequence,
        git2::RepositoryState::Bisect => RepositoryState::Bisect,
        git2::RepositoryState::Rebase => RepositoryState::Rebase,
        git2::RepositoryState::RebaseInteractive => RepositoryState::RebaseInteractive,
        git2::RepositoryState::RebaseMerge => RepositoryState::RebaseMerge,
        git2::RepositoryState::ApplyMailbox => RepositoryState::ApplyMailbox,
        git2::RepositoryState::ApplyMailboxOrRebase => RepositoryState::ApplyMailboxOrRebase,
    }
}

/// Relies on git2::Repository::workdir: the working directory, absent for a
/// bare repository.
#[verifier::external_body]
pub(crate) fn repo_workdir(repo: &Rc<git2::Repository>) -> Option<String> {
    repo.workdir().map(|p| p.to_string_lossy().into_owned())
}

/// Relies on git2::Repository::set_workdir: points the repository at a new
/// working directory.
#[verifier::external_body]
pub(crate) fn repo_set_workdir(
    repo: &Rc<git2::Repository>,
    path: &str,
    update_gitlink: bool,
) -> Result<(), String> {
    repo.set_workdir(std::path::Path::new(path), update_gitlink)
        .map_err(|e| e.message().to_string())
}

/// Relies on git2::Repository::namespace: the active namespace, absent when
/// none is set or when it is not valid text.
#[verifier::external_body]
pub(crate) fn repo_namespace(repo: &Rc<git2::Repository>) -> Option<String> {
    match repo.namespace() {
        Ok(n) => n.map(|s| s.to_owned()),
        Err(_) => None,
    }
}

/// Relies on git2::Repository::set_namespace.
#[verifier::external_body]
pub(crate) fn repo_set_namespace(repo: &Rc<git2::Repository>, namespace: &str) -> Result<
    (),
    String,
> {
    repo.set_namespace(namespace).map_err(|e| e.message().to_string())
}

/// Relies on git2::Repository::remove_namespace.
#[verifier::external_body]
pub(crate) fn repo_remove_namespace(repo: &Rc<git2::Repository>) -> Result<(), String> {
    repo.remove_namespace().map_err(|e| e.message().to_string())
}

/// Relies on git2::Repository::remove_message: deletes the merge message.
#[verifier::external_body]
pub(crate) fn repo_remove_message(repo: &Rc<git2::Repository>) -> Result<(), String> {
    repo.remove_message().map_err(|e| e.message().to_string())
}

/// Relies on git2::Repository::remotes: the configured remote names, in the
/// order the native library lists them, each absent when not valid text.
#[verifier::external_body]
pub(crate) fn repo_remote_names(repo: &Rc<git2::Repository>) -> Result<
    Vec<Option<String>>,
    String,
> {
    match repo.remotes() {
        Ok(names) => Ok(names
            .iter()
            .map(|n| match n {
                Ok(Some(s)) => Some(s.to_owned()),
                _ => None,
            })
            .collect()),
        Err(e) => Err(e.message().to_string()),
    }
}

// ---------------------------------------------------------------------------
// Revision walking
// ---------------------------------------------------------------------------

/// Relies on git2::Repository::revwalk: a fresh walker over the commit graph.
#[verifier::external_body]
pub(crate) fn repo_revwalk<'r>(repo: &'r Rc<git2::Repository>) -> Result<
    git2::Revwalk<'r>,
    String,
> {
    repo.revwalk().map_err(|e| e.message().to_string())
}

/// Relies on git2::Revwalk::reset: allows re-configuring the walker.
#[verifier::external_body]
pub(crate) fn walk_reset(walk: &mut git2::Revwalk<'_>) -> Result<(), String> {
    walk.reset().map_err(|e| e.message().to_string())
}

/// Relies on git2::Revwalk::set_sorting, with the flag bits taken as the
/// native library defines them.
#[verifier::external_body]
pub(crate) fn walk_set_sorting(walk: &mut git2::Revwalk<'_>, bits: u32) -> Result<(), String> {
    walk.set_sorting(git2::Sort::from_bits_truncate(bits))
        .map_err(|e| e.message().to_string())
}

/// Relies on git2::Revwalk::simplify_first_parent.
#[verifier::external_body]
pub(crate) fn walk_simplify_first_parent(walk: &mut git2::Revwalk<'_>) -> Result<(), String> {
    walk.simplify_first_parent().map_err(|e| e.message().to_string())
}

/// Relies on git2::Revwalk::push: adds a root commit to the walk.
#[verifier::external_body]
pub(crate) fn walk_push(walk: &mut git2::Revwalk<'_>, oid: git2::Oid) -> Result<(), String> {
    walk.push(oid).map_err(|e| e.message().to_string())
}

/// Relies on git2::Revwalk::push_head.
#[verifier::external_body]
pub(crate) fn walk_push_head(walk: &mut git2::Revwalk<'_>) -> Result<(), String> {
    walk.push_head().map_err(|e| e.message().to_string())
}

/// Relies on git2::Revwalk::push_glob.
#[verifier::external_body]
pub(crate) fn walk_push_glob(walk: &mut git2::Revwalk<'_>, glob: &str) -> Result<(), String> {
    walk.push_glob(glob).map_err(|e| e.message().to_string())
}

/// Relies on git2::Revwalk::push_range.
#[verifier::external_body]
pub(crate) fn walk_push_range(walk: &mut git2::Revwalk<'_>, range: &str) -> Result<(), String> {
    walk.push_range(range).map_err(|e| e.message().to_string())
}

/// Relies on git2::Revwalk::push_ref.
#[verifier::external_body]
pub(crate) fn walk_push_ref(walk: &mut git2::Revwalk<'_>, reference: &str) -> Result<(), String> {
    walk.push_ref(reference).map_err(|e| e.message().to_string())
}

/// Relies on git2::Revwalk::hide: hides a commit and its ancestors.
#[verifier::external_body]
pub(crate) fn walk_hide<'r>(walk: &mut git2::Revwalk<'r>, oid: git2::Oid) -> Result<(), String> {
    let f: fn(&mut git2::Revwalk<'r>, git2::Oid) -> Result<(), git2::Error> = git2::Revwalk::hide;
    f(walk, oid).map_err(|e| e.message().to_string())
}

/// Relies on git2::Revwalk::hide_head.
#[verifier::external_body]
pub(crate) fn walk_hide_head(walk: &mut git2::Revwalk<'_>) -> Result<(), String> {
    walk.hide_head().map_err(|e| e.message().to_string())
}

/// Relies on git2::Revwalk::hide_glob.
#[verifier::external_body]
pub(crate) fn walk_hide_glob(walk: &mut git2::Revwalk<'_>, glob: &str) -> Result<(), String> {
    walk.hide_glob(glob).map_err(|e| e.message().to_string())
}

/// Relies on git2::Revwalk::hide_ref.
#[verifier::external_body]
pub(crate) fn walk_hide_ref(walk: &mut git2::Revwalk<'_>, reference: &str) -> Result<(), String> {
    walk.hide_ref(reference).map_err(|e| e.message().to_string())
}

/// Relies on git2::Revwalk::next (through Iterator): the next commit id in
/// the walk, or the error that stopped the walk, or nothing when the walk is
/// exhausted. An id is printed by the native display, which always writes the
/// full forty hex digits.
#[verifier::external_body]
pub(crate) fn walk_next(walk: &mut git2::Revwalk<'_>) -> (r: Option<Result<String, String>>)
    ensures
        r matches Some(Ok(oid)) ==> oid@.len() == 40,
{
    walk.next().map(|r| match r {
        Ok(oid) => Ok(oid.to_string()),
        Err(e) => Err(e.message().to_string()),
    })
}

/// Relies on git2::Signature::now: builds a signature stamped with the
/// current time and yields that timestamp in seconds from the epoch. The
/// result depends on the clock, so nothing is promised of it.
#[verifier::external_body]
pub(crate) fn signature_now_seconds(name: &str, email: &str) -> Result<i64, String> {
    match git2::Signature::now(name, email) {
        Ok(s) => Ok(s.when().seconds()),
        Err(e) => Err(e.message().to_string()),
    }
}

// ---------------------------------------------------------------------------
// References
// ---------------------------------------------------------------------------

/// What git2::Reference::is_valid_name returns: whether the text is a
/// well-formed reference name under the git reference-format rules.
pub uninterp spec fn ref_name_valid(name: Seq<char>) -> bool;

/// Relies on git2::Reference::is_valid_name: the result depends on the name
/// alone.
#[verifier::external_body]
pub(crate) fn ref_is_valid_name(name: &str) -> (r: bool)
    ensures
        r == ref_name_valid(name@),
{
    git2::Reference::is_valid_name(name)
}

/// Relies on git2::Repository::head: the reference HEAD resolves to.
#[verifier::external_body]
pub(crate) fn repo_head<'r>(repo: &'r Rc<git2::Repository>) -> Result<
    git2::Reference<'r>,
    String,
> {
    repo.head().map_err(|e| e.message().to_string())
}

/// Relies on git2::Repository::find_reference: looks a reference up by its
/// full name.
#[verifier::external_body]
pub(crate) fn repo_find_reference<'r>(repo: &'r Rc<git2::Repository>, name: &str) -> Result<
    git2::Reference<'r>,
    String,
> {
    repo.find_reference(name).map_err(|e| e.message().to_string())
}

/// Relies on git2::Reference::is_branch.
#[verifier::external_body]
pub(crate) fn ref_is_branch(reference: &git2::Reference<'_>) -> bool {
    reference.is_branch()
}

/// Relies on git2::Reference::is_note.
#[verifier::external_body]
pub(crate) fn ref_is_note(reference: &git2::Reference<'_>) -> bool {
    reference.is_note()
}

/// Relies on git2::Reference::is_remote.
#[verifier::external_body]
pub(crate) fn ref_is_remote(reference: &git2::Reference<'_>) -> bool {
    reference.is_remote()
}

/// Relies on git2::Reference::is_tag.
#[verifier::external_body]
pub(crate) fn ref_is_tag(reference: &git2::Reference<'_>) -> bool {
    reference.is_tag()
}

/// Relies on git2::Reference::kind: direct, symbolic, or unknown.
#[verifier::external_body]
pub(crate) fn ref_kind(reference: &git2::Reference<'_>) -> ReferenceType {
    match reference.kind() {
        Some(git2::ReferenceType::Direct) => ReferenceType::Direct,
        Some(git2::ReferenceType::Symbolic) => ReferenceType::Symbolic,
        None => ReferenceType::Unknown,
    }
}

/// Relies on git2::Reference::name: the full name, absent when it is not
/// valid text.
#[verifier::external_body]
pub(crate) fn ref_name(reference: &git2::Reference<'_>) -> Option<String> {
    reference.name().ok().map(|s| s.to_owned())
}

/// Relies on git2::Reference::shorthand: the human-readable name, absent when
/// it is not valid text.
#[verifier::external_body]
pub(crate) fn ref_shorthand(reference: &git2::Reference<'_>) -> Option<String> {
    reference.shorthand().ok().map(|s| s.to_owned())
}

/// Relies on git2::Reference::target: the id a direct reference points to, in
/// hex form.
#[verifier::external_body]
pub(crate) fn ref_target(reference: &git2::Reference<'_>) -> Option<String> {
    reference.target().map(|oid| oid.to_string())
}

/// Relies on git2::Reference::target_peel: the peeled id of a direct
/// reference to a tag object, in hex form.
#[verifier::external_body]
pub(crate) fn ref_target_peel(reference: &git2::Reference<'_>) -> Option<String> {
    reference.target_peel().map(|oid| oid.to_string())
}

/// Relies on git2::Reference::symbolic_target: the name a symbolic reference
/// points to, absent for a direct reference or invalid text.
#[verifier::external_body]
pub(crate) fn ref_symbolic_target(reference: &git2::Reference<'_>) -> Option<String> {
    reference.symbolic_target().ok().flatten().map(|s| s.to_owned())
}

/// Relies on git2::Reference::peel_to_tree: peels until a tree is reached.
#[verifier::external_body]
pub(crate) fn ref_peel_to_tree<'r>(reference: &git2::Reference<'r>) -> Result<
    git2::Tree<'r>,
    String,
> {
    reference.peel_to_tree().map_err(|e| e.message().to_string())
}

/// Relies on git2::Reference::resolve: iteratively peels a symbolic reference
/// until a direct one is reached.
#[verifier::external_body]
pub(crate) fn ref_resolve<'r>(reference: &git2::Reference<'r>) -> Result<
    git2::Reference<'r>,
    String,
> {
    reference.resolve().map_err(|e| e.message().to_string())
}

/// Relies on git2::Reference::rename.
#[verifier::external_body]
pub(crate) fn ref_rename<'r>(
    reference: &mut git2::Reference<'r>,
    new_name: &str,
    force: bool,
    msg: &str,
) -> Result<git2::Reference<'r>, String> {
    reference.rename(new_name, force, msg).map_err(|e| e.message().to_string())
}

// ---------------------------------------------------------------------------
// Commits
// ---------------------------------------------------------------------------

/// Relies on git2::Repository::find_commit: loads the commit with that exact
/// id from the object database.
#[verifier::external_body]
pub(crate) fn repo_find_commit<'r>(repo: &'r Rc<git2::Repository>, oid: git2::Oid) -> Result<
    git2::Commit<'r>,
    String,
> {
    repo.find_commit(oid).map_err(|e| e.message().to_string())
}

/// Relies on git2::Repository::find_commit_by_prefix: looks the commit up by
/// a full or abbreviated hex id.
#[verifier::external_body]
pub(crate) fn repo_find_commit_by_prefix<'r>(
    repo: &'r Rc<git2::Repository>,
    prefix: &str,
) -> Result<git2::Commit<'r>, String> {
    repo.find_commit_by_prefix(prefix).map_err(|e| e.message().to_string())
}

/// Relies on git2::Commit::id: the commit's id in hex form.
#[verifier::external_body]
pub(crate) fn commit_id_string(commit: &git2::Commit<'_>) -> String {
    commit.id().to_string()
}

/// Relies on git2::Commit::tree_id: the id of the tree this commit points
/// to, in hex form.
#[verifier::external_body]
pub(crate) fn commit_tree_id_hex(commit: &git2::Commit<'_>) -> String {
    commit.tree_id().to_string()
}

/// Relies on git2::Commit::tree: the tree this commit points to.
#[verifier::external_body]
pub(crate) fn commit_tree<'r>(commit: &git2::Commit<'r>) -> Result<git2::Tree<'r>, String> {
    commit.tree().map_err(|e| e.message().to_string())
}

/// Relies on git2::Commit::message: the prettified message, absent when it is
/// not valid text.
#[verifier::external_body]
pub(crate) fn commit_message(commit: &git2::Commit<'_>) -> Option<String> {
    commit.message().ok().map(|s| s.to_owned())
}

/// Relies on git2::Commit::message_bytes: the prettified message bytes.
#[verifier::external_body]
pub(crate) fn commit_message_bytes(commit: &git2::Commit<'_>) -> Vec<u8> {
    commit.message_bytes().to_vec()
}

/// Relies on git2::Commit::message_encoding: the declared message encoding,
/// absent when none is declared.
#[verifier::external_body]
pub(crate) fn commit_message_encoding(commit: &git2::Commit<'_>) -> Option<String> {
    commit.message_encoding().ok().flatten().map(|s| s.to_owned())
}

/// Relies on git2::Commit::message_raw: the untouched message, absent when it
/// is not valid text.
#[verifier::external_body]
pub(crate) fn commit_message_raw(commit: &git2::Commit<'_>) -> Option<String> {
    commit.message_raw().ok().map(|s| s.to_owned())
}

/// Relies on git2::Commit::message_raw_bytes.
#[verifier::external_body]
pub(crate) fn commit_message_raw_bytes(commit: &git2::Commit<'_>) -> Vec<u8> {
    commit.message_raw_bytes().to_vec()
}

/// Relies on git2::Commit::raw_header: the raw header text, absent when it is
/// not valid text.
#[verifier::external_body]
pub(crate) fn commit_raw_header(commit: &git2::Commit<'_>) -> Option<String> {
    commit.raw_header().ok().map(|s| s.to_owned())
}

/// Relies on git2::Commit::raw_header_bytes.
#[verifier::external_body]
pub(crate) fn commit_raw_header_bytes(commit: &git2::Commit<'_>) -> Vec<u8> {
    commit.raw_header_bytes().to_vec()
}

/// Relies on git2::Commit::header_field_bytes: one arbitrary header field.
#[verifier::external_body]
pub(crate) fn commit_header_field_bytes(commit: &git2::Commit<'_>, field: &str) -> Result<
    Vec<u8>,
    String,
> {
    match commit.header_field_bytes(field) {
        Ok(buf) => Ok(buf.to_vec()),
        Err(e) => Err(e.message().to_string()),
    }
}

/// Relies on git2::Commit::summary: the first paragraph of the message with
/// whitespace trimmed and squashed, absent on error or invalid text.
#[verifier::external_body]
pub(crate) fn commit_summary(commit: &git2::Commit<'_>) -> Option<String> {
    commit.summary().ok().flatten().map(|s| s.to_owned())
}

/// Relies on git2::Commit::summary_bytes.
#[verifier::external_body]
pub(crate) fn commit_summary_bytes(commit: &git2::Commit<'_>) -> Option<Vec<u8>> {
    commit.summary_bytes().map(|b| b.to_vec())
}

/// Relies on git2::Commit::body: everything but the first paragraph, trimmed,
/// absent on error or invalid text.
#[verifier::external_body]
pub(crate) fn commit_body(commit: &git2::Commit<'_>) -> Option<String> {
    commit.body().ok().flatten().map(|s| s.to_owned())
}

/// Relies on git2::Commit::body_bytes.
#[verifier::external_body]
pub(crate) fn commit_body_bytes(commit: &git2::Commit<'_>) -> Option<Vec<u8>> {
    commit.body_bytes().map(|b| b.to_vec())
}

/// Relies on git2::Commit::time: the committer time in seconds from the
/// epoch.
#[verifier::external_body]
pub(crate) fn commit_time_seconds(commit: &git2::Commit<'_>) -> i64 {
    commit.time().seconds()
}

/// Relies on git2::Commit::author: its name and email where they are valid
/// text, and its timestamp in seconds.
#[verifier::external_body]
pub(crate) fn commit_author_parts(commit: &git2::Commit<'_>) -> (
    Option<String>,
    Option<String>,
    i64,
) {
    let a = commit.author();
    (a.name().ok().map(|s| s.to_owned()), a.email().ok().map(|s| s.to_owned()), a.when().seconds())
}

/// Relies on git2::Commit::committer: its name and email where they are valid
/// text, and its timestamp in seconds.
#[verifier::external_body]
pub(crate) fn commit_committer_parts(commit: &git2::Commit<'_>) -> (
    Option<String>,
    Option<String>,
    i64,
) {
    let c = commit.committer();
    (c.name().ok().map(|s| s.to_owned()), c.email().ok().map(|s| s.to_owned()), c.when().seconds())
}

/// Relies on git2::Commit::parent_count.
#[verifier::external_body]
pub(crate) fn commit_parent_count(commit: &git2::Commit<'_>) -> usize {
    commit.parent_count()
}

/// Relies on git2::Commit::parent_id: the id of the i-th parent, in hex form.
#[verifier::external_body]
pub(crate) fn commit_parent_id_hex(commit: &git2::Commit<'_>, i: usize) -> Result<String, String> {
    match commit.parent_id(i) {
        Ok(oid) => Ok(oid.to_string()),
        Err(e) => Err(e.message().to_string()),
    }
}

/// Relies on git2::Commit::amend: writes a commit equal to this one except
/// for the fields given, and yields the new commit's id in hex form.
#[verifier::external_body]
pub(crate) fn commit_amend(
    commit: &git2::Commit<'_>,
    update_ref: Option<&str>,
    author: Option<&git2::Signature<'_>>,
    committer: Option<&git2::Signature<'_>>,
    message_encoding: Option<&str>,
    message: Option<&str>,
    tree: Option<&git2::Tree<'_>>,
) -> Result<String, String> {
    match commit.amend(update_ref, author, committer, message_encoding, message, tree) {
        Ok(oid) => Ok(oid.to_string()),
        Err(e) => Err(e.message().to_string()),
    }
}

/// What chrono::DateTime::from_timestamp accepts: whether this many seconds
/// from the epoch lies inside the date range that crate supports.
pub uninterp spec fn chrono_timestamp_in_range(seconds: int) -> bool;

/// Relies on chrono::DateTime::from_timestamp: yields a value exactly when
/// the seconds are in the supported range; the result depends on the seconds
/// alone.
#[verifier::external_body]
pub(crate) fn chrono_accepts_timestamp(seconds: i64) -> (r: bool)
    ensures
        r == chrono_timestamp_in_range(seconds as int),
{
    chrono::DateTime::from_timestamp(seconds, 0).is_some()
}

/// Relies on git2::Signature::new, with a zero time-zone offset.
#[verifier::external_body]
pub(crate) fn signature_new(name: &str, email: &str, when: i64) -> Result<
    git2::Signature<'static>,
    String,
> {
    git2::Signature::new(name, email, &git2::Time::new(when, 0))
        .map_err(|e| e.message().to_string())
}

// ---------------------------------------------------------------------------
// Trees and tree entries
// ---------------------------------------------------------------------------

/// Relies on git2::Repository::find_tree: loads the tree with that id.
#[verifier::external_body]
pub(crate) fn repo_find_tree<'r>(repo: &'r Rc<git2::Repository>, oid: git2::Oid) -> Result<
    git2::Tree<'r>,
    String,
> {
    repo.find_tree(oid).map_err(|e| e.message().to_string())
}

/// Relies on git2::Tree::id: the tree's id in hex form.
#[verifier::external_body]
pub(crate) fn tree_id_hex(tree: &git2::Tree<'_>) -> String {
    tree.id().to_string()
}

/// Relies on git2::Tree::len: the number of entries listed in the tree.
#[verifier::external_body]
pub(crate) fn tree_len(tree: &git2::Tree<'_>) -> usize {
    tree.len()
}

/// Relies on git2::Tree::get: the entry at the position, if any.
#[verifier::external_body]
pub(crate) fn tree_entry_by_index<'t>(tree: &'t git2::Tree<'_>, index: usize) -> Option<
    git2::TreeEntry<'t>,
> {
    tree.get(index)
}

/// Relies on git2::Tree::get_id: the entry whose object has that id, if any.
#[verifier::external_body]
pub(crate) fn tree_entry_by_oid<'t>(tree: &'t git2::Tree<'_>, oid: git2::Oid) -> Option<
    git2::TreeEntry<'t>,
> {
    tree.get_id(oid)
}

/// Relies on git2::Tree::get_name: the entry with that filename, if any. The
/// native binding aborts on an interior NUL, so that input is excluded.
#[verifier::external_body]
pub(crate) fn tree_entry_by_name<'t>(tree: &'t git2::Tree<'_>, name: &str) -> (r: Option<
    git2::TreeEntry<'t>,
>)
    requires
        !has_nul_char(name@),
{
    tree.get_name(name)
}

/// Relies on git2::Tree::get_path: the entry at that slash-separated path,
/// descending into subtrees.
#[verifier::external_body]
pub(crate) fn tree_entry_by_path(tree: &git2::Tree<'_>, path: &str) -> Result<
    git2::TreeEntry<'static>,
    String,
> {
    tree.get_path(std::path::Path::new(path)).map_err(|e| e.message().to_string())
}

/// Relies on git2::TreeEntry::id: the id of the object the entry points to,
/// in hex form.
#[verifier::external_body]
pub(crate) fn entry_id_hex(entry: &git2::TreeEntry<'_>) -> String {
    entry.id().to_string()
}

/// Relies on git2::TreeEntry::name: the filename, absent when it is not
/// valid text.
#[verifier::external_body]
pub(crate) fn entry_name(entry: &git2::TreeEntry<'_>) -> Option<String> {
    entry.name().ok().map(|s| s.to_owned())
}

/// Relies on git2::TreeEntry::name_bytes: the filename bytes.
#[verifier::external_body]
pub(crate) fn entry_name_bytes(entry: &git2::TreeEntry<'_>) -> Vec<u8> {
    entry.name_bytes().to_vec()
}

/// Relies on git2::TreeEntry::to_object: loads the object the entry points
/// to from the given repository.
#[verifier::external_body]
pub(crate) fn entry_to_object<'r>(
    entry: &git2::TreeEntry<'_>,
    repo: &'r Rc<git2::Repository>,
) -> Result<git2::Object<'r>, String> {
    entry.to_object(repo).map_err(|e| e.message().to_string())
}

// ---------------------------------------------------------------------------
// Objects, blobs, tags
// ---------------------------------------------------------------------------

/// Relies on git2::Repository::find_object: loads the object with that id,
/// of any kind.
#[verifier::external_body]
pub(crate) fn repo_find_object<'r>(repo: &'r Rc<git2::Repository>, oid: git2::Oid) -> Result<
    git2::Object<'r>,
    String,
> {
    repo.find_object(oid, None).map_err(|e| e.message().to_string())
}

/// Relies on git2::Object::id: the object's id in hex form.
#[verifier::external_body]
pub(crate) fn object_id_hex(object: &git2::Object<'_>) -> String {
    object.id().to_string()
}

/// Relies on git2::Object::kind.
#[verifier::external_body]
pub(crate) fn object_kind(object: &git2::Object<'_>) -> Option<ObjectType> {
    object.kind().map(|k| match k {
        git2::ObjectType::Any => ObjectType::Any,
        git2::ObjectType::Commit => ObjectType::Commit,
        git2::ObjectType::Tree => ObjectType::Tree,
        git2::ObjectType::Blob => ObjectType::Blob,
        git2::ObjectType::Tag => ObjectType::Tag,
    })
}

/// Relies on git2::Object::peel: recursively peels until an object of the
/// asked kind is met; with the kind `Any`, until the kind changes.
#[verifier::external_body]
pub(crate) fn object_peel<'r>(object: &git2::Object<'r>, kind: &ObjectType) -> Result<
    git2::Object<'r>,
    String,
> {
    let native_kind = match kind {
        ObjectType::Any => git2::ObjectType::Any,
        ObjectType::Commit => git2::ObjectType::Commit,
        ObjectType::Tree => git2::ObjectType::Tree,
        ObjectType::Blob => git2::ObjectType::Blob,
        ObjectType::Tag => git2::ObjectType::Tag,
    };
    object.peel(native_kind).map_err(|e| e.message().to_string())
}

/// Relies on git2::Repository::find_blob: loads the blob with that id.
#[verifier::external_body]
pub(crate) fn repo_find_blob<'r>(repo: &'r Rc<git2::Repository>, oid: git2::Oid) -> Result<
    git2::Blob<'r>,
    String,
> {
    repo.find_blob(oid).map_err(|e| e.message().to_string())
}

/// Relies on git2::Blob::id: the blob's id in hex form.
#[verifier::external_body]
pub(crate) fn blob_id_hex(blob: &git2::Blob<'_>) -> String {
    blob.id().to_string()
}

/// Relies on git2::Blob::is_binary: whether the content is most certainly
/// binary.
#[verifier::external_body]
pub(crate) fn blob_is_binary(blob: &git2::Blob<'_>) -> bool {
    blob.is_binary()
}

/// Relies on git2::Blob::content: the blob's bytes.
#[verifier::external_body]
pub(crate) fn blob_content(blob: &git2::Blob<'_>) -> Vec<u8> {
    blob.content().to_vec()
}

/// Relies on git2::Blob::size: the content's size in bytes.
#[verifier::external_body]
pub(crate) fn blob_size(blob: &git2::Blob<'_>) -> u64 {
    blob.size() as u64
}

/// What git2::Tag::is_valid_name returns: whether the text is a well-formed
/// tag name.
pub uninterp spec fn tag_name_valid(name: Seq<char>) -> bool;

/// Relies on git2::Tag::is_valid_name: the result depends on the name alone.
/// The native binding aborts on an interior NUL, so that input is excluded.
#[verifier::external_body]
pub(crate) fn tag_is_valid_name(name: &str) -> (r: bool)
    requires
        !has_nul_char(name@),
    ensures
        r == tag_name_valid(name@),
{
    git2::Tag::is_valid_name(name)
}

/// Relies on git2::Repository::find_tag: loads the tag with that id.
#[verifier::external_body]
pub(crate) fn repo_find_tag<'r>(repo: &'r Rc<git2::Repository>, oid: git2::Oid) -> Result<
    git2::Tag<'r>,
    String,
> {
    repo.find_tag(oid).map_err(|e| e.message().to_string())
}

/// Relies on git2::Repository::find_tag_by_prefix: looks the tag up by a full
/// or abbreviated hex id.
#[verifier::external_body]
pub(crate) fn repo_find_tag_by_prefix<'r>(
    repo: &'r Rc<git2::Repository>,
    prefix: &str,
) -> Result<git2::Tag<'r>, String> {
    repo.find_tag_by_prefix(prefix).map_err(|e| e.message().to_string())
}

/// Relies on git2::Tag::id: the tag's id in hex form.
#[verifier::external_body]
pub(crate) fn tag_id_hex(tag: &git2::Tag<'_>) -> String {
    tag.id().to_string()
}

/// Relies on git2::Tag::message: absent when there is none or it is not
/// valid text.
#[verifier::external_body]
pub(crate) fn tag_message(tag: &git2::Tag<'_>) -> Option<String> {
    tag.message().ok().flatten().map(|s| s.to_owned())
}

/// Relies on git2::Tag::message_bytes: absent when there is no message.
#[verifier::external_body]
pub(crate) fn tag_message_bytes(tag: &git2::Tag<'_>) -> Option<Vec<u8>> {
    tag.message_bytes().map(|b| b.to_vec())
}

/// Relies on git2::Tag::name: absent when it is not valid text.
#[verifier::external_body]
pub(crate) fn tag_name(tag: &git2::Tag<'_>) -> Option<String> {
    tag.name().ok().map(|s| s.to_owned())
}

/// Relies on git2::Tag::name_bytes.
#[verifier::external_body]
pub(crate) fn tag_name_bytes(tag: &git2::Tag<'_>) -> Vec<u8> {
    tag.name_bytes().to_vec()
}

/// Relies on git2::Tag::peel: recursively peels until a non-tag object is
/// found.
#[verifier::external_body]
pub(crate) fn tag_peel<'r>(tag: &git2::Tag<'r>) -> Result<git2::Object<'r>, String> {
    tag.peel().map_err(|e| e.message().to_string())
}

/// Relies on git2::Repository::tag: writes a tag object and a reference to
/// it, and yields the tag's id in hex form.
#[verifier::external_body]
pub(crate) fn repo_tag(
    repo: &Rc<git2::Repository>,
    name: &str,
    target: &git2::Object<'_>,
    tagger: &git2::Signature<'_>,
    message: &str,
    force: bool,
) -> Result<String, String> {
    match repo.tag(name, target, tagger, message, force) {
        Ok(oid) => Ok(oid.to_string()),
        Err(e) => Err(e.message().to_string()),
    }
}

/// Relies on git2::Repository::tag_annotation_create: writes a tag object
/// without a reference, and yields its id in hex form.
#[verifier::external_body]
pub(crate) fn repo_tag_annotation_create(
    repo: &Rc<git2::Repository>,
    name: &str,
    target: &git2::Object<'_>,
    tagger: &git2::Signature<'_>,
    message: &str,
) -> Result<String, String> {
    match repo.tag_annotation_create(name, target, tagger, message) {
        Ok(oid) => Ok(oid.to_string()),
        Err(e) => Err(e.message().to_string()),
    }
}

/// Relies on git2::Repository::tag_lightweight: writes a direct reference to
/// the target and yields the target's id in hex form.
#[verifier::external_body]
pub(crate) fn repo_tag_lightweight(
    repo: &Rc<git2::Repository>,
    name: &str,
    target: &git2::Object<'_>,
    force: bool,
) -> Result<String, String> {
    match repo.tag_lightweight(name, target, force) {
        Ok(oid) => Ok(oid.to_string()),
        Err(e) => Err(e.message().to_string()),
    }
}

/// Relies on git2::Repository::tag_delete: removes the tag reference.
#[verifier::external_body]
pub(crate) fn repo_tag_delete(repo: &Rc<git2::Repository>, name: &str) -> Result<(), String> {
    repo.tag_delete(name).map_err(|e| e.message().to_string())
}

/// Relies on git2::Repository::tag_names: the tag names matching the pattern
/// (or all of them), each absent when not valid text.
#[verifier::external_body]
pub(crate) fn repo_tag_names(repo: &Rc<git2::Repository>, pattern: Option<&str>) -> Result<
    Vec<Option<String>>,
    String,
> {
    match repo.tag_names(pattern) {
        Ok(names) => Ok(names
            .iter()
            .map(|n| match n {
                Ok(Some(s)) => Some(s.to_owned()),
                _ => None,
            })
            .collect()),
        Err(e) => Err(e.message().to_string()),
    }
}

/// Relies on git2::Repository::commit, with no parent commits, and yields the
/// new commit's id in hex form.
#[verifier::external_body]
pub(crate) fn repo_commit_create(
    repo: &Rc<git2::Repository>,
    update_ref: Option<&str>,
    author: &git2::Signature<'_>,
    committer: &git2::Signature<'_>,
    message: &str,
    tree: &git2::Tree<'_>,
) -> Result<String, String> {
    match repo.commit(update_ref, author, committer, message, tree, &[]) {
        Ok(oid) => Ok(oid.to_string()),
        Err(e) => Err(e.message().to_string()),
    }
}

// ---------------------------------------------------------------------------
// Diffs
// ---------------------------------------------------------------------------

/// Relies on git2::Repository::diff_tree_to_workdir, with default options:
/// the tree is the "old" side, the working directory the "new" side.
#[verifier::external_body]
pub(crate) fn repo_diff_tree_to_workdir<'r>(
    repo: &'r Rc<git2::Repository>,
    old_tree: Option<&git2::Tree<'_>>,
) -> Result<git2::Diff<'r>, String> {
    let mut options = git2::DiffOptions::default();
    repo.diff_tree_to_workdir(old_tree, Some(&mut options))
        .map_err(|e| e.message().to_string())
}

/// Relies on git2::Repository::diff_tree_to_workdir_with_index, with default
/// options: blends tree-to-index and index-to-workdir differences.
#[verifier::external_body]
pub(crate) fn repo_diff_tree_to_workdir_with_index<'r>(
    repo: &'r Rc<git2::Repository>,
    old_tree: Option<&git2::Tree<'_>>,
) -> Result<git2::Diff<'r>, String> {
    let mut options = git2::DiffOptions::default();
    repo.diff_tree_to_workdir_with_index(old_tree, Some(&mut options))
        .map_err(|e| e.message().to_string())
}

/// Relies on git2::Repository::diff_tree_to_tree, restricted by a pathspec
/// with pathspec matching enabled, as the file-history query asks for it. The
/// native binding aborts on a pathspec with an interior NUL, so that input is
/// excluded.
#[verifier::external_body]
pub(crate) fn repo_diff_tree_to_tree_pathspec<'r>(
    repo: &'r Rc<git2::Repository>,
    old_tree: &git2::Tree<'_>,
    new_tree: &git2::Tree<'_>,
    path: &str,
) -> (r: Result<git2::Diff<'r>, String>)
    requires
        !has_nul_char(path@),
{
    let mut options = git2::DiffOptions::new();
    options.disable_pathspec_match(false);
    options.pathspec(path);
    repo.diff_tree_to_tree(Some(old_tree), Some(new_tree), Some(&mut options))
        .map_err(|e| e.message().to_string())
}

/// Relies on git2::Diff::merge: merges the items of the "from" list into this
/// one.
#[verifier::external_body]
pub(crate) fn diff_merge<'a>(diff: &mut git2::Diff<'a>, from: &git2::Diff<'a>) -> Result<(), String> {
    diff.merge(from).map_err(|e| e.message().to_string())
}

/// Relies on git2::Diff::is_sorted_icase: whether deltas are sorted case
/// insensitively.
#[verifier::external_body]
pub(crate) fn diff_is_sorted_icase(diff: &git2::Diff<'_>) -> bool {
    diff.is_sorted_icase()
}

/// Relies on git2::Diff::deltas: how many file records the diff holds.
#[verifier::external_body]
pub(crate) fn diff_num_deltas(diff: &git2::Diff<'_>) -> usize {
    diff.deltas().len()
}

/// Relies on git2::Diff::get_delta: the file record at the position, if any.
#[verifier::external_body]
pub(crate) fn diff_get_delta<'d>(diff: &'d git2::Diff<'_>, index: usize) -> Option<
    git2::DiffDelta<'d>,
> {
    diff.get_delta(index)
}

/// Relies on git2::DiffDelta::status.
#[verifier::external_body]
pub(crate) fn delta_status(delta: &git2::DiffDelta<'_>) -> Delta {
    match delta.status() {
        git2::Delta::Unmodified => Delta::Unmodified,
        git2::Delta::Added => Delta::Added,
        git2::Delta::Deleted => Delta::Deleted,
        git2::Delta::Modified => Delta::Modified,
        git2::Delta::Renamed => Delta::Renamed,
        git2::Delta::Copied => Delta::Copied,
        git2::Delta::Ignored => Delta::Ignored,
        git2::Delta::Untracked => Delta::Untracked,
        git2::Delta::Typechange => Delta::Typechange,
        git2::Delta::Unreadable => Delta::Unreadable,
        git2::Delta::Conflicted => Delta::Conflicted,
    }
}

/// Relies on git2::DiffDelta::flags: the record's flag bits.
#[verifier::external_body]
pub(crate) fn delta_flags_bits(delta: &git2::DiffDelta<'_>) -> u32 {
    delta.flags().bits()
}

/// Relies on git2::DiffDelta::nfiles: how many files the record involves.
#[verifier::external_body]
pub(crate) fn delta_nfiles(delta: &git2::DiffDelta<'_>) -> u16 {
    delta.nfiles()
}

/// Relies on git2::DiffDelta::old_file: the "from" side of the record.
#[verifier::external_body]
pub(crate) fn delta_old_file<'d>(delta: &git2::DiffDelta<'d>) -> git2::DiffFile<'d> {
    delta.old_file()
}

/// Relies on git2::DiffDelta::new_file: the "to" side of the record.
#[verifier::external_body]
pub(crate) fn delta_new_file<'d>(delta: &git2::DiffDelta<'d>) -> git2::DiffFile<'d> {
    delta.new_file()
}

/// Relies on git2::DiffFile::id: the file's object id in hex form; zeros for
/// the absent side of a record.
#[verifier::external_body]
pub(crate) fn file_id_hex(file: &git2::DiffFile<'_>) -> String {
    file.id().to_string()
}

/// Relies on git2::DiffFile::path: the path relative to the working
/// directory, if any.
#[verifier::external_body]
pub(crate) fn file_path(file: &git2::DiffFile<'_>) -> Option<String> {
    file.path().map(|p| p.to_string_lossy().into_owned())
}

/// Relies on git2::DiffFile::size: the file's size in bytes.
#[verifier::external_body]
pub(crate) fn file_size(file: &git2::DiffFile<'_>) -> u64 {
    file.size()
}

/// Relies on git2::DiffFile::is_binary.
#[verifier::external_body]
pub(crate) fn file_is_binary(file: &git2::DiffFile<'_>) -> bool {
    file.is_binary()
}

/// Relies on git2::DiffFile::is_not_binary.
#[verifier::external_body]
pub(crate) fn file_is_not_binary(file: &git2::DiffFile<'_>) -> bool {
    file.is_not_binary()
}

/// Relies on git2::DiffFile::is_valid_id.
#[verifier::external_body]
pub(crate) fn file_is_valid_id(file: &git2::DiffFile<'_>) -> bool {
    file.is_valid_id()
}

/// Relies on git2::DiffFile::exists: whether the file exists at this side of
/// the record.
#[verifier::external_body]
pub(crate) fn file_exists_on_side(file: &git2::DiffFile<'_>) -> bool {
    file.exists()
}

/// Relies on git2::DiffFile::mode: the entry mode of the file.
#[verifier::external_body]
pub(crate) fn file_mode(file: &git2::DiffFile<'_>) -> FileMode {
    match file.mode() {
        git2::FileMode::Unreadable => FileMode::Unreadable,
        git2::FileMode::Tree => FileMode::Tree,
        git2::FileMode::Blob => FileMode::Blob,
        git2::FileMode::BlobGroupWritable => FileMode::BlobGroupWritable,
        git2::FileMode::BlobExecutable => FileMode::BlobExecutable,
        git2::FileMode::Link => FileMode::Link,
        git2::FileMode::Commit => FileMode::Commit,
    }
}

// ---------------------------------------------------------------------------
// Remotes
// ---------------------------------------------------------------------------

/// What git2::Remote::is_valid_name returns: whether the text is a
/// well-formed remote name.
pub uninterp spec fn remote_name_valid(name: Seq<char>) -> bool;

/// Relies on git2::Remote::is_valid_name: the result depends on the name
/// alone. The native binding aborts on an interior NUL, so that input is
/// excluded.
#[verifier::external_body]
pub(crate) fn remote_is_valid_name(name: &str) -> (r: bool)
    requires
        !has_nul_char(name@),
    ensures
        r == remote_name_valid(name@),
{
    git2::Remote::is_valid_name(name)
}

/// Relies on git2::Repository::find_remote: the configured remote with that
/// name.
#[verifier::external_body]
pub(crate) fn repo_find_remote<'r>(repo: &'r Rc<git2::Repository>, name: &str) -> Result<
    git2::Remote<'r>,
    String,
> {
    repo.find_remote(name).map_err(|e| e.message().to_string())
}

/// Relies on git2::Repository::remote: adds a remote with the default fetch
/// refspec to the configuration.
#[verifier::external_body]
pub(crate) fn repo_remote_create<'r>(
    repo: &'r Rc<git2::Repository>,
    name: &str,
    url: &str,
) -> Result<git2::Remote<'r>, String> {
    repo.remote(name, url).map_err(|e| e.message().to_string())
}

/// Relies on git2::Repository::remote_with_fetch: adds a remote with the
/// given fetch refspec to the configuration.
#[verifier::external_body]
pub(crate) fn repo_remote_with_fetch<'r>(
    repo: &'r Rc<git2::Repository>,
    name: &str,
    url: &str,
    fetch: &str,
) -> Result<git2::Remote<'r>, String> {
    repo.remote_with_fetch(name, url, fetch).map_err(|e| e.message().to_string())
}

/// Relies on git2::Repository::remote_anonymous: an in-memory remote for the
/// url, which cannot be persisted.
#[verifier::external_body]
pub(crate) fn repo_remote_anonymous<'r>(repo: &'r Rc<git2::Repository>, url: &str) -> Result<
    git2::Remote<'r>,
    String,
> {
    repo.remote_anonymous(url).map_err(|e| e.message().to_string())
}

/// Relies on git2::Remote::name: absent for an unnamed remote or a name that
/// is not valid text.
#[verifier::external_body]
pub(crate) fn remote_name(remote: &git2::Remote<'_>) -> Option<String> {
    remote.name().ok().flatten().map(|s| s.to_owned())
}

/// Relies on git2::Remote::url: absent when it is not valid text.
#[verifier::external_body]
pub(crate) fn remote_url(remote: &git2::Remote<'_>) -> Option<String> {
    remote.url().ok().map(|s| s.to_owned())
}

/// Relies on git2::Remote::pushurl: absent when none is set or it is not
/// valid text.
#[verifier::external_body]
pub(crate) fn remote_pushurl(remote: &git2::Remote<'_>) -> Option<String> {
    remote.pushurl().ok().flatten().map(|s| s.to_owned())
}

/// Relies on git2::Remote::default_branch: the branch the remote advertises
/// once a connection has been made; inside the success, absent when the name
/// is not valid text.
#[verifier::external_body]
pub(crate) fn remote_default_branch(remote: &git2::Remote<'_>) -> Result<Option<String>, String> {
    match remote.default_branch() {
        Ok(buf) => Ok(buf.as_str().ok().map(|s| s.to_owned())),
        Err(e) => Err(e.message().to_string()),
    }
}

/// Relies on git2::Remote::connect: opens a connection in the direction.
#[verifier::external_body]
pub(crate) fn remote_connect(remote: &mut git2::Remote<'_>, fetch: bool) -> Result<(), String> {
    let direction = if fetch { git2::Direction::Fetch } else { git2::Direction::Push };
    remote.connect(direction).map_err(|e| e.message().to_string())
}

/// Relies on git2::Remote::connected: whether this remote value holds an open
/// connection.
#[verifier::external_body]
pub(crate) fn remote_connected(remote: &mut git2::Remote<'_>) -> bool {
    remote.connected()
}

/// Relies on git2::Remote::disconnect.
#[verifier::external_body]
pub(crate) fn remote_disconnect(remote: &mut git2::Remote<'_>) -> Result<(), String> {
    remote.disconnect().map_err(|e| e.message().to_string())
}

/// Relies on git2::Remote::stop: asks the network code to stop at its next
/// cancellation check.
#[verifier::external_body]
pub(crate) fn remote_stop(remote: &mut git2::Remote<'_>) -> Result<(), String> {
    remote.stop().map_err(|e| e.message().to_string())
}

/// Relies on git2::Remote::fetch: connects, downloads and updates the
/// remote-tracking branches.
#[verifier::external_body]
pub(crate) fn remote_fetch(
    remote: &mut git2::Remote<'_>,
    refspecs: &Vec<String>,
    options: &mut git2::FetchOptions<'static>,
) -> Result<(), String> {
    remote.fetch(refspecs.as_slice(), Some(options), None)
        .map_err(|e| e.message().to_string())
}

/// Relies on git2::Remote::update_tips.
#[verifier::external_body]
pub(crate) fn remote_update_tips(
    remote: &mut git2::Remote<'_>,
    callbacks: Option<&mut git2::RemoteCallbacks<'static>>,
    update_fetchhead: bool,
    report_unchanged: bool,
    download_tags: &AutotagOption,
    msg: Option<&str>,
) -> Result<(), String> {
    let mut flags = git2::RemoteUpdateFlags::empty();
    flags.set(git2::RemoteUpdateFlags::UPDATE_FETCHHEAD, update_fetchhead);
    flags.set(git2::RemoteUpdateFlags::REPORT_UNCHANGED, report_unchanged);
    let tags = match download_tags {
        AutotagOption::Unspecified => git2::AutotagOption::Unspecified,
        AutotagOption::Auto => git2::AutotagOption::Auto,
        AutotagOption::NoTags => git2::AutotagOption::None,
        AutotagOption::All => git2::AutotagOption::All,
    };
    remote.update_tips(callbacks, flags, tags, msg).map_err(|e| e.message().to_string())
}

/// Relies on git2::Repository::remote_rename: the non-default refspecs that
/// could not be renamed, each absent when not valid text.
#[verifier::external_body]
pub(crate) fn repo_remote_rename(
    repo: &Rc<git2::Repository>,
    name: &str,
    new_name: &str,
) -> Result<Vec<Option<String>>, String> {
    match repo.remote_rename(name, new_name) {
        Ok(problems) => Ok(problems
            .iter()
            .map(|n| match n {
                Ok(Some(s)) => Some(s.to_owned()),
                _ => None,
            })
            .collect()),
        Err(e) => Err(e.message().to_string()),
    }
}

/// Relies on git2::Repository::remote_delete: removes the remote and its
/// remote-tracking branches and configuration settings.
#[verifier::external_body]
pub(crate) fn repo_remote_delete(repo: &Rc<git2::Repository>, name: &str) -> Result<(), String> {
    repo.remote_delete(name).map_err(|e| e.message().to_string())
}

/// Relies on git2::Repository::remote_add_fetch: adds a fetch refspec to the
/// remote's configuration.
#[verifier::external_body]
pub(crate) fn repo_remote_add_fetch(
    repo: &Rc<git2::Repository>,
    name: &str,
    refspec: &str,
) -> Result<(), String> {
    repo.remote_add_fetch(name, refspec).map_err(|e| e.message().to_string())
}

/// Relies on git2::Repository::remote_add_push: adds a push refspec to the
/// remote's configuration.
#[verifier::external_body]
pub(crate) fn repo_remote_add_push(
    repo: &Rc<git2::Repository>,
    name: &str,
    refspec: &str,
) -> Result<(), String> {
    repo.remote_add_push(name, refspec).map_err(|e| e.message().to_string())
}

/// Relies on git2::Repository::remote_set_url.
#[verifier::external_body]
pub(crate) fn repo_remote_set_url(
    repo: &Rc<git2::Repository>,
    name: &str,
    url: &str,
) -> Result<(), String> {
    repo.remote_set_url(name, url).map_err(|e| e.message().to_string())
}

/// Relies on git2::Repository::remote_set_pushurl; clearing it when no url is
/// given.
#[verifier::external_body]
pub(crate) fn repo_remote_set_pushurl(
    repo: &Rc<git2::Repository>,
    name: &str,
    url: Option<&str>,
) -> Result<(), String> {
    repo.remote_set_pushurl(name, url).map_err(|e| e.message().to_string())
}

// ---------------------------------------------------------------------------
// Fetch options, proxy options, callbacks, credentials
// ---------------------------------------------------------------------------

/// Relies on git2::FetchOptions::new.
#[verifier::external_body]
pub(crate) fn fetch_options_new() -> git2::FetchOptions<'static> {
    git2::FetchOptions::new()
}

/// Relies on git2::FetchOptions::new and std::mem::replace: moves the options
/// out, leaving fresh defaults behind, as the native layer takes ownership of
/// options on use.
#[verifier::external_body]
pub(crate) fn fetch_options_take(options: &mut git2::FetchOptions<'static>) -> git2::FetchOptions<
    'static,
> {
    std::mem::replace(options, git2::FetchOptions::new())
}

/// Relies on git2::FetchOptions::remote_callbacks.
#[verifier::external_body]
pub(crate) fn fetch_options_set_callbacks(
    options: &mut git2::FetchOptions<'static>,
    callbacks: git2::RemoteCallbacks<'static>,
) {
    options.remote_callbacks(callbacks);
}

/// Relies on git2::FetchOptions::proxy_options.
#[verifier::external_body]
pub(crate) fn fetch_options_set_proxy(
    options: &mut git2::FetchOptions<'static>,
    proxy: git2::ProxyOptions<'static>,
) {
    options.proxy_options(proxy);
}

/// Relies on git2::FetchOptions::prune.
#[verifier::external_body]
pub(crate) fn fetch_options_prune(
    options: &mut git2::FetchOptions<'static>,
    prune: &FetchPrune,
) {
    let native = match prune {
        FetchPrune::Unspecified => git2::FetchPrune::Unspecified,
        FetchPrune::On => git2::FetchPrune::On,
        FetchPrune::Off => git2::FetchPrune::Off,
    };
    options.prune(native);
}

/// Relies on git2::FetchOptions::update_fetchhead.
#[verifier::external_body]
pub(crate) fn fetch_options_update_fetchhead(
    options: &mut git2::FetchOptions<'static>,
    update: bool,
) {
    options.update_fetchhead(update);
}

/// Relies on git2::FetchOptions::depth; a value of zero or less asks for
/// everything.
#[verifier::external_body]
pub(crate) fn fetch_options_depth(options: &mut git2::FetchOptions<'static>, depth: i32) {
    options.depth(depth);
}

/// Relies on git2::FetchOptions::download_tags.
#[verifier::external_body]
pub(crate) fn fetch_options_download_tags(
    options: &mut git2::FetchOptions<'static>,
    opt: &AutotagOption,
) {
    let native = match opt {
        AutotagOption::Unspecified => git2::AutotagOption::Unspecified,
        AutotagOption::Auto => git2::AutotagOption::Auto,
        AutotagOption::NoTags => git2::AutotagOption::None,
        AutotagOption::All => git2::AutotagOption::All,
    };
    options.download_tags(native);
}

/// Relies on git2::FetchOptions::follow_redirects.
#[verifier::external_body]
pub(crate) fn fetch_options_follow_redirects(
    options: &mut git2::FetchOptions<'static>,
    opt: &RemoteRedirect,
) {
    let native = match opt {
        RemoteRedirect::NoFollow => git2::RemoteRedirect::None,
        RemoteRedirect::Initial => git2::RemoteRedirect::Initial,
        RemoteRedirect::All => git2::RemoteRedirect::All,
    };
    options.follow_redirects(native);
}

/// Relies on git2::FetchOptions::custom_headers. The native binding aborts on
/// a header with an interior NUL, so those inputs are excluded.
#[verifier::external_body]
pub(crate) fn fetch_options_custom_headers(
    options: &mut git2::FetchOptions<'static>,
    headers: &Vec<String>,
)
    requires
        forall|i: int| 0 <= i < headers@.len() ==> !has_nul_char(headers@[i]@),
{
    options.custom_headers(&headers.iter().map(|s| s.as_str()).collect::<Vec<_>>());
}

/// Relies on git2::ProxyOptions::new.
#[verifier::external_body]
pub(crate) fn proxy_options_new() -> git2::ProxyOptions<'static> {
    git2::ProxyOptions::new()
}

/// Relies on git2::ProxyOptions::new and std::mem::replace: moves the options
/// out, leaving fresh defaults behind.
#[verifier::external_body]
pub(crate) fn proxy_options_take(options: &mut git2::ProxyOptions<'static>) -> git2::ProxyOptions<
    'static,
> {
    std::mem::replace(options, git2::ProxyOptions::new())
}

/// Relies on git2::ProxyOptions::auto: auto-detect the proxy from the
/// configuration.
#[verifier::external_body]
pub(crate) fn proxy_options_auto(options: &mut git2::ProxyOptions<'static>) {
    options.auto();
}

/// Relies on git2::ProxyOptions::url: the exact proxy url to use. The native
/// binding aborts on an interior NUL, so that input is excluded.
#[verifier::external_body]
pub(crate) fn proxy_options_url(options: &mut git2::ProxyOptions<'static>, url: &str)
    requires
        !has_nul_char(url@),
{
    options.url(url);
}

/// Relies on git2::RemoteCallbacks::new.
#[verifier::external_body]
pub(crate) fn remote_callbacks_new() -> git2::RemoteCallbacks<'static> {
    git2::RemoteCallbacks::new()
}

/// Relies on git2::RemoteCallbacks::new and std::mem::replace: moves the
/// callbacks out, leaving fresh defaults behind, as the native layer takes
/// ownership of callbacks on use.
#[verifier::external_body]
pub(crate) fn remote_callbacks_take(
    callbacks: &mut git2::RemoteCallbacks<'static>,
) -> git2::RemoteCallbacks<'static> {
    std::mem::replace(callbacks, git2::RemoteCallbacks::new())
}

/// Relies on git2::Cred::default: a credential for negotiate mechanisms.
#[verifier::external_body]
pub(crate) fn cred_default() -> Result<git2::Cred, String> {
    git2::Cred::default().map_err(|e| e.message().to_string())
}

/// Relies on git2::Cred::ssh_key_from_agent.
#[verifier::external_body]
pub(crate) fn cred_ssh_key_from_agent(username: &str) -> Result<git2::Cred, String> {
    git2::Cred::ssh_key_from_agent(username).map_err(|e| e.message().to_string())
}

/// Relies on git2::Cred::ssh_key: a passphrase-protected ssh key credential
/// read from key files.
#[verifier::external_body]
pub(crate) fn cred_ssh_key(
    username: &str,
    publickey: Option<&str>,
    privatekey: &str,
    passphrase: Option<&str>,
) -> Result<git2::Cred, String> {
    git2::Cred::ssh_key(
        username,
        publickey.map(std::path::Path::new),
        std::path::Path::new(privatekey),
        passphrase,
    )
    .map_err(|e| e.message().to_string())
}

/// Relies on git2::Cred::ssh_key_from_memory: an ssh key credential with the
/// keys given as text.
#[verifier::external_body]
pub(crate) fn cred_ssh_key_from_memory(
    username: &str,
    publickey: Option<&str>,
    privatekey: &str,
    passphrase: Option<&str>,
) -> Result<git2::Cred, String> {
    git2::Cred::ssh_key_from_memory(username, publickey, privatekey, passphrase)
        .map_err(|e| e.message().to_string())
}

/// Relies on git2::Cred::userpass_plaintext.
#[verifier::external_body]
pub(crate) fn cred_userpass_plaintext(username: &str, password: &str) -> Result<
    git2::Cred,
    String,
> {
    git2::Cred::userpass_plaintext(username, password).map_err(|e| e.message().to_string())
}

/// Relies on git2::Cred::username: a credential that only answers a username
/// query.
#[verifier::external_body]
pub(crate) fn cred_username(username: &str) -> Result<git2::Cred, String> {
    git2::Cred::username(username).map_err(|e| e.message().to_string())
}


/// Relies on git2::Cred::userpass_plaintext, handing the native error back
/// unchanged for a credential callback to report.
#[verifier::external_body]
pub(crate) fn cred_userpass_plaintext_raw(username: &str, password: &str) -> Result<
    git2::Cred,
    git2::Error,
> {
    git2::Cred::userpass_plaintext(username, password)
}

/// Relies on git2::RemoteCallbacks::credentials: installs a callback that
/// answers every credential request by calling the library's plaintext
/// credential maker with the given username and password.
#[verifier::external_body]
pub(crate) fn remote_callbacks_set_userpass(
    callbacks: &mut git2::RemoteCallbacks<'static>,
    username: String,
    password: String,
) {
    callbacks.credentials(move |_url, _username_from_url, _allowed| {
        crate::remote::make_userpass_cred(username.as_str(), password.as_str())
    });
}


/// Relies on git2::RemoteCallbacks::credentials: installs the given function
/// as the credential callback. On each request the native arguments — the
/// allowed credential-type bits, the url, and the username taken from the url
/// (or "git" when it names none) — are handed over as one record, and the
/// function's answer is returned to the native layer.
#[verifier::external_body]
pub(crate) fn remote_callbacks_set_credentials<F: FnMut(CredInfo) -> Result<
    git2::Cred,
    git2::Error,
> + 'static>(callbacks: &mut git2::RemoteCallbacks<'static>, f: F) {
    let mut f = f;
    callbacks.credentials(move |url, username_from_url, allowed| {
        f(CredInfo {
            cred_type: CredentialType::from_bits(allowed.bits()),
            url: url.to_string(),
            username: username_from_url.unwrap_or("git").to_string(),
        })
    });
}

/// Relies on git2::RemoteCallbacks::transfer_progress: installs the given
/// function as the progress callback. On each report the native counts are
/// handed over as one record; answering false asks the native layer to stop.
#[verifier::external_body]
pub(crate) fn remote_callbacks_set_transfer_progress<F: FnMut(Progress) -> bool + 'static>(
    callbacks: &mut git2::RemoteCallbacks<'static>,
    f: F,
) {
    let mut f = f;
    callbacks.transfer_progress(move |p| {
        f(Progress {
            total_objects: p.total_objects() as u32,
            indexed_objects: p.indexed_objects() as u32,
            received_objects: p.received_objects() as u32,
            local_objects: p.local_objects() as u32,
            total_deltas: p.total_deltas() as u32,
            indexed_deltas: p.indexed_deltas() as u32,
            received_bytes: p.received_bytes() as u32,
        })
    });
}

/// Relies on git2::RemoteCallbacks::push_transfer_progress: installs the
/// given function as the push-progress callback, handing the native counts
/// over as one record.
#[verifier::external_body]
pub(crate) fn remote_callbacks_set_push_progress<F: FnMut(PushTransferProgress) + 'static>(
    callbacks: &mut git2::RemoteCallbacks<'static>,
    f: F,
) {
    let mut f = f;
    callbacks.push_transfer_progress(move |current, total, bytes| {
        f(PushTransferProgress {
            current: current as u32,
            total: total as u32,
            bytes: bytes as u32,
        });
    });
}

/// Relies on git2::Repository::tag_foreach: the id (in hex form) and the full
/// reference name bytes of every tag, collected in the order the native
/// library visits them.
#[verifier::external_body]
pub(crate) fn repo_tag_entries(repo: &Rc<git2::Repository>) -> Result<
    Vec<(String, Vec<u8>)>,
    String,
> {
    let mut entries: Vec<(String, Vec<u8>)> = Vec::new();
    let result = repo.tag_foreach(|oid, name| {
        entries.push((oid.to_string(), name.to_vec()));
        true
    });
    match result {
        Ok(_) => Ok(entries),
        Err(e) => Err(e.message().to_string()),
    }
}

/// Relies on git2::Cred::has_username.
#[verifier::external_body]
pub(crate) fn cred_has_username(cred: &git2::Cred) -> bool {
    cred.has_username()
}

/// Relies on git2::Cred::credtype: the credential's type bits.
#[verifier::external_body]
pub(crate) fn cred_type_bits(cred: &git2::Cred) -> u32 {
    cred.credtype() as u32
}

/// Relies on git2::Cred::default and std::mem::replace: moves the credential
/// out, leaving a fresh default behind, as the native layer takes ownership
/// of the secret material on use.
#[verifier::external_body]
pub(crate) fn cred_take(cred: &mut git2::Cred) -> Result<git2::Cred, String> {
    match git2::Cred::default() {
        Ok(mut fresh) => {
            std::mem::swap(&mut fresh, cred);
            Ok(fresh)
        },
        Err(e) => Err(e.message().to_string()),
    }
}

// ---------------------------------------------------------------------------
// Clone builder
// ---------------------------------------------------------------------------

/// Relies on git2::build::RepoBuilder::new.
#[verifier::external_body]
pub(crate) fn repo_builder_new() -> git2::build::RepoBuilder<'static> {
    git2::build::RepoBuilder::new()
}

/// Relies on git2::build::RepoBuilder::bare: whether to clone bare.
#[verifier::external_body]
pub(crate) fn repo_builder_bare(builder: &mut git2::build::RepoBuilder<'static>, bare: bool) {
    builder.bare(bare);
}

/// Relies on git2::build::RepoBuilder::branch: the branch to check out after
/// the clone. The native binding aborts on an interior NUL, so that input is
/// excluded.
#[verifier::external_body]
pub(crate) fn repo_builder_branch(builder: &mut git2::build::RepoBuilder<'static>, branch: &str)
    requires
        !has_nul_char(branch@),
{
    builder.branch(branch);
}

/// Relies on git2::build::RepoBuilder::clone_local: whether to bypass the
/// git-aware transport for local paths.
#[verifier::external_body]
pub(crate) fn repo_builder_clone_local(
    builder: &mut git2::build::RepoBuilder<'static>,
    clone_local: &CloneLocal,
) {
    let native = match clone_local {
        CloneLocal::Auto => git2::build::CloneLocal::Auto,
        CloneLocal::Local => git2::build::CloneLocal::Local,
        CloneLocal::NoLocal => git2::build::CloneLocal::None,
        CloneLocal::NoLinks => git2::build::CloneLocal::NoLinks,
    };
    builder.clone_local(native);
}

/// Relies on git2::build::RepoBuilder::fetch_options.
#[verifier::external_body]
pub(crate) fn repo_builder_fetch_options(
    builder: &mut git2::build::RepoBuilder<'static>,
    options: git2::FetchOptions<'static>,
) {
    builder.fetch_options(options);
}

/// Relies on git2::build::RepoBuilder::clone: clones the remote at the url
/// into the path, with the configuration gathered by the builder.
#[verifier::external_body]
pub(crate) fn repo_builder_clone(
    builder: &mut git2::build::RepoBuilder<'static>,
    url: &str,
    path: &str,
) -> Result<git2::Repository, String> {
    builder.clone(url, std::path::Path::new(path)).map_err(|e| e.message().to_string())
}

} // verus!
