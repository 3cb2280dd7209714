//! A builder for configuring how a repository is cloned.

use vstd::prelude::*;

use crate::error::{GitError, contextual_message};
use crate::native;
use crate::remote::{FETCH_OPTIONS_REUSE_MESSAGE, FetchOptions};
use crate::repo::Repository;
use crate::text::has_nul_char;

verus! {

/// Options for bypassing the git-aware transport on clone.
#[derive(Clone, Copy, PartialEq, Eq, Structural, Debug)]
pub enum CloneLocal {
    /// Auto-detect (default)
    ///
    /// Here the native library will bypass the git-aware transport for local
    /// paths, but use a normal fetch for `file://` URLs.
    Auto,
    /// Bypass the git-aware transport even for `file://` URLs.
    Local,
    /// Never bypass the git-aware transport
    NoLocal,
    /// Bypass the git-aware transport, but don't try to use hardlinks.
    NoLinks,
}

/// A builder struct which is used to build configuration for cloning a new
/// git repository.
///
/// To clone over an authenticated transport, put the credentials in fresh
/// `RemoteCallbacks`, consume them into `FetchOptions`, consume those into
/// the builder with `fetch_options`, and then `clone`.
pub struct RepoBuilder {
    builder: git2::build::RepoBuilder<'static>,
}

impl RepoBuilder {
    /// A fresh builder with default configuration.
    pub fn new() -> RepoBuilder {
        RepoBuilder { builder: native::repo_builder_new() }
    }

    /// Indicate whether the repository will be cloned as a bare repository or
    /// not.
    pub fn bare(&mut self, bare: bool) {
        native::repo_builder_bare(&mut self.builder, bare);
    }

    /// Specify the name of the branch to check out after the clone.
    ///
    /// If not specified, the remote's default branch will be used. A branch
    /// name holding a NUL character cannot cross into the native library and
    /// is excluded.
    pub fn branch(&mut self, branch: String)
        requires
            !has_nul_char(branch@),
    {
        native::repo_builder_branch(&mut self.builder, branch.as_str());
    }

    /// Configures options for bypassing the git-aware transport on clone.
    ///
    /// Bypassing it means that instead of a fetch the native library will
    /// copy the object database directory instead of figuring out what it
    /// needs, which is faster. If possible, it will hardlink the files to
    /// save space.
    pub fn clone_local(&mut self, clone_local: CloneLocal) {
        native::repo_builder_clone_local(&mut self.builder, &clone_local);
    }

    /// Options which control the fetch, including callbacks, consumed into
    /// the builder.
    ///
    /// The callbacks are used for reporting fetch progress, and for acquiring
    /// credentials in the event they are needed.
    ///
    /// Fails with the reuse message, before any native call, when the fetch
    /// options were already spent; otherwise marks them spent.
    pub fn fetch_options(&mut self, fetch_options: &mut FetchOptions) -> (r: Result<(), GitError>)
        ensures
            old(fetch_options).used_spec() ==> (r matches Err(e) && e@
                == FETCH_OPTIONS_REUSE_MESSAGE@ && final(fetch_options).used_spec()),
            !old(fetch_options).used_spec() ==> r is Ok && final(fetch_options).used_spec(),
    {
        let options = match fetch_options.take_inner() {
            Ok(options) => options,
            Err(e) => {
                return Err(e);
            },
        };
        native::repo_builder_fetch_options(&mut self.builder, options);
        Ok(())
    }

    /// Clone the remote at `url` into `path`, with the configuration gathered
    /// by this builder, and hand back an owned-root handle to the new
    /// repository.
    pub fn clone(&mut self, url: String, path: String) -> (r: Result<Repository, GitError>)
        ensures
            r matches Err(e) ==> exists|reason: Seq<char>|
                e@ == contextual_message("Clone failed"@, reason),
    {
        match native::repo_builder_clone(&mut self.builder, url.as_str(), path.as_str()) {
            Ok(native) => Ok(Repository::from_native(native)),
            Err(reason) => Err(GitError::contextual("Clone failed", reason.as_str())),
        }
    }
}

} // verus!
