//! Remotes, fetch configuration and credentials.
//!
//! The configuration objects here — [`RemoteCallbacks`], [`FetchOptions`],
//! [`ProxyOptions`], [`Cred`] — are single-use: the native layer takes
//! ownership of their underlying value when they are consumed, so each
//! carries a `used` flag, and every consuming operation checks it through one
//! helper and fails before any native call when the value was already spent.

use std::rc::Rc;
use vstd::prelude::*;

use crate::error::GitError;
use crate::native;
use crate::text::{contains_nul_char, has_nul_char};

verus! {

/// An enumeration of the possible directions for a remote.
#[derive(Clone, Copy, PartialEq, Eq, Structural, Debug)]
pub enum Direction {
    /// Data will be fetched (read) from this remote.
    Fetch,
    /// Data will be pushed (written) to this remote.
    Push,
}

/// Configuration for how pruning is done on a fetch.
#[derive(Clone, Copy, PartialEq, Eq, Structural, Debug)]
pub enum FetchPrune {
    /// Use the setting from the configuration
    Unspecified,
    /// Force pruning on
    On,
    /// Force pruning off
    Off,
}

/// Automatic tag following options.
#[derive(Clone, Copy, PartialEq, Eq, Structural, Debug)]
pub enum AutotagOption {
    /// Use the setting from the remote's configuration
    Unspecified,
    /// Ask the server for tags pointing to objects we're already downloading
    Auto,
    /// Don't ask for any tags beyond the refspecs
    NoTags,
    /// Ask for all the tags
    All,
}

/// Remote redirection settings; whether redirects to another host are
/// permitted.
///
/// By default, git will follow a redirect on the initial request
/// (`/info/refs`), but not subsequent requests.
#[derive(Clone, Copy, PartialEq, Eq, Structural, Debug)]
pub enum RemoteRedirect {
    /// Do not follow any off-site redirects at any stage of the fetch or
    /// push.
    NoFollow,
    /// Allow off-site redirects only upon the initial request. This is the
    /// default.
    Initial,
    /// Allow redirects at any stage in the fetch or push.
    All,
}

/// Types of credentials that can be requested by a credential callback. Each
/// type is one independent bit.
#[derive(Clone, Copy, PartialEq, Eq, Structural, Debug)]
pub enum CredentialType {
    UserPassPlaintext,
    SshKey,
    SshMemory,
    SshCustom,
    Default,
    SshInteractive,
    Username,
}

impl CredentialType {
    /// The type's bit, as the native library defines it.
    pub open spec fn spec_bits(self) -> u32 {
        match self {
            CredentialType::UserPassPlaintext => 1u32,
            CredentialType::SshKey => 2u32,
            CredentialType::SshCustom => 4u32,
            CredentialType::Default => 8u32,
            CredentialType::SshInteractive => 16u32,
            CredentialType::Username => 32u32,
            CredentialType::SshMemory => 64u32,
        }
    }

    /// The type's bit, as the native library defines it.
    pub fn bits(self) -> (b: u32)
        ensures
            b == self.spec_bits(),
    {
        match self {
            CredentialType::UserPassPlaintext => 1u32,
            CredentialType::SshKey => 2u32,
            CredentialType::SshCustom => 4u32,
            CredentialType::Default => 8u32,
            CredentialType::SshInteractive => 16u32,
            CredentialType::Username => 32u32,
            CredentialType::SshMemory => 64u32,
        }
    }

    /// The type a set of bits stands for: the single matching type, or
    /// `Default` for any other combination.
    pub open spec fn spec_from_bits(bits: u32) -> CredentialType {
        if bits == 1u32 {
            CredentialType::UserPassPlaintext
        } else if bits == 2u32 {
            CredentialType::SshKey
        } else if bits == 64u32 {
            CredentialType::SshMemory
        } else if bits == 4u32 {
            CredentialType::SshCustom
        } else if bits == 16u32 {
            CredentialType::SshInteractive
        } else if bits == 32u32 {
            CredentialType::Username
        } else {
            CredentialType::Default
        }
    }

    /// The type a set of bits stands for: the single matching type, or
    /// `Default` for any other combination.
    pub fn from_bits(bits: u32) -> (r: CredentialType)
        ensures
            r == CredentialType::spec_from_bits(bits),
    {
        if bits == 1u32 {
            CredentialType::UserPassPlaintext
        } else if bits == 2u32 {
            CredentialType::SshKey
        } else if bits == 64u32 {
            CredentialType::SshMemory
        } else if bits == 4u32 {
            CredentialType::SshCustom
        } else if bits == 16u32 {
            CredentialType::SshInteractive
        } else if bits == 32u32 {
            CredentialType::Username
        } else {
            CredentialType::Default
        }
    }
}

/// Check whether a credential type contains another credential type: every
/// bit of the other type is also set in this one.
pub fn cred_type_contains(cred_type: CredentialType, another: CredentialType) -> (r: bool)
    ensures
        r == (cred_type.spec_bits() & another.spec_bits() == another.spec_bits()),
{
    cred_type.bits() & another.bits() == another.bits()
}

/// What a credential callback is asked with: the allowed credential types,
/// the url being contacted, and the username taken from the url (or "git").
#[derive(PartialEq, Eq, Debug)]
pub struct CredInfo {
    pub cred_type: CredentialType,
    pub url: String,
    pub username: String,
}

/// Flags controlling how `update_tips` writes its results.
#[derive(Clone, Copy, PartialEq, Eq, Structural, Debug)]
pub enum RemoteUpdateFlags {
    UpdateFetchHead,
    ReportUnchanged,
}

impl RemoteUpdateFlags {
    /// The flag's bit, as the native library defines it.
    pub open spec fn spec_bits(self) -> u32 {
        match self {
            RemoteUpdateFlags::UpdateFetchHead => 1u32,
            RemoteUpdateFlags::ReportUnchanged => 2u32,
        }
    }

    /// The flag's bit, as the native library defines it.
    pub fn bits(self) -> (b: u32)
        ensures
            b == self.spec_bits(),
    {
        match self {
            RemoteUpdateFlags::UpdateFetchHead => 1u32,
            RemoteUpdateFlags::ReportUnchanged => 2u32,
        }
    }
}

/// Counts reported while a fetch transfers objects.
#[derive(Clone, Copy, PartialEq, Eq, Structural, Debug)]
pub struct Progress {
    pub total_objects: u32,
    pub indexed_objects: u32,
    pub received_objects: u32,
    pub local_objects: u32,
    pub total_deltas: u32,
    pub indexed_deltas: u32,
    pub received_bytes: u32,
}

/// Counts reported while a push transfers objects.
#[derive(Clone, Copy, PartialEq, Eq, Structural, Debug)]
pub struct PushTransferProgress {
    pub current: u32,
    pub total: u32,
    pub bytes: u32,
}

/// How a remote handle re-derives its native remote.
pub(crate) enum RemoteSource {
    /// A configured remote, by name.
    Named(String),
    /// An in-memory remote, by url.
    Anonymous(String),
}

/// A shared-derived handle to a remote: the repository root it retains, plus
/// the name or url it is re-derived by on each use.
///
/// Because the native remote is derived anew for each operation, a connection
/// does not persist from one call to the next: `fetch` and `default_branch`
/// manage their own connection, and `connect` only probes that a connection
/// can be made.
pub struct Remote {
    pub(crate) repo: Rc<git2::Repository>,
    pub(crate) source: RemoteSource,
}

/// Check that a single-use value has not been spent yet; the one check used
/// by every consuming operation.
pub(crate) fn ensure_unused(used: bool, message: &str) -> (r: Result<(), GitError>)
    ensures
        match r {
            Ok(u) => !used,
            Err(e) => used && e@ == message@,
        },
{
    if used {
        Err(GitError::from_message(message.to_owned()))
    } else {
        Ok(())
    }
}

impl Remote {
    /// The native root this handle retains.
    pub closed spec fn root(self) -> Rc<git2::Repository> {
        self.repo
    }

    pub(crate) fn from_name(repo: Rc<git2::Repository>, name: String) -> (r: Remote)
        ensures
            r.root() == repo,
    {
        Remote { repo, source: RemoteSource::Named(name) }
    }

    pub(crate) fn from_url(repo: Rc<git2::Repository>, url: String) -> (r: Remote)
        ensures
            r.root() == repo,
    {
        Remote { repo, source: RemoteSource::Anonymous(url) }
    }

    /// Ensure the remote name is well-formed. A name with a NUL character
    /// cannot reach the native check and is never valid.
    pub fn is_valid_name(name: String) -> (r: bool)
        ensures
            !has_nul_char(name@) ==> r == native::remote_name_valid(name@),
            has_nul_char(name@) ==> r == false,
    {
        if contains_nul_char(name.as_str()) {
            false
        } else {
            native::remote_is_valid_name(name.as_str())
        }
    }

    /// Resolve this handle to the native remote it names.
    fn native_remote<'r>(&'r self) -> Result<git2::Remote<'r>, String> {
        match &self.source {
            RemoteSource::Named(name) => native::repo_find_remote(&self.repo, name.as_str()),
            RemoteSource::Anonymous(url) => native::repo_remote_anonymous(&self.repo, url.as_str()),
        }
    }

    /// Get the remote's name.
    ///
    /// Returns `None` if this remote has not yet been named or if the name is
    /// not valid text.
    pub fn name(&self) -> Option<String> {
        match self.native_remote() {
            Ok(remote) => native::remote_name(&remote),
            Err(_) => None,
        }
    }

    /// Get the remote's url.
    ///
    /// Returns `None` if the url is not valid text.
    pub fn url(&self) -> Option<String> {
        match self.native_remote() {
            Ok(remote) => native::remote_url(&remote),
            Err(_) => None,
        }
    }

    /// Get the remote's pushurl.
    ///
    /// Returns `None` if none is set or it is not valid text.
    pub fn pushurl(&self) -> Option<String> {
        match self.native_remote() {
            Ok(remote) => native::remote_pushurl(&remote),
            Err(_) => None,
        }
    }

    /// Get the remote's default branch.
    ///
    /// A connection is opened for the query, since this handle holds none
    /// between calls; the default branch is what the remote advertises over
    /// that connection.
    pub fn default_branch(&self) -> (r: Result<String, GitError>)
        ensures
            r matches Err(e) ==> (exists|reason: Seq<char>|
                e@ == crate::error::contextual_message(
                    "Get the default branch of Remote failed"@,
                    reason,
                )) || e@ == "Default branch name contains non-utf-8 characters"@,
    {
        let mut remote = match self.native_remote() {
            Ok(remote) => remote,
            Err(reason) => {
                return Err(
                    GitError::contextual(
                        "Get the default branch of Remote failed",
                        reason.as_str(),
                    ),
                );
            },
        };
        match native::remote_connect(&mut remote, true) {
            Ok(u) => u,
            Err(reason) => {
                return Err(
                    GitError::contextual(
                        "Get the default branch of Remote failed",
                        reason.as_str(),
                    ),
                );
            },
        }
        match native::remote_default_branch(&remote) {
            Ok(Some(branch)) => Ok(branch),
            Ok(None) => Err(
                GitError::from_message(
                    String::from_str("Default branch name contains non-utf-8 characters"),
                ),
            ),
            Err(reason) => Err(
                GitError::contextual("Get the default branch of Remote failed", reason.as_str()),
            ),
        }
    }

    /// Open a connection to the remote in the given direction, to check that
    /// one can be made. The connection is released when the call returns: it
    /// does not persist to later calls on this handle.
    pub fn connect(&mut self, dir: Direction) -> (r: Result<(), GitError>)
        ensures
            r matches Err(e) ==> exists|reason: Seq<char>|
                e@ == crate::error::bare_message(reason),
    {
        let mut remote = match self.native_remote() {
            Ok(remote) => remote,
            Err(reason) => {
                return Err(GitError::bare(reason.as_str()));
            },
        };
        let fetch = match dir {
            Direction::Fetch => true,
            Direction::Push => false,
        };
        match native::remote_connect(&mut remote, fetch) {
            Ok(u) => Ok(u),
            Err(reason) => Err(GitError::bare(reason.as_str())),
        }
    }

    /// Check whether the remote is connected.
    ///
    /// No connection persists between calls on this handle, so this reports
    /// on the freshly derived remote.
    pub fn connected(&mut self) -> bool {
        let mut remote = match self.native_remote() {
            Ok(remote) => remote,
            Err(_) => {
                return false;
            },
        };
        native::remote_connected(&mut remote)
    }

    /// Disconnect from the remote.
    ///
    /// No connection persists between calls on this handle, so this asks the
    /// freshly derived remote to disconnect.
    pub fn disconnect(&mut self) -> (r: Result<(), GitError>)
        ensures
            r matches Err(e) ==> exists|reason: Seq<char>|
                e@ == crate::error::bare_message(reason),
    {
        let mut remote = match self.native_remote() {
            Ok(remote) => remote,
            Err(reason) => {
                return Err(GitError::bare(reason.as_str()));
            },
        };
        match native::remote_disconnect(&mut remote) {
            Ok(u) => Ok(u),
            Err(reason) => Err(GitError::bare(reason.as_str())),
        }
    }

    /// Cancel the operation.
    ///
    /// At certain points in its operation, the network code checks whether
    /// the operation has been cancelled and if so stops the operation.
    pub fn stop(&mut self) -> (r: Result<(), GitError>)
        ensures
            r matches Err(e) ==> exists|reason: Seq<char>|
                e@ == crate::error::bare_message(reason),
    {
        let mut remote = match self.native_remote() {
            Ok(remote) => remote,
            Err(reason) => {
                return Err(GitError::bare(reason.as_str()));
            },
        };
        match native::remote_stop(&mut remote) {
            Ok(u) => Ok(u),
            Err(reason) => Err(GitError::bare(reason.as_str())),
        }
    }

    /// Download new data and update tips.
    ///
    /// Convenience function to connect to a remote, download the data,
    /// disconnect and update the remote-tracking branches.
    ///
    /// The fetch options are single-use and consumed here: the native layer
    /// takes ownership of them. Passing a value that an earlier consuming
    /// operation already spent fails with the reuse message, before any
    /// native call.
    pub fn fetch(&mut self, refspecs: Vec<String>, fetch_options: Option<FetchOptions>) -> (r:
        Result<(), GitError>)
        ensures
            fetch_options matches Some(o) && o.used_spec() ==> (r matches Err(e) && e@
                == FETCH_OPTIONS_REUSE_MESSAGE@),
            r matches Err(e) ==> e@ == FETCH_OPTIONS_REUSE_MESSAGE@ || (exists|reason: Seq<char>|
                e@ == crate::error::bare_message(reason)),
    {
        let mut options = match fetch_options {
            Some(o) => {
                match ensure_unused(o.used, FETCH_OPTIONS_REUSE_MESSAGE) {
                    Ok(u) => u,
                    Err(e) => {
                        return Err(e);
                    },
                }
                o.inner
            },
            None => native::fetch_options_new(),
        };
        let mut remote = match self.native_remote() {
            Ok(remote) => remote,
            Err(reason) => {
                return Err(GitError::bare(reason.as_str()));
            },
        };
        match native::remote_fetch(&mut remote, &refspecs, &mut options) {
            Ok(u) => Ok(u),
            Err(reason) => Err(GitError::bare(reason.as_str())),
        }
    }

    /// Update the tips to the new state.
    ///
    /// The callbacks, where given, are single-use and consumed here: the
    /// native layer takes ownership of them. Passing a value that an earlier
    /// consuming operation already spent fails with the reuse message, before
    /// any native call.
    pub fn update_tips(
        &mut self,
        update_fetchhead: RemoteUpdateFlags,
        download_tags: AutotagOption,
        callbacks: Option<RemoteCallbacks>,
        msg: Option<String>,
    ) -> (r: Result<(), GitError>)
        ensures
            callbacks matches Some(c) && c.used_spec() ==> (r matches Err(e) && e@
                == CALLBACKS_REUSE_MESSAGE@),
            r matches Err(e) ==> e@ == CALLBACKS_REUSE_MESSAGE@ || (exists|reason: Seq<char>|
                e@ == crate::error::bare_message(reason)),
    {
        let mut native_callbacks = match callbacks {
            Some(c) => {
                match ensure_unused(c.used, CALLBACKS_REUSE_MESSAGE) {
                    Ok(u) => u,
                    Err(e) => {
                        return Err(e);
                    },
                }
                Some(c.inner)
            },
            None => None,
        };
        let mut remote = match self.native_remote() {
            Ok(remote) => remote,
            Err(reason) => {
                return Err(GitError::bare(reason.as_str()));
            },
        };
        let update_fetchhead_flag = match update_fetchhead {
            RemoteUpdateFlags::UpdateFetchHead => true,
            RemoteUpdateFlags::ReportUnchanged => false,
        };
        let report_unchanged_flag = match update_fetchhead {
            RemoteUpdateFlags::UpdateFetchHead => false,
            RemoteUpdateFlags::ReportUnchanged => true,
        };
        let msg_str = match &msg {
            Some(m) => Some(m.as_str()),
            None => None,
        };
        let result = native::remote_update_tips(
            &mut remote,
            native_callbacks.as_mut(),
            update_fetchhead_flag,
            report_unchanged_flag,
            &download_tags,
            msg_str,
        );
        match result {
            Ok(u) => Ok(u),
            Err(reason) => Err(GitError::bare(reason.as_str())),
        }
    }
}

/// Callbacks observing a network operation. Single-use: consuming them into
/// fetch options or an update spends them.
pub struct RemoteCallbacks {
    pub(crate) inner: git2::RemoteCallbacks<'static>,
    pub(crate) used: bool,
}

impl RemoteCallbacks {
    /// Whether this value has been spent by a consuming operation.
    pub closed spec fn used_spec(self) -> bool {
        self.used
    }

    /// Fresh, unspent callbacks.
    pub fn new() -> (r: RemoteCallbacks)
        ensures
            !r.used_spec(),
    {
        RemoteCallbacks { inner: native::remote_callbacks_new(), used: false }
    }

    /// The callback through which to answer credential requests.
    ///
    /// Each request carries the allowed credential types, the url being
    /// contacted, and the username taken from the url (or "git"); the
    /// function answers with a single-use credential — a stored [`Cred`]
    /// hands its native value over through `take_native`, which rejects a
    /// second use with an explicit error, as the native layer owns the secret
    /// material from the first use on.
    pub fn credentials_with<F: FnMut(CredInfo) -> Result<git2::Cred, git2::Error> + 'static>(
        &mut self,
        callback: F,
    )
        ensures
            final(self).used_spec() == old(self).used_spec(),
    {
        native::remote_callbacks_set_credentials(&mut self.inner, callback);
    }

    /// The credential callback answering every request with a plain-text
    /// username and password credential, built fresh per request so the
    /// native layer's ownership of each credential's secret material never
    /// outlives one request.
    pub fn credentials(&mut self, username: String, password: String)
        ensures
            final(self).used_spec() == old(self).used_spec(),
    {
        native::remote_callbacks_set_userpass(&mut self.inner, username, password);
    }

    /// The callback through which progress is monitored: invoked repeatedly
    /// during a fetch with the native layer's transfer counts; answering
    /// false asks it to stop (best-effort).
    pub fn transfer_progress<F: FnMut(Progress) -> bool + 'static>(&mut self, callback: F)
        ensures
            final(self).used_spec() == old(self).used_spec(),
    {
        native::remote_callbacks_set_transfer_progress(&mut self.inner, callback);
    }

    /// The callback through which progress of a push transfer is monitored.
    pub fn push_transfer_progress<F: FnMut(PushTransferProgress) + 'static>(
        &mut self,
        callback: F,
    )
        ensures
            final(self).used_spec() == old(self).used_spec(),
    {
        native::remote_callbacks_set_push_progress(&mut self.inner, callback);
    }
}

/// Build the plain-text credential a credential callback answers with.
pub(crate) fn make_userpass_cred(username: &str, password: &str) -> Result<
    git2::Cred,
    git2::Error,
> {
    native::cred_userpass_plaintext_raw(username, password)
}

/// Options controlling a fetch. Single-use: consuming them into a fetch or a
/// clone spends them.
pub struct FetchOptions {
    pub(crate) inner: git2::FetchOptions<'static>,
    pub(crate) used: bool,
}

/// The message reported when spent fetch options are consumed again.
pub const FETCH_OPTIONS_REUSE_MESSAGE: &'static str =
    "FetchOptions has been used, please create a new one";

/// The message reported when spent callbacks are consumed again.
pub const CALLBACKS_REUSE_MESSAGE: &'static str = "RemoteCallbacks can only be used once";

/// The message reported when spent proxy options are consumed again.
pub const PROXY_OPTIONS_REUSE_MESSAGE: &'static str = "ProxyOptions can only be used once";

/// The message reported when a spent credential is consumed again.
pub const CRED_REUSE_MESSAGE: &'static str = "Cred can only be used once";

impl FetchOptions {
    /// Whether this value has been spent by a consuming operation.
    pub closed spec fn used_spec(self) -> bool {
        self.used
    }

    /// Fresh, unspent fetch options.
    pub fn new() -> (r: FetchOptions)
        ensures
            !r.used_spec(),
    {
        FetchOptions { inner: native::fetch_options_new(), used: false }
    }

    /// Move the native options out for a consuming operation, marking this
    /// value spent; fails with the reuse message when it already was.
    pub(crate) fn take_inner(&mut self) -> (r: Result<git2::FetchOptions<'static>, GitError>)
        ensures
            old(self).used_spec() ==> (r matches Err(e) && e@ == FETCH_OPTIONS_REUSE_MESSAGE@
                && final(self).used_spec()),
            !old(self).used_spec() ==> r is Ok && final(self).used_spec(),
    {
        match ensure_unused(self.used, FETCH_OPTIONS_REUSE_MESSAGE) {
            Ok(u) => u,
            Err(e) => {
                return Err(e);
            },
        }
        self.used = true;
        Ok(native::fetch_options_take(&mut self.inner))
    }

    /// Set the callbacks to use for the fetch operation, consuming them.
    ///
    /// Fails with the reuse message, before any native call, when the
    /// callbacks were already spent; otherwise marks them spent.
    pub fn remote_callback(&mut self, callback: &mut RemoteCallbacks) -> (r: Result<(), GitError>)
        ensures
            old(callback).used_spec() ==> (r matches Err(e) && e@ == CALLBACKS_REUSE_MESSAGE@
                && final(callback).used_spec() && final(self).used_spec() == old(self).used_spec()),
            !old(callback).used_spec() ==> r is Ok && final(callback).used_spec()
                && final(self).used_spec() == old(self).used_spec(),
    {
        match ensure_unused(callback.used, CALLBACKS_REUSE_MESSAGE) {
            Ok(u) => u,
            Err(e) => {
                return Err(e);
            },
        }
        let cbs = native::remote_callbacks_take(&mut callback.inner);
        native::fetch_options_set_callbacks(&mut self.inner, cbs);
        callback.used = true;
        Ok(())
    }

    /// Set the proxy options to use for the fetch operation, consuming them.
    ///
    /// Fails with the reuse message, before any native call, when the proxy
    /// options were already spent; otherwise marks them spent.
    pub fn proxy_options(&mut self, options: &mut ProxyOptions) -> (r: Result<(), GitError>)
        ensures
            old(options).used_spec() ==> (r matches Err(e) && e@ == PROXY_OPTIONS_REUSE_MESSAGE@
                && final(options).used_spec() && final(self).used_spec() == old(self).used_spec()),
            !old(options).used_spec() ==> r is Ok && final(options).used_spec()
                && final(self).used_spec() == old(self).used_spec(),
    {
        match ensure_unused(options.used, PROXY_OPTIONS_REUSE_MESSAGE) {
            Ok(u) => u,
            Err(e) => {
                return Err(e);
            },
        }
        let proxy = native::proxy_options_take(&mut options.inner);
        native::fetch_options_set_proxy(&mut self.inner, proxy);
        options.used = true;
        Ok(())
    }

    /// Set whether to perform a prune after the fetch.
    pub fn prune(&mut self, prune: FetchPrune)
        ensures
            final(self).used_spec() == old(self).used_spec(),
    {
        native::fetch_options_prune(&mut self.inner, &prune);
    }

    /// Set whether to write the results to FETCH_HEAD.
    ///
    /// Defaults to `true`.
    pub fn update_fetchhead(&mut self, update: bool)
        ensures
            final(self).used_spec() == old(self).used_spec(),
    {
        native::fetch_options_update_fetchhead(&mut self.inner, update);
    }

    /// Set fetch depth, a value less or equal to 0 is interpreted as pull
    /// everything (effectively the same as not declaring a limit depth).
    pub fn depth(&mut self, depth: i32)
        ensures
            final(self).used_spec() == old(self).used_spec(),
    {
        native::fetch_options_depth(&mut self.inner, depth);
    }

    /// Set how to behave regarding tags on the remote, such as
    /// auto-downloading tags for objects we're downloading or downloading all
    /// of them.
    ///
    /// The default is to auto-follow tags.
    pub fn download_tags(&mut self, opt: AutotagOption)
        ensures
            final(self).used_spec() == old(self).used_spec(),
    {
        native::fetch_options_download_tags(&mut self.inner, &opt);
    }

    /// Set remote redirection settings; whether redirects to another host are
    /// permitted.
    ///
    /// By default, git will follow a redirect on the initial request
    /// (`/info/refs`), but not subsequent requests.
    pub fn follow_redirects(&mut self, opt: RemoteRedirect)
        ensures
            final(self).used_spec() == old(self).used_spec(),
    {
        native::fetch_options_follow_redirects(&mut self.inner, &opt);
    }

    /// Set extra headers for this fetch operation. A header holding a NUL
    /// character cannot cross into the native library and is excluded.
    pub fn custom_headers(&mut self, headers: Vec<String>)
        requires
            forall|i: int| 0 <= i < headers@.len() ==> !has_nul_char(headers@[i]@),
        ensures
            final(self).used_spec() == old(self).used_spec(),
    {
        native::fetch_options_custom_headers(&mut self.inner, &headers);
    }
}

/// Options controlling the use of a proxy. Single-use: consuming them into
/// fetch options spends them.
pub struct ProxyOptions {
    pub(crate) inner: git2::ProxyOptions<'static>,
    pub(crate) used: bool,
}

impl ProxyOptions {
    /// Whether this value has been spent by a consuming operation.
    pub closed spec fn used_spec(self) -> bool {
        self.used
    }

    /// Fresh, unspent proxy options.
    pub fn new() -> (r: ProxyOptions)
        ensures
            !r.used_spec(),
    {
        ProxyOptions { inner: native::proxy_options_new(), used: false }
    }

    /// Try to auto-detect the proxy from the git configuration.
    ///
    /// Note that this will override `url` specified before.
    pub fn auto(&mut self)
        ensures
            final(self).used_spec() == old(self).used_spec(),
    {
        native::proxy_options_auto(&mut self.inner);
    }

    /// Specify the exact URL of the proxy to use.
    ///
    /// Note that this will override `auto` specified before. A url holding a
    /// NUL character cannot cross into the native library and is excluded.
    pub fn url(&mut self, url: String)
        requires
            !has_nul_char(url@),
        ensures
            final(self).used_spec() == old(self).used_spec(),
    {
        native::proxy_options_url(&mut self.inner, url.as_str());
    }
}

/// A credential for authenticating against a remote. Single-use: the native
/// layer takes ownership of the secret material when the credential is
/// consumed.
pub struct Cred {
    pub(crate) inner: git2::Cred,
    pub(crate) used: bool,
}

impl Cred {
    /// Whether this credential has been spent by a consuming operation.
    pub closed spec fn used_spec(self) -> bool {
        self.used
    }

    /// Create a "default" credential usable for Negotiate mechanisms like
    /// NTLM or Kerberos authentication.
    pub fn new() -> (r: Result<Cred, GitError>)
        ensures
            r matches Ok(c) ==> !c.used_spec(),
            r matches Err(e) ==> exists|reason: Seq<char>|
                e@ == crate::error::contextual_message("Create Cred failed"@, reason),
    {
        match native::cred_default() {
            Ok(inner) => Ok(Cred { inner, used: false }),
            Err(reason) => Err(GitError::contextual("Create Cred failed", reason.as_str())),
        }
    }

    /// Create a new ssh key credential object used for querying an ssh-agent.
    ///
    /// The username specified is the username to authenticate.
    pub fn ssh_key_from_agent(username: String) -> (r: Result<Cred, GitError>)
        ensures
            r matches Ok(c) ==> !c.used_spec(),
            r matches Err(e) ==> exists|reason: Seq<char>|
                e@ == crate::error::contextual_message("Create Cred failed"@, reason),
    {
        match native::cred_ssh_key_from_agent(username.as_str()) {
            Ok(inner) => Ok(Cred { inner, used: false }),
            Err(reason) => Err(GitError::contextual("Create Cred failed", reason.as_str())),
        }
    }

    /// Create a new passphrase-protected ssh key credential object.
    pub fn ssh_key(
        username: String,
        publickey: Option<String>,
        privatekey: String,
        passphrase: Option<String>,
    ) -> (r: Result<Cred, GitError>)
        ensures
            r matches Ok(c) ==> !c.used_spec(),
            r matches Err(e) ==> exists|reason: Seq<char>|
                e@ == crate::error::contextual_message("Create Cred failed"@, reason),
    {
        let publickey_str = match &publickey {
            Some(p) => Some(p.as_str()),
            None => None,
        };
        let passphrase_str = match &passphrase {
            Some(p) => Some(p.as_str()),
            None => None,
        };
        let result = native::cred_ssh_key(
            username.as_str(),
            publickey_str,
            privatekey.as_str(),
            passphrase_str,
        );
        match result {
            Ok(inner) => Ok(Cred { inner, used: false }),
            Err(reason) => Err(GitError::contextual("Create Cred failed", reason.as_str())),
        }
    }

    /// Create a new ssh key credential object reading the keys from memory.
    pub fn ssh_key_from_memory(
        username: String,
        publickey: Option<String>,
        privatekey: String,
        passphrase: Option<String>,
    ) -> (r: Result<Cred, GitError>)
        ensures
            r matches Ok(c) ==> !c.used_spec(),
            r matches Err(e) ==> exists|reason: Seq<char>|
                e@ == crate::error::contextual_message("Create Cred failed"@, reason),
    {
        let publickey_str = match &publickey {
            Some(p) => Some(p.as_str()),
            None => None,
        };
        let passphrase_str = match &passphrase {
            Some(p) => Some(p.as_str()),
            None => None,
        };
        let result = native::cred_ssh_key_from_memory(
            username.as_str(),
            publickey_str,
            privatekey.as_str(),
            passphrase_str,
        );
        match result {
            Ok(inner) => Ok(Cred { inner, used: false }),
            Err(reason) => Err(GitError::contextual("Create Cred failed", reason.as_str())),
        }
    }

    /// Create a new plain-text username and password credential object.
    pub fn userpass_plaintext(username: String, password: String) -> (r: Result<Cred, GitError>)
        ensures
            r matches Ok(c) ==> !c.used_spec(),
            r matches Err(e) ==> exists|reason: Seq<char>|
                e@ == crate::error::contextual_message("Create Cred failed"@, reason),
    {
        match native::cred_userpass_plaintext(username.as_str(), password.as_str()) {
            Ok(inner) => Ok(Cred { inner, used: false }),
            Err(reason) => Err(GitError::contextual("Create Cred failed", reason.as_str())),
        }
    }

    /// Create a credential to specify a username.
    ///
    /// This is used with ssh authentication to query for the username if none
    /// is specified in the URL.
    pub fn username(username: String) -> (r: Result<Cred, GitError>)
        ensures
            r matches Ok(c) ==> !c.used_spec(),
            r matches Err(e) ==> exists|reason: Seq<char>|
                e@ == crate::error::contextual_message("Create Cred failed"@, reason),
    {
        match native::cred_username(username.as_str()) {
            Ok(inner) => Ok(Cred { inner, used: false }),
            Err(reason) => Err(GitError::contextual("Create Cred failed", reason.as_str())),
        }
    }

    /// Check whether a credential object contains username information.
    pub fn has_username(&self) -> bool {
        native::cred_has_username(&self.inner)
    }

    /// Return the type of credentials that this object represents.
    pub fn credtype(&self) -> CredentialType {
        CredentialType::from_bits(native::cred_type_bits(&self.inner))
    }

    /// Take the native credential out, to hand it to the native layer, which
    /// owns its secret material from then on.
    ///
    /// Fails with the reuse message, before any native call, when the
    /// credential was already spent; otherwise marks it spent.
    pub fn take_native(&mut self) -> (r: Result<git2::Cred, GitError>)
        ensures
            old(self).used_spec() ==> (r matches Err(e) && e@ == CRED_REUSE_MESSAGE@
                && *final(self) == *old(self)),
            r is Ok ==> final(self).used_spec(),
            r is Err ==> final(self).used_spec() == old(self).used_spec(),
    {
        match ensure_unused(self.used, CRED_REUSE_MESSAGE) {
            Ok(u) => u,
            Err(e) => {
                return Err(e);
            },
        }
        match native::cred_take(&mut self.inner) {
            Ok(taken) => {
                self.used = true;
                Ok(taken)
            },
            Err(reason) => Err(GitError::bare(reason.as_str())),
        }
    }
}

} // verus!
