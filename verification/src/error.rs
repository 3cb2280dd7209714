//! Normalization of native-library failures into one host-facing error shape.
//!
//! Every fallible native call is reported either with a caller-supplied
//! context phrase followed by the native error text, or with a fixed prefix
//! followed by the native error text. An absent optional value can likewise be
//! promoted to an error carrying a caller-supplied message.

use vstd::prelude::*;
use vstd::string::*;

verus! {

/// The exact message of an error built from a caller-supplied context phrase
/// and the native error text.
pub open spec fn contextual_message(context: Seq<char>, native: Seq<char>) -> Seq<char> {
    context + ": "@ + native
}

/// The exact message of an error built from the native error text alone.
pub open spec fn bare_message(native: Seq<char>) -> Seq<char> {
    "libgit2 error: "@ + native
}

/// The single error shape surfaced by every operation of this library.
#[derive(Debug)]
pub struct GitError {
    message: String,
}

impl View for GitError {
    type V = Seq<char>;

    closed spec fn view(&self) -> Seq<char> {
        self.message@
    }
}

impl GitError {
    /// Wrap a native error text under a caller-supplied context phrase.
    pub fn contextual(context: &str, native: &str) -> (e: GitError)
        ensures
            e@ == contextual_message(context@, native@),
    {
        let mut message = context.to_owned();
        message.append(": ");
        message.append(native);
        GitError { message }
    }

    /// Wrap a native error text under the fixed prefix used when the caller
    /// supplies no context of its own.
    pub fn bare(native: &str) -> (e: GitError)
        ensures
            e@ == bare_message(native@),
    {
        let mut message = String::from_str("libgit2 error: ");
        message.append(native);
        GitError { message }
    }

    /// An error that carries exactly the given message.
    pub fn from_message(message: String) -> (e: GitError)
        ensures
            e@ == message@,
    {
        GitError { message }
    }

    /// The normalized message.
    pub fn message(&self) -> (m: &String)
        ensures
            m@ == self@,
    {
        &self.message
    }
}

/// Promote an absent optional value to an error carrying the given message,
/// for queries where the absence itself is the failure condition.
pub fn expect_not_null<T>(value: Option<T>, message: String) -> (r: Result<T, GitError>)
    ensures
        match value {
            Some(v) => r == Ok::<T, GitError>(v),
            None => r matches Err(e) && e@ == message@,
        },
{
    match value {
        Some(v) => Ok(v),
        None => Err(GitError::from_message(message)),
    }
}

} // verus!
