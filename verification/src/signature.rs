//! Authorship signatures: a name, an email address, and a timestamp.
//!
//! A signature constructed by this library always carries valid text for the
//! name and email; a signature read back out of a commit may lack either when
//! the stored bytes are not valid text.

use vstd::prelude::*;
use vstd::string::*;

use crate::error::GitError;
use crate::native;

verus! {

/// True when the text holds an angle bracket, which the signature format
/// reserves as the email delimiters.
pub open spec fn has_angle_bracket(s: Seq<char>) -> bool {
    exists|j: int| 0 <= j < s.len() && (s[j] == '<' || s[j] == '>')
}

/// The mathematical content of a signature.
pub struct SignatureData {
    pub name: Option<Seq<char>>,
    pub email: Option<Seq<char>>,
    pub when: int,
}

/// A Signature is used to indicate authorship of various actions throughout
/// the library.
///
/// Signatures contain a name, email, and timestamp (in seconds from the
/// epoch). All fields can be specified with `new`, while the `now`
/// constructor reads the clock for the timestamp. A name or email read back
/// from a stored commit is absent when its bytes are not valid text.
pub struct Signature {
    name: Option<String>,
    email: Option<String>,
    when: i64,
}

impl View for Signature {
    type V = SignatureData;

    closed spec fn view(&self) -> SignatureData {
        SignatureData {
            name: match self.name {
                Some(n) => Some(n@),
                None => None,
            },
            email: match self.email {
                Some(e) => Some(e@),
                None => None,
            },
            when: self.when as int,
        }
    }
}

/// Scan a text for an angle bracket.
fn contains_angle_bracket(s: &str) -> (b: bool)
    ensures
        b == has_angle_bracket(s@),
{
    let n = s.unicode_len();
    let mut i: usize = 0;
    while i < n
        invariant
            n == s@.len(),
            0 <= i <= n,
            forall|j: int| 0 <= j < i ==> !(s@[j] == '<' || s@[j] == '>'),
        decreases n - i,
    {
        let c = s.get_char(i);
        if c == '<' || c == '>' {
            return true;
        }
        i += 1;
    }
    false
}

impl Signature {
    /// Create a new action signature.
    ///
    /// The `time` specified is in seconds since the epoch.
    ///
    /// Returns an error if and only if `name` or `email` contains an angle
    /// bracket; on success the three fields are stored exactly as given.
    pub fn new(name: String, email: String, time: i64) -> (r: Result<Signature, GitError>)
        ensures
            match r {
                Ok(s) => !has_angle_bracket(name@) && !has_angle_bracket(email@)
                    && s@.name == Some(name@) && s@.email == Some(email@)
                    && s@.when == time as int,
                Err(e) => (has_angle_bracket(name@) || has_angle_bracket(email@))
                    && e@ == "libgit2 error: "@ + ANGLE_BRACKET_MESSAGE@,
            },
    {
        if contains_angle_bracket(name.as_str()) || contains_angle_bracket(email.as_str()) {
            Err(GitError::bare(ANGLE_BRACKET_MESSAGE))
        } else {
            Ok(Signature { name: Some(name), email: Some(email), when: time })
        }
    }

    /// Create a new action signature with a timestamp of 'now'.
    ///
    /// See `new` for more information.
    pub fn now(name: String, email: String) -> (r: Result<Signature, GitError>)
        ensures
            r matches Ok(s) ==> !has_angle_bracket(name@) && !has_angle_bracket(email@)
                && s@.name == Some(name@) && s@.email == Some(email@),
            has_angle_bracket(name@) || has_angle_bracket(email@) ==> r is Err,
    {
        if contains_angle_bracket(name.as_str()) || contains_angle_bracket(email.as_str()) {
            return Err(GitError::bare(ANGLE_BRACKET_MESSAGE));
        }
        match native::signature_now_seconds(name.as_str(), email.as_str()) {
            Ok(seconds) => Ok(Signature { name: Some(name), email: Some(email), when: seconds }),
            Err(text) => Err(GitError::bare(text.as_str())),
        }
    }

    /// Build a signature out of fields read back from a stored commit, where
    /// name or email may fail to decode as text.
    pub(crate) fn from_parts(name: Option<String>, email: Option<String>, when: i64) -> (s:
        Signature)
        ensures
            s@.name == (match name {
                Some(n) => Some(n@),
                None => None::<Seq<char>>,
            }),
            s@.email == (match email {
                Some(e) => Some(e@),
                None => None::<Seq<char>>,
            }),
            s@.when == when as int,
    {
        Signature { name, email, when }
    }

    /// Gets the name on the signature.
    ///
    /// Returns `None` if the name is not valid text.
    pub fn name(&self) -> (r: Option<&str>)
        ensures
            match r {
                Some(n) => self@.name == Some(n@),
                None => self@.name is None,
            },
    {
        match &self.name {
            Some(n) => Some(n.as_str()),
            None => None,
        }
    }

    /// Gets the email on the signature.
    ///
    /// Returns `None` if the email is not valid text.
    pub fn email(&self) -> (r: Option<&str>)
        ensures
            match r {
                Some(e) => self@.email == Some(e@),
                None => self@.email is None,
            },
    {
        match &self.email {
            Some(e) => Some(e.as_str()),
            None => None,
        }
    }

    /// Return the time, in seconds, from epoch.
    pub fn when(&self) -> (t: i64)
        ensures
            t as int == self@.when,
    {
        self.when
    }
}

/// The message reported when a signature is rejected for an angle bracket.
pub const ANGLE_BRACKET_MESSAGE: &'static str = "name or email contains angle brackets";

} // verus!
