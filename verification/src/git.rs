//! Reading the one line that a `git` query prints.

use vstd::prelude::*;
use vstd::string::StringSliceAdditionalSpecFns;
use vstd::utf8::{decode_utf8, encode_utf8_decode_utf8, valid_utf8};
use crate::text::{trim, trimmed};

verus! {

/// Why a query gave no answer.
#[derive(Clone, Copy, Debug, PartialEq, Eq)]
pub enum GitError {
    /// `git` ended with a failure.
    Unsuccessful,
    /// What it printed is no UTF-8.
    NotUtf8,
    /// It printed nothing but white space.
    Empty,
}

/// `std::str::from_utf8`: the bytes as text, where they are valid UTF-8.
#[verifier::external_body]
pub(crate) fn utf8_text(bytes: &[u8]) -> (text: Option<&str>)
    ensures
        text is Some <==> valid_utf8(bytes@),
        text matches Some(t) ==> t.spec_bytes() == bytes@,
{
    std::str::from_utf8(bytes).ok()
}

/// The answer of a query: what it printed, without the white space around
/// it.
pub fn parse_output(success: bool, stdout: &[u8]) -> (answer: Result<String, GitError>)
    ensures
        match answer {
            Ok(text) => success && valid_utf8(stdout@) && text@ == trimmed(decode_utf8(stdout@))
                && text@.len() > 0,
            Err(GitError::Unsuccessful) => !success,
            Err(GitError::NotUtf8) => success && !valid_utf8(stdout@),
            Err(GitError::Empty) => success && valid_utf8(stdout@) && trimmed(
                decode_utf8(stdout@),
            ).len() == 0,
        },
{
    if !success {
        return Err(GitError::Unsuccessful);
    }
    match utf8_text(stdout) {
        None => Err(GitError::NotUtf8),
        Some(text) => {
            proof {
                encode_utf8_decode_utf8(text@);
            }
            let line = trim(text);
            if line.is_empty() {
                Err(GitError::Empty)
            } else {
                Ok(line.to_owned())
            }
        },
    }
}

} // verus!
