//! What the user is told about a recording, and for how long.

use vstd::prelude::*;
use crate::filter::{contains, occurs, to_chars};
use crate::text::{has_prefix, trim, trimmed};

verus! {

/// How long a notice stays, in seconds, unless it says something else.
pub const NOTICE_SECONDS: u64 = 2;

/// How long the notice of a download stays, in seconds: until the next
/// notice replaces it.
pub const DOWNLOAD_SECONDS: u64 = 300;

/// How long the notice of a model that could not be prepared stays, in
/// seconds.
pub const MODEL_ERROR_SECONDS: u64 = 6;

/// What the recorder says when it was told to give up.
pub open spec fn cancelled_text() -> Seq<char> {
    "녹음이 취소되었습니다"@
}

/// How the error of a model that could not be prepared begins.
pub open spec fn model_error_start() -> Seq<char> {
    "모델 준비 실패:"@
}

/// What a status says while the model is downloaded.
pub open spec fn downloading_text() -> Seq<char> {
    "다운로드합니다"@
}

/// Why a recording gave no transcript.
#[derive(Clone, Copy, Debug, PartialEq, Eq, Structural)]
pub enum VoiceFailure {
    /// The user gave it up.
    Cancelled,
    /// The model could not be prepared.
    ModelNotReady,
    /// Recording or transcribing failed.
    Other,
}

/// How long a status of the recorder stays: a download is announced
/// until it is over.
pub fn status_seconds(message: &str) -> (seconds: u64)
    ensures
        seconds == if occurs(downloading_text(), message@) {
            DOWNLOAD_SECONDS
        } else {
            NOTICE_SECONDS
        },
{
    let hay = to_chars(message);
    let needle = to_chars("다운로드합니다");
    if contains(&hay, &needle) {
        DOWNLOAD_SECONDS
    } else {
        NOTICE_SECONDS
    }
}

/// Reads the error of a recording.
pub fn voice_failure(error: &str) -> (failure: VoiceFailure)
    ensures
        failure == if error@ == cancelled_text() {
            VoiceFailure::Cancelled
        } else if model_error_start().is_prefix_of(error@) {
            VoiceFailure::ModelNotReady
        } else {
            VoiceFailure::Other
        },
{
    let cancelled = "녹음이 취소되었습니다";
    if has_prefix(error, cancelled) && has_prefix(cancelled, error) {
        proof {
            assert(error@ =~= cancelled@);
        }
        VoiceFailure::Cancelled
    } else if has_prefix(error, "모델 준비 실패:") {
        VoiceFailure::ModelNotReady
    } else {
        VoiceFailure::Other
    }
}

/// How long the notice of a failure stays.
pub fn failure_seconds(failure: VoiceFailure) -> (seconds: u64)
    ensures
        seconds == if failure == VoiceFailure::ModelNotReady {
            MODEL_ERROR_SECONDS
        } else {
            NOTICE_SECONDS
        },
{
    match failure {
        VoiceFailure::ModelNotReady => MODEL_ERROR_SECONDS,
        _ => NOTICE_SECONDS,
    }
}

/// The log entry that a transcript becomes: the transcript without the
/// white space around it, or none where nothing is left.
pub fn transcript_entry(transcript: &str) -> (entry: Option<String>)
    ensures
        match entry {
            Some(text) => text@ == trimmed(transcript@) && text@.len() > 0,
            None => trimmed(transcript@).len() == 0,
        },
{
    let text = trim(transcript);
    if text.is_empty() {
        None
    } else {
        Some(text.to_owned())
    }
}

} // verus!
