//! Failures of the session operations and the messages shown for them.
use vstd::prelude::*;

verus! {

/// Why a session operation failed.
#[derive(Debug, PartialEq, Eq)]
pub enum SessionError {
    /// A capture loop is already running.
    AlreadyCapturing,
    /// A recording process is already held.
    AlreadyRecording,
    /// The window directory could not be listed.
    Lookup(String),
    /// No listed window has the requested identifier.
    WindowNotFound,
    /// The title of the requested window could not be read.
    Title(String),
    /// The requested window has an empty title, which the encoder cannot target.
    EmptyTitle,
    /// The encoder was missing and fetching it failed.
    EncoderUnavailable(String),
    /// Fetching the encoder on request failed.
    DownloadFailed(String),
    /// The encoder process could not be started.
    SpawnFailed(String),
    /// Waiting for the encoder process to end failed.
    WaitFailed(String),
    /// The host failed: data directory, directory creation, lock or event delivery.
    Host(String),
}

/// The message shown to the user for an error.
pub open spec fn message_of(e: SessionError) -> Seq<char> {
    match e {
        SessionError::AlreadyCapturing => "Already capturing"@,
        SessionError::AlreadyRecording => "Already recording"@,
        SessionError::Lookup(m) => m@,
        SessionError::WindowNotFound => "Target window not found"@,
        SessionError::Title(m) => m@,
        SessionError::EmptyTitle => "Window has no title, cannot record with gdigrab"@,
        SessionError::EncoderUnavailable(m) => "FFmpeg not available and download failed: "@ + m@,
        SessionError::DownloadFailed(m) => "Failed to download FFmpeg: "@ + m@,
        SessionError::SpawnFailed(m) => "Failed to start ffmpeg: "@ + m@,
        SessionError::WaitFailed(m) => "Failed to wait for ffmpeg: "@ + m@,
        SessionError::Host(m) => m@,
    }
}

fn prefixed(prefix: &str, m: &String) -> (r: String)
    ensures
        r@ == prefix@ + m@,
{
    let mut s = String::from_str(prefix);
    s.append(m.as_str());
    s
}

impl SessionError {
    /// The message shown to the user.
    pub fn message(&self) -> (r: String)
        ensures
            r@ == message_of(*self),
    {
        match self {
            SessionError::AlreadyCapturing => String::from_str("Already capturing"),
            SessionError::AlreadyRecording => String::from_str("Already recording"),
            SessionError::Lookup(m) => m.clone(),
            SessionError::WindowNotFound => String::from_str("Target window not found"),
            SessionError::Title(m) => m.clone(),
            SessionError::EmptyTitle => String::from_str(
                "Window has no title, cannot record with gdigrab",
            ),
            SessionError::EncoderUnavailable(m) => prefixed(
                "FFmpeg not available and download failed: ",
                m,
            ),
            SessionError::DownloadFailed(m) => prefixed("Failed to download FFmpeg: ", m),
            SessionError::SpawnFailed(m) => prefixed("Failed to start ffmpeg: ", m),
            SessionError::WaitFailed(m) => prefixed("Failed to wait for ffmpeg: ", m),
            SessionError::Host(m) => m.clone(),
        }
    }
}

} // verus!
