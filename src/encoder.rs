//! The external video encoder: how it is found, how it is invoked for a window,
//! and how it is told to stop.
use vstd::prelude::*;
use crate::error::SessionError;

verus! {

/// The byte written to the encoder's input to make it finish the file and exit:
/// the character `q`, the encoder's interactive quit command.
pub const STOP_SIGNAL: u8 = 0x71;

/// The program name used when no managed copy of the encoder is present; the
/// system search path resolves it.
pub const FALLBACK_PROGRAM: &'static str = "ffmpeg";

/// The file name of the encoder's executable on the current platform.
pub fn ffmpeg_file_name(windows: bool) -> (r: &'static str)
    ensures
        windows ==> r@ == "ffmpeg.exe"@,
        !windows ==> r@ == "ffmpeg"@,
{
    if windows {
        "ffmpeg.exe"
    } else {
        "ffmpeg"
    }
}

/// The program to run: the managed copy when one exists, else the bare name.
pub fn ffmpeg_program(managed_copy: Option<String>) -> (r: String)
    ensures
        managed_copy is Some ==> r == managed_copy->Some_0,
        managed_copy is None ==> r@ == FALLBACK_PROGRAM@,
{
    match managed_copy {
        Some(p) => p,
        None => String::from_str(FALLBACK_PROGRAM),
    }
}

/// The arguments that record the window titled `title` into `output_path`:
/// desktop window capture at thirty frames a second, H.264 in a widely playable
/// pixel format and profile, the fastest preset at a fixed quality, and the
/// index moved to the front of the file.
pub open spec fn encoder_arguments(title: Seq<char>, output_path: Seq<char>) -> Seq<Seq<char>> {
    seq![
        "-f"@,
        "gdigrab"@,
        "-framerate"@,
        "30"@,
        "-i"@,
        "title="@ + title,
        "-vcodec"@,
        "libx264"@,
        "-pix_fmt"@,
        "yuv420p"@,
        "-profile:v"@,
        "baseline"@,
        "-level"@,
        "4.0"@,
        "-preset"@,
        "ultrafast"@,
        "-crf"@,
        "23"@,
        "-movflags"@,
        "+faststart"@,
        output_path,
    ]
}

/// The encoder's argument list for recording the window titled `title`.
pub fn encoder_args(title: &String, output_path: &String) -> (r: Vec<String>)
    ensures
        r@.map_values(|a: String| a@) == encoder_arguments(title@, output_path@),
{
    let mut target = String::from_str("title=");
    target.append(title.as_str());
    let mut v: Vec<String> = Vec::new();
    v.push(String::from_str("-f"));
    v.push(String::from_str("gdigrab"));
    v.push(String::from_str("-framerate"));
    v.push(String::from_str("30"));
    v.push(String::from_str("-i"));
    v.push(target);
    v.push(String::from_str("-vcodec"));
    v.push(String::from_str("libx264"));
    v.push(String::from_str("-pix_fmt"));
    v.push(String::from_str("yuv420p"));
    v.push(String::from_str("-profile:v"));
    v.push(String::from_str("baseline"));
    v.push(String::from_str("-level"));
    v.push(String::from_str("4.0"));
    v.push(String::from_str("-preset"));
    v.push(String::from_str("ultrafast"));
    v.push(String::from_str("-crf"));
    v.push(String::from_str("23"));
    v.push(String::from_str("-movflags"));
    v.push(String::from_str("+faststart"));
    v.push(output_path.clone());
    assert(v@.map_values(|a: String| a@) =~= encoder_arguments(title@, output_path@));
    v
}

/// How an explicit availability request ended.
#[derive(Debug, Clone, Copy, PartialEq, Eq)]
pub enum EncoderStatus {
    AlreadyAvailable,
    Downloaded,
}

/// The status text reported for an availability request.
pub open spec fn status_text(s: EncoderStatus) -> Seq<char> {
    match s {
        EncoderStatus::AlreadyAvailable => "FFmpeg is already available"@,
        EncoderStatus::Downloaded => "FFmpeg downloaded successfully"@,
    }
}

impl EncoderStatus {
    /// The status text reported to the user.
    pub fn message(&self) -> (r: String)
        ensures
            r@ == status_text(*self),
    {
        match self {
            EncoderStatus::AlreadyAvailable => String::from_str("FFmpeg is already available"),
            EncoderStatus::Downloaded => String::from_str("FFmpeg downloaded successfully"),
        }
    }
}

/// The outcome of an explicit availability request. `download` is `None` when
/// the encoder was already installed and nothing was fetched, else the result
/// of fetching it.
pub fn ensure_status(download: Option<Result<(), String>>) -> (r: Result<EncoderStatus, SessionError>)
    ensures
        download is None ==> r == Ok::<EncoderStatus, SessionError>(EncoderStatus::AlreadyAvailable),
        download == Some(Ok::<(), String>(())) ==> r == Ok::<EncoderStatus, SessionError>(
            EncoderStatus::Downloaded,
        ),
        forall|m: String| download == Some(Err::<(), String>(m)) ==> r == Err::<
            EncoderStatus,
            SessionError,
        >(SessionError::DownloadFailed(m)),
{
    match download {
        None => Ok(EncoderStatus::AlreadyAvailable),
        Some(Ok(())) => Ok(EncoderStatus::Downloaded),
        Some(Err(m)) => Err(SessionError::DownloadFailed(m)),
    }
}

/// Whether a recording may go on after making sure the encoder is present;
/// `download` is as for `ensure_status`.
pub fn require_encoder(download: Option<Result<(), String>>) -> (r: Result<(), SessionError>)
    ensures
        download is None ==> r is Ok,
        download == Some(Ok::<(), String>(())) ==> r is Ok,
        forall|m: String| download == Some(Err::<(), String>(m)) ==> r == Err::<(), SessionError>(
            SessionError::EncoderUnavailable(m),
        ),
{
    match download {
        Some(Err(m)) => Err(SessionError::EncoderUnavailable(m)),
        _ => Ok(()),
    }
}

} // verus!
