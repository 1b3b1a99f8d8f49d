//! The session controller's state: the capture-loop flag and the slot that holds
//! the running encoder process, with the decisions each operation makes.
//!
//! Locking, the polling thread and the process itself belong to the caller; the
//! types here are what the locks guard, and every step the caller takes between
//! two outside actions is one of the functions below.
use vstd::prelude::*;
use crate::error::SessionError;
use crate::window::{find_window, id_matches, RawWindow};

verus! {

/// Whether a capture loop is active.
pub struct CaptureState {
    pub is_capturing: bool,
}

/// The state after a stop request: stopping is unconditional.
pub open spec fn stopped(s: CaptureState) -> CaptureState {
    CaptureState { is_capturing: false }
}

impl CaptureState {
    /// The state at application start: not capturing.
    pub fn new() -> (r: CaptureState)
        ensures
            !r.is_capturing,
    {
        CaptureState { is_capturing: false }
    }

    /// Marks a capture loop as running, unless one already is.
    pub fn start_capture(&mut self) -> (r: Result<(), SessionError>)
        ensures
            old(self).is_capturing ==> r == Err::<(), SessionError>(
                SessionError::AlreadyCapturing,
            ) && *final(self) == *old(self),
            !old(self).is_capturing ==> r is Ok && final(self).is_capturing,
    {
        if self.is_capturing {
            return Err(SessionError::AlreadyCapturing);
        }
        self.is_capturing = true;
        Ok(())
    }

    /// Asks the capture loop to end at its next tick.
    pub fn stop_capture(&mut self)
        ensures
            *final(self) == stopped(*old(self)),
            !final(self).is_capturing,
    {
        self.is_capturing = false;
    }

    /// Whether the capture loop should run another tick.
    pub fn keep_running(&self) -> (r: bool)
        ensures
            r == self.is_capturing,
    {
        self.is_capturing
    }
}

/// Stopping an already stopped capture changes nothing: stopping twice ends in
/// the same state as stopping once, with no loop marked as running.
pub proof fn lemma_stop_capture_idempotent(s: CaptureState)
    ensures
        stopped(stopped(s)) == stopped(s),
        !stopped(s).is_capturing,
{
}

/// The slot for the running encoder process; `H` is the caller's process handle.
pub struct RecordingSlot<H> {
    pub process: Option<H>,
}

/// The slot after a stop request has taken its handle out.
pub open spec fn emptied<H>(s: RecordingSlot<H>) -> RecordingSlot<H> {
    RecordingSlot { process: None }
}

/// The handle a stop request takes out of a slot, if any.
pub open spec fn taken<H>(s: RecordingSlot<H>) -> Option<H> {
    s.process
}

impl<H> RecordingSlot<H> {
    /// The slot at application start: empty.
    pub fn new() -> (r: RecordingSlot<H>)
        ensures
            r.process is None,
    {
        RecordingSlot { process: None }
    }

    /// Whether a recording is in progress.
    pub fn is_recording(&self) -> (r: bool)
        ensures
            r == self.process is Some,
    {
        self.process.is_some()
    }

    /// Refuses a new recording while a process is held.
    pub fn check_idle(&self) -> (r: Result<(), SessionError>)
        ensures
            self.process is None ==> r is Ok,
            self.process is Some ==> r == Err::<(), SessionError>(SessionError::AlreadyRecording),
    {
        if self.process.is_some() {
            Err(SessionError::AlreadyRecording)
        } else {
            Ok(())
        }
    }

    /// Stores the handle of a freshly started process. A held process is never
    /// replaced: the new handle is then given back.
    pub fn install(&mut self, handle: H) -> (r: Result<(), H>)
        ensures
            old(self).process is None ==> r is Ok && final(self).process == Some(handle),
            old(self).process is Some ==> r == Err::<(), H>(handle) && *final(self) == *old(self),
    {
        if self.process.is_some() {
            Err(handle)
        } else {
            self.process = Some(handle);
            Ok(())
        }
    }

    /// Takes the held process out for stopping, leaving the slot empty. With no
    /// process held this does nothing and returns `None`.
    pub fn take(&mut self) -> (r: Option<H>)
        ensures
            r == taken(*old(self)),
            *final(self) == emptied(*old(self)),
    {
        self.process.take()
    }
}

/// After a stop request the slot is empty, and a second stop request finds
/// nothing to stop and leaves the slot as it is.
pub proof fn lemma_stop_record_twice<H>(s: RecordingSlot<H>)
    ensures
        emptied(s).process is None,
        taken(emptied(s)) is None,
        emptied(emptied(s)) == emptied(s),
{
}

/// Whether `i` is the first entry of `ws` whose identifier reads as `target`.
pub open spec fn first_match(ws: Seq<RawWindow>, target: Seq<char>, i: int) -> bool {
    0 <= i < ws.len() && id_matches(ws[i], target) && forall|j: int|
        0 <= j < i ==> !id_matches(#[trigger] ws[j], target)
}

/// Whether no entry of `ws` has an identifier that reads as `target`.
pub open spec fn no_match(ws: Seq<RawWindow>, target: Seq<char>) -> bool {
    forall|j: int| 0 <= j < ws.len() ==> !id_matches(#[trigger] ws[j], target)
}

/// Which entry of a fresh listing a capture tick should capture. A listing that
/// failed counts as one without the target.
pub fn capture_target(
    listing: &Result<Vec<RawWindow>, String>,
    target: &String,
) -> (r: Option<usize>)
    ensures
        listing is Err ==> r is None,
        listing is Ok ==> match r {
            Some(i) => first_match(listing->Ok_0@, target@, i as int),
            None => no_match(listing->Ok_0@, target@),
        },
{
    match listing {
        Ok(ws) => find_window(ws, target),
        Err(_) => None,
    }
}

/// What recording a window yields, given its entry: its title, or why it
/// cannot be recorded.
pub open spec fn title_outcome(w: RawWindow) -> Result<String, SessionError> {
    match w.title {
        Err(m) => Err(SessionError::Title(m)),
        Ok(t) => if t@.len() == 0 {
            Err(SessionError::EmptyTitle)
        } else {
            Ok(t)
        },
    }
}

/// Decides whether a recording of `window_id` may start and, if so, which
/// window title the encoder is to target. Every refusal comes before a process
/// is started: a held process, a failed listing, an unknown identifier, an
/// unreadable or an empty title.
pub fn plan_record<H>(
    slot: &RecordingSlot<H>,
    listing: &Result<Vec<RawWindow>, String>,
    window_id: &String,
) -> (r: Result<String, SessionError>)
    ensures
        slot.process is Some ==> r == Err::<String, SessionError>(SessionError::AlreadyRecording),
        slot.process is None ==> match listing {
            Err(m) => r == Err::<String, SessionError>(SessionError::Lookup(*m)),
            Ok(ws) => (no_match(ws@, window_id@) ==> r == Err::<String, SessionError>(
                SessionError::WindowNotFound,
            )) && forall|i: int| #[trigger]
                first_match(ws@, window_id@, i) ==> r == title_outcome(ws@[i]),
        },
{
    if slot.process.is_some() {
        return Err(SessionError::AlreadyRecording);
    }
    match listing {
        Err(m) => Err(SessionError::Lookup(m.clone())),
        Ok(ws) => match find_window(ws, window_id) {
            None => Err(SessionError::WindowNotFound),
            Some(i) => {
                let w = &ws[i];
                proof {
                    assert forall|k: int| #[trigger]
                        first_match(ws@, window_id@, k) implies k == i as int by {
                        if k < i {
                            assert(!id_matches(ws@[k], window_id@));
                        } else if k > i {
                            assert(!id_matches(ws@[i as int], window_id@));
                        }
                    }
                }
                match &w.title {
                    Err(m) => Err(SessionError::Title(m.clone())),
                    Ok(t) => {
                        if t.as_str().is_empty() {
                            Err(SessionError::EmptyTitle)
                        } else {
                            Ok(t.clone())
                        }
                    },
                }
            },
        },
    }
}

/// The result of a stop request once the encoder process has been waited for.
/// The exit status does not matter; only a failure of the wait itself is an
/// error, after which the caller kills the process.
pub fn finish_stop(waited: Result<bool, String>) -> (r: Result<(), SessionError>)
    ensures
        waited is Ok ==> r is Ok,
        waited is Err ==> r == Err::<(), SessionError>(SessionError::WaitFailed(waited->Err_0)),
{
    match waited {
        Ok(_) => Ok(()),
        Err(m) => Err(SessionError::WaitFailed(m)),
    }
}

} // verus!
