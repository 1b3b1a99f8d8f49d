use window_capture::error::SessionError;
use window_capture::session::{capture_target, finish_stop, plan_record, CaptureState, RecordingSlot};
use window_capture::window::RawWindow;

fn entry(id: u32, title: &str, app: &str) -> RawWindow {
    RawWindow { id: Ok(id), title: Ok(title.to_string()), app_name: Ok(app.to_string()) }
}

fn notepad() -> Vec<RawWindow> {
    vec![entry(1, "Notepad", "notepad.exe")]
}

#[test]
fn capture_starts_then_refuses_second_start() {
    let mut s = CaptureState::new();
    assert!(!s.is_capturing);
    assert_eq!(s.start_capture(), Ok(()));
    assert!(s.is_capturing);
    assert_eq!(s.start_capture(), Err(SessionError::AlreadyCapturing));
    assert!(s.is_capturing);
    s.stop_capture();
    assert!(!s.is_capturing);
    assert_eq!(s.start_capture(), Ok(()));
    assert!(s.keep_running());
}

#[test]
fn stop_capture_twice_is_same_as_once() {
    let mut once = CaptureState::new();
    once.start_capture().unwrap();
    once.stop_capture();
    let mut twice = CaptureState::new();
    twice.start_capture().unwrap();
    twice.stop_capture();
    twice.stop_capture();
    assert_eq!(once.is_capturing, twice.is_capturing);
    assert!(!twice.keep_running());
}

#[test]
fn stop_capture_when_idle_is_safe() {
    let mut s = CaptureState::new();
    s.stop_capture();
    assert!(!s.is_capturing);
}

#[test]
fn record_refused_while_recording_keeps_handle() {
    let mut slot: RecordingSlot<u32> = RecordingSlot::new();
    assert_eq!(slot.install(7), Ok(()));
    assert!(slot.is_recording());
    assert_eq!(slot.check_idle(), Err(SessionError::AlreadyRecording));
    assert_eq!(plan_record(&slot, &Ok(notepad()), &"1".to_string()), Err(SessionError::AlreadyRecording));
    assert_eq!(slot.install(8), Err(8));
    assert_eq!(slot.process, Some(7));
}

#[test]
fn stop_record_without_recording_is_noop() {
    let mut slot: RecordingSlot<u32> = RecordingSlot::new();
    assert_eq!(slot.take(), None);
    assert_eq!(slot.process, None);
    assert_eq!(slot.check_idle(), Ok(()));
}

#[test]
fn stop_record_clears_handle() {
    let mut slot: RecordingSlot<u32> = RecordingSlot::new();
    slot.install(3).unwrap();
    assert_eq!(slot.take(), Some(3));
    assert_eq!(slot.process, None);
    assert!(!slot.is_recording());
    assert_eq!(slot.take(), None);
}

#[test]
fn record_unknown_window_is_not_found() {
    let slot: RecordingSlot<u32> = RecordingSlot::new();
    let r = plan_record(&slot, &Ok(notepad()), &"2".to_string());
    assert_eq!(r, Err(SessionError::WindowNotFound));
    assert_eq!(r.unwrap_err().message(), "Target window not found");
}

#[test]
fn record_untitled_window_is_refused() {
    let slot: RecordingSlot<u32> = RecordingSlot::new();
    let r = plan_record(&slot, &Ok(vec![entry(5, "", "shell")]), &"5".to_string());
    assert_eq!(r, Err(SessionError::EmptyTitle));
    assert_eq!(r.unwrap_err().message(), "Window has no title, cannot record with gdigrab");
}

#[test]
fn record_listing_failure_is_propagated() {
    let slot: RecordingSlot<u32> = RecordingSlot::new();
    let r = plan_record(&slot, &Err("no display".to_string()), &"1".to_string());
    assert_eq!(r, Err(SessionError::Lookup("no display".to_string())));
    assert_eq!(r.unwrap_err().message(), "no display");
}

#[test]
fn record_unreadable_title_is_propagated() {
    let slot: RecordingSlot<u32> = RecordingSlot::new();
    let w = RawWindow { id: Ok(4), title: Err("gone".to_string()), app_name: Ok("a".to_string()) };
    let r = plan_record(&slot, &Ok(vec![w]), &"4".to_string());
    assert_eq!(r, Err(SessionError::Title("gone".to_string())));
}

#[test]
fn record_resolves_first_matching_window() {
    let slot: RecordingSlot<u32> = RecordingSlot::new();
    let ws = vec![entry(9, "Other", "x"), entry(1, "Notepad", "notepad.exe"), entry(1, "Second", "y")];
    assert_eq!(plan_record(&slot, &Ok(ws), &"1".to_string()), Ok("Notepad".to_string()));
}

#[test]
fn record_scenario_start_and_stop() {
    let mut slot: RecordingSlot<u32> = RecordingSlot::new();
    let title = plan_record(&slot, &Ok(notepad()), &"1".to_string()).unwrap();
    assert_eq!(title, "Notepad");
    assert_eq!(slot.install(42), Ok(()));
    let child = slot.take();
    assert_eq!(child, Some(42));
    // a nonzero exit status is tolerated
    assert_eq!(finish_stop(Ok(false)), Ok(()));
    assert_eq!(finish_stop(Ok(true)), Ok(()));
    assert_eq!(slot.take(), None);
}

#[test]
fn wait_failure_is_reported() {
    let r = finish_stop(Err("broken".to_string()));
    assert_eq!(r, Err(SessionError::WaitFailed("broken".to_string())));
    assert_eq!(r.unwrap_err().message(), "Failed to wait for ffmpeg: broken");
}

#[test]
fn capture_tick_finds_target() {
    let listing: Result<Vec<RawWindow>, String> = Ok(notepad());
    assert_eq!(capture_target(&listing, &"1".to_string()), Some(0));
    assert_eq!(capture_target(&listing, &"01".to_string()), None);
}

#[test]
fn capture_tick_tolerates_listing_failure() {
    let listing: Result<Vec<RawWindow>, String> = Err("busy".to_string());
    assert_eq!(capture_target(&listing, &"1".to_string()), None);
}

#[test]
fn error_messages() {
    assert_eq!(SessionError::AlreadyCapturing.message(), "Already capturing");
    assert_eq!(SessionError::AlreadyRecording.message(), "Already recording");
    assert_eq!(
        SessionError::EncoderUnavailable("offline".to_string()).message(),
        "FFmpeg not available and download failed: offline"
    );
    assert_eq!(SessionError::DownloadFailed("e".to_string()).message(), "Failed to download FFmpeg: e");
    assert_eq!(SessionError::SpawnFailed("no such file".to_string()).message(), "Failed to start ffmpeg: no such file");
    assert_eq!(SessionError::Host("denied".to_string()).message(), "denied");
}
