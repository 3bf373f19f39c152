use audio_engine::error::{PauseStreamError, PlayStreamError};
use audio_engine::stream::{StreamHandle, StreamState};

#[test]
fn play_pause_play_lifecycle() {
    // play() on a freshly constructed handle succeeds; pause() then play()
    // succeeds again; play() after release fails as not initialized.
    let mut handle = StreamHandle::new();
    assert_eq!(handle.state(), StreamState::Created);
    assert_eq!(handle.play(), Ok(()));
    assert_eq!(handle.state(), StreamState::Playing);
    assert_eq!(handle.pause(), Ok(()));
    assert_eq!(handle.state(), StreamState::Paused);
    assert_eq!(handle.play(), Ok(()));
    assert_eq!(handle.state(), StreamState::Playing);
    handle.release();
    assert_eq!(handle.play(), Err(PlayStreamError::StreamNotInitialized));
    assert_eq!(handle.state(), StreamState::Released);
}

#[test]
fn pause_twice_is_an_accepted_no_op() {
    let mut handle = StreamHandle::new();
    assert_eq!(handle.play(), Ok(()));
    assert_eq!(handle.pause(), Ok(()));
    assert_eq!(handle.pause(), Ok(()));
    assert_eq!(handle.state(), StreamState::Paused);
}

#[test]
fn pause_after_release_is_refused() {
    let mut handle = StreamHandle::new();
    handle.release();
    assert_eq!(handle.pause(), Err(PauseStreamError::StreamNotInitialized));
    assert_eq!(handle.state(), StreamState::Released);
}

#[test]
fn release_is_idempotent() {
    let mut handle = StreamHandle::new();
    handle.release();
    handle.release();
    assert!(handle.is_released());
}
