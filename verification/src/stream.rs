//! Stream lifecycle: the state machine behind a stream handle, and the
//! timestamp records a live callback reports.
//!
//! A handle is only ever constructed over a stream that was actually built
//! (construction is fail-fast), so it starts in `Created` with the callback
//! installed but not yet running. Play and pause requests move it between
//! `Playing` and `Paused` and are accepted from any state that still owns
//! the stream; releasing the handle is terminal and idempotent, and any
//! later play or pause request fails with `StreamNotInitialized` without
//! touching the state. The unverified shell forwards an accepted request to
//! the platform stream it owns.

use vstd::prelude::*;
use crate::error::{PauseStreamError, PlayStreamError};

verus! {

/// A point on a stream's own clock.
#[derive(Debug, Clone, Copy, PartialEq, Eq, Structural)]
pub struct StreamInstant {
    pub seconds: i64,
    pub nanos: u32,
}

/// When an input callback ran and when its samples were captured.
#[derive(Debug, Clone, Copy, PartialEq, Eq, Structural)]
pub struct InputStreamTimestamp {
    pub callback: StreamInstant,
    pub capture: StreamInstant,
}

/// When an output callback ran and when its samples will play.
#[derive(Debug, Clone, Copy, PartialEq, Eq, Structural)]
pub struct OutputStreamTimestamp {
    pub callback: StreamInstant,
    pub playback: StreamInstant,
}

/// Timing information handed to an input callback.
#[derive(Debug, Clone, Copy, PartialEq, Eq, Structural)]
pub struct InputCallbackInfo {
    pub timestamp: InputStreamTimestamp,
}

/// Timing information handed to an output callback.
#[derive(Debug, Clone, Copy, PartialEq, Eq, Structural)]
pub struct OutputCallbackInfo {
    pub timestamp: OutputStreamTimestamp,
}

/// Lifecycle position of a stream handle.
#[derive(Debug, Clone, Copy, PartialEq, Eq, Structural)]
pub enum StreamState {
    /// Callback installed, not yet running.
    Created,
    /// Callback actively invoked by the platform.
    Playing,
    /// Callback suspended; buffered content is kept.
    Paused,
    /// Terminal: the platform stream is gone.
    Released,
}

/// A handle still owns its stream, and accepts play and pause requests, in
/// every state but `Released`.
pub open spec fn control_allowed(s: StreamState) -> bool {
    s != StreamState::Released
}

/// The state after a play request: playing while the handle owns a stream,
/// unchanged after release.
pub open spec fn play_next(s: StreamState) -> StreamState {
    if control_allowed(s) {
        StreamState::Playing
    } else {
        s
    }
}

/// The state after a pause request: paused while the handle owns a stream,
/// unchanged after release.
pub open spec fn pause_next(s: StreamState) -> StreamState {
    if control_allowed(s) {
        StreamState::Paused
    } else {
        s
    }
}

/// Wraps at most one live platform stream and tracks its lifecycle.
pub struct StreamHandle {
    state: StreamState,
}

impl StreamHandle {
    /// The handle's current lifecycle position.
    pub closed spec fn lifecycle(&self) -> StreamState {
        self.state
    }

    /// A handle over a freshly built stream.
    pub fn new() -> (h: StreamHandle)
        ensures
            h.lifecycle() == StreamState::Created,
    {
        StreamHandle { state: StreamState::Created }
    }

    /// The current lifecycle position.
    pub fn state(&self) -> (s: StreamState)
        ensures
            s == self.lifecycle(),
    {
        self.state
    }

    /// Whether the platform stream has been released.
    pub fn is_released(&self) -> (r: bool)
        ensures
            r == !control_allowed(self.lifecycle()),
    {
        self.state == StreamState::Released
    }

    /// Requests playback. Succeeds, and leaves the stream playing, from any
    /// state that still owns the stream — including `Playing` itself, where
    /// it is a no-op; on a released handle it fails with
    /// `StreamNotInitialized` and changes nothing.
    pub fn play(&mut self) -> (r: Result<(), PlayStreamError>)
        ensures
            final(self).lifecycle() == play_next(old(self).lifecycle()),
            r is Ok <==> control_allowed(old(self).lifecycle()),
            !control_allowed(old(self).lifecycle()) ==> r == Err::<(), PlayStreamError>(
                PlayStreamError::StreamNotInitialized,
            ),
    {
        if self.state == StreamState::Released {
            Err(PlayStreamError::StreamNotInitialized)
        } else {
            self.state = StreamState::Playing;
            Ok(())
        }
    }

    /// Requests a pause. Succeeds, and leaves the stream paused, from any
    /// state that still owns the stream — pausing an already paused stream is
    /// an accepted no-op; on a released handle it fails with
    /// `StreamNotInitialized` and changes nothing. Pausing never discards
    /// buffered samples: the buffer's lifetime is independent of the stream.
    pub fn pause(&mut self) -> (r: Result<(), PauseStreamError>)
        ensures
            final(self).lifecycle() == pause_next(old(self).lifecycle()),
            r is Ok <==> control_allowed(old(self).lifecycle()),
            !control_allowed(old(self).lifecycle()) ==> r == Err::<(), PauseStreamError>(
                PauseStreamError::StreamNotInitialized,
            ),
    {
        if self.state == StreamState::Released {
            Err(PauseStreamError::StreamNotInitialized)
        } else {
            self.state = StreamState::Paused;
            Ok(())
        }
    }

    /// Releases the platform stream: terminal and idempotent.
    pub fn release(&mut self)
        ensures
            final(self).lifecycle() == StreamState::Released,
    {
        self.state = StreamState::Released;
    }
}

/// Lifecycle law. A play request on a freshly created handle is accepted and
/// leaves it playing; after any accepted pause, a play request is accepted
/// again and leaves it playing; and once released, a play request is
/// refused and the handle stays released.
pub proof fn lemma_play_lifecycle(s: StreamState)
    ensures
        control_allowed(StreamState::Created),
        play_next(StreamState::Created) == StreamState::Playing,
        control_allowed(s) ==> control_allowed(pause_next(s)) && play_next(pause_next(s))
            == StreamState::Playing,
        !control_allowed(StreamState::Released),
        play_next(StreamState::Released) == StreamState::Released,
{
}

/// Idempotence of pause: while the handle owns its stream, a pause request
/// leaves it paused, and a second pause request is again accepted and leaves
/// it paused.
pub proof fn lemma_pause_idempotent(s: StreamState)
    requires
        control_allowed(s),
    ensures
        pause_next(s) == StreamState::Paused,
        control_allowed(pause_next(s)),
        pause_next(pause_next(s)) == StreamState::Paused,
{
}

} // verus!
