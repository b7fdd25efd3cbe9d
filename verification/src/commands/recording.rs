//! The recording session: at most one capture runs at a time, and it is
//! started and stopped in turn.

use crate::audio::capture::{RecordingHandle, RecordingResult};
use crate::error::AppError;
use vstd::prelude::*;

verus! {

/// Where the recording session stands.
#[derive(Clone, Copy, Debug, PartialEq, Eq, Structural)]
pub enum SessionState {
    /// No capture runs.
    Idle,
    /// A start was accepted; the device is being set up.
    Initializing,
    /// The capture runs.
    Recording(RecordingHandle),
    /// A stop was accepted; the capture thread is handing its buffer over.
    Draining(RecordingHandle),
}

/// The one recording session of the process. Whether a capture is active is
/// read off this state and nothing else.
#[derive(Debug)]
pub struct AudioState {
    pub recording: SessionState,
}

/// The state after a request to start, and the answer to it: accepted when
/// idle, refused as an interruption otherwise.
pub open spec fn spec_start(state: SessionState) -> (SessionState, Result<(), AppError>) {
    match state {
        SessionState::Idle => (SessionState::Initializing, Ok(())),
        _ => (state, Err(AppError::RecordingInterrupted)),
    }
}

/// The state after the capture was brought up, or was not, and the answer to
/// whoever asked for the start.
pub open spec fn spec_started(state: SessionState, started: Result<RecordingHandle, AppError>) -> (
    SessionState,
    Result<(), AppError>,
) {
    match (state, started) {
        (SessionState::Initializing, Ok(handle)) => (SessionState::Recording(handle), Ok(())),
        (SessionState::Initializing, Err(error)) => (SessionState::Idle, Err(error)),
        _ => (state, Err(AppError::RecordingInterrupted)),
    }
}

/// The state after a request to stop, and the answer to it: the handle of the
/// running capture, or an interruption when none runs.
pub open spec fn spec_stop(state: SessionState) -> (SessionState, Result<RecordingHandle, AppError>) {
    match state {
        SessionState::Recording(handle) => (SessionState::Draining(handle), Ok(handle)),
        _ => (state, Err(AppError::RecordingInterrupted)),
    }
}

/// The state after the capture thread handed its buffer over, or ended
/// without doing so, and what the session yields.
pub open spec fn spec_stopped<T>(state: SessionState, received: Option<Vec<T>>) -> (
    SessionState,
    Result<RecordingResult<T>, AppError>,
) {
    match (state, received) {
        (SessionState::Draining(handle), Some(samples)) => (
            SessionState::Idle,
            Ok(RecordingResult { samples, sample_rate: handle.sample_rate }),
        ),
        (SessionState::Draining(_), None) => (
            SessionState::Idle,
            Err(AppError::RecordingInterrupted),
        ),
        _ => (state, Err(AppError::RecordingInterrupted)),
    }
}

impl AudioState {
    /// A session in which nothing runs.
    pub fn new() -> (state: AudioState)
        ensures
            state.recording == SessionState::Idle,
    {
        AudioState { recording: SessionState::Idle }
    }

    /// Whether a session is active: being set up, capturing, or draining.
    pub fn is_active(&self) -> (active: bool)
        ensures
            active == (self.recording != SessionState::Idle),
    {
        match self.recording {
            SessionState::Idle => false,
            _ => true,
        }
    }

    /// Asks for a recording to start. It is accepted only when no session is
    /// active; otherwise the answer is `RecordingInterrupted` and nothing
    /// changes.
    pub fn start_recording(&mut self) -> (accepted: Result<(), AppError>)
        ensures
            (final(self).recording, accepted) == spec_start(old(self).recording),
    {
        match self.recording {
            SessionState::Idle => {
                self.recording = SessionState::Initializing;
                Ok(())
            },
            _ => Err(AppError::RecordingInterrupted),
        }
    }

    /// Takes note of how the start went. A capture that came up is now
    /// recording; a failure leaves the session idle and is handed on.
    pub fn recording_started(&mut self, started: Result<RecordingHandle, AppError>) -> (answer:
        Result<(), AppError>)
        ensures
            (final(self).recording, answer) == spec_started(old(self).recording, started),
    {
        match self.recording {
            SessionState::Initializing => match started {
                Ok(handle) => {
                    self.recording = SessionState::Recording(handle);
                    Ok(())
                },
                Err(error) => {
                    self.recording = SessionState::Idle;
                    Err(error)
                },
            },
            _ => Err(AppError::RecordingInterrupted),
        }
    }

    /// Asks for the recording to stop. It is accepted only while a capture
    /// runs; otherwise the answer is `RecordingInterrupted` and nothing
    /// changes.
    pub fn stop_recording(&mut self) -> (handle: Result<RecordingHandle, AppError>)
        ensures
            (final(self).recording, handle) == spec_stop(old(self).recording),
    {
        match self.recording {
            SessionState::Recording(handle) => {
                self.recording = SessionState::Draining(handle);
                Ok(handle)
            },
            _ => Err(AppError::RecordingInterrupted),
        }
    }

    /// Ends the session with what the capture thread handed over. Whatever
    /// was captured is the result, be it no sample at all; only a thread that
    /// ended without handing its buffer over makes the stop fail.
    pub fn recording_stopped<T>(&mut self, received: Option<Vec<T>>) -> (result: Result<
        RecordingResult<T>,
        AppError,
    >)
        ensures
            (final(self).recording, result) == spec_stopped(old(self).recording, received),
    {
        match self.recording {
            SessionState::Draining(handle) => {
                self.recording = SessionState::Idle;
                handle.stop(received)
            },
            _ => Err(AppError::RecordingInterrupted),
        }
    }
}

impl Default for AudioState {
    /// A session in which nothing runs.
    fn default() -> (state: AudioState)
        ensures
            state.recording == SessionState::Idle,
    {
        AudioState::new()
    }
}

/// While a session is active a start is refused as an interruption, and
/// while none is active a stop is refused the same way; neither changes the
/// state.
pub proof fn lemma_one_session_at_a_time(state: SessionState)
    ensures
        state != SessionState::Idle ==> spec_start(state) == (
            state,
            Err::<(), AppError>(AppError::RecordingInterrupted),
        ),
        state == SessionState::Idle ==> spec_stop(state) == (
            state,
            Err::<RecordingHandle, AppError>(AppError::RecordingInterrupted),
        ),
        !(state is Recording) ==> spec_stop(state).1 is Err,
{
}

/// A session that is started, comes up at `sample_rate` and is stopped
/// yields exactly the samples that were handed over, labelled with that
/// rate, and is idle again. This holds of an empty buffer too: stopping a
/// session that captured nothing is no error.
pub proof fn lemma_stop_returns_what_was_captured<T>(sample_rate: u32, samples: Vec<T>)
    ensures
        ({
            let handle = RecordingHandle { sample_rate };
            let (initializing, accepted) = spec_start(SessionState::Idle);
            let (recording, answer) = spec_started(initializing, Ok(handle));
            let (draining, taken) = spec_stop(recording);
            let (end, result) = spec_stopped(draining, Some(samples));
            &&& accepted is Ok && answer is Ok && taken == Ok::<RecordingHandle, AppError>(handle)
            &&& end == SessionState::Idle
            &&& result == Ok::<RecordingResult<T>, AppError>(
                RecordingResult { samples, sample_rate },
            )
        }),
{
}

} // verus!
