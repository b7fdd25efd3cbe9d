//! The global shortcut that starts and stops a recording.

use crate::commands::recording::{AudioState, SessionState};
use vstd::prelude::*;

verus! {

/// The shortcut that toggles the recording: Cmd on macOS, Ctrl elsewhere.
pub const DEFAULT_TOGGLE_RECORDING: &'static str = "CmdOrCtrl+Alt+R";

/// What a press of the shortcut asks for.
#[derive(Clone, Copy, Debug, PartialEq, Eq, Structural)]
pub enum ToggleAction {
    StartRecording,
    StopRecording,
}

/// What a press of the shortcut asks for in the given state: to stop the
/// capture that runs, or else to start one.
pub fn toggle_recording(state: &AudioState) -> (action: ToggleAction)
    ensures
        action == if state.recording is Recording {
            ToggleAction::StopRecording
        } else {
            ToggleAction::StartRecording
        },
{
    match state.recording {
        SessionState::Recording(_) => ToggleAction::StopRecording,
        _ => ToggleAction::StartRecording,
    }
}

} // verus!
