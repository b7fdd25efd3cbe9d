//! What is decided when the user starts a recording, stops it, or asks for a
//! transcription. Each command is a state machine that is told what happened
//! outside and answers with what to do next.

pub mod recording;
pub mod transcription;

pub use recording::{AudioState, SessionState};
pub use transcription::{
    error_payload, start_transcription, validate_audio_path, ErrorPayload, JobAction, JobEvent,
    JobState, Milestone, Rejection, TranscriptionJob,
};
