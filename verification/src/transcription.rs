//! Transcription: where the model lives, how a failed load is explained, what
//! audio the engine accepts, and how its segments become the text.

pub mod model;
pub mod whisper;

pub use model::{
    check_model_availability, ensure_model_dir, get_model_path, WhisperModel, WhisperState,
};
pub use whisper::transcribe_audio;
