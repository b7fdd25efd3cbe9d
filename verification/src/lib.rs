//! The core of a local voice note taker: the recording session, the WAV
//! artifact, the transcription job and the sweep of the private temp directory.

pub mod audio;
pub mod bindings;
pub mod commands;
pub mod error;
pub mod system;
pub mod text;
pub mod transcription;

pub use error::AppError;
