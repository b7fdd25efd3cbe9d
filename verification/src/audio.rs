//! Audio: the capture session and the WAV artifact it leaves behind.

pub mod buffer;
pub mod capture;

pub use buffer::{get_wav_path, save_wav};
pub use capture::{start_recording, RecordingHandle, RecordingResult, DEFAULT_SAMPLE_RATE};
