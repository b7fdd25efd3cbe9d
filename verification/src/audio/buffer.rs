//! The recording artifact: a mono, 16-bit PCM WAV file with a fixed name in the
//! private temp directory.

use crate::bindings::{data_local_dir, joined_path, path_join};
use crate::error::{AppError, ErrorKind};
use vstd::prelude::*;
use vstd::string::StringExecFns;

verus! {

/// Whether a container stores its samples as integers or as IEEE floats.
#[derive(Clone, Copy, Debug, PartialEq, Eq, Structural)]
pub enum SampleFormat {
    Float,
    Int,
}

/// The audio properties of a WAV container.
#[derive(Clone, Copy, Debug, PartialEq, Eq, Structural)]
pub struct WavSpec {
    /// The number of channels.
    pub channels: u16,
    /// The number of samples per second.
    pub sample_rate: u32,
    /// The number of bits per sample.
    pub bits_per_sample: u16,
    /// Whether the samples are integers or floats.
    pub sample_format: SampleFormat,
}

/// What the header of a WAV container says: its properties and how many
/// samples each channel holds.
#[derive(Clone, Copy, Debug, PartialEq, Eq, Structural)]
pub struct WavHeader {
    pub spec: WavSpec,
    /// The number of samples per channel.
    pub duration: u32,
}

/// The format of every recording: one channel of 16-bit integers at
/// `sample_rate`.
pub open spec fn wav_spec(sample_rate: u32) -> WavSpec {
    WavSpec { channels: 1, sample_rate, bits_per_sample: 16, sample_format: SampleFormat::Int }
}

/// The format in which a recording captured at `sample_rate` is written.
pub fn get_wav_spec(sample_rate: u32) -> (spec: WavSpec)
    ensures
        spec == wav_spec(sample_rate),
{
    WavSpec { channels: 1, sample_rate, bits_per_sample: 16, sample_format: SampleFormat::Int }
}

/// The private temp directory that belongs to the local data directory `base`,
/// or to the current directory where the platform names none.
pub open spec fn temp_dir_under(base: Option<Seq<char>>) -> Seq<char> {
    let root = match base {
        Some(dir) => dir,
        None => "."@,
    };
    joined_path(joined_path(root, "vocal-note-taker"@), "temp"@)
}

/// The recording artifact's path inside the temp directory `temp_dir`.
pub open spec fn wav_path_in(temp_dir: Seq<char>) -> Seq<char> {
    joined_path(temp_dir, "recording.wav"@)
}

/// The private temp directory under the given local data directory.
pub fn temp_dir_in(base: &Option<String>) -> (dir: String)
    ensures
        dir@ == temp_dir_under(
            match *base {
                Some(text) => Some(text@),
                None => None,
            },
        ),
{
    let app_dir = match base {
        Some(root) => path_join(root.as_str(), "vocal-note-taker"),
        None => path_join(".", "vocal-note-taker"),
    };
    path_join(app_dir.as_str(), "temp")
}

/// The application's private temp directory: `vocal-note-taker/temp` under
/// the user's local data directory, whatever the platform says that is.
pub fn get_temp_dir() -> (dir: String)
    ensures
        exists|base: Option<Seq<char>>| dir@ == #[trigger] temp_dir_under(base),
{
    let base = data_local_dir();
    let dir = temp_dir_in(&base);
    proof {
        let witness = match base {
            Some(text) => Some(text@),
            None => None,
        };
        assert(dir@ == temp_dir_under(witness));
    }
    dir
}

/// The recording artifact's path inside `temp_dir`.
pub fn wav_path_under(temp_dir: &str) -> (path: String)
    ensures
        path@ == wav_path_in(temp_dir@),
{
    path_join(temp_dir, "recording.wav")
}

/// The path of the recording artifact: the fixed file name inside the
/// private temp directory.
pub fn get_wav_path() -> (path: String)
    ensures
        exists|base: Option<Seq<char>>| path@ == wav_path_in(#[trigger] temp_dir_under(base)),
{
    let dir = get_temp_dir();
    wav_path_under(dir.as_str())
}

/// The 16-bit value of a sample that was scaled to the 16-bit range: the
/// value itself if it fits, and the nearest end of the range if it does not.
pub open spec fn saturated(scaled: int) -> int {
    if scaled > i16::MAX {
        i16::MAX as int
    } else if scaled < i16::MIN {
        i16::MIN as int
    } else {
        scaled
    }
}

/// Narrows a scaled sample to 16 bits. A value beyond the 16-bit range
/// becomes the end of the range on its side: it saturates and never wraps.
pub fn to_pcm16(scaled: i64) -> (pcm: i16)
    ensures
        pcm == saturated(scaled as int),
        scaled > i16::MAX ==> pcm == i16::MAX,
        scaled < i16::MIN ==> pcm == i16::MIN,
        i16::MIN <= scaled <= i16::MAX ==> pcm == scaled,
{
    if scaled > 32767 {
        32767
    } else if scaled < -32768 {
        -32768
    } else {
        scaled as i16
    }
}

/// What is written when a recording is saved: the container's format and its
/// samples, in order.
#[derive(Debug)]
pub struct WavImage {
    pub spec: WavSpec,
    pub samples: Vec<i16>,
}

/// Prepares the recording artifact of a capture at `sample_rate`. `scaled`
/// holds each captured sample multiplied by 32767 and cut to an integer; the
/// artifact holds each of them narrowed to 16 bits, in a mono 16-bit
/// container at the capture's rate.
pub fn save_wav(scaled: &[i64], sample_rate: u32) -> (image: WavImage)
    ensures
        image.spec == wav_spec(sample_rate),
        image.samples@.len() == scaled@.len(),
        forall|i: int|
            0 <= i < scaled@.len() ==> #[trigger] image.samples@[i] == saturated(scaled@[i] as int),
{
    let mut samples: Vec<i16> = Vec::new();
    let mut i: usize = 0;
    while i < scaled.len()
        invariant
            i <= scaled.len(),
            samples@.len() == i,
            forall|k: int| 0 <= k < i ==> #[trigger] samples@[k] == saturated(scaled@[k] as int),
        decreases scaled.len() - i,
    {
        samples.push(to_pcm16(scaled[i]));
        i += 1;
    }
    WavImage { spec: get_wav_spec(sample_rate), samples }
}

/// The step at which writing the artifact failed.
#[derive(Clone, Copy, Debug, PartialEq, Eq, Structural)]
pub enum WriteStage {
    /// The file could not be created.
    Create,
    /// A sample could not be written.
    Sample,
    /// The header could not be completed.
    Finalize,
}

impl WriteStage {
    /// What the report of a failure at this step starts with.
    pub open spec fn spec_label(self) -> Seq<char> {
        match self {
            WriteStage::Create => "Cannot create WAV file: "@,
            WriteStage::Sample => "Cannot write WAV sample: "@,
            WriteStage::Finalize => "Cannot finalize WAV file: "@,
        }
    }
}

/// The error that reports that writing the artifact failed at `stage` for
/// the reason `reason`.
pub fn write_failure(stage: WriteStage, reason: &str) -> (error: AppError)
    ensures
        error@ == (ErrorKind::IoError, stage.spec_label() + reason@),
{
    let label = match stage {
        WriteStage::Create => "Cannot create WAV file: ",
        WriteStage::Sample => "Cannot write WAV sample: ",
        WriteStage::Finalize => "Cannot finalize WAV file: ",
    };
    AppError::IoError(String::from_str(label).concat(reason))
}

} // verus!
