//! The audio that the engine accepts and the text that comes out of it: the
//! recording is validated before any sample is trusted, its samples are read,
//! the engine runs, and its segments are joined into the transcript.
//!
//! The recording is given as the outcome of reading its file: the bytes, or
//! the reason why they could not be read.

use crate::audio::buffer::{SampleFormat, WavHeader};
use crate::audio::capture::{DEFAULT_CHANNELS, DEFAULT_SAMPLE_RATE};
use crate::bindings::{
    decoded_int_samples, next_int_sample, parsed_wav_header, pending_samples, str_trim, trimmed,
    wav_header, wav_int_samples,
};
use crate::error::{AppError, ErrorKind};
use crate::text::{decimal, u32_to_decimal};
use vstd::arithmetic::power2::{
    lemma2_to64, lemma2_to64_rest, lemma_pow2_strictly_increases, lemma_pow2_unfold, pow2,
};
use vstd::prelude::*;
use vstd::string::StringExecFns;

verus! {

/// Why a recording is not accepted for transcription.
#[derive(Clone, Copy, Debug, PartialEq, Eq, Structural)]
pub enum FormatIssue {
    /// The container cannot be read or parsed.
    Corrupt,
    /// It has more or less than one channel.
    Channels,
    /// Its sample rate is not 16 kHz.
    SampleRate,
    /// It holds no sample.
    Empty,
}

/// The outcome of parsing a header, with the reason of a failure as text.
pub open spec fn header_view(parsed: Result<WavHeader, String>) -> Result<WavHeader, Seq<char>> {
    match parsed {
        Ok(header) => Ok(header),
        Err(reason) => Err(reason@),
    }
}

/// What the header of a recording is found to be, given the outcome of
/// reading its file: a file that cannot be read has no header, for the
/// reason that the read gave.
pub open spec fn parsed_source(source: Result<Vec<u8>, String>) -> Result<WavHeader, Seq<char>> {
    match source {
        Ok(image) => parsed_wav_header(image@),
        Err(reason) => Err(reason@),
    }
}

/// What is wrong with a recording, if anything. The checks run in this
/// order: readable, one channel, 16 kHz, at least one sample.
pub open spec fn header_issue(parsed: Result<WavHeader, Seq<char>>) -> Option<FormatIssue> {
    match parsed {
        Err(_) => Some(FormatIssue::Corrupt),
        Ok(header) => if header.spec.channels != DEFAULT_CHANNELS {
            Some(FormatIssue::Channels)
        } else if header.spec.sample_rate != DEFAULT_SAMPLE_RATE {
            Some(FormatIssue::SampleRate)
        } else if header.duration == 0 {
            Some(FormatIssue::Empty)
        } else {
            None
        },
    }
}

/// What the user is told about a recording that is not accepted.
pub open spec fn issue_detail(parsed: Result<WavHeader, Seq<char>>) -> Seq<char> {
    match parsed {
        Err(reason) => "Fichier audio invalide ou corrompu: "@ + reason,
        Ok(header) => if header.spec.channels != DEFAULT_CHANNELS {
            "Audio doit être mono (1 canal), reçu: "@ + decimal(header.spec.channels as nat)
                + " canaux"@
        } else if header.spec.sample_rate != DEFAULT_SAMPLE_RATE {
            "Sample rate doit être 16000 Hz, reçu: "@ + decimal(header.spec.sample_rate as nat)
                + " Hz"@
        } else {
            "Fichier audio vide - aucun échantillon détecté"@
        },
    }
}

/// Says what is wrong with a recording, if anything, given the outcome of
/// parsing its header.
pub fn classify_wav_header(parsed: &Result<WavHeader, String>) -> (issue: Option<FormatIssue>)
    ensures
        issue == header_issue(header_view(*parsed)),
{
    match parsed {
        Err(_) => Some(FormatIssue::Corrupt),
        Ok(header) => if header.spec.channels != DEFAULT_CHANNELS {
            Some(FormatIssue::Channels)
        } else if header.spec.sample_rate != DEFAULT_SAMPLE_RATE {
            Some(FormatIssue::SampleRate)
        } else if header.duration == 0 {
            Some(FormatIssue::Empty)
        } else {
            None
        },
    }
}

/// Accepts or rejects a recording, given the outcome of parsing its header.
/// It is accepted if it has one channel, 16 kHz and at least one sample; it
/// is rejected as an invalid audio format otherwise, with a message that
/// names the first check that failed and the value that was found.
pub fn check_wav_header(parsed: &Result<WavHeader, String>) -> (checked: Result<(), AppError>)
    ensures
        checked is Ok <==> header_issue(header_view(*parsed)) is None,
        checked matches Err(error) ==> error@ == (
            ErrorKind::InvalidAudioFormat,
            issue_detail(header_view(*parsed)),
        ),
{
    match parsed {
        Err(reason) => Err(
            AppError::InvalidAudioFormat(
                String::from_str("Fichier audio invalide ou corrompu: ").concat(reason.as_str()),
            ),
        ),
        Ok(header) => if header.spec.channels != DEFAULT_CHANNELS {
            let found = u32_to_decimal(header.spec.channels as u32);
            Err(
                AppError::InvalidAudioFormat(
                    String::from_str("Audio doit être mono (1 canal), reçu: ").concat(
                        found.as_str(),
                    ).concat(" canaux"),
                ),
            )
        } else if header.spec.sample_rate != DEFAULT_SAMPLE_RATE {
            let found = u32_to_decimal(header.spec.sample_rate);
            Err(
                AppError::InvalidAudioFormat(
                    String::from_str("Sample rate doit être 16000 Hz, reçu: ").concat(
                        found.as_str(),
                    ).concat(" Hz"),
                ),
            )
        } else if header.duration == 0 {
            Err(
                AppError::InvalidAudioFormat(
                    String::from_str("Fichier audio vide - aucun échantillon détecté"),
                ),
            )
        } else {
            Ok(())
        },
    }
}

/// The header of a recording, given the outcome of reading its file.
pub fn read_wav_header(source: &Result<Vec<u8>, String>) -> (parsed: Result<WavHeader, String>)
    ensures
        header_view(parsed) == parsed_source(*source),
{
    match source {
        Ok(image) => wav_header(image.as_slice()),
        Err(reason) => Err(reason.clone()),
    }
}

/// Validates a recording before transcription, in one pass over its header
/// and before any sample is trusted. `source` is the outcome of reading the
/// file. A file that cannot be read or parsed, that is not mono, that is not
/// at 16 kHz or that holds no sample is rejected as an invalid audio format.
pub fn validate_wav_file(source: &Result<Vec<u8>, String>) -> (checked: Result<(), AppError>)
    ensures
        checked is Ok <==> header_issue(parsed_source(*source)) is None,
        checked matches Err(error) ==> error@ == (
            ErrorKind::InvalidAudioFormat,
            issue_detail(parsed_source(*source)),
        ),
{
    let parsed = read_wav_header(source);
    check_wav_header(&parsed)
}

/// The samples of a recording, as far as this library reads them.
#[derive(Debug)]
pub enum PcmSamples {
    /// Integer samples, in order, and the number of bits of each. A sample
    /// stands for its value divided by [`full_scale`] of that number.
    Int { values: Vec<i32>, bits_per_sample: u16 },
    /// The container holds floating-point samples, which are used as they
    /// are; reading them is left to the caller.
    Float,
}

/// The entries of `samples` that hold a value, in order.
pub open spec fn present<T>(samples: Seq<Option<T>>) -> Seq<T>
    decreases samples.len(),
{
    if samples.len() == 0 {
        Seq::<T>::empty()
    } else {
        match samples[0] {
            Some(value) => seq![value] + present(samples.drop_first()),
            None => present(samples.drop_first()),
        }
    }
}

/// Reads the integer samples of a WAV image: those that can be decoded, in
/// order. An image without a readable header has none.
pub fn decode_int_samples(image: &[u8]) -> (values: Vec<i32>)
    ensures
        values@ == present(decoded_int_samples(image@)),
{
    let mut values: Vec<i32> = Vec::new();
    match wav_int_samples(image) {
        None => {
            assert(decoded_int_samples(image@) =~= Seq::<Option<i32>>::empty());
        },
        Some(mut stream) => {
            loop
                invariant
                    values@ + present(pending_samples(stream)) == present(
                        decoded_int_samples(image@),
                    ),
                ensures
                    values@ == present(decoded_int_samples(image@)),
                decreases pending_samples(stream).len(),
            {
                let ghost before = pending_samples(stream);
                let ghost kept = values@;
                match next_int_sample(&mut stream) {
                    None => {
                        assert(before =~= Seq::<Option<i32>>::empty());
                        assert(values@ + present(before) =~= values@);
                        break ;
                    },
                    Some(entry) => {
                        if let Some(value) = entry {
                            values.push(value);
                            assert(values@ + present(pending_samples(stream)) =~= kept + (
                            seq![value] + present(before.drop_first())));
                        }
                    },
                }
            }
        },
    }
    values
}

/// The value that stands for 1.0 in integer samples of `bits_per_sample`
/// bits: two to the power of one less. There is none for zero bits, nor for
/// more bits than a 64-bit integer can tell apart.
pub fn full_scale(bits_per_sample: u16) -> (scale: Option<i64>)
    ensures
        1 <= bits_per_sample <= 63 ==> scale == Some(pow2((bits_per_sample - 1) as nat) as i64)
            && pow2((bits_per_sample - 1) as nat) <= i64::MAX,
        !(1 <= bits_per_sample <= 63) ==> scale is None,
{
    if bits_per_sample < 1 || bits_per_sample > 63 {
        return None;
    }
    let mut scale: i64 = 1;
    let mut done: u16 = 1;
    proof {
        lemma2_to64();
        lemma2_to64_rest();
    }
    while done < bits_per_sample
        invariant
            1 <= done <= bits_per_sample <= 63,
            scale == pow2((done - 1) as nat),
            pow2(62) == 0x4000000000000000,
        decreases bits_per_sample - done,
    {
        proof {
            lemma_pow2_unfold(done as nat);
            if done < 62 {
                lemma_pow2_strictly_increases(done as nat, 62);
            }
        }
        scale = scale * 2;
        done += 1;
    }
    Some(scale)
}

/// What is said when the file of the recording at `path` cannot be opened
/// for the reason `reason`.
pub open spec fn cannot_open(path: Seq<char>, reason: Seq<char>) -> Seq<char> {
    "Impossible d'ouvrir le fichier WAV '"@ + path + "': "@ + reason
}

/// The samples of a recording, given the outcome of parsing its header and,
/// for a container of integers, the samples that were decoded.
pub fn samples_of(parsed: Result<WavHeader, String>, decoded: Vec<i32>, path: &str) -> (samples:
    Result<PcmSamples, AppError>)
    ensures
        match parsed {
            Err(reason) => samples matches Err(error) && error@ == (
                ErrorKind::TranscriptionFailed,
                cannot_open(path@, reason@),
            ),
            Ok(header) => match header.spec.sample_format {
                SampleFormat::Int => samples matches Ok(PcmSamples::Int { values, bits_per_sample })
                    && values == decoded && bits_per_sample == header.spec.bits_per_sample,
                SampleFormat::Float => samples matches Ok(PcmSamples::Float),
            },
        },
{
    match parsed {
        Err(reason) => Err(
            AppError::TranscriptionFailed(
                String::from_str("Impossible d'ouvrir le fichier WAV '").concat(path).concat(
                    "': ",
                ).concat(reason.as_str()),
            ),
        ),
        Ok(header) => match header.spec.sample_format {
            SampleFormat::Int => Ok(
                PcmSamples::Int { values: decoded, bits_per_sample: header.spec.bits_per_sample },
            ),
            SampleFormat::Float => Ok(PcmSamples::Float),
        },
    }
}

/// Reads the samples of the recording at `path`. `source` is the outcome of
/// reading the file. Samples that cannot be decoded are left out. The
/// recording is expected to have been validated; one that cannot be opened
/// or parsed is reported as a failed transcription.
pub fn read_wav_samples(source: &Result<Vec<u8>, String>, path: &str) -> (samples: Result<
    PcmSamples,
    AppError,
>)
    ensures
        match parsed_source(*source) {
            Err(reason) => samples matches Err(error) && error@ == (
                ErrorKind::TranscriptionFailed,
                cannot_open(path@, reason),
            ),
            Ok(header) => match header.spec.sample_format {
                SampleFormat::Int => samples matches Ok(PcmSamples::Int { values, bits_per_sample })
                    && values@ == present(decoded_int_samples(source->Ok_0@)) && bits_per_sample
                    == header.spec.bits_per_sample,
                SampleFormat::Float => samples matches Ok(PcmSamples::Float),
            },
        },
{
    let parsed = read_wav_header(source);
    let decoded = match (source, &parsed) {
        (Ok(image), Ok(header)) => match header.spec.sample_format {
            SampleFormat::Int => decode_int_samples(image.as_slice()),
            SampleFormat::Float => Vec::new(),
        },
        _ => Vec::new(),
    };
    samples_of(parsed, decoded, path)
}

/// Why the engine produced no segments.
#[derive(Debug)]
pub enum InferenceFailure {
    /// There was no sample to give it.
    NoSamples,
    /// Its state could not be created; the text is the engine's.
    State(String),
    /// The inference failed; the text is the engine's.
    Run(String),
}

impl InferenceFailure {
    /// The kind and detail of the error that reports the failure.
    pub open spec fn spec_error(self) -> (ErrorKind, Seq<char>) {
        (
            ErrorKind::TranscriptionFailed,
            match self {
                InferenceFailure::NoSamples => "Fichier audio vide"@,
                InferenceFailure::State(reason) => "Échec création state: "@ + reason@,
                InferenceFailure::Run(reason) => "Échec transcription: "@ + reason@,
            },
        )
    }

    /// The error that reports the failure.
    pub fn error(&self) -> (error: AppError)
        ensures
            error@ == self.spec_error(),
    {
        match self {
            InferenceFailure::NoSamples => AppError::TranscriptionFailed(
                String::from_str("Fichier audio vide"),
            ),
            InferenceFailure::State(reason) => AppError::TranscriptionFailed(
                String::from_str("Échec création state: ").concat(reason.as_str()),
            ),
            InferenceFailure::Run(reason) => AppError::TranscriptionFailed(
                String::from_str("Échec transcription: ").concat(reason.as_str()),
            ),
        }
    }
}

/// The texts of the segments, each followed by one space. A segment without
/// a text contributes nothing.
pub open spec fn spaced(segments: Seq<Option<String>>) -> Seq<char>
    decreases segments.len(),
{
    if segments.len() == 0 {
        Seq::<char>::empty()
    } else {
        spaced(segments.drop_last()) + match segments.last() {
            Some(text) => text@.push(' '),
            None => Seq::<char>::empty(),
        }
    }
}

/// Joins the segments of a transcription: their texts in order, separated by
/// single spaces, without white space at either end.
pub fn join_segments(segments: &Vec<Option<String>>) -> (text: String)
    ensures
        text@ == trimmed(spaced(segments@)),
{
    let mut joined = String::new();
    let mut i: usize = 0;
    while i < segments.len()
        invariant
            i <= segments.len(),
            joined@ == spaced(segments@.take(i as int)),
        decreases segments.len() - i,
    {
        assert(segments@.take(i + 1).drop_last() =~= segments@.take(i as int));
        if let Some(segment) = &segments[i] {
            proof {
                reveal_strlit(" ");
            }
            joined.append(segment.as_str());
            joined.append(" ");
            assert(joined@ =~= spaced(segments@.take(i as int)) + segment@.push(' '));
        } else {
            assert(joined@ =~= spaced(segments@.take(i as int)) + Seq::<char>::empty());
        }
        i += 1;
    }
    assert(segments@.take(segments.len() as int) =~= segments@);
    String::from_str(str_trim(joined.as_str()))
}

/// Whether `result` is what the outcome of the inference calls for: the
/// joined segments, or the error that reports the failure.
pub open spec fn transcript_of(
    outcome: Result<Vec<Option<String>>, InferenceFailure>,
    result: Result<String, AppError>,
) -> bool {
    match outcome {
        Ok(segments) => result matches Ok(text) && text@ == trimmed(spaced(segments@)),
        Err(failure) => result matches Err(error) && error@ == failure.spec_error(),
    }
}

/// The transcript that the outcome of the inference calls for.
pub fn transcript(outcome: Result<Vec<Option<String>>, InferenceFailure>) -> (result: Result<
    String,
    AppError,
>)
    ensures
        transcript_of(outcome, result),
{
    match outcome {
        Ok(segments) => Ok(join_segments(&segments)),
        Err(failure) => Err(failure.error()),
    }
}

/// Why the recording is not handed to the engine, if it is not: it fails
/// validation, or it holds integer samples of which none can be decoded.
pub open spec fn audio_rejection(source: Result<Vec<u8>, String>) -> Option<
    (ErrorKind, Seq<char>),
> {
    let parsed = parsed_source(source);
    if header_issue(parsed) is Some {
        Some((ErrorKind::InvalidAudioFormat, issue_detail(parsed)))
    } else if parsed->Ok_0.spec.sample_format == SampleFormat::Int && present(
        decoded_int_samples(source->Ok_0@),
    ).len() == 0 {
        Some((ErrorKind::TranscriptionFailed, "Fichier audio vide"@))
    } else {
        None
    }
}

/// Whether `samples` are the samples of the recording read from `source`.
pub open spec fn samples_from(source: Result<Vec<u8>, String>, samples: PcmSamples) -> bool {
    match parsed_source(source) {
        Err(_) => false,
        Ok(header) => match header.spec.sample_format {
            SampleFormat::Int => samples matches PcmSamples::Int { values, bits_per_sample }
                && values@ == present(decoded_int_samples(source->Ok_0@)) && bits_per_sample
                == header.spec.bits_per_sample,
            SampleFormat::Float => samples is Float,
        },
    }
}

/// Validates the recording at `path` and reads its samples. What comes back
/// is fit for the engine: mono, 16 kHz and, where the samples are integers,
/// not empty.
pub fn prepare_audio(source: &Result<Vec<u8>, String>, path: &str) -> (prepared: Result<
    PcmSamples,
    AppError,
>)
    ensures
        match audio_rejection(*source) {
            Some(reason) => prepared matches Err(error) && error@ == reason,
            None => prepared matches Ok(samples) && samples_from(*source, samples),
        },
{
    match validate_wav_file(source) {
        Err(error) => Err(error),
        Ok(_) => {
            let samples = read_wav_samples(source, path);
            match samples {
                Err(error) => Err(error),
                Ok(PcmSamples::Int { values, bits_per_sample }) => {
                    if values.len() == 0 {
                        Err(InferenceFailure::NoSamples.error())
                    } else {
                        Ok(PcmSamples::Int { values, bits_per_sample })
                    }
                },
                Ok(PcmSamples::Float) => Ok(PcmSamples::Float),
            }
        },
    }
}

/// Transcribes the recording at `path`. `source` is the outcome of reading
/// its file, and `infer` runs the engine on the samples.
///
/// The recording is validated first and its samples are read; only then, and
/// only if there is something to transcribe, is the engine run, once. Its
/// segments are joined with single spaces and trimmed. Every failure on the
/// way is returned as the error that reports it.
pub fn transcribe_audio<F: FnOnce(&PcmSamples) -> Result<Vec<Option<String>>, InferenceFailure>>(
    source: &Result<Vec<u8>, String>,
    path: &str,
    infer: F,
) -> (result: Result<String, AppError>)
    requires
        forall|samples: &PcmSamples| call_requires(infer, (samples,)),
    ensures
        match audio_rejection(*source) {
            Some(reason) => result matches Err(error) && error@ == reason,
            None => exists|samples: &PcmSamples, outcome: Result<Vec<Option<String>>, InferenceFailure>|
                samples_from(*source, *samples) && #[trigger] call_ensures(
                    infer,
                    (samples,),
                    outcome,
                ) && transcript_of(outcome, result),
        },
{
    match prepare_audio(source, path) {
        Err(error) => Err(error),
        Ok(samples) => {
            let outcome = infer(&samples);
            transcript(outcome)
        },
    }
}

} // verus!
