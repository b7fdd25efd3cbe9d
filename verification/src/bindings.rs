//! The calls that leave this library: into `dirs`, into `hound`, and into the
//! parts of `std` that have no specification. The contracts in this file are
//! believed, not proved; everything else in the library is proved from them.

use crate::audio::buffer::{SampleFormat, WavHeader, WavSpec};
use vstd::prelude::*;

verus! {

/// `dirs::data_local_dir`: the user's local data directory, if the platform
/// names one. It depends on the environment, so nothing is claimed of it. A
/// directory whose name is not valid Unicode is handed over with replacement
/// characters.
#[verifier::external_body]
pub(crate) fn data_local_dir() -> (dir: Option<String>) {
    dirs::data_local_dir().map(|p| p.to_string_lossy().into_owned())
}

/// What `std::path::Path::join` returns for a base path and a segment, under
/// the path syntax of the platform that the library is built for.
pub uninterp spec fn joined_path(base: Seq<char>, segment: Seq<char>) -> Seq<char>;

/// `std::path::Path::join`: `base` extended by `segment`. The result is a
/// function of the two texts; which one is left to std.
#[verifier::external_body]
pub(crate) fn path_join(base: &str, segment: &str) -> (path: String)
    ensures
        path@ == joined_path(base@, segment@),
{
    std::path::Path::new(base).join(segment).to_string_lossy().into_owned()
}

/// Whether `std::path::Path::starts_with` holds of a path and a base, under
/// the path syntax of the platform that the library is built for.
pub uninterp spec fn path_has_prefix(path: Seq<char>, base: Seq<char>) -> bool;

/// `std::path::Path::starts_with`: whether `base` is a prefix of `path`,
/// taken component by component.
#[verifier::external_body]
pub(crate) fn path_starts_with(path: &str, base: &str) -> (within: bool)
    ensures
        within == path_has_prefix(path@, base@),
{
    std::path::Path::new(path).starts_with(std::path::Path::new(base))
}

/// What `std::path::Path::extension` returns for a path, under the path
/// syntax of the platform that the library is built for.
pub uninterp spec fn extension_of(path: Seq<char>) -> Option<Seq<char>>;

/// `std::path::Path::extension`: the part of the file name after its last
/// dot, if it has one.
#[verifier::external_body]
pub(crate) fn path_extension(path: &str) -> (extension: Option<String>)
    ensures
        match extension {
            Some(text) => extension_of(path@) == Some(text@),
            None => extension_of(path@) is None,
        },
{
    std::path::Path::new(path).extension().map(|e| e.to_string_lossy().into_owned())
}

/// What `str::to_lowercase` returns for a text.
pub uninterp spec fn lowercased(text: Seq<char>) -> Seq<char>;

/// `str::to_lowercase`: the text with every character in its lower case.
#[verifier::external_body]
pub(crate) fn to_lowercase(text: &str) -> (lower: String)
    ensures
        lower@ == lowercased(text@),
{
    text.to_lowercase()
}

/// Whether `needle` occurs in `haystack` as a run of consecutive characters.
pub open spec fn occurs_in(needle: Seq<char>, haystack: Seq<char>) -> bool {
    exists|at: int|
        0 <= at && at + needle.len() <= haystack.len() && #[trigger] haystack.subrange(
            at,
            at + needle.len(),
        ) == needle
}

/// `str::contains` with a string pattern: whether the pattern matches a
/// sub-slice of the text.
#[verifier::external_body]
pub(crate) fn str_contains(haystack: &str, needle: &str) -> (found: bool)
    ensures
        found == occurs_in(needle@, haystack@),
{
    haystack.contains(needle)
}

/// What `str::trim` returns for a text.
pub uninterp spec fn trimmed(text: Seq<char>) -> Seq<char>;

/// `str::trim`: the text without its leading and trailing white space.
#[verifier::external_body]
pub(crate) fn str_trim(text: &str) -> (inner: &str)
    ensures
        inner@ == trimmed(text@),
{
    text.trim()
}

/// What `hound::WavReader::new` makes of a byte image: the header it reads,
/// or the text of the error it reports.
pub uninterp spec fn parsed_wav_header(image: Seq<u8>) -> Result<WavHeader, Seq<char>>;

/// `hound::WavReader::new`, with `spec` and `duration` of the reader it
/// returns: the header of a WAV image, or the text of hound's error.
#[verifier::external_body]
pub(crate) fn wav_header(image: &[u8]) -> (parsed: Result<WavHeader, String>)
    ensures
        match parsed {
            Ok(header) => parsed_wav_header(image@) == Ok::<WavHeader, Seq<char>>(header),
            Err(reason) => parsed_wav_header(image@) == Err::<WavHeader, Seq<char>>(reason@),
        },
{
    let reader = hound::WavReader::new(image).map_err(|e| e.to_string())?;
    let spec = reader.spec();
    let sample_format = match spec.sample_format {
        hound::SampleFormat::Float => SampleFormat::Float,
        hound::SampleFormat::Int => SampleFormat::Int,
    };
    let (channels, sample_rate, bits_per_sample) = (spec.channels, spec.sample_rate, spec.bits_per_sample);
    Ok(WavHeader { spec: WavSpec { channels, sample_rate, bits_per_sample, sample_format }, duration: reader.duration() })
}

/// The iterator over the samples of a WAV image that `hound` hands out.
#[verifier::external_type_specification]
#[verifier::external_body]
#[verifier::reject_recursive_types(R)]
#[verifier::reject_recursive_types(S)]
pub struct ExWavIntoSamples<R, S>(hound::WavIntoSamples<R, S>);

/// What `hound::WavReader::into_samples::<i32>` yields for a byte image, one
/// entry per sample that the header announces: the value, or `None` where
/// hound reports an error. Empty where the image has no readable header.
pub uninterp spec fn decoded_int_samples(image: Seq<u8>) -> Seq<Option<i32>>;

/// What an iterator over integer samples has yet to yield, in order: each
/// value, or `None` where hound reports an error.
pub uninterp spec fn pending_samples(stream: hound::WavIntoSamples<&[u8], i32>) -> Seq<Option<i32>>;

/// `hound::WavReader::into_samples::<i32>`, on a reader made by
/// `hound::WavReader::new`: the iterator over the samples of the image, or
/// `None` where the image has no readable header.
#[verifier::external_body]
pub(crate) fn wav_int_samples<'a>(image: &'a [u8]) -> (stream: Option<
    hound::WavIntoSamples<&'a [u8], i32>,
>)
    ensures
        match stream {
            Some(samples) => pending_samples(samples) == decoded_int_samples(image@),
            None => decoded_int_samples(image@).len() == 0,
        },
{
    hound::WavReader::new(image).ok().map(|reader| reader.into_samples::<i32>())
}

/// `Iterator::next` of hound's sample iterator: the next entry, which leaves
/// the iterator, or `None` once every announced sample has been yielded.
#[verifier::external_body]
pub(crate) fn next_int_sample(stream: &mut hound::WavIntoSamples<&[u8], i32>) -> (next: Option<
    Option<i32>,
>)
    ensures
        match next {
            Some(entry) => pending_samples(*old(stream)).len() > 0 && entry == pending_samples(
                *old(stream),
            )[0] && pending_samples(*final(stream)) == pending_samples(*old(stream)).drop_first(),
            None => pending_samples(*old(stream)).len() == 0 && pending_samples(*final(stream))
                == pending_samples(*old(stream)),
        },
{
    stream.next().map(|sample| sample.ok())
}

} // verus!
