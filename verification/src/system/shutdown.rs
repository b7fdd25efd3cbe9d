//! The sweep of the private temp directory, at startup and at shutdown: every
//! recording that was left behind is removed, and nothing else.

use crate::bindings::{extension_of, path_extension};
use crate::error::{AppError, ErrorKind};
use vstd::prelude::*;
use vstd::string::StringExecFns;

verus! {

/// What a look into the temp directory found.
#[derive(Debug)]
pub enum DirListing {
    /// The directory does not exist.
    Missing,
    /// The directory exists but cannot be listed; the text says why.
    Unreadable(String),
    /// The paths of the directory's entries, its subdirectories not entered.
    Entries(Vec<String>),
}

/// Whether an extension is that of a recording.
pub open spec fn is_wav(extension: Option<Seq<char>>) -> bool {
    extension == Some("wav"@)
}

/// Whether the entry at `path` is a recording: whether its extension is `wav`.
pub open spec fn is_recording(path: Seq<char>) -> bool {
    is_wav(extension_of(path))
}

/// Whether `extension` is that of a recording.
pub fn has_wav_extension(extension: &Option<String>) -> (wav: bool)
    ensures
        wav == is_wav(
            match *extension {
                Some(text) => Some(text@),
                None => None,
            },
        ),
{
    match extension {
        Some(text) => {
            let wav = String::from_str("wav");
            *text == wav
        },
        None => false,
    }
}

/// Whether the entry at `path` is a recording.
pub fn is_recording_artifact(path: &str) -> (recording: bool)
    ensures
        recording == is_recording(path@),
{
    let extension = path_extension(path);
    has_wav_extension(&extension)
}

/// Whether `selected` lists the positions of the recordings among `entries`:
/// all of them, no other, in the order of the listing.
pub open spec fn selects_recordings(selected: Seq<usize>, entries: Seq<String>) -> bool {
    &&& forall|k: int| 0 <= k < selected.len() ==> (#[trigger] selected[k]) < entries.len()
    &&& forall|j: int, k: int| 0 <= j < k < selected.len() ==> selected[j] < selected[k]
    &&& forall|i: int|
        0 <= i < entries.len() ==> (is_recording((#[trigger] entries[i])@) <==> selected.contains(
            i as usize,
        ))
}

/// The positions of the recordings among `entries`.
pub fn select_recordings(entries: &Vec<String>) -> (selected: Vec<usize>)
    ensures
        selects_recordings(selected@, entries@),
{
    let mut selected: Vec<usize> = Vec::new();
    let mut i: usize = 0;
    while i < entries.len()
        invariant
            i <= entries.len(),
            forall|k: int| 0 <= k < selected@.len() ==> (#[trigger] selected@[k]) < i,
            forall|j: int, k: int| 0 <= j < k < selected@.len() ==> selected@[j] < selected@[k],
            forall|n: int|
                0 <= n < i ==> (is_recording((#[trigger] entries@[n])@) <==> selected@.contains(
                    n as usize,
                )),
        decreases entries.len() - i,
    {
        let ghost before = selected@;
        if is_recording_artifact(entries[i].as_str()) {
            selected.push(i);
            proof {
                assert(selected@[before.len() as int] == i);
                assert forall|n: int| 0 <= n < i + 1 implies (is_recording(
                    (#[trigger] entries@[n])@,
                ) <==> selected@.contains(n as usize)) by {
                    if n < i {
                        if before.contains(n as usize) {
                            let at = choose|at: int| 0 <= at < before.len() && before[at] == n;
                            assert(selected@[at] == n);
                        }
                        if selected@.contains(n as usize) {
                            let at = choose|at: int|
                                0 <= at < selected@.len() && selected@[at] == n;
                            assert(at < before.len());
                            assert(before[at] == n);
                        }
                    }
                }
            }
        } else {
            proof {
                assert forall|n: int| 0 <= n < i + 1 implies (is_recording(
                    (#[trigger] entries@[n])@,
                ) <==> selected@.contains(n as usize)) by {
                    if n == i && selected@.contains(n as usize) {
                        let at = choose|at: int| 0 <= at < selected@.len() && selected@[at] == n;
                        assert(selected@[at] < i);
                    }
                }
            }
        }
        i += 1;
    }
    selected
}

/// Decides what the sweep removes, given what a look into the temp directory
/// found: the entries to delete, by their positions in the listing.
///
/// A missing directory is swept with nothing to do. A directory that cannot
/// be listed is an error. Otherwise every recording is to be deleted and no
/// other entry; a delete that fails is no reason to leave out the rest.
pub fn cleanup_temp_files(listing: &DirListing) -> (sweep: Result<Vec<usize>, AppError>)
    ensures
        match *listing {
            DirListing::Missing => sweep matches Ok(selected) && selected@.len() == 0,
            DirListing::Unreadable(reason) => sweep matches Err(error) && error@ == (
                ErrorKind::IoError,
                "Cannot read temp directory: "@ + reason@,
            ),
            DirListing::Entries(entries) => sweep matches Ok(selected) && selects_recordings(
                selected@,
                entries@,
            ),
        },
{
    match listing {
        DirListing::Missing => Ok(Vec::new()),
        DirListing::Unreadable(reason) => Err(
            AppError::IoError(
                String::from_str("Cannot read temp directory: ").concat(reason.as_str()),
            ),
        ),
        DirListing::Entries(entries) => Ok(select_recordings(entries)),
    }
}

/// Decides what is removed when the application shuts down: what the sweep
/// of the temp directory removes.
pub fn graceful_shutdown(listing: &DirListing) -> (sweep: Result<Vec<usize>, AppError>)
    ensures
        match *listing {
            DirListing::Missing => sweep matches Ok(selected) && selected@.len() == 0,
            DirListing::Unreadable(reason) => sweep matches Err(error) && error@ == (
                ErrorKind::IoError,
                "Cannot read temp directory: "@ + reason@,
            ),
            DirListing::Entries(entries) => sweep matches Ok(selected) && selects_recordings(
                selected@,
                entries@,
            ),
        },
{
    cleanup_temp_files(listing)
}

} // verus!
