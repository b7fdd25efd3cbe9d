//! The model file: where it is expected, what is said when it is missing, and
//! how a failure to load it is explained.

use crate::bindings::{
    data_local_dir, joined_path, lowercased, occurs_in, path_join, str_contains, to_lowercase,
};
use crate::error::{AppError, ErrorKind};
use vstd::prelude::*;
use vstd::string::StringExecFns;

verus! {

/// The directory that holds the model and the path of the model file.
#[derive(Debug)]
pub struct ModelLocation {
    /// The directory `vocal-note-taker/models` under the local data directory.
    pub directory: String,
    /// The file `ggml-large-v3.bin` in that directory.
    pub path: String,
}

/// The model directory under the local data directory `base`.
pub open spec fn model_dir_under(base: Seq<char>) -> Seq<char> {
    joined_path(joined_path(base, "vocal-note-taker"@), "models"@)
}

/// The path of the model file under the local data directory `base`.
pub open spec fn model_path_under(base: Seq<char>) -> Seq<char> {
    joined_path(model_dir_under(base), "ggml-large-v3.bin"@)
}

/// What is said when the platform names no local data directory.
pub open spec fn no_data_dir() -> (ErrorKind, Seq<char>) {
    (
        ErrorKind::ConfigurationError,
        "Impossible de déterminer le répertoire de données local"@,
    )
}

/// Where the model is expected, given the user's local data directory.
/// Without such a directory there is no place for it, which is a
/// configuration error.
pub fn model_location_in(base: &Option<String>) -> (location: Result<ModelLocation, AppError>)
    ensures
        match *base {
            Some(dir) => location matches Ok(found) && found.directory@ == model_dir_under(dir@)
                && found.path@ == model_path_under(dir@),
            None => location matches Err(error) && error@ == no_data_dir(),
        },
{
    match base {
        Some(dir) => {
            let app_dir = path_join(dir.as_str(), "vocal-note-taker");
            let directory = path_join(app_dir.as_str(), "models");
            let path = path_join(directory.as_str(), "ggml-large-v3.bin");
            Ok(ModelLocation { directory, path })
        },
        None => Err(
            AppError::ConfigurationError(
                String::from_str("Impossible de déterminer le répertoire de données local"),
            ),
        ),
    }
}

/// Where the model is expected on this machine, with the directory that has
/// to exist for it to be installed there.
pub fn ensure_model_dir() -> (location: Result<ModelLocation, AppError>)
    ensures
        match location {
            Ok(found) => exists|base: Seq<char>|
                found.directory@ == #[trigger] model_dir_under(base) && found.path@
                    == model_path_under(base),
            Err(error) => error@ == no_data_dir(),
        },
{
    let base = data_local_dir();
    let location = model_location_in(&base);
    proof {
        if let Some(dir) = base {
            assert(location->Ok_0.directory@ == model_dir_under(dir@));
        }
    }
    location
}

/// The path at which the model file is expected on this machine.
pub fn get_model_path() -> (path: Result<String, AppError>)
    ensures
        match path {
            Ok(text) => exists|base: Seq<char>| text@ == #[trigger] model_path_under(base),
            Err(error) => error@ == no_data_dir(),
        },
{
    let base = data_local_dir();
    let location = model_location_in(&base);
    match location {
        Ok(found) => {
            proof {
                assert(found.path@ == model_path_under(base->Some_0@));
            }
            Ok(found.path)
        },
        Err(error) => Err(error),
    }
}

/// How to install the model, ending with the place where it belongs.
pub open spec fn install_instructions(model_path: Seq<char>) -> Seq<char> {
    "Modèle Whisper non trouvé.\n\nPour installer le modèle:\n1. Exécutez: ./scripts/download-models.sh\n2. Ou téléchargez manuellement depuis:\n   https://huggingface.co/ggerganov/whisper.cpp/tree/main\n3. Placez ggml-large-v3.bin dans:\n   "@
        + model_path
}

/// The error that says that no model is installed at `model_path`, with the
/// instructions to install one.
pub fn model_not_installed(model_path: &str) -> (error: AppError)
    ensures
        error@ == (ErrorKind::ModelNotFound, install_instructions(model_path@)),
{
    AppError::ModelNotFound(
        String::from_str(
            "Modèle Whisper non trouvé.\n\nPour installer le modèle:\n1. Exécutez: ./scripts/download-models.sh\n2. Ou téléchargez manuellement depuis:\n   https://huggingface.co/ggerganov/whisper.cpp/tree/main\n3. Placez ggml-large-v3.bin dans:\n   ",
        ).concat(model_path),
    )
}

/// Whether the model at `model_path` can be used, given whether a file is
/// present there: the path if it is, the instructions to install it if not.
pub fn model_availability(model_path: String, present: bool) -> (available: Result<String, AppError>)
    ensures
        present ==> available == Ok::<String, AppError>(model_path),
        !present ==> (available matches Err(error) && error@ == (
            ErrorKind::ModelNotFound,
            install_instructions(model_path@),
        )),
{
    if present {
        Ok(model_path)
    } else {
        Err(model_not_installed(model_path.as_str()))
    }
}

/// Checks whether the model is installed on this machine. `probe` is asked
/// whether a file exists at the expected path; it is asked only when the
/// platform names a place for the model, and only once.
pub fn check_model_availability<P: FnOnce(&str) -> bool>(probe: P) -> (available: Result<
    String,
    AppError,
>)
    requires
        forall|path: &str| call_requires(probe, (path,)),
    ensures
        match available {
            Ok(path) => (exists|base: Seq<char>| path@ == #[trigger] model_path_under(base)) && (
            exists|asked: &str| asked@ == path@ && #[trigger] call_ensures(probe, (asked,), true)),
            Err(error) => error@ == no_data_dir() || (exists|asked: &str, base: Seq<char>|
                asked@ == #[trigger] model_path_under(base) && #[trigger] call_ensures(
                    probe,
                    (asked,),
                    false,
                ) && error@ == (ErrorKind::ModelNotFound, install_instructions(asked@))),
        },
{
    match get_model_path() {
        Ok(path) => {
            let present = probe(path.as_str());
            model_availability(path, present)
        },
        Err(error) => Err(error),
    }
}

/// What a failure to load the model most likely comes from.
#[derive(Clone, Copy, Debug, PartialEq, Eq, Structural)]
pub enum LoadDiagnosis {
    /// The machine ran out of memory.
    MemoryPressure,
    /// The file is damaged or incomplete.
    Corruption,
    /// Nothing in the engine's words points to either.
    Unknown,
}

/// What the engine's words, in lower case, point to. Memory is looked for
/// first.
pub open spec fn spec_diagnosis(lowered: Seq<char>) -> LoadDiagnosis {
    if occurs_in("memory"@, lowered) || occurs_in("alloc"@, lowered) {
        LoadDiagnosis::MemoryPressure
    } else if occurs_in("invalid"@, lowered) || occurs_in("corrupt"@, lowered) {
        LoadDiagnosis::Corruption
    } else {
        LoadDiagnosis::Unknown
    }
}

/// What the engine's words, given in lower case, point to.
pub fn diagnose(lowered: &str) -> (diagnosis: LoadDiagnosis)
    ensures
        diagnosis == spec_diagnosis(lowered@),
{
    if str_contains(lowered, "memory") || str_contains(lowered, "alloc") {
        LoadDiagnosis::MemoryPressure
    } else if str_contains(lowered, "invalid") || str_contains(lowered, "corrupt") {
        LoadDiagnosis::Corruption
    } else {
        LoadDiagnosis::Unknown
    }
}

/// The detail of the error that reports a failed load: the engine's words,
/// with the hint that goes with the diagnosis.
pub open spec fn load_failure_detail(diagnosis: LoadDiagnosis, engine_message: Seq<char>) -> Seq<
    char,
> {
    match diagnosis {
        LoadDiagnosis::MemoryPressure =>
            "Mémoire insuffisante pour charger le modèle (~3GB requis): "@ + engine_message,
        LoadDiagnosis::Corruption => "Fichier modèle corrompu ou incomplet: "@ + engine_message
            + ". Retéléchargez le modèle"@,
        LoadDiagnosis::Unknown => engine_message,
    }
}

/// The error that reports a failed load under the given diagnosis.
pub fn explain_load_failure(diagnosis: LoadDiagnosis, engine_message: &str) -> (error: AppError)
    ensures
        error@ == (ErrorKind::ModelLoadFailed, load_failure_detail(diagnosis, engine_message@)),
{
    let detail = match diagnosis {
        LoadDiagnosis::MemoryPressure => String::from_str(
            "Mémoire insuffisante pour charger le modèle (~3GB requis): ",
        ).concat(engine_message),
        LoadDiagnosis::Corruption => String::from_str(
            "Fichier modèle corrompu ou incomplet: ",
        ).concat(engine_message).concat(". Retéléchargez le modèle"),
        LoadDiagnosis::Unknown => String::from_str(engine_message),
    };
    AppError::ModelLoadFailed(detail)
}

/// The error that reports that the engine could not load the model. The
/// engine's words are searched, whatever their case, for signs of memory
/// pressure or of a damaged file, and the matching hint is added.
pub fn load_failure(engine_message: &str) -> (error: AppError)
    ensures
        error@ == (
            ErrorKind::ModelLoadFailed,
            load_failure_detail(spec_diagnosis(lowercased(engine_message@)), engine_message@),
        ),
{
    let lowered = to_lowercase(engine_message);
    explain_load_failure(diagnose(lowered.as_str()), engine_message)
}

/// The error that says that no model file exists at `model_path`.
pub fn model_file_missing(model_path: &str) -> (error: AppError)
    ensures
        error@ == (
            ErrorKind::ModelNotFound,
            "Modèle Whisper non trouvé: "@ + model_path@
                + ". Exécutez: ./scripts/download-models.sh"@,
        ),
{
    AppError::ModelNotFound(
        String::from_str("Modèle Whisper non trouvé: ").concat(model_path).concat(
            ". Exécutez: ./scripts/download-models.sh",
        ),
    )
}

/// The error that says that the model's path cannot be handed to the engine
/// because it is not valid Unicode.
pub fn model_path_not_unicode() -> (error: AppError)
    ensures
        error@ == (ErrorKind::ModelLoadFailed, "Chemin de modèle invalide (non-UTF8)"@),
{
    AppError::ModelLoadFailed(String::from_str("Chemin de modèle invalide (non-UTF8)"))
}

/// A loaded model: the engine's context, whatever the engine makes it of.
pub struct WhisperModel<C> {
    context: C,
}

impl<C> WhisperModel<C> {
    /// The engine's context that the model holds.
    pub closed spec fn spec_context(self) -> C {
        self.context
    }

    /// Loads the model at `model_path`. `probe` is asked whether a file exists
    /// there; only if one does is `engine` asked to load it. A missing file
    /// is reported with the command that installs it, a failed load with the
    /// engine's words and a hint at the likely cause.
    pub fn load<P: FnOnce(&str) -> bool, E: FnOnce(&str) -> Result<C, String>>(
        model_path: &str,
        probe: P,
        engine: E,
    ) -> (model: Result<WhisperModel<C>, AppError>)
        requires
            call_requires(probe, (model_path,)),
            call_requires(engine, (model_path,)),
        ensures
            match model {
                Ok(loaded) => call_ensures(probe, (model_path,), true) && call_ensures(
                    engine,
                    (model_path,),
                    Ok::<C, String>(loaded.spec_context()),
                ),
                Err(error) => (call_ensures(probe, (model_path,), false) && error@ == (
                    ErrorKind::ModelNotFound,
                    "Modèle Whisper non trouvé: "@ + model_path@
                        + ". Exécutez: ./scripts/download-models.sh"@,
                )) || (call_ensures(probe, (model_path,), true) && exists|engine_message: String|
                    #[trigger] call_ensures(
                        engine,
                        (model_path,),
                        Err::<C, String>(engine_message),
                    ) && error@ == (
                        ErrorKind::ModelLoadFailed,
                        load_failure_detail(
                            spec_diagnosis(lowercased(engine_message@)),
                            engine_message@,
                        ),
                    )),
            },
    {
        if !probe(model_path) {
            return Err(model_file_missing(model_path));
        }
        match engine(model_path) {
            Ok(context) => Ok(WhisperModel { context }),
            Err(engine_message) => Err(load_failure(engine_message.as_str())),
        }
    }

    /// The engine's context.
    pub fn context(&self) -> (context: &C)
        ensures
            *context == self.spec_context(),
    {
        &self.context
    }
}

/// The model of the process: absent until the first transcription asks for
/// it, and kept from then on.
pub struct WhisperState<C> {
    pub model: Option<WhisperModel<C>>,
}

impl<C> WhisperState<C> {
    /// A state without a model.
    pub fn new() -> (state: WhisperState<C>)
        ensures
            state.model is None,
    {
        WhisperState { model: None }
    }

    /// Whether a model is in memory.
    pub fn is_loaded(&self) -> (loaded: bool)
        ensures
            loaded == self.model is Some,
    {
        self.model.is_some()
    }

    /// Keeps `model` if none is kept yet. A model that is present stays: it
    /// is never replaced by a later load.
    pub fn install(&mut self, model: WhisperModel<C>)
        ensures
            old(self).model is Some ==> final(self).model == old(self).model,
            old(self).model is None ==> final(self).model == Some(model),
    {
        if self.model.is_none() {
            self.model = Some(model);
        }
    }
}

impl<C> Default for WhisperState<C> {
    /// A state without a model.
    fn default() -> (state: WhisperState<C>)
        ensures
            state.model is None,
    {
        WhisperState::new()
    }
}

} // verus!
