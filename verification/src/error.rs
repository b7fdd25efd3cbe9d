//! The application's error type: a machine-readable kind and a message that
//! tells the user what to do next.

use vstd::prelude::*;
use vstd::string::StringExecFns;

verus! {

/// The machine-readable kind of an [`AppError`].
#[derive(Clone, Copy, Debug, PartialEq, Eq, Structural)]
pub enum ErrorKind {
    MicrophoneAccessDenied,
    MicrophoneNotFound,
    TranscriptionFailed,
    RecordingInterrupted,
    ConfigurationError,
    ClipboardError,
    IoError,
    HotkeyRegistrationFailed,
    ModelNotFound,
    ModelLoadFailed,
    InvalidAudioFormat,
}

/// Every failure the application reports. Each value has a kind and a message
/// that names a remedy; the variants with a `String` carry the detail that the
/// message embeds.
#[derive(Clone, Debug)]
pub enum AppError {
    /// The microphone exists but may not be used, or offers no usable configuration.
    MicrophoneAccessDenied,
    /// No input device is present.
    MicrophoneNotFound,
    /// The transcription of a recording failed.
    TranscriptionFailed(String),
    /// A session was interrupted, is already running, or is not running.
    RecordingInterrupted,
    /// A platform directory or a setting cannot be resolved.
    ConfigurationError(String),
    /// The clipboard refused the text.
    ClipboardError,
    /// The file system refused an operation.
    IoError(String),
    /// The global shortcut could not be registered.
    HotkeyRegistrationFailed(String),
    /// The model file is not installed.
    ModelNotFound(String),
    /// The model file is present but cannot be loaded.
    ModelLoadFailed(String),
    /// The audio container is not what the transcription engine accepts.
    InvalidAudioFormat(String),
}

impl ErrorKind {
    /// The name under which the kind is reported.
    pub open spec fn spec_name(self) -> Seq<char> {
        match self {
            ErrorKind::MicrophoneAccessDenied => "MicrophoneAccessDenied"@,
            ErrorKind::MicrophoneNotFound => "MicrophoneNotFound"@,
            ErrorKind::TranscriptionFailed => "TranscriptionFailed"@,
            ErrorKind::RecordingInterrupted => "RecordingInterrupted"@,
            ErrorKind::ConfigurationError => "ConfigurationError"@,
            ErrorKind::ClipboardError => "ClipboardError"@,
            ErrorKind::IoError => "IoError"@,
            ErrorKind::HotkeyRegistrationFailed => "HotkeyRegistrationFailed"@,
            ErrorKind::ModelNotFound => "ModelNotFound"@,
            ErrorKind::ModelLoadFailed => "ModelLoadFailed"@,
            ErrorKind::InvalidAudioFormat => "InvalidAudioFormat"@,
        }
    }

    /// What the message of an error of this kind starts with, before the detail.
    pub open spec fn message_head(self) -> Seq<char> {
        match self {
            ErrorKind::MicrophoneAccessDenied =>
                "Accès au microphone refusé. Vérifiez les permissions système."@,
            ErrorKind::MicrophoneNotFound =>
                "Aucun microphone détecté. Connectez un microphone et réessayez."@,
            ErrorKind::TranscriptionFailed => "Transcription échouée: "@,
            ErrorKind::RecordingInterrupted => "Enregistrement interrompu. Réessayez."@,
            ErrorKind::ConfigurationError => "Erreur de configuration: "@,
            ErrorKind::ClipboardError =>
                "Impossible de copier dans le presse-papiers. Réessayez."@,
            ErrorKind::IoError => "Erreur système: "@,
            ErrorKind::HotkeyRegistrationFailed =>
                "Échec d'enregistrement du raccourci clavier: "@,
            ErrorKind::ModelNotFound => "Modèle Whisper non trouvé. "@,
            ErrorKind::ModelLoadFailed => "Échec du chargement du modèle Whisper: "@,
            ErrorKind::InvalidAudioFormat => "Format audio invalide: "@,
        }
    }

    /// What the message of an error of this kind ends with, after the detail.
    pub open spec fn message_tail(self) -> Seq<char> {
        match self {
            ErrorKind::TranscriptionFailed => ". Réessayez l'enregistrement."@,
            ErrorKind::ConfigurationError => ". Vérifiez config.toml."@,
            ErrorKind::HotkeyRegistrationFailed =>
                ". L'application reste fonctionnelle via le bouton."@,
            ErrorKind::ModelLoadFailed =>
                ". Vérifiez la mémoire disponible ou réinstallez le modèle avec ./scripts/download-models.sh."@,
            ErrorKind::InvalidAudioFormat => ". Réenregistrez l'audio."@,
            _ => Seq::<char>::empty(),
        }
    }

    /// The name under which the kind is reported to the event sink.
    pub fn name(&self) -> (name: &'static str)
        ensures
            name@ == self.spec_name(),
    {
        match self {
            ErrorKind::MicrophoneAccessDenied => "MicrophoneAccessDenied",
            ErrorKind::MicrophoneNotFound => "MicrophoneNotFound",
            ErrorKind::TranscriptionFailed => "TranscriptionFailed",
            ErrorKind::RecordingInterrupted => "RecordingInterrupted",
            ErrorKind::ConfigurationError => "ConfigurationError",
            ErrorKind::ClipboardError => "ClipboardError",
            ErrorKind::IoError => "IoError",
            ErrorKind::HotkeyRegistrationFailed => "HotkeyRegistrationFailed",
            ErrorKind::ModelNotFound => "ModelNotFound",
            ErrorKind::ModelLoadFailed => "ModelLoadFailed",
            ErrorKind::InvalidAudioFormat => "InvalidAudioFormat",
        }
    }
}

/// The message of an error of the given kind and detail.
pub open spec fn spec_message(kind: ErrorKind, detail: Seq<char>) -> Seq<char> {
    kind.message_head() + detail + kind.message_tail()
}

impl View for AppError {
    type V = (ErrorKind, Seq<char>);

    /// An error is its kind together with the detail it carries.
    open spec fn view(&self) -> (ErrorKind, Seq<char>) {
        (self.spec_kind(), self.detail())
    }
}

impl AppError {
    /// The kind of the error.
    pub open spec fn spec_kind(self) -> ErrorKind {
        match self {
            AppError::MicrophoneAccessDenied => ErrorKind::MicrophoneAccessDenied,
            AppError::MicrophoneNotFound => ErrorKind::MicrophoneNotFound,
            AppError::TranscriptionFailed(_) => ErrorKind::TranscriptionFailed,
            AppError::RecordingInterrupted => ErrorKind::RecordingInterrupted,
            AppError::ConfigurationError(_) => ErrorKind::ConfigurationError,
            AppError::ClipboardError => ErrorKind::ClipboardError,
            AppError::IoError(_) => ErrorKind::IoError,
            AppError::HotkeyRegistrationFailed(_) => ErrorKind::HotkeyRegistrationFailed,
            AppError::ModelNotFound(_) => ErrorKind::ModelNotFound,
            AppError::ModelLoadFailed(_) => ErrorKind::ModelLoadFailed,
            AppError::InvalidAudioFormat(_) => ErrorKind::InvalidAudioFormat,
        }
    }

    /// The detail that the error carries; empty for the kinds without one.
    pub open spec fn detail(self) -> Seq<char> {
        match self {
            AppError::TranscriptionFailed(d)
            | AppError::ConfigurationError(d)
            | AppError::IoError(d)
            | AppError::HotkeyRegistrationFailed(d)
            | AppError::ModelNotFound(d)
            | AppError::ModelLoadFailed(d)
            | AppError::InvalidAudioFormat(d) => d@,
            _ => Seq::<char>::empty(),
        }
    }

    /// The kind of the error.
    pub fn kind(&self) -> (kind: ErrorKind)
        ensures
            kind == self.spec_kind(),
    {
        match self {
            AppError::MicrophoneAccessDenied => ErrorKind::MicrophoneAccessDenied,
            AppError::MicrophoneNotFound => ErrorKind::MicrophoneNotFound,
            AppError::TranscriptionFailed(_) => ErrorKind::TranscriptionFailed,
            AppError::RecordingInterrupted => ErrorKind::RecordingInterrupted,
            AppError::ConfigurationError(_) => ErrorKind::ConfigurationError,
            AppError::ClipboardError => ErrorKind::ClipboardError,
            AppError::IoError(_) => ErrorKind::IoError,
            AppError::HotkeyRegistrationFailed(_) => ErrorKind::HotkeyRegistrationFailed,
            AppError::ModelNotFound(_) => ErrorKind::ModelNotFound,
            AppError::ModelLoadFailed(_) => ErrorKind::ModelLoadFailed,
            AppError::InvalidAudioFormat(_) => ErrorKind::InvalidAudioFormat,
        }
    }

    /// The message shown to the user: what happened and what to do about it.
    pub fn message(&self) -> (text: String)
        ensures
            text@ == spec_message(self.spec_kind(), self.detail()),
    {
        let text = match self {
            AppError::MicrophoneAccessDenied => String::from_str(
                "Accès au microphone refusé. Vérifiez les permissions système.",
            ),
            AppError::MicrophoneNotFound => String::from_str(
                "Aucun microphone détecté. Connectez un microphone et réessayez.",
            ),
            AppError::TranscriptionFailed(d) => framed(
                "Transcription échouée: ",
                d.as_str(),
                ". Réessayez l'enregistrement.",
            ),
            AppError::RecordingInterrupted => String::from_str(
                "Enregistrement interrompu. Réessayez.",
            ),
            AppError::ConfigurationError(d) => framed(
                "Erreur de configuration: ",
                d.as_str(),
                ". Vérifiez config.toml.",
            ),
            AppError::ClipboardError => String::from_str(
                "Impossible de copier dans le presse-papiers. Réessayez.",
            ),
            AppError::IoError(d) => String::from_str("Erreur système: ").concat(d.as_str()),
            AppError::HotkeyRegistrationFailed(d) => framed(
                "Échec d'enregistrement du raccourci clavier: ",
                d.as_str(),
                ". L'application reste fonctionnelle via le bouton.",
            ),
            AppError::ModelNotFound(d) => String::from_str("Modèle Whisper non trouvé. ").concat(
                d.as_str(),
            ),
            AppError::ModelLoadFailed(d) => framed(
                "Échec du chargement du modèle Whisper: ",
                d.as_str(),
                ". Vérifiez la mémoire disponible ou réinstallez le modèle avec ./scripts/download-models.sh.",
            ),
            AppError::InvalidAudioFormat(d) => framed(
                "Format audio invalide: ",
                d.as_str(),
                ". Réenregistrez l'audio.",
            ),
        };
        assert(text@ =~= spec_message(self.spec_kind(), self.detail()));
        text
    }
}

/// `head`, then `body`, then `tail`, as one string.
pub fn framed(head: &str, body: &str, tail: &str) -> (text: String)
    ensures
        text@ == head@ + body@ + tail@,
{
    let mut text = String::from_str(head);
    text.append(body);
    text.append(tail);
    text
}

} // verus!
