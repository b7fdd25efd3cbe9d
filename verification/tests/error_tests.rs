use vocal_note_taker::commands::transcription::error_payload;
use vocal_note_taker::error::{AppError, ErrorKind};

fn to_json(err: &AppError) -> String {
    let mut object = serde_json::Map::new();
    object.insert(
        "type".to_string(),
        serde_json::Value::String(err.kind().name().to_string()),
    );
    object.insert("message".to_string(), serde_json::Value::String(err.message()));
    serde_json::to_string(&serde_json::Value::Object(object)).unwrap()
}

#[test]
fn test_microphone_access_denied_is_actionable() {
    let err = AppError::MicrophoneAccessDenied;
    let msg = err.message();
    assert!(msg.contains("Vérifiez"), "Message should suggest action");
}

#[test]
fn test_microphone_not_found_is_actionable() {
    let err = AppError::MicrophoneNotFound;
    let msg = err.message();
    assert!(
        msg.contains("Connectez") || msg.contains("réessayez"),
        "Message should suggest action"
    );
}

#[test]
fn test_transcription_failed_is_actionable() {
    let err = AppError::TranscriptionFailed("timeout".to_string());
    let msg = err.message();
    assert!(msg.contains("timeout"), "Message should contain details");
    assert!(msg.contains("Réessayez"), "Message should suggest action");
}

#[test]
fn test_recording_interrupted_is_actionable() {
    let err = AppError::RecordingInterrupted;
    let msg = err.message();
    assert!(msg.contains("Réessayez"), "Message should suggest action");
}

#[test]
fn test_configuration_error_is_actionable() {
    let err = AppError::ConfigurationError("missing field".to_string());
    let msg = err.message();
    assert!(msg.contains("missing field"), "Message should contain details");
    assert!(msg.contains("config.toml"), "Message should point to config file");
}

#[test]
fn test_clipboard_error_is_actionable() {
    let err = AppError::ClipboardError;
    let msg = err.message();
    assert!(msg.contains("Réessayez"), "Message should suggest action");
}

#[test]
fn test_io_error_conversion() {
    let io_err = std::io::Error::new(std::io::ErrorKind::NotFound, "file not found");
    let app_err: AppError = AppError::IoError(io_err.to_string());
    match app_err {
        AppError::IoError(msg) => assert!(msg.contains("file not found")),
        _ => panic!("Expected IoError variant"),
    }
}

#[test]
fn test_error_serialization_format() {
    let err = AppError::TranscriptionFailed("timeout".to_string());
    let json = to_json(&err);

    assert!(json.contains(r#""type":"TranscriptionFailed""#), "Should have type field");
    assert!(json.contains(r#""message":"#), "Should have message field");
    assert!(json.contains("timeout"), "Message should contain details");
}

#[test]
fn test_error_serialization_simple_variant() {
    let err = AppError::MicrophoneAccessDenied;
    let json = to_json(&err);

    assert!(json.contains(r#""type":"MicrophoneAccessDenied""#));
    assert!(json.contains("Vérifiez les permissions"));
}

#[test]
fn test_hotkey_registration_failed_serialization() {
    let err = AppError::HotkeyRegistrationFailed("shortcut already in use".to_string());
    let json = to_json(&err);

    assert!(json.contains(r#""type":"HotkeyRegistrationFailed""#));
    assert!(json.contains("shortcut already in use"));
    assert!(json.contains("reste fonctionnelle"));
}

#[test]
fn test_all_errors_are_actionable() {
    let errors = vec![
        AppError::MicrophoneAccessDenied,
        AppError::MicrophoneNotFound,
        AppError::TranscriptionFailed("test".to_string()),
        AppError::RecordingInterrupted,
        AppError::ConfigurationError("test".to_string()),
        AppError::ClipboardError,
        AppError::HotkeyRegistrationFailed("test".to_string()),
        AppError::ModelNotFound("test".to_string()),
        AppError::ModelLoadFailed("test".to_string()),
    ];

    for err in errors {
        let msg = err.message();
        assert!(
            msg.contains("Vérifiez")
                || msg.contains("Réessayez")
                || msg.contains("Connectez")
                || msg.contains("reste fonctionnelle")
                || msg.contains("Modèle")
                || msg.contains("modèle"),
            "Error '{}' should have actionable message",
            msg
        );
    }
}

#[test]
fn test_clipboard_error_type() {
    let error = AppError::ClipboardError;
    assert_eq!(
        error.message(),
        "Impossible de copier dans le presse-papiers. Réessayez."
    );
}

#[test]
fn test_clipboard_error_is_user_friendly() {
    let error = AppError::ClipboardError;
    let msg = error.message();
    assert!(msg.contains("presse-papiers"), "Message doit mentionner le presse-papiers");
    assert!(msg.contains("Réessayez"), "Message doit suggérer une action");
}

#[test]
fn every_message_is_exact() {
    let d = || "X".to_string();
    assert_eq!(
        AppError::MicrophoneAccessDenied.message(),
        "Accès au microphone refusé. Vérifiez les permissions système."
    );
    assert_eq!(
        AppError::MicrophoneNotFound.message(),
        "Aucun microphone détecté. Connectez un microphone et réessayez."
    );
    assert_eq!(
        AppError::TranscriptionFailed(d()).message(),
        "Transcription échouée: X. Réessayez l'enregistrement."
    );
    assert_eq!(
        AppError::RecordingInterrupted.message(),
        "Enregistrement interrompu. Réessayez."
    );
    assert_eq!(
        AppError::ConfigurationError(d()).message(),
        "Erreur de configuration: X. Vérifiez config.toml."
    );
    assert_eq!(AppError::IoError(d()).message(), "Erreur système: X");
    assert_eq!(
        AppError::HotkeyRegistrationFailed(d()).message(),
        "Échec d'enregistrement du raccourci clavier: X. L'application reste fonctionnelle via le bouton."
    );
    assert_eq!(AppError::ModelNotFound(d()).message(), "Modèle Whisper non trouvé. X");
    assert_eq!(
        AppError::ModelLoadFailed(d()).message(),
        "Échec du chargement du modèle Whisper: X. Vérifiez la mémoire disponible ou réinstallez le modèle avec ./scripts/download-models.sh."
    );
    assert_eq!(
        AppError::InvalidAudioFormat(d()).message(),
        "Format audio invalide: X. Réenregistrez l'audio."
    );
}

#[test]
fn every_kind_has_its_name() {
    let cases = vec![
        (AppError::MicrophoneAccessDenied, ErrorKind::MicrophoneAccessDenied, "MicrophoneAccessDenied"),
        (AppError::MicrophoneNotFound, ErrorKind::MicrophoneNotFound, "MicrophoneNotFound"),
        (AppError::TranscriptionFailed(String::new()), ErrorKind::TranscriptionFailed, "TranscriptionFailed"),
        (AppError::RecordingInterrupted, ErrorKind::RecordingInterrupted, "RecordingInterrupted"),
        (AppError::ConfigurationError(String::new()), ErrorKind::ConfigurationError, "ConfigurationError"),
        (AppError::ClipboardError, ErrorKind::ClipboardError, "ClipboardError"),
        (AppError::IoError(String::new()), ErrorKind::IoError, "IoError"),
        (AppError::HotkeyRegistrationFailed(String::new()), ErrorKind::HotkeyRegistrationFailed, "HotkeyRegistrationFailed"),
        (AppError::ModelNotFound(String::new()), ErrorKind::ModelNotFound, "ModelNotFound"),
        (AppError::ModelLoadFailed(String::new()), ErrorKind::ModelLoadFailed, "ModelLoadFailed"),
        (AppError::InvalidAudioFormat(String::new()), ErrorKind::InvalidAudioFormat, "InvalidAudioFormat"),
    ];
    for (error, kind, name) in cases {
        assert_eq!(error.kind(), kind);
        assert_eq!(error.kind().name(), name);
    }
}

#[test]
fn error_payload_carries_kind_message_and_cleanup() {
    let error = AppError::InvalidAudioFormat("Fichier audio vide".to_string());
    let payload = error_payload(&error, true);
    assert_eq!(payload.error_type, "InvalidAudioFormat");
    assert_eq!(payload.message, "Format audio invalide: Fichier audio vide. Réenregistrez l'audio.");
    assert!(payload.audio_deleted);
    assert!(!error_payload(&AppError::RecordingInterrupted, false).audio_deleted);
}
