use vocal_note_taker::commands::transcription::{
    rejection_error, start_transcription, validate_audio_path, JobAction, JobEvent, JobState,
    Milestone, Rejection, TranscriptionJob,
};
use vocal_note_taker::error::AppError;

const TEMP: &str = "/data/vocal-note-taker/temp";
const SOURCE: &str = "/data/vocal-note-taker/temp/recording.wav";

fn run(events: Vec<JobEvent>) -> (TranscriptionJob, Vec<JobAction>) {
    let mut job = start_transcription(SOURCE.to_string());
    let mut all = Vec::new();
    for event in events {
        let (next, actions) = job.advance(event);
        job = next;
        all.extend(actions);
    }
    (job, all)
}

fn resolved(path: &str) -> JobEvent {
    JobEvent::PathResolved { resolved: Ok(path.to_string()), temp_dir: TEMP.to_string() }
}

fn admitted(loaded: bool) -> Vec<JobEvent> {
    vec![
        resolved(SOURCE),
        JobEvent::SourceProbed { exists: true },
        JobEvent::ModelAcquired { loaded },
    ]
}

fn deletes(actions: &[JobAction]) -> usize {
    actions.iter().filter(|a| matches!(a, JobAction::DeleteSource)).count()
}

fn percents(actions: &[JobAction]) -> Vec<i32> {
    actions
        .iter()
        .filter_map(|a| match a {
            JobAction::Progress(milestone) => Some(milestone.percent()),
            _ => None,
        })
        .collect()
}

fn touches_source(action: &JobAction) -> bool {
    matches!(action, JobAction::ProbeSource | JobAction::Transcribe | JobAction::DeleteSource)
}

#[test]
fn milestones_are_fixed_percentages() {
    assert_eq!(Milestone::Started.percent(), 0);
    assert_eq!(Milestone::LoadingModel.percent(), 5);
    assert_eq!(Milestone::ModelReady.percent(), 10);
    assert_eq!(Milestone::Inferring.percent(), 20);
    assert_eq!(Milestone::Complete.percent(), 100);
}

#[test]
fn a_new_job_waits_for_its_path() {
    let job = start_transcription(SOURCE.to_string());
    assert_eq!(job.source, SOURCE);
    assert!(matches!(job.state, JobState::Submitted));
    assert!(!job.is_terminal());
}

#[test]
fn success_deletes_once_after_reporting_the_text() {
    let mut events = admitted(false);
    events.push(JobEvent::ModelLoaded(Ok(())));
    events.push(JobEvent::Transcribed(Ok("Bonjour".to_string())));
    events.push(JobEvent::SourceDeleted(true));
    let (job, actions) = run(events);

    assert!(matches!(job.state, JobState::Done { audio_deleted: true }));
    assert!(job.is_terminal());
    assert_eq!(deletes(&actions), 1);
    assert_eq!(percents(&actions), vec![0, 5, 10, 20, 100]);
    let names: Vec<String> = actions.iter().map(|a| format!("{:?}", a)).collect();
    assert_eq!(
        names,
        vec![
            "ProbeSource",
            "Accept",
            "Progress(Started)",
            "AcquireModel",
            "Progress(LoadingModel)",
            "LoadModel",
            "Progress(ModelReady)",
            "Progress(Inferring)",
            "Transcribe",
            "Progress(Complete)",
            "Complete(\"Bonjour\")",
            "DeleteSource",
        ]
    );
}

#[test]
fn a_loaded_model_is_not_loaded_again() {
    let (job, actions) = run(admitted(true));
    assert!(matches!(job.state, JobState::Transcribing));
    assert!(!actions.iter().any(|a| matches!(a, JobAction::LoadModel)));
    assert_eq!(percents(&actions), vec![0, 10, 20]);
}

#[test]
fn model_load_failure_deletes_once_and_reports_it() {
    let mut events = admitted(false);
    events.push(JobEvent::ModelLoaded(Err(AppError::ModelNotFound("absent".to_string()))));
    let (job, actions) = run(events);
    assert!(matches!(job.state, JobState::Cleaning { failure: Some(AppError::ModelNotFound(_)) }));
    assert_eq!(deletes(&actions), 1);
    assert!(matches!(actions.last(), Some(JobAction::DeleteSource)));

    let (job, actions) = job.advance(JobEvent::SourceDeleted(true));
    assert!(matches!(job.state, JobState::Done { audio_deleted: true }));
    assert_eq!(actions.len(), 1);
    match &actions[0] {
        JobAction::Fail { error: AppError::ModelNotFound(detail), audio_deleted } => {
            assert_eq!(detail, "absent");
            assert!(*audio_deleted);
        }
        other => panic!("Expected Fail, got {:?}", other),
    }
}

#[test]
fn validation_failure_deletes_once_and_reports_it() {
    let mut events = admitted(true);
    events.push(JobEvent::Transcribed(Err(AppError::InvalidAudioFormat("stereo".to_string()))));
    events.push(JobEvent::SourceDeleted(false));
    let (job, actions) = run(events);
    assert!(matches!(job.state, JobState::Done { audio_deleted: false }));
    assert_eq!(deletes(&actions), 1);
    assert_eq!(percents(&actions), vec![0, 10, 20]);
    match actions.last() {
        Some(JobAction::Fail { error: AppError::InvalidAudioFormat(_), audio_deleted }) => {
            assert!(!*audio_deleted)
        }
        other => panic!("Expected Fail, got {:?}", other),
    }
}

#[test]
fn inference_failure_deletes_once_and_reports_it() {
    let mut events = admitted(true);
    events.push(JobEvent::Transcribed(Err(AppError::TranscriptionFailed("engine".to_string()))));
    events.push(JobEvent::SourceDeleted(true));
    let (job, actions) = run(events);
    assert!(matches!(job.state, JobState::Done { audio_deleted: true }));
    assert_eq!(deletes(&actions), 1);
    assert!(matches!(
        actions.last(),
        Some(JobAction::Fail { error: AppError::TranscriptionFailed(_), audio_deleted: true })
    ));
}

#[test]
fn a_finished_job_ignores_further_events() {
    let mut events = admitted(true);
    events.push(JobEvent::Transcribed(Ok("fin".to_string())));
    events.push(JobEvent::SourceDeleted(true));
    events.push(JobEvent::SourceDeleted(false));
    events.push(JobEvent::Transcribed(Ok("encore".to_string())));
    events.push(resolved(SOURCE));
    let (job, actions) = run(events);
    assert!(matches!(job.state, JobState::Done { audio_deleted: true }));
    assert_eq!(deletes(&actions), 1);
    assert_eq!(actions.iter().filter(|a| matches!(a, JobAction::Complete(_))).count(), 1);
}

#[test]
fn events_out_of_turn_change_nothing() {
    let (job, actions) = run(vec![
        JobEvent::SourceDeleted(true),
        JobEvent::Transcribed(Ok("trop tôt".to_string())),
        JobEvent::ModelAcquired { loaded: true },
        JobEvent::SourceProbed { exists: true },
    ]);
    assert!(matches!(job.state, JobState::Submitted));
    assert!(actions.is_empty());
}

#[test]
fn a_path_outside_the_temp_dir_is_never_touched() {
    let (job, actions) = run(vec![
        resolved("/etc/passwd"),
        JobEvent::SourceProbed { exists: true },
        JobEvent::ModelAcquired { loaded: true },
        JobEvent::Transcribed(Ok("secret".to_string())),
        JobEvent::SourceDeleted(true),
    ]);
    assert!(matches!(job.state, JobState::Rejected));
    assert!(job.is_terminal());
    assert_eq!(actions.len(), 1);
    assert!(matches!(actions[0], JobAction::Reject(Rejection::OutsideTempDir)));
    assert!(!actions.iter().any(touches_source));
}

#[test]
fn a_sibling_directory_is_outside() {
    let (job, actions) = run(vec![resolved("/data/vocal-note-taker/temp-other/recording.wav")]);
    assert!(matches!(job.state, JobState::Rejected));
    assert!(matches!(actions[0], JobAction::Reject(Rejection::OutsideTempDir)));
    let (job, _) = run(vec![resolved("/data/vocal-note-taker/temp/sub/recording.wav")]);
    assert!(matches!(job.state, JobState::Probing));
}

#[test]
fn an_unresolvable_path_is_rejected() {
    let (job, actions) = run(vec![JobEvent::PathResolved {
        resolved: Err("No such file or directory (os error 2)".to_string()),
        temp_dir: TEMP.to_string(),
    }]);
    assert!(matches!(job.state, JobState::Rejected));
    match &actions[..] {
        [JobAction::Reject(Rejection::Unresolvable(reason))] => {
            assert_eq!(reason, "No such file or directory (os error 2)")
        }
        other => panic!("Expected one rejection, got {:?}", other),
    }
}

#[test]
fn a_missing_source_is_rejected_without_a_delete() {
    let (job, actions) = run(vec![resolved(SOURCE), JobEvent::SourceProbed { exists: false }]);
    assert!(matches!(job.state, JobState::Rejected));
    assert_eq!(deletes(&actions), 0);
    assert!(matches!(actions.last(), Some(JobAction::Reject(Rejection::Missing))));
    assert!(!actions.iter().any(|a| matches!(a, JobAction::Accept)));
}

#[test]
fn rejections_are_reported_as_failed_transcriptions() {
    let cases = vec![
        (
            Rejection::Unresolvable("denied".to_string()),
            "Invalid audio path: denied",
        ),
        (
            Rejection::OutsideTempDir,
            "Audio path must be within application temp directory",
        ),
        (Rejection::Missing, "Fichier audio introuvable: /tmp/x.wav"),
    ];
    for (rejection, expected) in cases {
        match rejection_error(&rejection, "/tmp/x.wav") {
            AppError::TranscriptionFailed(detail) => assert_eq!(detail, expected),
            other => panic!("Expected TranscriptionFailed, got {:?}", other),
        }
    }
}

#[test]
fn audio_path_must_lie_in_the_temp_dir() {
    assert!(validate_audio_path(&Ok(SOURCE.to_string()), TEMP).is_ok());
    assert!(validate_audio_path(&Ok(TEMP.to_string()), TEMP).is_ok());
    match validate_audio_path(&Ok("/data/vocal-note-taker/temporary/recording.wav".to_string()), TEMP) {
        Err(AppError::TranscriptionFailed(detail)) => {
            assert_eq!(detail, "Audio path must be within application temp directory")
        }
        other => panic!("Expected TranscriptionFailed, got {:?}", other),
    }
    assert!(validate_audio_path(&Ok("/data/vocal-note-taker".to_string()), TEMP).is_err());
    assert!(validate_audio_path(&Ok("relative/recording.wav".to_string()), TEMP).is_err());
    match validate_audio_path(&Err("No such file or directory (os error 2)".to_string()), TEMP) {
        Err(AppError::TranscriptionFailed(detail)) => {
            assert_eq!(detail, "Invalid audio path: No such file or directory (os error 2)")
        }
        other => panic!("Expected TranscriptionFailed, got {:?}", other),
    }
}
