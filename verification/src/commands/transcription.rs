//! The transcription job: what is decided between a request to transcribe a
//! recording and the deletion of that recording.
//!
//! The job is a state machine. Whoever runs it performs each action that
//! [`TranscriptionJob::advance`] returns and reports back what happened as the
//! next event. The job never touches the file system or the model itself.

use crate::bindings::{path_has_prefix, path_starts_with};
use crate::error::{spec_message, AppError, ErrorKind};
use vstd::prelude::*;
use vstd::string::StringExecFns;

verus! {

/// The fixed steps in which a job reports progress. The inference engine has
/// no progress callback, so these are stages, not a measure of work done.
#[derive(Clone, Copy, Debug, PartialEq, Eq, Structural)]
pub enum Milestone {
    Started,
    LoadingModel,
    ModelReady,
    Inferring,
    Complete,
}

impl Milestone {
    /// The percentage under which the milestone is reported.
    pub open spec fn spec_percent(self) -> int {
        match self {
            Milestone::Started => 0,
            Milestone::LoadingModel => 5,
            Milestone::ModelReady => 10,
            Milestone::Inferring => 20,
            Milestone::Complete => 100,
        }
    }

    /// The percentage under which the milestone is reported.
    pub fn percent(&self) -> (percent: i32)
        ensures
            percent == self.spec_percent(),
    {
        match self {
            Milestone::Started => 0,
            Milestone::LoadingModel => 5,
            Milestone::ModelReady => 10,
            Milestone::Inferring => 20,
            Milestone::Complete => 100,
        }
    }
}

/// Why a request was turned away before a job ran.
#[derive(Clone, Debug)]
pub enum Rejection {
    /// The source path cannot be resolved; the text says why.
    Unresolvable(String),
    /// The source path resolves to a place outside the private temp directory.
    OutsideTempDir,
    /// The source path is inside the temp directory but no file is there.
    Missing,
}

/// Where a job stands.
#[derive(Clone, Debug)]
pub enum JobState {
    /// Requested; the source path is not resolved yet.
    Submitted,
    /// The path is inside the temp directory; whether the file exists is being asked.
    Probing,
    /// Accepted; the job waits for the model's lock.
    Queued,
    /// The job holds the lock and the model is being loaded.
    LoadingModel,
    /// Validation and inference run.
    Transcribing,
    /// The outcome is known and the source is being deleted. `failure` is the
    /// error to report, or `None` after a success.
    Cleaning { failure: Option<AppError> },
    /// Finished. `audio_deleted` records whether the delete succeeded.
    Done { audio_deleted: bool },
    /// Turned away; nothing was done to the source.
    Rejected,
}

/// What happened outside, reported to the job.
#[derive(Debug)]
pub enum JobEvent {
    /// The source path was resolved (symbolic links and relative parts
    /// followed), or could not be; `temp_dir` is the resolved temp directory.
    PathResolved { resolved: Result<String, String>, temp_dir: String },
    /// Whether a file exists at the source path.
    SourceProbed { exists: bool },
    /// The job holds the model's lock; `loaded` says whether a model is in memory.
    ModelAcquired { loaded: bool },
    /// The model was loaded, or could not be.
    ModelLoaded(Result<(), AppError>),
    /// Validation and inference ended with a text or an error.
    Transcribed(Result<String, AppError>),
    /// The source file was deleted, or the delete failed.
    SourceDeleted(bool),
}

/// What the job asks to be done next.
#[derive(Clone, Debug)]
pub enum JobAction {
    /// Ask whether a file exists at the source path.
    ProbeSource,
    /// Tell the initiator that the job was accepted.
    Accept,
    /// Tell the initiator that the request was turned away.
    Reject(Rejection),
    /// Report a progress milestone.
    Progress(Milestone),
    /// Wait for the model's lock.
    AcquireModel,
    /// Load the model from its file.
    LoadModel,
    /// Validate the source and run inference on it.
    Transcribe,
    /// Delete the source file and report whether that succeeded.
    DeleteSource,
    /// Report the transcribed text.
    Complete(String),
    /// Report the failure, and whether the source was deleted.
    Fail { error: AppError, audio_deleted: bool },
}

impl JobAction {
    /// Whether the action reads, writes or deletes the source file.
    pub open spec fn touches_source(self) -> bool {
        self is ProbeSource || self is Transcribe || self is DeleteSource
    }
}

/// The next state and the actions to perform when `event` is reported in
/// `state`. An event that the state does not wait for changes nothing.
pub open spec fn spec_step(state: JobState, event: JobEvent) -> (JobState, Seq<JobAction>) {
    match (state, event) {
        (JobState::Submitted, JobEvent::PathResolved { resolved: Err(reason), temp_dir }) => (
            JobState::Rejected,
            seq![JobAction::Reject(Rejection::Unresolvable(reason))],
        ),
        (JobState::Submitted, JobEvent::PathResolved { resolved: Ok(path), temp_dir }) => {
            if path_has_prefix(path@, temp_dir@) {
                (JobState::Probing, seq![JobAction::ProbeSource])
            } else {
                (JobState::Rejected, seq![JobAction::Reject(Rejection::OutsideTempDir)])
            }
        },
        (JobState::Probing, JobEvent::SourceProbed { exists }) => {
            if exists {
                (
                    JobState::Queued,
                    seq![
                        JobAction::Accept,
                        JobAction::Progress(Milestone::Started),
                        JobAction::AcquireModel,
                    ],
                )
            } else {
                (JobState::Rejected, seq![JobAction::Reject(Rejection::Missing)])
            }
        },
        (JobState::Queued, JobEvent::ModelAcquired { loaded }) => {
            if loaded {
                (
                    JobState::Transcribing,
                    seq![
                        JobAction::Progress(Milestone::ModelReady),
                        JobAction::Progress(Milestone::Inferring),
                        JobAction::Transcribe,
                    ],
                )
            } else {
                (
                    JobState::LoadingModel,
                    seq![JobAction::Progress(Milestone::LoadingModel), JobAction::LoadModel],
                )
            }
        },
        (JobState::LoadingModel, JobEvent::ModelLoaded(Ok(_))) => (
            JobState::Transcribing,
            seq![
                JobAction::Progress(Milestone::ModelReady),
                JobAction::Progress(Milestone::Inferring),
                JobAction::Transcribe,
            ],
        ),
        (JobState::LoadingModel, JobEvent::ModelLoaded(Err(error))) => (
            JobState::Cleaning { failure: Some(error) },
            seq![JobAction::DeleteSource],
        ),
        (JobState::Transcribing, JobEvent::Transcribed(Ok(text))) => (
            JobState::Cleaning { failure: None },
            seq![
                JobAction::Progress(Milestone::Complete),
                JobAction::Complete(text),
                JobAction::DeleteSource,
            ],
        ),
        (JobState::Transcribing, JobEvent::Transcribed(Err(error))) => (
            JobState::Cleaning { failure: Some(error) },
            seq![JobAction::DeleteSource],
        ),
        (JobState::Cleaning { failure: Some(error) }, JobEvent::SourceDeleted(deleted)) => (
            JobState::Done { audio_deleted: deleted },
            seq![JobAction::Fail { error, audio_deleted: deleted }],
        ),
        (JobState::Cleaning { failure: None }, JobEvent::SourceDeleted(deleted)) => (
            JobState::Done { audio_deleted: deleted },
            Seq::<JobAction>::empty(),
        ),
        (state, _) => (state, Seq::<JobAction>::empty()),
    }
}

/// The state reached and all the actions asked for, in order, when `events`
/// are reported one after the other starting in `state`.
pub open spec fn spec_run(state: JobState, events: Seq<JobEvent>) -> (JobState, Seq<JobAction>)
    decreases events.len(),
{
    if events.len() == 0 {
        (state, Seq::<JobAction>::empty())
    } else {
        let (next, first) = spec_step(state, events[0]);
        let (last, rest) = spec_run(next, events.drop_first());
        (last, first + rest)
    }
}

/// How many of `actions` ask for the source to be deleted.
pub open spec fn delete_count(actions: Seq<JobAction>) -> nat
    decreases actions.len(),
{
    if actions.len() == 0 {
        0
    } else {
        delete_count(actions.drop_last()) + if actions.last() is DeleteSource {
            1nat
        } else {
            0nat
        }
    }
}

/// How many of `actions` report the outcome of the job: the text, or the
/// failure.
pub open spec fn report_count(actions: Seq<JobAction>) -> nat
    decreases actions.len(),
{
    if actions.len() == 0 {
        0
    } else {
        report_count(actions.drop_last()) + if actions.last() is Complete
            || actions.last() is Fail {
            1nat
        } else {
            0nat
        }
    }
}

/// The percentages of the progress reports among `actions`, in order.
pub open spec fn progress_reports(actions: Seq<JobAction>) -> Seq<int>
    decreases actions.len(),
{
    if actions.len() == 0 {
        Seq::<int>::empty()
    } else {
        match actions.last() {
            JobAction::Progress(milestone) => progress_reports(actions.drop_last()).push(
                milestone.spec_percent(),
            ),
            _ => progress_reports(actions.drop_last()),
        }
    }
}

/// A transcription request and where it stands.
#[derive(Clone, Debug)]
pub struct TranscriptionJob {
    /// The path of the recording, as the initiator gave it.
    pub source: String,
    /// Where the job stands.
    pub state: JobState,
}

/// Takes a request to transcribe the recording at `audio_path`. Nothing has
/// been checked yet: the job waits for the path to be resolved.
pub fn start_transcription(audio_path: String) -> (job: TranscriptionJob)
    ensures
        job.source == audio_path,
        job.state == JobState::Submitted,
{
    TranscriptionJob { source: audio_path, state: JobState::Submitted }
}

impl TranscriptionJob {
    /// Whether the job has ended, by rejection or after its cleanup.
    pub open spec fn spec_is_terminal(self) -> bool {
        self.state is Done || self.state is Rejected
    }

    /// Whether the job has ended, by rejection or after its cleanup.
    pub fn is_terminal(&self) -> (ended: bool)
        ensures
            ended == self.spec_is_terminal(),
    {
        match self.state {
            JobState::Done { .. } => true,
            JobState::Rejected => true,
            _ => false,
        }
    }

    /// Takes note of `event` and returns the job in its next state together
    /// with the actions to perform, in order. An event that the job does not
    /// wait for changes nothing and asks for nothing.
    pub fn advance(self, event: JobEvent) -> (next: (TranscriptionJob, Vec<JobAction>))
        ensures
            next.0.source == self.source,
            (next.0.state, next.1@) == spec_step(self.state, event),
    {
        let TranscriptionJob { source, state } = self;
        let mut actions: Vec<JobAction> = Vec::new();
        let state = match (state, event) {
            (JobState::Submitted, JobEvent::PathResolved { resolved: Err(reason), temp_dir }) => {
                actions.push(JobAction::Reject(Rejection::Unresolvable(reason)));
                JobState::Rejected
            },
            (JobState::Submitted, JobEvent::PathResolved { resolved: Ok(path), temp_dir }) => {
                if path_starts_with(path.as_str(), temp_dir.as_str()) {
                    actions.push(JobAction::ProbeSource);
                    JobState::Probing
                } else {
                    actions.push(JobAction::Reject(Rejection::OutsideTempDir));
                    JobState::Rejected
                }
            },
            (JobState::Probing, JobEvent::SourceProbed { exists }) => {
                if exists {
                    actions.push(JobAction::Accept);
                    actions.push(JobAction::Progress(Milestone::Started));
                    actions.push(JobAction::AcquireModel);
                    JobState::Queued
                } else {
                    actions.push(JobAction::Reject(Rejection::Missing));
                    JobState::Rejected
                }
            },
            (JobState::Queued, JobEvent::ModelAcquired { loaded }) => {
                if loaded {
                    actions.push(JobAction::Progress(Milestone::ModelReady));
                    actions.push(JobAction::Progress(Milestone::Inferring));
                    actions.push(JobAction::Transcribe);
                    JobState::Transcribing
                } else {
                    actions.push(JobAction::Progress(Milestone::LoadingModel));
                    actions.push(JobAction::LoadModel);
                    JobState::LoadingModel
                }
            },
            (JobState::LoadingModel, JobEvent::ModelLoaded(Ok(_))) => {
                actions.push(JobAction::Progress(Milestone::ModelReady));
                actions.push(JobAction::Progress(Milestone::Inferring));
                actions.push(JobAction::Transcribe);
                JobState::Transcribing
            },
            (JobState::LoadingModel, JobEvent::ModelLoaded(Err(error))) => {
                actions.push(JobAction::DeleteSource);
                JobState::Cleaning { failure: Some(error) }
            },
            (JobState::Transcribing, JobEvent::Transcribed(Ok(text))) => {
                actions.push(JobAction::Progress(Milestone::Complete));
                actions.push(JobAction::Complete(text));
                actions.push(JobAction::DeleteSource);
                JobState::Cleaning { failure: None }
            },
            (JobState::Transcribing, JobEvent::Transcribed(Err(error))) => {
                actions.push(JobAction::DeleteSource);
                JobState::Cleaning { failure: Some(error) }
            },
            (JobState::Cleaning { failure: Some(error) }, JobEvent::SourceDeleted(deleted)) => {
                actions.push(JobAction::Fail { error, audio_deleted: deleted });
                JobState::Done { audio_deleted: deleted }
            },
            (JobState::Cleaning { failure: None }, JobEvent::SourceDeleted(deleted)) => {
                JobState::Done { audio_deleted: deleted }
            },
            (state, _) => state,
        };
        assert(actions@ =~= spec_step(self.state, event).1);
        (TranscriptionJob { source, state }, actions)
    }
}

/// The detail of the error that reports `rejection` for the request on
/// `audio_path`.
pub open spec fn rejection_detail(rejection: Rejection, audio_path: Seq<char>) -> Seq<char> {
    match rejection {
        Rejection::Unresolvable(reason) => "Invalid audio path: "@ + reason@,
        Rejection::OutsideTempDir => "Audio path must be within application temp directory"@,
        Rejection::Missing => "Fichier audio introuvable: "@ + audio_path,
    }
}

/// The error that tells the initiator why the request on `audio_path` was
/// turned away.
pub fn rejection_error(rejection: &Rejection, audio_path: &str) -> (error: AppError)
    ensures
        error.spec_kind() == ErrorKind::TranscriptionFailed,
        error.detail() == rejection_detail(*rejection, audio_path@),
{
    match rejection {
        Rejection::Unresolvable(reason) => AppError::TranscriptionFailed(
            String::from_str("Invalid audio path: ").concat(reason.as_str()),
        ),
        Rejection::OutsideTempDir => AppError::TranscriptionFailed(
            String::from_str("Audio path must be within application temp directory"),
        ),
        Rejection::Missing => AppError::TranscriptionFailed(
            String::from_str("Fichier audio introuvable: ").concat(audio_path),
        ),
    }
}

/// Checks that a source path, once resolved, lies inside the resolved temp
/// directory. `resolved` is the outcome of the resolution: the path, or the
/// reason why it has none.
pub fn validate_audio_path(resolved: &Result<String, String>, temp_dir: &str) -> (checked: Result<
    (),
    AppError,
>)
    ensures
        checked is Ok <==> (*resolved matches Ok(path) && path_has_prefix(path@, temp_dir@)),
        checked matches Err(error) ==> error.spec_kind() == ErrorKind::TranscriptionFailed
            && error.detail() == rejection_detail(
            match *resolved {
                Ok(_) => Rejection::OutsideTempDir,
                Err(reason) => Rejection::Unresolvable(reason),
            },
            Seq::<char>::empty(),
        ),
{
    match resolved {
        Ok(path) => {
            if path_starts_with(path.as_str(), temp_dir) {
                Ok(())
            } else {
                Err(rejection_error(&Rejection::OutsideTempDir, ""))
            }
        },
        Err(reason) => Err(rejection_error(&Rejection::Unresolvable(reason.clone()), "")),
    }
}

/// What the event sink is told when a job fails.
#[derive(Clone, Debug)]
pub struct ErrorPayload {
    /// The name of the error's kind.
    pub error_type: String,
    /// The error's message.
    pub message: String,
    /// Whether the source recording was deleted.
    pub audio_deleted: bool,
}

/// The report of `error` for the event sink, with the outcome of the cleanup.
pub fn error_payload(error: &AppError, audio_deleted: bool) -> (payload: ErrorPayload)
    ensures
        payload.error_type@ == error.spec_kind().spec_name(),
        payload.message@ == spec_message(error.spec_kind(), error.detail()),
        payload.audio_deleted == audio_deleted,
{
    ErrorPayload {
        error_type: String::from_str(error.kind().name()),
        message: error.message(),
        audio_deleted,
    }
}

/// Whether `event` reports a source path that was resolved and lies inside
/// the temp directory.
pub open spec fn admits(event: JobEvent) -> bool {
    event matches JobEvent::PathResolved { resolved: Ok(path), temp_dir } && path_has_prefix(
        path@,
        temp_dir@,
    )
}

/// How many deletes of the source a job in `state` has asked for so far.
pub open spec fn deletes_asked(state: JobState) -> nat {
    if state is Cleaning || state is Done {
        1
    } else {
        0
    }
}

/// The highest percentage that a job in `state` can have reported so far.
pub open spec fn progress_bound(state: JobState) -> int {
    match state {
        JobState::Submitted | JobState::Probing => -1,
        JobState::Queued => 0,
        JobState::LoadingModel => 5,
        JobState::Transcribing => 20,
        _ => 100,
    }
}

/// Whether each entry of `reports` is greater than the one before it.
pub open spec fn strictly_increasing(reports: Seq<int>) -> bool {
    forall|i: int, j: int| 0 <= i < j < reports.len() ==> reports[i] < reports[j]
}

proof fn lemma_delete_count_add(a: Seq<JobAction>, b: Seq<JobAction>)
    ensures
        delete_count(a + b) == delete_count(a) + delete_count(b),
    decreases b.len(),
{
    if b.len() == 0 {
        assert(a + b =~= a);
    } else {
        assert((a + b).drop_last() =~= a + b.drop_last());
        lemma_delete_count_add(a, b.drop_last());
    }
}

proof fn lemma_report_count_add(a: Seq<JobAction>, b: Seq<JobAction>)
    ensures
        report_count(a + b) == report_count(a) + report_count(b),
    decreases b.len(),
{
    if b.len() == 0 {
        assert(a + b =~= a);
    } else {
        assert((a + b).drop_last() =~= a + b.drop_last());
        lemma_report_count_add(a, b.drop_last());
    }
}

proof fn lemma_progress_reports_add(a: Seq<JobAction>, b: Seq<JobAction>)
    ensures
        progress_reports(a + b) == progress_reports(a) + progress_reports(b),
    decreases b.len(),
{
    if b.len() == 0 {
        assert(a + b =~= a);
        assert(progress_reports(a) + progress_reports(b) =~= progress_reports(a));
    } else {
        assert((a + b).drop_last() =~= a + b.drop_last());
        lemma_progress_reports_add(a, b.drop_last());
        assert(progress_reports(a + b) =~= progress_reports(a) + progress_reports(b));
    }
}

proof fn lemma_ended_job_stays(state: JobState, events: Seq<JobEvent>)
    requires
        state is Done || state is Rejected,
    ensures
        spec_run(state, events).0 == state,
        spec_run(state, events).1 == Seq::<JobAction>::empty(),
    decreases events.len(),
{
    if events.len() > 0 {
        lemma_ended_job_stays(state, events.drop_first());
        assert(spec_run(state, events).1 =~= Seq::<JobAction>::empty());
    }
}

proof fn lemma_deletes_from(state: JobState, events: Seq<JobEvent>)
    ensures
        deletes_asked(state) + delete_count(spec_run(state, events).1) == deletes_asked(
            spec_run(state, events).0,
        ),
    decreases events.len(),
{
    reveal_with_fuel(delete_count, 4);
    if events.len() > 0 {
        let (next, first) = spec_step(state, events[0]);
        assert(deletes_asked(state) + delete_count(first) == deletes_asked(next));
        lemma_deletes_from(next, events.drop_first());
        lemma_delete_count_add(first, spec_run(next, events.drop_first()).1);
    }
}

/// A job asks for its source to be deleted at most once, and exactly once
/// when it ends after being accepted: after a success, after a failure to
/// load the model, after a failed validation and after a failed inference
/// alike. A request that is turned away never asks for it.
pub proof fn lemma_one_delete_per_job(events: Seq<JobEvent>)
    ensures
        ({
            let (end, actions) = spec_run(JobState::Submitted, events);
            &&& delete_count(actions) <= 1
            &&& (end is Done || end is Cleaning <==> delete_count(actions) == 1)
        }),
{
    lemma_deletes_from(JobState::Submitted, events);
}

/// How many reports of its outcome a job in `state` has asked for so far.
pub open spec fn reports_asked(state: JobState) -> nat {
    match state {
        JobState::Cleaning { failure: None } => 1,
        JobState::Done { .. } => 1,
        _ => 0,
    }
}

proof fn lemma_reports_from(state: JobState, events: Seq<JobEvent>)
    ensures
        reports_asked(state) + report_count(spec_run(state, events).1) == reports_asked(
            spec_run(state, events).0,
        ),
    decreases events.len(),
{
    reveal_with_fuel(report_count, 4);
    if events.len() > 0 {
        let (next, first) = spec_step(state, events[0]);
        assert(reports_asked(state) + report_count(first) == reports_asked(next));
        lemma_reports_from(next, events.drop_first());
        lemma_report_count_add(first, spec_run(next, events.drop_first()).1);
    }
}

/// A job reports its outcome at most once, and exactly once when it has
/// ended after being accepted: either the text or the failure, never both.
/// In particular a delete that fails after a success adds no failure: the
/// outcome of the cleanup never changes the outcome of the job.
pub proof fn lemma_one_report_per_job(events: Seq<JobEvent>)
    ensures
        ({
            let (end, actions) = spec_run(JobState::Submitted, events);
            &&& report_count(actions) <= 1
            &&& (end is Done ==> report_count(actions) == 1)
        }),
{
    lemma_reports_from(JobState::Submitted, events);
}

proof fn lemma_failures_from(state: JobState, events: Seq<JobEvent>)
    ensures
        ({
            let (end, actions) = spec_run(state, events);
            forall|i: int|
                0 <= i < actions.len() && #[trigger] actions[i] is Fail ==> end == (
                JobState::Done { audio_deleted: actions[i]->audio_deleted })
        }),
    decreases events.len(),
{
    if events.len() > 0 {
        let (next, first) = spec_step(state, events[0]);
        let (end, rest) = spec_run(next, events.drop_first());
        lemma_failures_from(next, events.drop_first());
        if next is Done {
            lemma_ended_job_stays(next, events.drop_first());
        }
        assert forall|i: int| 0 <= i < (first + rest).len() && #[trigger] (first + rest)[i] is Fail
            implies end == (JobState::Done { audio_deleted: (first + rest)[i]->audio_deleted }) by {
            if i >= first.len() {
                assert((first + rest)[i] == rest[i - first.len()]);
            }
        }
    }
}

/// Whenever a job reports a failure, the report says whether the source was
/// deleted: its flag is the outcome of the one delete, which the job records
/// as it ends.
pub proof fn lemma_failure_reports_deletion(events: Seq<JobEvent>)
    ensures
        ({
            let (end, actions) = spec_run(JobState::Submitted, events);
            forall|i: int|
                0 <= i < actions.len() && #[trigger] actions[i] is Fail ==> end == (
                JobState::Done { audio_deleted: actions[i]->audio_deleted })
        }),
{
    lemma_failures_from(JobState::Submitted, events);
}

proof fn lemma_unadmitted_from(state: JobState, events: Seq<JobEvent>)
    requires
        state is Submitted || state is Rejected,
        forall|k: int| 0 <= k < events.len() ==> !admits(#[trigger] events[k]),
    ensures
        ({
            let (end, actions) = spec_run(state, events);
            &&& end is Submitted || end is Rejected
            &&& forall|i: int| 0 <= i < actions.len() ==> !(#[trigger] actions[i]).touches_source()
        }),
    decreases events.len(),
{
    if events.len() > 0 {
        let (next, first) = spec_step(state, events[0]);
        let (end, rest) = spec_run(next, events.drop_first());
        assert(!admits(events[0]));
        assert forall|k: int| 0 <= k < events.drop_first().len() implies !admits(
            #[trigger] events.drop_first()[k],
        ) by {
            assert(events.drop_first()[k] == events[k + 1]);
        }
        lemma_unadmitted_from(next, events.drop_first());
        assert forall|i: int| 0 <= i < (first + rest).len() implies !(#[trigger] (first
            + rest)[i]).touches_source() by {
            if i >= first.len() {
                assert((first + rest)[i] == rest[i - first.len()]);
            }
        }
    }
}

/// A source path that cannot be resolved, or that resolves to a place outside
/// the private temp directory, is never touched: as long as no resolved path
/// inside the temp directory has been reported, the job asks for no action
/// that reads, probes or deletes the source, whatever else is reported to it.
pub proof fn lemma_no_access_without_admission(events: Seq<JobEvent>)
    requires
        forall|k: int| 0 <= k < events.len() ==> !admits(#[trigger] events[k]),
    ensures
        ({
            let (end, actions) = spec_run(JobState::Submitted, events);
            &&& end is Submitted || end is Rejected
            &&& forall|i: int| 0 <= i < actions.len() ==> !(#[trigger] actions[i]).touches_source()
        }),
{
    lemma_unadmitted_from(JobState::Submitted, events);
}

proof fn lemma_step_progress(state: JobState, event: JobEvent)
    ensures
        ({
            let (next, actions) = spec_step(state, event);
            let reports = progress_reports(actions);
            &&& strictly_increasing(reports)
            &&& progress_bound(state) <= progress_bound(next)
            &&& forall|i: int|
                0 <= i < reports.len() ==> progress_bound(state) < #[trigger] reports[i]
                    <= progress_bound(next)
        }),
{
    reveal_with_fuel(progress_reports, 4);
}

proof fn lemma_progress_from(state: JobState, events: Seq<JobEvent>)
    ensures
        ({
            let (end, actions) = spec_run(state, events);
            let reports = progress_reports(actions);
            &&& strictly_increasing(reports)
            &&& progress_bound(state) <= progress_bound(end)
            &&& forall|i: int|
                0 <= i < reports.len() ==> progress_bound(state) < #[trigger] reports[i]
                    <= progress_bound(end)
        }),
    decreases events.len(),
{
    if events.len() > 0 {
        let (next, first) = spec_step(state, events[0]);
        let (end, rest) = spec_run(next, events.drop_first());
        let head = progress_reports(first);
        let tail = progress_reports(rest);
        lemma_step_progress(state, events[0]);
        lemma_progress_from(next, events.drop_first());
        lemma_progress_reports_add(first, rest);
        assert(progress_reports(spec_run(state, events).1) == head + tail);
        assert forall|i: int| 0 <= i < (head + tail).len() implies progress_bound(state) < #[trigger] (
        head + tail)[i] <= progress_bound(end) by {
            if i < head.len() {
                assert((head + tail)[i] == head[i]);
            } else {
                assert((head + tail)[i] == tail[i - head.len()]);
            }
        }
        assert forall|i: int, j: int| 0 <= i < j < (head + tail).len() implies (head + tail)[i] < (
        head + tail)[j] by {
            if j < head.len() {
                assert((head + tail)[i] == head[i] && (head + tail)[j] == head[j]);
            } else if i < head.len() {
                assert((head + tail)[i] == head[i]);
                assert((head + tail)[j] == tail[j - head.len()]);
            } else {
                assert((head + tail)[i] == tail[i - head.len()]);
                assert((head + tail)[j] == tail[j - head.len()]);
            }
        }
    }
}

/// The progress that a job reports only grows: each percentage is greater
/// than every one reported before it, and each is one of 0, 5, 10, 20, 100.
pub proof fn lemma_progress_increases(events: Seq<JobEvent>)
    ensures
        ({
            let reports = progress_reports(spec_run(JobState::Submitted, events).1);
            &&& strictly_increasing(reports)
            &&& forall|i: int| 0 <= i < reports.len() ==> 0 <= #[trigger] reports[i] <= 100
        }),
{
    lemma_progress_from(JobState::Submitted, events);
}

} // verus!
