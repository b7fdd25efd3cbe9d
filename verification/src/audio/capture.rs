//! Capture: which stream configuration is asked of the input device, what the
//! capture thread does with each batch of samples, and how its outcomes are
//! reported.
//!
//! The device, its stream and the thread that owns them live outside this
//! library. A sample is whatever the device delivers; the functions here are
//! generic in its type and only move samples around.

use crate::error::AppError;
use vstd::prelude::*;

verus! {

/// The sample rate that the transcription engine expects, in hertz.
pub const DEFAULT_SAMPLE_RATE: u32 = 16000;

/// The channel count that the transcription engine expects.
pub const DEFAULT_CHANNELS: u16 = 1;

/// One sample out of this many goes to the waveform preview.
pub const WAVEFORM_DOWNSAMPLE_RATIO: usize = 100;

/// One of the configurations that an input device supports: a channel count
/// and a range of sample rates.
#[derive(Clone, Copy, Debug, PartialEq, Eq, Structural)]
pub struct SupportedConfigRange {
    pub channels: u16,
    pub min_sample_rate: u32,
    pub max_sample_rate: u32,
}

/// The configuration with which a stream is opened.
#[derive(Clone, Copy, Debug, PartialEq, Eq, Structural)]
pub struct StreamConfig {
    pub channels: u16,
    pub sample_rate: u32,
}

impl SupportedConfigRange {
    /// Whether the range covers the default sample rate with at least the
    /// default channel count.
    pub open spec fn spec_supports_default(self) -> bool {
        self.min_sample_rate <= DEFAULT_SAMPLE_RATE <= self.max_sample_rate && self.channels
            >= DEFAULT_CHANNELS
    }

    /// Whether the range covers the default sample rate with at least the
    /// default channel count.
    pub fn supports_default(&self) -> (supported: bool)
        ensures
            supported == self.spec_supports_default(),
    {
        self.min_sample_rate <= DEFAULT_SAMPLE_RATE && self.max_sample_rate >= DEFAULT_SAMPLE_RATE
            && self.channels >= DEFAULT_CHANNELS
    }
}

/// The stream configuration for the default channel count at `sample_rate`.
pub open spec fn mono_config(sample_rate: u32) -> StreamConfig {
    StreamConfig { channels: DEFAULT_CHANNELS, sample_rate }
}

/// Whether one of `ranges` supports the default configuration.
pub open spec fn default_is_supported(ranges: Seq<SupportedConfigRange>) -> bool {
    exists|i: int| 0 <= i < ranges.len() && (#[trigger] ranges[i]).spec_supports_default()
}

/// Says whether an input device was found: the lookup of the default input
/// device failed if there is none.
pub fn get_default_input_device(found: bool) -> (device: Result<(), AppError>)
    ensures
        found ==> device is Ok,
        !found ==> device == Err::<(), AppError>(AppError::MicrophoneNotFound),
{
    if found {
        Ok(())
    } else {
        Err(AppError::MicrophoneNotFound)
    }
}

/// The default configuration, if one of `ranges` supports it; the first such
/// range decides.
pub fn preferred_config(ranges: &[SupportedConfigRange]) -> (config: Option<StreamConfig>)
    ensures
        config == if default_is_supported(ranges@) {
            Some(mono_config(DEFAULT_SAMPLE_RATE))
        } else {
            None
        },
{
    let mut i: usize = 0;
    while i < ranges.len()
        invariant
            i <= ranges.len(),
            forall|k: int| 0 <= k < i ==> !(#[trigger] ranges@[k]).spec_supports_default(),
        decreases ranges.len() - i,
    {
        if ranges[i].supports_default() {
            return Some(
                StreamConfig { channels: DEFAULT_CHANNELS, sample_rate: DEFAULT_SAMPLE_RATE },
            );
        }
        i += 1;
    }
    None
}

/// Chooses the stream configuration from what the device supports. `ranges`
/// is `None` where the device refused to list its configurations.
///
/// The default configuration is preferred: exactly 16 kHz, one channel. If no
/// range supports it the answer is `Ok(None)`: the device's own default
/// configuration has to be asked for, and [`fallback_config`] decides on it.
pub fn get_supported_config(ranges: &Option<Vec<SupportedConfigRange>>) -> (choice: Result<
    Option<StreamConfig>,
    AppError,
>)
    ensures
        match *ranges {
            None => choice == Err::<Option<StreamConfig>, AppError>(
                AppError::MicrophoneAccessDenied,
            ),
            Some(list) => choice == Ok::<Option<StreamConfig>, AppError>(
                if default_is_supported(list@) {
                    Some(mono_config(DEFAULT_SAMPLE_RATE))
                } else {
                    None
                },
            ),
        },
{
    match ranges {
        None => Err(AppError::MicrophoneAccessDenied),
        Some(list) => Ok(preferred_config(list.as_slice())),
    }
}

/// The configuration to use when the device does not support the default one:
/// the default channel count at the sample rate of the device's own default
/// configuration. `default_sample_rate` is `None` where the device has no
/// default configuration to offer.
pub fn fallback_config(default_sample_rate: Option<u32>) -> (config: Result<StreamConfig, AppError>)
    ensures
        match default_sample_rate {
            Some(rate) => config == Ok::<StreamConfig, AppError>(mono_config(rate)),
            None => config == Err::<StreamConfig, AppError>(AppError::MicrophoneAccessDenied),
        },
{
    match default_sample_rate {
        Some(rate) => Ok(StreamConfig { channels: DEFAULT_CHANNELS, sample_rate: rate }),
        None => Err(AppError::MicrophoneAccessDenied),
    }
}

/// Why the capture thread could not bring its stream up.
#[derive(Clone, Copy, Debug, PartialEq, Eq, Structural)]
pub enum StreamFailure {
    /// The device is gone.
    DeviceNotAvailable,
    /// The device refuses the configuration.
    StreamConfigNotSupported,
    /// The stream could not be built for another reason.
    BuildFailed,
    /// The stream was built but did not start.
    PlayFailed,
}

impl StreamFailure {
    /// The error under which the failure is reported.
    pub open spec fn spec_error(self) -> AppError {
        match self {
            StreamFailure::DeviceNotAvailable => AppError::MicrophoneNotFound,
            StreamFailure::StreamConfigNotSupported => AppError::MicrophoneAccessDenied,
            StreamFailure::BuildFailed => AppError::RecordingInterrupted,
            StreamFailure::PlayFailed => AppError::RecordingInterrupted,
        }
    }

    /// The error under which the failure is reported.
    pub fn error(&self) -> (error: AppError)
        ensures
            error == self.spec_error(),
    {
        match self {
            StreamFailure::DeviceNotAvailable => AppError::MicrophoneNotFound,
            StreamFailure::StreamConfigNotSupported => AppError::MicrophoneAccessDenied,
            StreamFailure::BuildFailed => AppError::RecordingInterrupted,
            StreamFailure::PlayFailed => AppError::RecordingInterrupted,
        }
    }
}

/// The handle to a running capture: what is needed to stop it and to label
/// what it captured.
#[derive(Clone, Copy, Debug, PartialEq, Eq, Structural)]
pub struct RecordingHandle {
    /// The sample rate that was negotiated with the device.
    pub sample_rate: u32,
}

/// What a capture leaves behind when it is stopped.
#[derive(Debug)]
pub struct RecordingResult<T> {
    /// Every sample that was captured, in order.
    pub samples: Vec<T>,
    /// The sample rate at which they were captured.
    pub sample_rate: u32,
}

/// What the caller of a start gets once the capture thread has answered.
/// `acknowledgement` is what the thread sent after trying to start its stream
/// with `config`, or `None` if the thread ended without sending anything.
pub fn start_recording(
    config: StreamConfig,
    acknowledgement: Option<Result<(), StreamFailure>>,
) -> (started: Result<RecordingHandle, AppError>)
    ensures
        match acknowledgement {
            Some(Ok(_)) => started == Ok::<RecordingHandle, AppError>(
                RecordingHandle { sample_rate: config.sample_rate },
            ),
            Some(Err(failure)) => started == Err::<RecordingHandle, AppError>(
                failure.spec_error(),
            ),
            None => started == Err::<RecordingHandle, AppError>(AppError::RecordingInterrupted),
        },
{
    match acknowledgement {
        Some(Ok(_)) => Ok(RecordingHandle { sample_rate: config.sample_rate }),
        Some(Err(failure)) => Err(failure.error()),
        None => Err(AppError::RecordingInterrupted),
    }
}

/// Where the start of a capture stands. Each step needs the outcome of the
/// one before it, so a failure surfaces before anything further is tried: in
/// particular no thread is spawned for a device that is missing or that
/// offers no configuration.
#[derive(Clone, Copy, Debug, PartialEq, Eq, Structural)]
pub enum StartupState {
    /// The default input device is being looked up.
    FindingDevice,
    /// The device is being asked for the configurations it supports.
    ListingConfigs,
    /// The device is being asked for its own default configuration.
    AskingDefault,
    /// The capture thread was spawned and has not answered yet.
    AwaitingAck(StreamConfig),
    /// The capture runs.
    Running(RecordingHandle),
    /// The start failed.
    Failed,
}

/// What happened outside while a capture was being started.
#[derive(Debug)]
pub enum StartupEvent {
    /// The default input device was looked up.
    DeviceLookedUp { found: bool },
    /// The device listed its configurations, or refused to.
    ConfigsListed(Option<Vec<SupportedConfigRange>>),
    /// The device named the sample rate of its default configuration, or has none.
    DefaultRate(Option<u32>),
    /// The capture thread answered, or ended without answering.
    Acknowledged(Option<Result<(), StreamFailure>>),
}

/// What is to be done next to start a capture.
#[derive(Debug)]
pub enum StartupAction {
    /// Nothing: the event was not one that the start waits for.
    Nothing,
    /// Ask the device for the configurations it supports.
    ListConfigs,
    /// Ask the device for its default configuration.
    AskDefault,
    /// Spawn the capture thread with this configuration and wait for its answer.
    Spawn(StreamConfig),
    /// The capture runs: hand the handle out.
    Ready(RecordingHandle),
    /// The start failed: report the error.
    Fail(AppError),
}

/// The next state of a start and what to do, when `event` is reported in
/// `state`.
pub open spec fn spec_startup_step(state: StartupState, event: StartupEvent) -> (
    StartupState,
    StartupAction,
) {
    match (state, event) {
        (StartupState::FindingDevice, StartupEvent::DeviceLookedUp { found }) => if found {
            (StartupState::ListingConfigs, StartupAction::ListConfigs)
        } else {
            (StartupState::Failed, StartupAction::Fail(AppError::MicrophoneNotFound))
        },
        (StartupState::ListingConfigs, StartupEvent::ConfigsListed(None)) => (
            StartupState::Failed,
            StartupAction::Fail(AppError::MicrophoneAccessDenied),
        ),
        (StartupState::ListingConfigs, StartupEvent::ConfigsListed(Some(ranges))) => if default_is_supported(
            ranges@,
        ) {
            (
                StartupState::AwaitingAck(mono_config(DEFAULT_SAMPLE_RATE)),
                StartupAction::Spawn(mono_config(DEFAULT_SAMPLE_RATE)),
            )
        } else {
            (StartupState::AskingDefault, StartupAction::AskDefault)
        },
        (StartupState::AskingDefault, StartupEvent::DefaultRate(None)) => (
            StartupState::Failed,
            StartupAction::Fail(AppError::MicrophoneAccessDenied),
        ),
        (StartupState::AskingDefault, StartupEvent::DefaultRate(Some(rate))) => (
            StartupState::AwaitingAck(mono_config(rate)),
            StartupAction::Spawn(mono_config(rate)),
        ),
        (StartupState::AwaitingAck(config), StartupEvent::Acknowledged(Some(Ok(_)))) => (
            StartupState::Running(RecordingHandle { sample_rate: config.sample_rate }),
            StartupAction::Ready(RecordingHandle { sample_rate: config.sample_rate }),
        ),
        (StartupState::AwaitingAck(_), StartupEvent::Acknowledged(Some(Err(failure)))) => (
            StartupState::Failed,
            StartupAction::Fail(failure.spec_error()),
        ),
        (StartupState::AwaitingAck(_), StartupEvent::Acknowledged(None)) => (
            StartupState::Failed,
            StartupAction::Fail(AppError::RecordingInterrupted),
        ),
        (state, _) => (state, StartupAction::Nothing),
    }
}

/// The state reached and what was asked for, step by step, when `events` are
/// reported one after the other starting in `state`.
pub open spec fn spec_startup_run(state: StartupState, events: Seq<StartupEvent>) -> (
    StartupState,
    Seq<StartupAction>,
)
    decreases events.len(),
{
    if events.len() == 0 {
        (state, Seq::<StartupAction>::empty())
    } else {
        let (next, action) = spec_startup_step(state, events[0]);
        let (last, rest) = spec_startup_run(next, events.drop_first());
        (last, seq![action] + rest)
    }
}

impl StartupState {
    /// The start of a start: the device is looked up first.
    pub fn new() -> (state: StartupState)
        ensures
            state == StartupState::FindingDevice,
    {
        StartupState::FindingDevice
    }

    /// Takes note of `event` and says what to do next. An event that the
    /// start does not wait for changes nothing.
    pub fn advance(self, event: StartupEvent) -> (next: (StartupState, StartupAction))
        ensures
            next == spec_startup_step(self, event),
    {
        match (self, event) {
            (StartupState::FindingDevice, StartupEvent::DeviceLookedUp { found }) => {
                match get_default_input_device(found) {
                    Ok(_) => (StartupState::ListingConfigs, StartupAction::ListConfigs),
                    Err(error) => (StartupState::Failed, StartupAction::Fail(error)),
                }
            },
            (StartupState::ListingConfigs, StartupEvent::ConfigsListed(ranges)) => {
                match get_supported_config(&ranges) {
                    Ok(Some(config)) => (
                        StartupState::AwaitingAck(config),
                        StartupAction::Spawn(config),
                    ),
                    Ok(None) => (StartupState::AskingDefault, StartupAction::AskDefault),
                    Err(error) => (StartupState::Failed, StartupAction::Fail(error)),
                }
            },
            (StartupState::AskingDefault, StartupEvent::DefaultRate(rate)) => {
                match fallback_config(rate) {
                    Ok(config) => (StartupState::AwaitingAck(config), StartupAction::Spawn(config)),
                    Err(error) => (StartupState::Failed, StartupAction::Fail(error)),
                }
            },
            (StartupState::AwaitingAck(config), StartupEvent::Acknowledged(answer)) => {
                match start_recording(config, answer) {
                    Ok(handle) => (StartupState::Running(handle), StartupAction::Ready(handle)),
                    Err(error) => (StartupState::Failed, StartupAction::Fail(error)),
                }
            },
            (state, _) => (state, StartupAction::Nothing),
        }
    }
}

/// Whether `event` reports that an input device was found.
pub open spec fn finds_device(event: StartupEvent) -> bool {
    match event {
        StartupEvent::DeviceLookedUp { found } => found,
        _ => false,
    }
}

/// Whether `event` reports something that a configuration can be chosen
/// from: a listing that supports the default configuration, or the sample
/// rate of the device's own default.
pub open spec fn yields_config(event: StartupEvent) -> bool {
    match event {
        StartupEvent::ConfigsListed(Some(ranges)) => default_is_supported(ranges@),
        StartupEvent::DefaultRate(Some(_)) => true,
        _ => false,
    }
}

/// Whether a capture thread exists in `state`: spawned, or already running.
pub open spec fn has_spawned(state: StartupState) -> bool {
    state is AwaitingAck || state is Running
}

proof fn lemma_no_spawn_without_device(state: StartupState, events: Seq<StartupEvent>)
    requires
        state is FindingDevice || state is Failed,
        forall|k: int| 0 <= k < events.len() ==> !finds_device(#[trigger] events[k]),
    ensures
        ({
            let (end, actions) = spec_startup_run(state, events);
            &&& end is FindingDevice || end is Failed
            &&& forall|i: int| 0 <= i < actions.len() ==> !((#[trigger] actions[i]) is Spawn)
        }),
    decreases events.len(),
{
    if events.len() > 0 {
        let (next, action) = spec_startup_step(state, events[0]);
        let later = events.drop_first();
        let rest = spec_startup_run(next, later).1;
        assert(!finds_device(events[0]));
        assert forall|k: int| 0 <= k < later.len() implies !finds_device(#[trigger] later[k]) by {
            assert(later[k] == events[k + 1]);
        }
        lemma_no_spawn_without_device(next, later);
        assert forall|i: int| 0 <= i < (seq![action] + rest).len() implies !((#[trigger] (
        seq![action] + rest)[i]) is Spawn) by {
            if i > 0 {
                assert((seq![action] + rest)[i] == rest[i - 1]);
            }
        }
    }
}

proof fn lemma_no_spawn_without_config(state: StartupState, events: Seq<StartupEvent>)
    requires
        !has_spawned(state),
        forall|k: int| 0 <= k < events.len() ==> !yields_config(#[trigger] events[k]),
    ensures
        ({
            let (end, actions) = spec_startup_run(state, events);
            &&& !has_spawned(end)
            &&& forall|i: int| 0 <= i < actions.len() ==> !((#[trigger] actions[i]) is Spawn)
        }),
    decreases events.len(),
{
    if events.len() > 0 {
        let (next, action) = spec_startup_step(state, events[0]);
        let later = events.drop_first();
        let rest = spec_startup_run(next, later).1;
        assert(!yields_config(events[0]));
        assert forall|k: int| 0 <= k < later.len() implies !yields_config(#[trigger] later[k]) by {
            assert(later[k] == events[k + 1]);
        }
        lemma_no_spawn_without_config(next, later);
        assert forall|i: int| 0 <= i < (seq![action] + rest).len() implies !((#[trigger] (
        seq![action] + rest)[i]) is Spawn) by {
            if i > 0 {
                assert((seq![action] + rest)[i] == rest[i - 1]);
            }
        }
    }
}

/// Device and permission failures surface before any thread is spawned. As
/// long as no device was found, and likewise as long as the device neither
/// supports the default configuration nor names one of its own, no capture
/// thread is asked for and none exists, whatever else is reported.
pub proof fn lemma_failures_surface_before_spawn(events: Seq<StartupEvent>)
    requires
        (forall|k: int| 0 <= k < events.len() ==> !finds_device(#[trigger] events[k])) || (forall|
            k: int,
        | 0 <= k < events.len() ==> !yields_config(#[trigger] events[k])),
    ensures
        ({
            let (end, actions) = spec_startup_run(StartupState::FindingDevice, events);
            &&& !has_spawned(end)
            &&& forall|i: int| 0 <= i < actions.len() ==> !((#[trigger] actions[i]) is Spawn)
        }),
{
    if forall|k: int| 0 <= k < events.len() ==> !finds_device(#[trigger] events[k]) {
        lemma_no_spawn_without_device(StartupState::FindingDevice, events);
    } else {
        lemma_no_spawn_without_config(StartupState::FindingDevice, events);
    }
}

impl RecordingHandle {
    /// What stopping the capture yields. `received` is the buffer that the
    /// capture thread handed over, or `None` if the thread ended without
    /// handing one over. An empty buffer is a result like any other.
    pub fn stop<T>(self, received: Option<Vec<T>>) -> (result: Result<RecordingResult<T>, AppError>)
        ensures
            match received {
                Some(samples) => result == Ok::<RecordingResult<T>, AppError>(
                    RecordingResult { samples, sample_rate: self.sample_rate },
                ),
                None => result == Err::<RecordingResult<T>, AppError>(
                    AppError::RecordingInterrupted,
                ),
            },
    {
        match received {
            Some(samples) => Ok(RecordingResult { samples, sample_rate: self.sample_rate }),
            None => Err(AppError::RecordingInterrupted),
        }
    }
}

/// What the capture thread hands over at stop. `buffer` is the frame buffer,
/// or `None` if its lock was poisoned by a panic in the capture callback:
/// the session then ends with no samples rather than with the panic.
pub fn drain_buffer<T>(buffer: Option<Vec<T>>) -> (samples: Vec<T>)
    ensures
        samples@ == match buffer {
            Some(frames) => frames@,
            None => Seq::<T>::empty(),
        },
{
    match buffer {
        Some(frames) => frames,
        None => Vec::new(),
    }
}

/// The samples of `data` that go to the preview when `phase` samples have
/// been seen since the last one that went: every sample whose running count
/// reaches a multiple of the ratio.
pub open spec fn decimated<T>(phase: nat, data: Seq<T>) -> Seq<T>
    decreases data.len(),
{
    if data.len() == 0 {
        Seq::<T>::empty()
    } else if (phase + data.len()) % (WAVEFORM_DOWNSAMPLE_RATIO as nat) == 0 {
        decimated(phase, data.drop_last()).push(data.last())
    } else {
        decimated(phase, data.drop_last())
    }
}

/// The counter that picks the samples for the waveform preview. It runs
/// across batches, so the ratio holds however the device cuts its batches.
pub struct Decimator {
    counter: usize,
}

impl Decimator {
    #[verifier::type_invariant]
    spec fn counter_in_range(self) -> bool {
        self.counter < WAVEFORM_DOWNSAMPLE_RATIO
    }

    /// How many samples have been seen since the last one that went to the
    /// preview.
    pub closed spec fn phase(self) -> nat {
        self.counter as nat
    }

    /// A counter that has seen nothing.
    pub fn new() -> (decimator: Decimator)
        ensures
            decimator.phase() == 0,
    {
        Decimator { counter: 0 }
    }

    /// Takes note of a batch and returns the samples of it that go to the
    /// preview, or `None` where none does: an empty batch is not sent.
    pub fn select<T: Copy>(&mut self, data: &[T]) -> (batch: Option<Vec<T>>)
        ensures
            final(self).phase() == (old(self).phase() + data@.len()) % (
            WAVEFORM_DOWNSAMPLE_RATIO as nat),
            match batch {
                Some(kept) => kept@ == decimated(old(self).phase(), data@) && kept@.len() > 0,
                None => decimated(old(self).phase(), data@).len() == 0,
            },
    {
        proof {
            use_type_invariant(&*self);
        }
        let mut kept: Vec<T> = Vec::new();
        let mut counter = self.counter;
        let mut i: usize = 0;
        while i < data.len()
            invariant
                i <= data.len(),
                counter < WAVEFORM_DOWNSAMPLE_RATIO,
                old(self).counter < WAVEFORM_DOWNSAMPLE_RATIO,
                counter as nat == (old(self).counter as nat + i as nat) % (
                WAVEFORM_DOWNSAMPLE_RATIO as nat),
                kept@ == decimated(old(self).counter as nat, data@.take(i as int)),
            decreases data.len() - i,
        {
            counter = counter + 1;
            assert(data@.take(i + 1).drop_last() =~= data@.take(i as int));
            if counter == WAVEFORM_DOWNSAMPLE_RATIO {
                counter = 0;
                kept.push(data[i]);
            }
            i += 1;
        }
        assert(data@.take(data.len() as int) =~= data@);
        self.counter = counter;
        if kept.len() == 0 {
            None
        } else {
            Some(kept)
        }
    }
}

/// Cutting a stream of samples into batches does not change what goes to the
/// preview: decimating `first` and then `second` yields what decimating the
/// two as one batch yields.
pub proof fn lemma_decimation_ignores_batching<T>(phase: nat, first: Seq<T>, second: Seq<T>)
    ensures
        decimated(phase, first + second) == decimated(phase, first) + decimated(
            (phase + first.len()) % (WAVEFORM_DOWNSAMPLE_RATIO as nat),
            second,
        ),
    decreases second.len(),
{
    let ratio = WAVEFORM_DOWNSAMPLE_RATIO as nat;
    let shifted = (phase + first.len()) % ratio;
    if second.len() == 0 {
        assert(first + second =~= first);
        assert(decimated(phase, first) + decimated(shifted, second) =~= decimated(phase, first));
    } else {
        assert((first + second).drop_last() =~= first + second.drop_last());
        lemma_decimation_ignores_batching(phase, first, second.drop_last());
        assert((phase + first.len() + second.len()) % ratio == (shifted + second.len()) % ratio)
            by (nonlinear_arith)
            requires
                shifted == (phase + first.len()) % ratio,
                ratio == 100,
        ;
        assert(decimated(phase, first + second) =~= decimated(phase, first) + decimated(
            shifted,
            second,
        ));
    }
}

} // verus!
