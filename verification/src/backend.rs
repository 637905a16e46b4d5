//! The backend as the presentation layer sees it, without the pipeline.
//!
//! Every operation that touches the pipeline is decided here and carried out
//! by the caller: the backend hands out a [`Request`], the caller asks the
//! pipeline, and where the pipeline accepted, the caller reports the
//! request's follow-up with [`BackendV2::succeeded`]. A refused request is
//! the caller's failure to report; the backend stays as it was.
//!
//! One tick of the redraw loop runs in the same way: [`BackendV2::update_plan`]
//! tells whether the pipeline has to be woken first, [`BackendV2::update`]
//! polls the frame channel, and the frame that comes back is stored with
//! [`BackendV2::handle_update`] once the state request that it carries, if
//! any, went through.

use vstd::prelude::*;
use crate::async_probe::{AsyncProbe, ProbeError, ProbeOutcome, ProbeTicket};
use crate::audio::{collect_devices, device_entries, AudioDeviceSwitch, AudioError, FoundDevice};
use crate::channel::{FrameReceiver, RecvFailure};
use crate::clock::{default_frame_time, step_back_target, ClockTime, FrameTime};
use crate::frame::{FrameUpdate, VideoInfo};
use crate::play_flags::PlayFlags;
use crate::playback::{FetchPlan, FrameFetch, PlaybackStateMachine, StateRequest, TargetState};
use crate::probe::Probe;
use crate::seek::{
    timeline_flag_bits, timeline_flags, PlaybackSpeed, SeekFlags, SeekKind, SeekRequest, ACCURATE,
    FLUSH,
};
use crate::volume::{Volume, VolumeRange, VOLUME_MAX, VOLUME_MIN, VOLUME_START};

verus! {

/// The kinds of streams that a track can be picked of.
#[derive(Clone, Copy, Debug, PartialEq, Eq, Structural)]
pub enum TrackKind {
    Video,
    Audio,
    Subtitle,
}

/// Something to ask of the pipeline.
#[derive(Clone, Copy, Debug, PartialEq, Eq, Structural)]
pub enum PipelineCommand {
    /// Enter a state.
    SetState(StateRequest),
    /// Go to a position.
    Seek(SeekRequest),
    /// Step so many frames ahead, at normal rate, flushing.
    Step { frames: u64 },
    /// Play at a volume.
    SetVolume(Volume),
    /// Play a track of a kind. The index is the pipeline's: negative for none.
    SelectTrack { kind: TrackKind, index: i32 },
    /// Write the play flags.
    SetFlags { bits: u32 },
}

/// What the backend does once the pipeline accepted a request.
#[derive(Clone, Copy, Debug, PartialEq, Eq, Structural)]
pub enum FollowUp {
    /// Nothing.
    Nothing,
    /// Take the state as the target state.
    EnterState(StateRequest),
    /// Take the pipeline as woken for the requested frame.
    BeginFetch,
    /// Ask for a fresh frame.
    QueueFrame,
}

/// A command for the pipeline, with what follows its success.
#[derive(Clone, Copy, Debug, PartialEq, Eq, Structural)]
pub struct Request {
    pub command: PipelineCommand,
    pub on_success: FollowUp,
}

/// Why the backend turned an operation down.
#[derive(Clone, Copy, Debug, PartialEq, Eq, Structural)]
pub enum BackendError {
    /// The backend was torn down.
    Stopped,
    /// The frame channel lost its producer.
    ChannelClosed,
    /// A playback rate of zero was asked for.
    InvalidSpeed,
    /// The platform has no way to do this.
    Unsupported,
    /// A step of no frames was asked for.
    ZeroFrameStep,
}

impl BackendError {
    /// What went wrong, in words.
    pub open spec fn text(self) -> Seq<char> {
        match self {
            BackendError::Stopped => "The backend was stopped"@,
            BackendError::ChannelClosed => "The frame channel is closed"@,
            BackendError::InvalidSpeed => "Playback speed must not be zero"@,
            BackendError::Unsupported => "Not supported on this platform"@,
            BackendError::ZeroFrameStep => "Attempted to seek 0 frames"@,
        }
    }

    /// What went wrong, in words.
    pub fn message(&self) -> (m: &'static str)
        ensures
            m@ == self.text(),
    {
        match self {
            BackendError::Stopped => "The backend was stopped",
            BackendError::ChannelClosed => "The frame channel is closed",
            BackendError::InvalidSpeed => "Playback speed must not be zero",
            BackendError::Unsupported => "Not supported on this platform",
            BackendError::ZeroFrameStep => "Attempted to seek 0 frames",
        }
    }
}

/// A frame out of the channel, on its way to the caller.
#[derive(Debug)]
pub struct Delivery {
    pub update: FrameUpdate,
    pub info: VideoInfo,
    /// The request that has to go through before the frame is handed on.
    pub restore: Option<Request>,
}

/// What a backend knows, as plain values.
pub struct BackendView {
    pub latest_info: Option<VideoInfo>,
    pub latest_timecode: ClockTime,
    pub playback: PlaybackStateMachine,
    pub playback_speed: PlaybackSpeed,
    pub current_volume: Volume,
    pub current_audio_device: Option<String>,
    pub audio_devices_supported: bool,
    pub probe: AsyncProbe,
}

/// The backend: the consumer's end of the frame channel, the probe of the
/// open medium, and what was last seen and asked for.
pub struct BackendV2 {
    update_receiver: FrameReceiver,
    probe: AsyncProbe,
    latest_info: Option<VideoInfo>,
    latest_timecode: ClockTime,
    playback: PlaybackStateMachine,
    playback_speed: PlaybackSpeed,
    current_volume: Volume,
    current_audio_device: Option<String>,
    audio_devices_supported: bool,
}

/// The request that puts the pipeline in a state and, once accepted, makes
/// that state the target.
pub open spec fn state_request(request: StateRequest) -> Request {
    Request {
        command: PipelineCommand::SetState(request),
        on_success: FollowUp::EnterState(request),
    }
}

/// The request that wakes the pipeline for a requested frame.
pub open spec fn wake_request() -> Request {
    Request {
        command: PipelineCommand::SetState(StateRequest::Play),
        on_success: FollowUp::BeginFetch,
    }
}

/// The index that the pipeline knows a track by: the track's number where a
/// signed word holds it, else the number wrapped into one.
pub open spec fn pipeline_track_index(track: u32) -> i32 {
    if track <= i32::MAX {
        track as i32
    } else {
        (track - 0x1_0000_0000) as i32
    }
}

/// The track number that a pipeline's index reads as: the index where it is
/// not negative, else the index wrapped into an unsigned word.
pub open spec fn track_of_index(index: i32) -> u32 {
    if index >= 0 {
        index as u32
    } else {
        (index + 0x1_0000_0000) as u32
    }
}

/// Frames that a step of `frames` goes back or ahead.
pub open spec fn frame_count(frames: i32) -> nat {
    if frames < 0 {
        (-frames) as nat
    } else {
        frames as nat
    }
}

impl BackendView {
    /// The time one frame lasts: from the rate of the latest frame, or the
    /// default while no frame was seen.
    pub open spec fn frame_time(self) -> FrameTime {
        match self.latest_info {
            Some(info) => FrameTime { numer: info.fps.denom, denom: info.fps.numer },
            None => default_frame_time(),
        }
    }

    /// A seek to `start` with `flags`, at the rate that was last set.
    pub open spec fn seek(self, flags: u32, start: ClockTime) -> SeekRequest {
        SeekRequest { rate: self.playback_speed, flags: SeekFlags { bits: flags }, start }
    }

    /// The view after the pipeline accepted a request with this follow-up.
    pub open spec fn after(self, follow_up: FollowUp) -> BackendView {
        match follow_up {
            FollowUp::Nothing => self,
            FollowUp::EnterState(request) => BackendView {
                playback: self.playback.entered(request),
                ..self
            },
            FollowUp::BeginFetch => BackendView { playback: self.playback.woken(), ..self },
            FollowUp::QueueFrame => BackendView { playback: self.playback.queued(), ..self },
        }
    }

    /// What has to be asked of the pipeline before the channel is polled: to
    /// wake up, where a frame was requested and the pipeline was not woken for
    /// it yet. A stopped backend asks nothing.
    pub open spec fn plan(self) -> Option<Request> {
        match self.playback.plan() {
            FetchPlan::WakeThenPoll => Some(wake_request()),
            FetchPlan::Poll => None,
        }
    }

    /// The view after the channel was polled and gave `received`: a frame
    /// closes the fetch that was open, anything else changes nothing.
    pub open spec fn polled(self, received: Result<(FrameUpdate, VideoInfo), RecvFailure>)
        -> BackendView {
        if received is Ok {
            BackendView { playback: self.playback.received(), ..self }
        } else {
            self
        }
    }

    /// What a poll that gave `received` hands to the caller, in whatever
    /// state the backend is: nothing where the channel was empty, which is no
    /// failure; the frame where one waited, with the request that restores
    /// the state from before the fetch where there was one.
    pub open spec fn poll_result(self, received: Result<(FrameUpdate, VideoInfo), RecvFailure>)
        -> Result<Option<Delivery>, BackendError> {
        match received {
            Err(RecvFailure::Empty) => Ok(None),
            Err(RecvFailure::Disconnected) => Err(BackendError::ChannelClosed),
            Ok((update, info)) => Ok(
                Some(
                    Delivery {
                        update,
                        info,
                        restore: match self.playback.restore_after_frame() {
                            Some(request) => Some(state_request(request)),
                            None => None,
                        },
                    },
                ),
            ),
        }
    }

    /// The view after a frame was handed on.
    pub open spec fn shown(self, update: FrameUpdate, info: VideoInfo) -> BackendView {
        BackendView { latest_info: Some(info), latest_timecode: update.timecode, ..self }
    }

    /// The request that a step of `frames` frames makes: a step event for a
    /// step ahead, a flushing seek to the frame for a step back, and in both
    /// cases a fresh frame afterwards.
    pub open spec fn step(self, frames: i32) -> Request {
        if frames > 0 {
            Request {
                command: PipelineCommand::Step { frames: frames as u64 },
                on_success: FollowUp::QueueFrame,
            }
        } else {
            Request {
                command: PipelineCommand::Seek(
                    self.seek(
                        SeekKind::FlushOnly.flag_bits(),
                        step_back_target(
                            self.latest_timecode,
                            frame_count(frames),
                            self.frame_time(),
                        ),
                    ),
                ),
                on_success: FollowUp::QueueFrame,
            }
        }
    }

    /// The request that a change of state makes; none once stopped.
    pub open spec fn state_change(self, request: StateRequest) -> Result<Request, BackendError> {
        if self.playback.target_state == TargetState::Stopped {
            Err(BackendError::Stopped)
        } else {
            Ok(state_request(request))
        }
    }

    /// The request that a change of rate makes: a flushing seek, at the new
    /// rate, to the timecode of the latest frame.
    pub open spec fn speed_change(self, speed: PlaybackSpeed) -> Request {
        Request {
            command: PipelineCommand::Seek(
                SeekRequest {
                    rate: speed,
                    flags: SeekFlags { bits: SeekKind::FlushOnly.flag_bits() },
                    start: self.latest_timecode,
                },
            ),
            on_success: FollowUp::Nothing,
        }
    }

    /// The request that a seek on the timeline makes; none while the
    /// pipeline is woken for a frame.
    pub open spec fn timeline_seek(self, seek_to: ClockTime, accurate: bool) -> Option<Request> {
        if self.playback.fetch.in_progress() {
            None
        } else {
            Some(
                Request {
                    command: PipelineCommand::Seek(
                        self.seek(timeline_flag_bits(accurate), seek_to),
                    ),
                    on_success: FollowUp::Nothing,
                },
            )
        }
    }

    /// The seek that takes playback up again after a switch of audio
    /// device: flushing and accurate, to the timecode of the latest frame.
    pub open spec fn resume_seek(self) -> SeekRequest {
        self.seek(FLUSH | ACCURATE, self.latest_timecode)
    }

    /// The view after one tick that found the frame channel empty. `woke`
    /// tells whether the pipeline accepted to be woken, where the tick had to
    /// ask for that.
    pub open spec fn empty_tick(self, woke: bool) -> BackendView {
        if self.plan() == Some(wake_request()) {
            if woke {
                self.after(FollowUp::BeginFetch).polled(Err(RecvFailure::Empty))
            } else {
                self
            }
        } else {
            self.polled(Err(RecvFailure::Empty))
        }
    }

    /// The view after as many ticks as `wakes` is long, each of which found
    /// the frame channel empty.
    pub open spec fn empty_ticks(self, wakes: Seq<bool>) -> BackendView
        decreases wakes.len(),
    {
        if wakes.len() == 0 {
            self
        } else {
            self.empty_ticks(wakes.drop_last()).empty_tick(wakes.last())
        }
    }
}

impl View for BackendV2 {
    type V = BackendView;

    closed spec fn view(&self) -> BackendView {
        BackendView {
            latest_info: self.latest_info,
            latest_timecode: self.latest_timecode,
            playback: self.playback,
            playback_speed: self.playback_speed,
            current_volume: self.current_volume,
            current_audio_device: self.current_audio_device,
            audio_devices_supported: self.audio_devices_supported,
            probe: self.probe,
        }
    }
}

impl BackendV2 {
    /// A backend for the medium at `uri`, fed by `update_receiver`. Nothing
    /// was seen yet, no state was asked for, and a first frame is wanted.
    /// The probe of `uri` counts as started: its task has to be run under the
    /// ticket that [`BackendV2::probe_ticket`] gives. `audio_devices_supported`
    /// says whether the platform can list and pick audio devices.
    pub fn new(
        update_receiver: FrameReceiver,
        uri: &str,
        audio_devices_supported: bool,
    ) -> (backend: BackendV2)
        ensures
            backend@.latest_info is None,
            backend@.latest_timecode == (ClockTime { nanos: 0 }),
            backend@.playback == PlaybackStateMachine::initial(),
            backend@.playback_speed == PlaybackSpeed::normal(),
            backend@.current_volume == (Volume { permille: VOLUME_START }),
            backend@.current_audio_device is None,
            backend@.audio_devices_supported == audio_devices_supported,
            backend@.probe.uri() == uri@,
            backend@.probe.outcome() is None,
            backend@.probe.current_ticket() == (ProbeTicket { id: 0 }),
    {
        BackendV2 {
            update_receiver,
            probe: AsyncProbe::start(uri),
            latest_info: None,
            latest_timecode: ClockTime { nanos: 0 },
            playback: PlaybackStateMachine::new(),
            playback_speed: PlaybackSpeed { permille: 1000 },
            current_volume: Volume { permille: VOLUME_START },
            current_audio_device: None,
            audio_devices_supported,
        }
    }

    /// Records that the pipeline accepted a request with this follow-up.
    pub fn succeeded(&mut self, follow_up: FollowUp)
        ensures
            final(self)@ == old(self)@.after(follow_up),
    {
        match follow_up {
            FollowUp::Nothing => {},
            FollowUp::EnterState(request) => {
                self.playback.enter(request);
            },
            FollowUp::BeginFetch => {
                self.playback.wake();
            },
            FollowUp::QueueFrame => {
                self.playback.queue_frame_update();
            },
        }
    }

    /// Stores what a frame tells and hands the frame on.
    pub fn handle_update(&mut self, inny: (FrameUpdate, VideoInfo)) -> (update: FrameUpdate)
        ensures
            update == inny.0,
            final(self)@ == old(self)@.shown(inny.0, inny.1),
    {
        self.latest_info = Some(inny.1);
        self.latest_timecode = inny.0.timecode;
        inny.0
    }

    /// What has to be asked of the pipeline before this tick's poll: to wake
    /// up, where a frame was requested and the pipeline was not woken for it
    /// yet, else nothing. A stopped backend is never woken.
    pub fn update_plan(&self) -> (plan: Option<Request>)
        ensures
            plan == self@.plan(),
    {
        match self.playback.fetch_plan() {
            FetchPlan::WakeThenPoll => Some(
                Request {
                    command: PipelineCommand::SetState(StateRequest::Play),
                    on_success: FollowUp::BeginFetch,
                },
            ),
            FetchPlan::Poll => None,
        }
    }

    /// Takes in what a poll of the frame channel gave. An empty channel is no
    /// failure and changes nothing. A frame closes the fetch that was open;
    /// it is not stored yet.
    pub fn accept(&mut self, received: Result<(FrameUpdate, VideoInfo), RecvFailure>) -> (r: Result<
        Option<Delivery>,
        BackendError,
    >)
        ensures
            r == old(self)@.poll_result(received),
            final(self)@ == old(self)@.polled(received),
            final(self)@.latest_info == old(self)@.latest_info,
            final(self)@.latest_timecode == old(self)@.latest_timecode,
            received is Err ==> final(self)@ == old(self)@,
    {
        match received {
            Err(RecvFailure::Empty) => Ok(None),
            Err(RecvFailure::Disconnected) => Err(BackendError::ChannelClosed),
            Ok((update, info)) => {
                let restore = match self.playback.receive() {
                    Some(request) => Some(
                        Request {
                            command: PipelineCommand::SetState(request),
                            on_success: FollowUp::EnterState(request),
                        },
                    ),
                    None => None,
                };
                Ok(Some(Delivery { update, info, restore }))
            },
        }
    }

    /// Polls the frame channel once, without waiting, and takes in what it
    /// gave.
    pub fn update(&mut self) -> (r: Result<Option<Delivery>, BackendError>)
        ensures
            exists|received: Result<(FrameUpdate, VideoInfo), RecvFailure>|
                {
                    &&& r == #[trigger] old(self)@.poll_result(received)
                    &&& final(self)@ == old(self)@.polled(received)
                },
            final(self)@.latest_info == old(self)@.latest_info,
            final(self)@.latest_timecode == old(self)@.latest_timecode,
            r is Ok || r == Err::<Option<Delivery>, BackendError>(BackendError::ChannelClosed),
    {
        let received = self.update_receiver.try_recv();
        self.accept(received)
    }

    /// Waits for the next frame and takes it in. This returns only when a
    /// frame arrives or the producer is gone: call it only once the pipeline
    /// was set playing. Where it succeeds, there is a frame.
    pub fn await_update(&mut self) -> (r: Result<Option<Delivery>, BackendError>)
        ensures
            exists|received: Result<(FrameUpdate, VideoInfo), RecvFailure>|
                {
                    &&& r == #[trigger] old(self)@.poll_result(received)
                    &&& final(self)@ == old(self)@.polled(received)
                    &&& received != Err::<(FrameUpdate, VideoInfo), RecvFailure>(
                        RecvFailure::Empty,
                    )
                },
            final(self)@.latest_info == old(self)@.latest_info,
            final(self)@.latest_timecode == old(self)@.latest_timecode,
            r matches Ok(delivery) ==> delivery is Some,
            r is Ok || r == Err::<Option<Delivery>, BackendError>(BackendError::ChannelClosed),
    {
        let received = self.update_receiver.recv();
        self.accept(received)
    }

    /// The request that starts playback.
    pub fn start(&self) -> (r: Result<Request, BackendError>)
        ensures
            r == self@.state_change(StateRequest::Play),
    {
        self.change_state(StateRequest::Play)
    }

    /// The request that pauses playback.
    pub fn stop(&self) -> (r: Result<Request, BackendError>)
        ensures
            r == self@.state_change(StateRequest::Pause),
    {
        self.change_state(StateRequest::Pause)
    }

    /// The request that tears the pipeline down. It can always be made.
    pub fn quit(&self) -> (r: Request)
        ensures
            r == state_request(StateRequest::Quit),
    {
        Request {
            command: PipelineCommand::SetState(StateRequest::Quit),
            on_success: FollowUp::EnterState(StateRequest::Quit),
        }
    }

    fn change_state(&self, request: StateRequest) -> (r: Result<Request, BackendError>)
        ensures
            r == self@.state_change(request),
    {
        if self.playback.is_stopped() {
            Err(BackendError::Stopped)
        } else {
            Ok(
                Request {
                    command: PipelineCommand::SetState(request),
                    on_success: FollowUp::EnterState(request),
                },
            )
        }
    }

    /// Asks for one fresh frame with the next ticks, also from a paused
    /// pipeline.
    pub fn queue_frame_update(&mut self)
        ensures
            final(self)@ == old(self)@.after(FollowUp::QueueFrame),
            final(self)@.playback.fetch.queued(),
    {
        self.playback.queue_frame_update();
    }

    /// Sets the playback rate. The rate is kept for every later seek, and the
    /// request that makes the pipeline take it is a seek to where playback
    /// stands at this moment. A rate of zero is turned down.
    pub fn change_playback_speed(&mut self, speed: PlaybackSpeed) -> (r: Result<
        Request,
        BackendError,
    >)
        ensures
            speed.is_valid() ==> {
                &&& r == Ok::<Request, BackendError>(old(self)@.speed_change(speed))
                &&& final(self)@ == (BackendView { playback_speed: speed, ..old(self)@ })
            },
            !speed.is_valid() ==> {
                &&& r == Err::<Request, BackendError>(BackendError::InvalidSpeed)
                &&& final(self)@ == old(self)@
            },
    {
        if speed.permille == 0 {
            return Err(BackendError::InvalidSpeed);
        }
        self.playback_speed = speed;
        Ok(
            Request {
                command: PipelineCommand::Seek(
                    SeekRequest {
                        rate: speed,
                        flags: SeekKind::FlushOnly.flags(),
                        start: self.latest_timecode,
                    },
                ),
                on_success: FollowUp::Nothing,
            },
        )
    }

    /// The request that seeks to `seek_to` with `seek_flags`, at the rate
    /// that was last set.
    pub fn seek_time(&self, seek_flags: SeekFlags, seek_to: ClockTime) -> (r: Request)
        ensures
            r == (Request {
                command: PipelineCommand::Seek(self@.seek(seek_flags.bits, seek_to)),
                on_success: FollowUp::Nothing,
            }),
    {
        Request {
            command: PipelineCommand::Seek(
                SeekRequest { rate: self.playback_speed, flags: seek_flags, start: seek_to },
            ),
            on_success: FollowUp::Nothing,
        }
    }

    /// The request that seeks to `seek_to` in the way of `kind`.
    pub fn seek_kind(&self, kind: SeekKind, seek_to: ClockTime) -> (r: Request)
        ensures
            r == (Request {
                command: PipelineCommand::Seek(self@.seek(kind.flag_bits(), seek_to)),
                on_success: FollowUp::Nothing,
            }),
    {
        self.seek_time(kind.flags(), seek_to)
    }

    /// A fast, approximate seek for scrubbing.
    pub fn seek_trickmode(&self, seek_to: ClockTime) -> (r: Request)
        ensures
            r == (Request {
                command: PipelineCommand::Seek(
                    self@.seek(SeekKind::TrickMode.flag_bits(), seek_to),
                ),
                on_success: FollowUp::Nothing,
            }),
    {
        self.seek_kind(SeekKind::TrickMode, seek_to)
    }

    /// A frame-accurate seek.
    pub fn seek_exact(&self, seek_to: ClockTime) -> (r: Request)
        ensures
            r == (Request {
                command: PipelineCommand::Seek(self@.seek(SeekKind::Exact.flag_bits(), seek_to)),
                on_success: FollowUp::Nothing,
            }),
    {
        self.seek_kind(SeekKind::Exact, seek_to)
    }

    /// A flushing seek that lands on a key frame.
    pub fn seek_keyframe(&self, seek_to: ClockTime) -> (r: Request)
        ensures
            r == (Request {
                command: PipelineCommand::Seek(self@.seek(SeekKind::Keyframe.flag_bits(), seek_to)),
                on_success: FollowUp::Nothing,
            }),
    {
        self.seek_kind(SeekKind::Keyframe, seek_to)
    }

    /// The normal scrub: the same as [`BackendV2::seek_keyframe`].
    pub fn seek_normal(&self, seek_to: ClockTime) -> (r: Request)
        ensures
            r == (Request {
                command: PipelineCommand::Seek(self@.seek(SeekKind::Keyframe.flag_bits(), seek_to)),
                on_success: FollowUp::Nothing,
            }),
    {
        self.seek_kind(SeekKind::Keyframe, seek_to)
    }

    /// A seek that flushes and promises nothing more.
    pub fn seek_just_flush(&self, seek_to: ClockTime) -> (r: Request)
        ensures
            r == (Request {
                command: PipelineCommand::Seek(
                    self@.seek(SeekKind::FlushOnly.flag_bits(), seek_to),
                ),
                on_success: FollowUp::Nothing,
            }),
    {
        self.seek_kind(SeekKind::FlushOnly, seek_to)
    }

    /// A seek to the key frame near `current_time`, without a flush.
    pub fn seek_nearest_keyframe(&self, current_time: ClockTime) -> (r: Request)
        ensures
            r == (Request {
                command: PipelineCommand::Seek(
                    self@.seek(SeekKind::NearestKeyframe.flag_bits(), current_time),
                ),
                on_success: FollowUp::Nothing,
            }),
    {
        self.seek_kind(SeekKind::NearestKeyframe, current_time)
    }

    /// The request for a seek on the timeline: a flush that hits `seek_to`
    /// where `accurate`, one that snaps to a key frame where not. While the
    /// pipeline is woken for a frame there is none: two operations that each
    /// upset the pipeline would race.
    pub fn seek_timeline(&self, seek_to: ClockTime, accurate: bool) -> (r: Option<Request>)
        ensures
            r == self@.timeline_seek(seek_to, accurate),
    {
        if self.playback.fetch.is_in_progress() {
            None
        } else {
            Some(self.seek_time(timeline_flags(accurate), seek_to))
        }
    }

    /// The request that steps `frames` frames: ahead where positive, back
    /// where negative. A step back goes to `max(0, timecode - n * frametime)`.
    /// Either way a fresh frame is asked for once the pipeline accepted. A
    /// step of no frames is not a step.
    pub fn seek_frames(&self, frames: i32) -> (r: Request)
        requires
            frames != 0,
        ensures
            r == self@.step(frames),
    {
        if frames > 0 {
            Request {
                command: PipelineCommand::Step { frames: frames as u64 },
                on_success: FollowUp::QueueFrame,
            }
        } else {
            let count: u32 = if frames == i32::MIN {
                2147483648u32
            } else {
                (-frames) as u32
            };
            let target = self.latest_timecode.step_back(count, self.get_frametime());
            Request {
                command: PipelineCommand::Seek(
                    SeekRequest {
                        rate: self.playback_speed,
                        flags: SeekKind::FlushOnly.flags(),
                        start: target,
                    },
                ),
                on_success: FollowUp::QueueFrame,
            }
        }
    }

    /// The request that steps `frames` frames, for a caller that cannot
    /// promise a step of at least one frame. A step of no frames is a failure
    /// of its own: it makes no request, and nothing of the backend changes.
    pub fn try_seek_frames(&self, frames: i32) -> (r: Result<Request, BackendError>)
        ensures
            frames == 0 ==> r == Err::<Request, BackendError>(BackendError::ZeroFrameStep),
            frames != 0 ==> r == Ok::<Request, BackendError>(self@.step(frames)),
    {
        if frames == 0 {
            Err(BackendError::ZeroFrameStep)
        } else {
            Ok(self.seek_frames(frames))
        }
    }

    /// The time one frame lasts: one over the rate of the latest frame, and
    /// 1/30 s while no frame was seen.
    pub fn get_frametime(&self) -> (ft: FrameTime)
        ensures
            ft == self@.frame_time(),
    {
        match &self.latest_info {
            Some(info) => info.fps.frame_time(),
            None => FrameTime { numer: 1, denom: 30 },
        }
    }

    /// The ticket under which the probe of the open medium runs.
    pub fn probe_ticket(&self) -> (ticket: ProbeTicket)
        ensures
            ticket == self@.probe.current_ticket(),
    {
        self.probe.ticket()
    }

    /// Whether the probe of the open medium still runs.
    pub fn probe_pending(&self) -> (pending: bool)
        ensures
            pending == self@.probe.outcome() is None,
    {
        !self.probe.is_finished()
    }

    /// Takes in what the probe task with `ticket` reported. Only the first
    /// report of the wanted task counts; any other changes nothing.
    pub fn probe_finished(&mut self, ticket: ProbeTicket, outcome: ProbeOutcome) -> (accepted: bool)
        ensures
            accepted == old(self)@.probe.accepts(ticket),
            final(self)@ == (BackendView {
                probe: old(self)@.probe.completed(ticket, outcome),
                ..old(self)@
            }),
            accepted ==> final(self)@.probe.outcome() == Some(outcome),
            !accepted ==> final(self)@ == old(self)@,
            final(self)@.probe.current_ticket() == old(self)@.probe.current_ticket(),
            final(self)@.probe.uri() == old(self)@.probe.uri(),
    {
        self.probe.complete(ticket, outcome)
    }

    /// Turns the probe to another medium: what was known or under way is
    /// given up, and the task to start runs under the returned ticket.
    /// `None`, with nothing changed, once the tickets have run out.
    pub fn restart_probe(&mut self, uri: &str) -> (ticket: Option<ProbeTicket>)
        ensures
            old(self)@.probe.current_ticket().id < u64::MAX ==> {
                &&& ticket == Some(
                    ProbeTicket { id: (old(self)@.probe.current_ticket().id + 1) as u64 },
                )
                &&& final(self)@.probe.current_ticket() == ticket->0
                &&& final(self)@.probe.outcome() is None
                &&& final(self)@.probe.uri() == uri@
            },
            old(self)@.probe.current_ticket().id == u64::MAX ==> ticket is None && final(self)@
                == old(self)@,
            final(self)@ == (BackendView { probe: final(self)@.probe, ..old(self)@ }),
    {
        self.probe.restart(uri)
    }

    /// The probe of the open medium, once it is known; until then, and after
    /// a failure, the reason why there is none. This never waits.
    pub fn get_probe(&self) -> (r: Result<&Probe, ProbeError>)
        ensures
            r matches Ok(probe) ==> self@.probe.lookup() == Ok::<Probe, ProbeError>(*probe),
            r matches Err(e) ==> self@.probe.lookup() == Err::<Probe, ProbeError>(e),
    {
        self.probe.get()
    }

    /// The reason that a failed discovery gave.
    pub fn probe_failure_text(&self) -> (text: Option<&String>)
        ensures
            match self@.probe.outcome() {
                Some(ProbeOutcome::DiscoveryFailed(reason)) => text == Some(&reason),
                _ => text is None,
            },
    {
        self.probe.failure_text()
    }

    /// The format of the latest frame.
    pub fn get_latest_vidio_info(&self) -> (info: Option<&VideoInfo>)
        ensures
            match info {
                Some(info) => self@.latest_info == Some(*info),
                None => self@.latest_info is None,
            },
    {
        self.latest_info.as_ref()
    }

    /// The rate that was last set.
    pub fn current_playback_speed(&self) -> (speed: PlaybackSpeed)
        ensures
            speed == self@.playback_speed,
    {
        self.playback_speed
    }

    /// The state that was last asked for and accepted. The pipeline may not
    /// be there yet.
    pub fn get_predicted_state(&self) -> (state: TargetState)
        ensures
            state == self@.playback.target_state,
    {
        self.playback.target_state
    }

    /// Whether playing is the intended state.
    pub fn is_playing(&self) -> (b: bool)
        ensures
            b == (self@.playback.target_state == TargetState::Playing),
    {
        self.playback.is_playing()
    }

    /// Whether paused is the intended state.
    pub fn is_paused(&self) -> (b: bool)
        ensures
            b == (self@.playback.target_state == TargetState::Paused),
    {
        self.playback.is_paused()
    }

    /// Where the forced frame fetch stands.
    pub fn frame_fetch(&self) -> (fetch: FrameFetch)
        ensures
            fetch == self@.playback.fetch,
    {
        self.playback.fetch
    }

    /// The timecode of the latest frame.
    pub fn timecode(&self) -> (t: ClockTime)
        ensures
            t == self@.latest_timecode,
    {
        self.latest_timecode
    }

    /// The length of the medium as the pipeline answered for it: zero where
    /// it gave no answer.
    pub fn get_duration(&self, answered: Option<ClockTime>) -> (d: ClockTime)
        ensures
            d == (match answered {
                Some(duration) => duration,
                None => ClockTime { nanos: 0 },
            }),
    {
        match answered {
            Some(duration) => duration,
            None => ClockTime { nanos: 0 },
        }
    }

    /// The number of the track that the pipeline names by `index`.
    pub fn current_track(&self, index: i32) -> (track: u32)
        ensures
            track == track_of_index(index),
    {
        if index >= 0 {
            index as u32
        } else {
            ((index as i64) + 0x1_0000_0000i64) as u32
        }
    }

    /// The request that makes the pipeline play track `track` of a kind.
    pub fn select_track(&self, kind: TrackKind, track: u32) -> (r: Request)
        ensures
            r == (Request {
                command: PipelineCommand::SelectTrack { kind, index: pipeline_track_index(track) },
                on_success: FollowUp::Nothing,
            }),
    {
        let index: i32 = if track <= 0x7fff_ffff {
            track as i32
        } else {
            ((track as i64) - 0x1_0000_0000i64) as i32
        };
        Request {
            command: PipelineCommand::SelectTrack { kind, index },
            on_success: FollowUp::Nothing,
        }
    }

    /// The volume that was last set.
    pub fn get_current_volume(&self) -> (v: Volume)
        ensures
            v == self@.current_volume,
    {
        self.current_volume
    }

    /// The volumes that the backend takes.
    pub fn get_volume_range(&self) -> (range: VolumeRange)
        ensures
            range == VolumeRange::full(),
    {
        VolumeRange { start: Volume { permille: VOLUME_MIN }, end: Volume { permille: VOLUME_MAX } }
    }

    /// Sets the volume to the volume in range that is nearest to `to`, and
    /// gives the request that makes the pipeline play at it.
    pub fn set_volume(&mut self, to: Volume) -> (r: Request)
        ensures
            r == (Request {
                command: PipelineCommand::SetVolume(to.clamped()),
                on_success: FollowUp::Nothing,
            }),
            final(self)@ == (BackendView { current_volume: to.clamped(), ..old(self)@ }),
            final(self)@.current_volume.in_range(),
            to.in_range() ==> final(self)@.current_volume == to,
    {
        let volume = to.clamp();
        self.current_volume = volume;
        Request { command: PipelineCommand::SetVolume(volume), on_success: FollowUp::Nothing }
    }

    /// What a switch to the audio device `device` asks of the pipeline.
    /// Where the platform cannot pick devices, the switch is turned down.
    pub fn set_audio_device(&self, device: &str) -> (r: Result<AudioDeviceSwitch, BackendError>)
        ensures
            !self@.audio_devices_supported ==> r == Err::<AudioDeviceSwitch, BackendError>(
                BackendError::Unsupported,
            ),
            self@.audio_devices_supported ==> {
                &&& r matches Ok(switch)
                &&& switch.device@ == device@
                &&& switch.state == self@.playback.target_state
                &&& switch.resume == self@.resume_seek()
            },
    {
        if !self.audio_devices_supported {
            return Err(BackendError::Unsupported);
        }
        let flags = SeekKind::FlushOnly.flags().union(SeekKind::Exact.flags());
        Ok(
            AudioDeviceSwitch {
                device: device.to_owned(),
                state: self.playback.target_state,
                resume: SeekRequest {
                    rate: self.playback_speed,
                    flags,
                    start: self.latest_timecode,
                },
            },
        )
    }

    /// Records that the pipeline now plays through `device`.
    pub fn audio_device_changed(&mut self, device: String)
        ensures
            final(self)@ == (BackendView { current_audio_device: Some(device), ..old(self)@ }),
    {
        self.current_audio_device = Some(device);
    }

    /// Whether the platform can list and pick audio devices.
    pub fn audio_devices_supported(&self) -> (supported: bool)
        ensures
            supported == self@.audio_devices_supported,
    {
        self.audio_devices_supported
    }

    /// The audio device that was last switched to, if any was.
    pub fn get_current_audio_device(&self) -> (device: Option<String>)
        ensures
            device == self@.current_audio_device,
    {
        match &self.current_audio_device {
            Some(device) => Some(device.clone()),
            None => None,
        }
    }

    /// Name and id of each audio device, from what the platform listed:
    /// `None` where it could not list, else one entry for each device, `None`
    /// for a device that it could not read. Where the platform has no list
    /// of devices, that is the answer.
    pub fn list_audio_devices(&self, listed: Option<&Vec<Option<FoundDevice>>>) -> (r: Result<
        Vec<(String, String)>,
        AudioError,
    >)
        ensures
            !self@.audio_devices_supported ==> r == Err::<Vec<(String, String)>, AudioError>(
                AudioError::Unsupported,
            ),
            self@.audio_devices_supported && listed is None ==> r == Err::<
                Vec<(String, String)>,
                AudioError,
            >(AudioError::NoCollection),
            self@.audio_devices_supported && listed is Some ==> {
                &&& r matches Ok(list) ==> device_entries(listed->0@, listed->0@.len()) == Ok::<
                    Seq<(String, String)>,
                    AudioError,
                >(list@)
                &&& r matches Err(e) ==> device_entries(listed->0@, listed->0@.len()) == Err::<
                    Seq<(String, String)>,
                    AudioError,
                >(e)
            },
    {
        if !self.audio_devices_supported {
            return Err(AudioError::Unsupported);
        }
        match listed {
            None => Err(AudioError::NoCollection),
            Some(found) => collect_devices(found),
        }
    }

    /// The request that switches the bits of `flag` on or off in the play
    /// flags, which read `flags_now`, and leaves the others as they are.
    pub fn toggle_playflag(&self, flags_now: u32, set_to: bool, flag: u32) -> (r: Request)
        ensures
            r == (Request {
                command: PipelineCommand::SetFlags {
                    bits: PlayFlags::with_flag(flags_now, flag, set_to),
                },
                on_success: FollowUp::Nothing,
            }),
    {
        Request {
            command: PipelineCommand::SetFlags {
                bits: PlayFlags::toggled(flags_now, flag, set_to),
            },
            on_success: FollowUp::Nothing,
        }
    }

    /// Whether `flag` is on in the play flags, which read `flags_now`.
    pub fn get_playflag_state(&self, flags_now: u32, flag: u32) -> (on: bool)
        ensures
            on == PlayFlags::any_set(flags_now, flag),
    {
        PlayFlags::is_set(flags_now, flag)
    }
}

/// However many ticks find the frame channel empty, and whatever the
/// pipeline answers when asked to wake up: each poll reports that there is no
/// frame, which is no failure, and the format and timecode of the latest
/// frame stay what they were.
pub proof fn lemma_empty_ticks_keep_latest_frame(backend: BackendView, wakes: Seq<bool>)
    ensures
        backend.empty_ticks(wakes).latest_info == backend.latest_info,
        backend.empty_ticks(wakes).latest_timecode == backend.latest_timecode,
        backend.empty_ticks(wakes).poll_result(Err(RecvFailure::Empty)) == Ok::<
            Option<Delivery>,
            BackendError,
        >(None),
    decreases wakes.len(),
{
    if wakes.len() > 0 {
        lemma_empty_ticks_keep_latest_frame(backend, wakes.drop_last());
    }
}

/// The forced fetch over two ticks. The first tick of a backend with a frame
/// requested wakes the pipeline and finds no frame: the fetch is then queued
/// and in progress, and playing is the target. The second tick asks nothing
/// of the pipeline before it polls; the frame that it finds closes the
/// fetch, and the request that the frame carries, once accepted, makes the
/// target what it was before the first tick, where that was paused or
/// playing. The frame is then the latest.
pub proof fn lemma_forced_fetch_over_two_ticks(
    backend: BackendView,
    update: FrameUpdate,
    info: VideoInfo,
)
    requires
        backend.playback.fetch == FrameFetch::Requested,
        backend.playback.target_state == TargetState::Paused || backend.playback.target_state
            == TargetState::Playing,
    ensures
        backend.plan() == Some(wake_request()),
        ({
            let first = backend.empty_tick(true);
            let found = first.polled(Ok((update, info)));
            let restore = state_request(backend.playback.target_state.restoring_request()->0);
            &&& first.playback.fetch.queued()
            &&& first.playback.fetch.in_progress()
            &&& first.playback.target_state == TargetState::Playing
            &&& first.plan() is None
            &&& first.poll_result(Ok((update, info))) == Ok::<Option<Delivery>, BackendError>(
                Some(Delivery { update, info, restore: Some(restore) }),
            )
            &&& !found.playback.fetch.queued()
            &&& !found.playback.fetch.in_progress()
            &&& found.after(restore.on_success).playback.target_state
                == backend.playback.target_state
            &&& found.after(restore.on_success).shown(update, info).latest_timecode
                == update.timecode
            &&& found.after(restore.on_success).shown(update, info).latest_info == Some(info)
        }),
{
}

/// A stopped backend polls like any other, and stays stopped. It asks for no
/// wake-up; an empty channel is no frame and no failure; a frame that waits is
/// handed on with no state to restore, and becomes the latest.
pub proof fn lemma_stopped_backend_still_polls(
    backend: BackendView,
    update: FrameUpdate,
    info: VideoInfo,
)
    requires
        backend.playback.target_state == TargetState::Stopped,
    ensures
        backend.plan() is None,
        backend.poll_result(Err(RecvFailure::Empty)) == Ok::<Option<Delivery>, BackendError>(None),
        backend.polled(Err(RecvFailure::Empty)) == backend,
        backend.poll_result(Ok((update, info))) == Ok::<Option<Delivery>, BackendError>(
            Some(Delivery { update, info, restore: None }),
        ),
        backend.polled(Ok((update, info))).playback.target_state == TargetState::Stopped,
        !backend.polled(Ok((update, info))).playback.fetch.queued(),
        backend.polled(Ok((update, info))).shown(update, info).latest_timecode == update.timecode,
        backend.polled(Ok((update, info))).shown(update, info).latest_info == Some(info),
        backend.state_change(StateRequest::Play) == Err::<Request, BackendError>(
            BackendError::Stopped,
        ),
        backend.after(FollowUp::BeginFetch) == backend,
{
}

/// A wake-up that the pipeline refused leaves the request standing: the
/// next tick asks again.
pub proof fn lemma_refused_wake_is_asked_again(backend: BackendView)
    requires
        backend.plan() == Some(wake_request()),
    ensures
        backend.empty_tick(false) == backend,
        backend.empty_tick(false).plan() == backend.plan(),
{
}

} // verus!
