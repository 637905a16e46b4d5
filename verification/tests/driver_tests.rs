use vid_v2::async_probe::{ProbeError, ProbeOutcome};
use vid_v2::audio::FoundDevice;
use vid_v2::backend::{BackendError, BackendV2, PipelineCommand, Request, TrackKind};
use vid_v2::backend_framework::GstreamerBackendFramework;
use vid_v2::channel::{frame_channel, FrameSender, SendOutcome};
use vid_v2::clock::{ClockTime, FrameRate, FrameTime};
use vid_v2::frame::{FrameUpdate, VideoFrame, VideoInfo};
use vid_v2::play_flags::PlayFlags;
use vid_v2::playback::{FrameFetch, StateRequest, TargetState};
use vid_v2::probe::Probe;
use vid_v2::seek::{PlaybackSpeed, SeekFlags, SeekRequest};
use vid_v2::volume::{Volume, VolumeRange};

/// A backend over a pipeline that only notes what it is asked.
struct ScriptedBackend {
    core: BackendV2,
    sender: FrameSender,
    asked: Vec<PipelineCommand>,
    refuse: bool,
    flags: u32,
    tracks: [i32; 3],
    duration: Option<ClockTime>,
    devices: Option<Vec<Option<FoundDevice>>>,
}

#[derive(Debug, PartialEq)]
enum ScriptError {
    Refused(PipelineCommand),
    Backend(BackendError),
    Other(String),
}

fn slot(kind: TrackKind) -> usize {
    match kind {
        TrackKind::Video => 0,
        TrackKind::Audio => 1,
        TrackKind::Subtitle => 2,
    }
}

impl ScriptedBackend {
    fn execute(&mut self, request: Request) -> Result<(), ScriptError> {
        if self.refuse {
            return Err(ScriptError::Refused(request.command));
        }
        self.asked.push(request.command);
        match request.command {
            PipelineCommand::SelectTrack { kind, index } => self.tracks[slot(kind)] = index,
            PipelineCommand::SetFlags { bits } => self.flags = bits,
            _ => {}
        }
        self.core.succeeded(request.on_success);
        Ok(())
    }

    fn feed(&self, timecode: u64) {
        let info = VideoInfo { width: 1, height: 1, fps: FrameRate { numer: 50, denom: 1 } };
        let frame = VideoFrame { width: 1, height: 1, data: vec![0, 0, 0, 255] };
        let update = FrameUpdate { frame, timecode: ClockTime { nanos: timecode } };
        assert_eq!(self.sender.send(update, info), SendOutcome::Sent);
    }
}

impl GstreamerBackendFramework for ScriptedBackend {
    type Error = ScriptError;

    fn init(uri: &str) -> Result<Self, ScriptError> {
        let (sender, receiver) = frame_channel(1).unwrap();
        let mut this = ScriptedBackend {
            core: BackendV2::new(receiver, uri, true),
            sender,
            asked: vec![],
            refuse: false,
            flags: PlayFlags::VIDEO | PlayFlags::AUDIO | PlayFlags::SUBTITLES,
            tracks: [0, 0, -1],
            duration: None,
            devices: None,
        };
        this.stop()?;
        Ok(this)
    }

    fn update(&mut self) -> Result<Option<FrameUpdate>, ScriptError> {
        if let Some(wake) = self.core.update_plan() {
            self.execute(wake)?;
        }
        match self.core.update().map_err(ScriptError::Backend)? {
            None => Ok(None),
            Some(delivery) => {
                if let Some(restore) = delivery.restore {
                    self.execute(restore)?;
                }
                Ok(Some(self.core.handle_update((delivery.update, delivery.info))))
            }
        }
    }

    fn start(&mut self) -> Result<(), ScriptError> {
        let request = self.core.start().map_err(ScriptError::Backend)?;
        self.execute(request)
    }

    fn stop(&mut self) -> Result<(), ScriptError> {
        let request = self.core.stop().map_err(ScriptError::Backend)?;
        self.execute(request)
    }

    fn quit(&mut self) -> Result<(), ScriptError> {
        let request = self.core.quit();
        self.execute(request)
    }

    fn queue_frame_update(&mut self) {
        self.core.queue_frame_update();
    }

    fn change_playback_speed(&mut self, speed: PlaybackSpeed) -> Result<(), ScriptError> {
        let request = self.core.change_playback_speed(speed).map_err(ScriptError::Backend)?;
        self.execute(request)
    }

    fn seek_time(&mut self, seek_flags: SeekFlags, seek_to: ClockTime) -> Result<(), ScriptError> {
        let request = self.core.seek_time(seek_flags, seek_to);
        self.execute(request)
    }

    fn seek_timeline(&mut self, seek_to: ClockTime, accurate: bool) -> Result<(), ScriptError> {
        match self.core.seek_timeline(seek_to, accurate) {
            Some(request) => self.execute(request),
            None => Ok(()),
        }
    }

    fn seek_frames(&mut self, frames: i32) -> Result<(), ScriptError> {
        let request = match self.core.try_seek_frames(frames) {
            Ok(request) => request,
            Err(_) => panic!("Attempted to seek 0 frames for some reason, check logic"),
        };
        self.execute(request)
    }

    fn get_frametime(&self) -> FrameTime {
        self.core.get_frametime()
    }

    fn get_probe(&self) -> Result<&Probe, ProbeError> {
        self.core.get_probe()
    }

    fn probe_failure_text(&self) -> Option<&String> {
        self.core.probe_failure_text()
    }

    fn get_latest_vidio_info(&self) -> Option<&VideoInfo> {
        self.core.get_latest_vidio_info()
    }

    fn current_playback_speed(&self) -> PlaybackSpeed {
        self.core.current_playback_speed()
    }

    fn get_predicted_state(&self) -> TargetState {
        self.core.get_predicted_state()
    }

    fn timecode(&self) -> ClockTime {
        self.core.timecode()
    }

    fn get_duration(&self) -> Result<ClockTime, ScriptError> {
        Ok(self.core.get_duration(self.duration))
    }

    fn get_sub_track(&self) -> Result<u32, ScriptError> {
        Ok(self.core.current_track(self.tracks[2]))
    }

    fn set_sub_track(&mut self, track: u32) -> Result<(), ScriptError> {
        let request = self.core.select_track(TrackKind::Subtitle, track);
        self.execute(request)
    }

    fn get_audio_track(&self) -> Result<u32, ScriptError> {
        Ok(self.core.current_track(self.tracks[1]))
    }

    fn set_audio_track(&mut self, track: u32) -> Result<(), ScriptError> {
        let request = self.core.select_track(TrackKind::Audio, track);
        self.execute(request)
    }

    fn get_video_track(&self) -> Result<u32, ScriptError> {
        Ok(self.core.current_track(self.tracks[0]))
    }

    fn set_video_track(&mut self, track: u32) -> Result<(), ScriptError> {
        let request = self.core.select_track(TrackKind::Video, track);
        self.execute(request)
    }

    fn set_audio_device(&mut self, device: &str) -> Result<(), ScriptError> {
        let switch = self.core.set_audio_device(device).map_err(ScriptError::Backend)?;
        if self.refuse {
            return Err(ScriptError::Other("no such device".to_string()));
        }
        self.asked.push(PipelineCommand::SetState(StateRequest::Quit));
        if let Some(request) = switch.state.restore_request() {
            self.asked.push(PipelineCommand::SetState(request));
        }
        self.asked.push(PipelineCommand::Seek(switch.resume));
        self.core.audio_device_changed(switch.device);
        Ok(())
    }

    fn list_audio_devices(&self) -> Result<Vec<(String, String)>, ScriptError> {
        self.core
            .list_audio_devices(self.devices.as_ref())
            .map_err(|e| ScriptError::Other(e.message().to_string()))
    }

    fn get_current_audio_device(&self) -> Option<String> {
        self.core.get_current_audio_device()
    }

    fn get_current_volume(&self) -> Volume {
        self.core.get_current_volume()
    }

    fn get_volume_range(&self) -> VolumeRange {
        self.core.get_volume_range()
    }

    fn set_volume(&mut self, to: Volume) -> Result<(), ScriptError> {
        let request = self.core.set_volume(to);
        self.execute(request)
    }

    fn toggle_playflag(&mut self, set_to: bool, flag: u32) -> Result<(), ScriptError> {
        let request = self.core.toggle_playflag(self.flags, set_to, flag);
        self.execute(request)
    }

    fn get_playflag_state(&self, flag: u32) -> Result<bool, ScriptError> {
        Ok(self.core.get_playflag_state(self.flags, flag))
    }
}

fn play() -> PipelineCommand {
    PipelineCommand::SetState(StateRequest::Play)
}

fn pause() -> PipelineCommand {
    PipelineCommand::SetState(StateRequest::Pause)
}

#[test]
fn opened_backend_is_paused_and_wants_a_frame() {
    let b = ScriptedBackend::init("file:///a.mkv").unwrap();
    assert_eq!(b.asked, vec![pause()]);
    assert!(b.is_paused());
    assert!(!b.is_playing());
    assert_eq!(b.get_predicted_state(), TargetState::Paused);
    assert_eq!(b.core.frame_fetch(), FrameFetch::Requested);
}

#[test]
fn predicates_report_the_target_state() {
    let mut b = ScriptedBackend::init("u").unwrap();
    b.start().unwrap();
    assert!(b.is_playing());
    assert!(!b.is_paused());
    b.stop().unwrap();
    assert!(b.is_paused());
    assert!(!b.is_playing());
    b.quit().unwrap();
    assert!(!b.is_paused());
    assert!(!b.is_playing());
}

#[test]
fn ticks_on_an_empty_channel() {
    let mut b = ScriptedBackend::init("u").unwrap();
    b.feed(10);
    assert_eq!(b.update().unwrap().unwrap().timecode.nanos, 10);
    b.asked.clear();
    for _ in 0..10 {
        assert!(b.update().unwrap().is_none());
    }
    assert!(b.asked.is_empty());
    assert_eq!(b.timecode().nanos, 10);
    assert_eq!(b.get_latest_vidio_info().unwrap().fps, FrameRate { numer: 50, denom: 1 });
    assert_eq!(b.get_frametime(), FrameTime { numer: 1, denom: 50 });
}

#[test]
fn first_frame_comes_over_two_ticks() {
    let mut b = ScriptedBackend::init("u").unwrap();
    b.asked.clear();
    assert!(b.update().unwrap().is_none());
    assert_eq!(b.asked, vec![play()]);
    assert_eq!(b.get_predicted_state(), TargetState::Playing);
    assert_eq!(b.core.frame_fetch(), FrameFetch::InProgress { start_state: TargetState::Paused });
    assert!(b.update().unwrap().is_none());
    assert_eq!(b.asked, vec![play()]);
    b.feed(40_000_000);
    let frame = b.update().unwrap().unwrap();
    assert_eq!(frame.timecode.nanos, 40_000_000);
    assert_eq!(b.asked, vec![play(), pause()]);
    assert_eq!(b.get_predicted_state(), TargetState::Paused);
    assert_eq!(b.core.frame_fetch(), FrameFetch::Idle);
    assert_eq!(b.timecode().nanos, 40_000_000);
}

#[test]
fn fetch_while_playing_keeps_playing() {
    let mut b = ScriptedBackend::init("u").unwrap();
    b.start().unwrap();
    b.asked.clear();
    b.feed(1);
    assert!(b.update().unwrap().is_some());
    assert_eq!(b.asked, vec![play(), play()]);
    assert!(b.is_playing());
    b.feed(2);
    assert!(b.update().unwrap().is_some());
    assert_eq!(b.asked, vec![play(), play()]);
}

#[test]
fn refused_wake_fails_the_tick_and_is_tried_again() {
    let mut b = ScriptedBackend::init("u").unwrap();
    b.asked.clear();
    b.refuse = true;
    b.feed(5);
    assert_eq!(b.update().err(), Some(ScriptError::Refused(play())));
    assert_eq!(b.core.frame_fetch(), FrameFetch::Requested);
    assert!(b.is_paused());
    assert_eq!(b.timecode().nanos, 0);
    b.refuse = false;
    assert_eq!(b.update().unwrap().unwrap().timecode.nanos, 5);
    assert_eq!(b.asked, vec![play(), pause()]);
    assert!(b.is_paused());
}

#[test]
fn refused_restore_drops_the_frame() {
    let mut b = ScriptedBackend::init("u").unwrap();
    assert!(b.update().unwrap().is_none());
    b.feed(5);
    b.refuse = true;
    assert_eq!(b.update().err(), Some(ScriptError::Refused(pause())));
    assert_eq!(b.timecode().nanos, 0);
    assert!(b.get_latest_vidio_info().is_none());
    assert_eq!(b.core.frame_fetch(), FrameFetch::Idle);
    assert_eq!(b.get_predicted_state(), TargetState::Playing);
}

#[test]
fn refused_state_change_keeps_the_target() {
    let mut b = ScriptedBackend::init("u").unwrap();
    b.refuse = true;
    assert_eq!(b.start().err(), Some(ScriptError::Refused(play())));
    assert!(b.is_paused());
}

#[test]
fn step_queues_a_fresh_frame() {
    let mut b = ScriptedBackend::init("u").unwrap();
    b.feed(1_000_000_000);
    b.update().unwrap();
    b.asked.clear();
    b.seek_frames(-5).unwrap();
    assert_eq!(
        b.asked,
        vec![PipelineCommand::Seek(SeekRequest {
            rate: PlaybackSpeed { permille: 1000 },
            flags: SeekFlags { bits: 1 },
            start: ClockTime { nanos: 900_000_000 },
        })]
    );
    assert_eq!(b.core.frame_fetch(), FrameFetch::Requested);
    b.feed(900_000_000);
    assert_eq!(b.update().unwrap().unwrap().timecode.nanos, 900_000_000);
    b.seek_frames(2).unwrap();
    assert_eq!(b.asked.last(), Some(&PipelineCommand::Step { frames: 2 }));
    assert_eq!(b.core.frame_fetch(), FrameFetch::Requested);
}

#[test]
fn refused_step_queues_nothing() {
    let mut b = ScriptedBackend::init("u").unwrap();
    b.feed(1);
    b.update().unwrap();
    b.refuse = true;
    assert!(b.seek_frames(3).is_err());
    assert!(b.seek_frames(-3).is_err());
    assert_eq!(b.core.frame_fetch(), FrameFetch::Idle);
}

#[test]
fn timeline_seek_during_a_fetch_asks_nothing() {
    let mut b = ScriptedBackend::init("u").unwrap();
    assert!(b.update().unwrap().is_none());
    b.asked.clear();
    b.seek_timeline(ClockTime { nanos: 7 }, true).unwrap();
    assert!(b.asked.is_empty());
    b.feed(1);
    b.update().unwrap();
    b.asked.clear();
    b.seek_timeline(ClockTime { nanos: 7 }, false).unwrap();
    assert_eq!(
        b.asked,
        vec![PipelineCommand::Seek(SeekRequest {
            rate: PlaybackSpeed { permille: 1000 },
            flags: SeekFlags { bits: 5 },
            start: ClockTime { nanos: 7 },
        })]
    );
}

#[test]
fn speed_persists_over_later_seeks() {
    let mut b = ScriptedBackend::init("u").unwrap();
    b.feed(3_000);
    b.update().unwrap();
    b.asked.clear();
    b.change_playback_speed(PlaybackSpeed { permille: 2000 }).unwrap();
    b.seek_time(SeekFlags { bits: 2 }, ClockTime { nanos: 10 }).unwrap();
    b.seek_timeline(ClockTime { nanos: 20 }, true).unwrap();
    let rates: Vec<u32> = b
        .asked
        .iter()
        .map(|c| match c {
            PipelineCommand::Seek(seek) => seek.rate.permille,
            _ => 0,
        })
        .collect();
    assert_eq!(rates, vec![2000, 2000, 2000]);
    assert_eq!(
        b.asked[0],
        PipelineCommand::Seek(SeekRequest {
            rate: PlaybackSpeed { permille: 2000 },
            flags: SeekFlags { bits: 1 },
            start: ClockTime { nanos: 3_000 },
        })
    );
    assert_eq!(b.timecode().nanos, 3_000);
    assert_eq!(
        b.change_playback_speed(PlaybackSpeed { permille: 0 }).err(),
        Some(ScriptError::Backend(BackendError::InvalidSpeed))
    );
    assert_eq!(b.current_playback_speed().permille, 2000);
}

#[test]
fn tracks_flags_volume_and_duration() {
    let mut b = ScriptedBackend::init("u").unwrap();
    assert_eq!(b.get_sub_track().unwrap(), u32::MAX);
    b.set_sub_track(1).unwrap();
    assert_eq!(b.get_sub_track().unwrap(), 1);
    b.set_audio_track(2).unwrap();
    assert_eq!(b.get_audio_track().unwrap(), 2);
    b.set_video_track(0).unwrap();
    assert_eq!(b.get_video_track().unwrap(), 0);
    assert!(b.get_playflag_state(PlayFlags::SUBTITLES).unwrap());
    b.toggle_playflag(false, PlayFlags::SUBTITLES).unwrap();
    assert!(!b.get_playflag_state(PlayFlags::SUBTITLES).unwrap());
    assert!(b.get_playflag_state(PlayFlags::AUDIO).unwrap());
    b.toggle_playflag(true, PlayFlags::VIS).unwrap();
    assert_eq!(b.flags, PlayFlags::VIDEO | PlayFlags::AUDIO | PlayFlags::VIS);
    b.set_volume(Volume { permille: 9_999 }).unwrap();
    assert_eq!(b.get_current_volume(), Volume { permille: 5000 });
    assert_eq!(b.asked.last(), Some(&PipelineCommand::SetVolume(Volume { permille: 5000 })));
    assert_eq!(b.get_volume_range().end, Volume { permille: 5000 });
    assert_eq!(b.get_duration().unwrap(), ClockTime::zero());
    b.duration = Some(ClockTime { nanos: 60_000_000_000 });
    assert_eq!(b.get_duration().unwrap().nanos, 60_000_000_000);
}

#[test]
fn audio_device_switch_and_list() {
    let mut b = ScriptedBackend::init("u").unwrap();
    assert_eq!(b.list_audio_devices().err(), Some(ScriptError::Other("Couldn't get collection".to_string())));
    b.devices = Some(vec![Some(FoundDevice {
        friendly_name: Some("Speakers".to_string()),
        id: Some("{1}".to_string()),
    })]);
    assert_eq!(
        b.list_audio_devices().unwrap(),
        vec![("Speakers".to_string(), "{1}".to_string())]
    );
    b.asked.clear();
    b.set_audio_device("{1}").unwrap();
    assert_eq!(b.asked.len(), 3);
    assert_eq!(b.asked[1], pause());
    assert_eq!(b.get_current_audio_device(), Some("{1}".to_string()));
    b.refuse = true;
    assert!(b.set_audio_device("{2}").is_err());
    assert_eq!(b.get_current_audio_device(), Some("{1}".to_string()));
}

#[test]
fn probe_through_the_interface() {
    let mut b = ScriptedBackend::init("file:///a.mkv").unwrap();
    assert_eq!(b.get_probe().err(), Some(ProbeError::NotReady));
    let ticket = b.core.probe_ticket();
    let probe = Probe::from_streams("file:///a.mkv", &vec![], &vec![], &vec![]);
    assert!(b.core.probe_finished(ticket, ProbeOutcome::Found(probe)));
    assert_eq!(b.get_probe().unwrap().uri, "file:///a.mkv");
    assert!(b.update().unwrap().is_none());
    assert_eq!(b.get_probe().unwrap().uri, "file:///a.mkv");
}

#[test]
fn failed_discovery_tells_its_reason_through_the_interface() {
    let mut b = ScriptedBackend::init("file:///a.mkv").unwrap();
    assert_eq!(b.probe_failure_text(), None);
    let ticket = b.core.probe_ticket();
    let reason = "Timeout while discovering".to_string();
    assert!(b.core.probe_finished(ticket, ProbeOutcome::DiscoveryFailed(reason.clone())));
    assert_eq!(b.get_probe().err(), Some(ProbeError::DiscoveryFailed));
    assert_eq!(b.probe_failure_text(), Some(&reason));
    assert_eq!(b.core.probe_ticket(), ticket);
}

#[test]
fn stopped_backend_ticks_without_touching_the_pipeline() {
    let mut b = ScriptedBackend::init("u").unwrap();
    b.quit().unwrap();
    b.asked.clear();
    assert!(b.update().unwrap().is_none());
    b.feed(1);
    assert_eq!(b.update().unwrap().unwrap().timecode.nanos, 1);
    assert_eq!(b.timecode().nanos, 1);
    assert!(b.update().unwrap().is_none());
    assert_eq!(b.start().err(), Some(ScriptError::Backend(BackendError::Stopped)));
    assert_eq!(b.stop().err(), Some(ScriptError::Backend(BackendError::Stopped)));
    assert!(b.asked.is_empty());
    b.quit().unwrap();
    assert_eq!(b.asked, vec![PipelineCommand::SetState(StateRequest::Quit)]);
    assert_eq!(b.get_predicted_state(), TargetState::Stopped);
}
