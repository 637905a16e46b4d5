//! The interface between a presentation layer and a playback backend that
//! has its pipeline in hand.
//!
//! A backend of this kind carries out what [`crate::backend::BackendV2`]
//! decides: each method asks the pipeline and answers at once. A
//! presentation layer written against the trait works with any of them.

use vstd::prelude::*;
use crate::async_probe::ProbeError;
use crate::clock::{ClockTime, FrameTime};
use crate::frame::{FrameUpdate, VideoInfo};
use crate::playback::TargetState;
use crate::probe::Probe;
use crate::seek::{PlaybackSpeed, SeekFlags};
use crate::volume::{Volume, VolumeRange};

verus! {

pub trait GstreamerBackendFramework: Sized {
    /// How an operation on the pipeline fails.
    type Error;

    /// Opens the medium at `uri`, paused.
    fn init(uri: &str) -> Result<Self, Self::Error>;

    /// One tick: the frame that is due, if there is one. `Ok(None)` says
    /// that there is none this tick, which is no failure.
    fn update(&mut self) -> Result<Option<FrameUpdate>, Self::Error>;

    fn start(&mut self) -> Result<(), Self::Error>;

    fn stop(&mut self) -> Result<(), Self::Error>;

    fn quit(&mut self) -> Result<(), Self::Error>;

    fn queue_frame_update(&mut self);

    fn change_playback_speed(&mut self, speed: PlaybackSpeed) -> Result<(), Self::Error>;

    fn seek_time(&mut self, seek_flags: SeekFlags, seek_to: ClockTime) -> Result<(), Self::Error>;

    fn seek_timeline(&mut self, seek_to: ClockTime, accurate: bool) -> Result<(), Self::Error>;

    /// Steps `frames` frames, ahead or back. Zero frames are no step.
    fn seek_frames(&mut self, frames: i32) -> Result<(), Self::Error>
        requires
            frames != 0,
    ;

    fn get_frametime(&self) -> FrameTime;

    /// Whether playing is the intended state: the answer is read off what
    /// [`GstreamerBackendFramework::get_predicted_state`] answers.
    fn is_playing(&self) -> (b: bool)
        ensures
            exists|state: TargetState|
                call_ensures(Self::get_predicted_state, (self,), state) && b == (state
                    == TargetState::Playing),
    {
        self.get_predicted_state() == TargetState::Playing
    }

    /// Whether paused is the intended state: the answer is read off what
    /// [`GstreamerBackendFramework::get_predicted_state`] answers.
    fn is_paused(&self) -> (b: bool)
        ensures
            exists|state: TargetState|
                call_ensures(Self::get_predicted_state, (self,), state) && b == (state
                    == TargetState::Paused),
    {
        self.get_predicted_state() == TargetState::Paused
    }

    fn get_probe(&self) -> Result<&Probe, ProbeError>;

    /// The reason that a failed discovery gave, for the presentation layer to
    /// show. A backend that keeps no such text has none to give.
    fn probe_failure_text(&self) -> Option<&String> {
        None
    }

    fn get_latest_vidio_info(&self) -> Option<&VideoInfo>;

    fn current_playback_speed(&self) -> PlaybackSpeed;

    /// The state that was last asked for and accepted.
    fn get_predicted_state(&self) -> TargetState;

    fn timecode(&self) -> ClockTime;

    fn get_duration(&self) -> Result<ClockTime, Self::Error>;

    fn get_sub_track(&self) -> Result<u32, Self::Error>;

    fn set_sub_track(&mut self, track: u32) -> Result<(), Self::Error>;

    fn get_audio_track(&self) -> Result<u32, Self::Error>;

    fn set_audio_track(&mut self, track: u32) -> Result<(), Self::Error>;

    fn get_video_track(&self) -> Result<u32, Self::Error>;

    fn set_video_track(&mut self, track: u32) -> Result<(), Self::Error>;

    fn set_audio_device(&mut self, device: &str) -> Result<(), Self::Error>;

    fn list_audio_devices(&self) -> Result<Vec<(String, String)>, Self::Error>;

    fn get_current_audio_device(&self) -> Option<String>;

    fn get_current_volume(&self) -> Volume;

    fn get_volume_range(&self) -> VolumeRange;

    fn set_volume(&mut self, to: Volume) -> Result<(), Self::Error>;

    fn toggle_playflag(&mut self, set_to: bool, flag: u32) -> Result<(), Self::Error>;

    fn get_playflag_state(&self, flag: u32) -> Result<bool, Self::Error>;
}

} // verus!
