//! Decoded frames as they leave the pipeline, and what a pipeline sample has
//! to hold to become one.

use vstd::prelude::*;
use crate::clock::{ClockTime, FrameRate};

verus! {

/// Bytes that a packed four-channel picture of the given size takes.
pub open spec fn packed_len(width: u32, height: u32) -> nat {
    (4 * width * height) as nat
}

/// Geometry and frame rate of the video that a frame belongs to.
#[derive(Clone, Copy, Debug, PartialEq, Eq, Structural)]
pub struct VideoInfo {
    pub width: u32,
    pub height: u32,
    pub fps: FrameRate,
}

/// A decoded picture: four bytes per pixel, rows packed one after the other.
#[derive(Debug)]
pub struct VideoFrame {
    pub width: u32,
    pub height: u32,
    pub data: Vec<u8>,
}

/// One decoded frame with the time at which it is to be shown.
#[derive(Debug)]
pub struct FrameUpdate {
    pub frame: VideoFrame,
    pub timecode: ClockTime,
}

/// The buffer of a pipeline sample: its presentation time, if it has one, and
/// the bytes of its first plane, where they could be mapped for reading.
#[derive(Debug)]
pub struct SampleBuffer {
    pub pts: Option<ClockTime>,
    pub plane: Option<Vec<u8>>,
}

/// The capabilities of a sample: the video format that they describe, if they
/// describe one.
#[derive(Clone, Copy, Debug)]
pub struct Caps {
    pub video_info: Option<VideoInfo>,
}

/// What the pipeline hands to its frame callback.
#[derive(Debug)]
pub struct Sample {
    pub buffer: Option<SampleBuffer>,
    pub caps: Option<Caps>,
}

/// Why a sample did not yield a frame.
#[derive(Clone, Copy, Debug, PartialEq, Eq, Structural)]
pub enum FrameError {
    /// The sample holds no buffer.
    NoBuffer,
    /// The sample holds no capabilities.
    NoCaps,
    /// The capabilities describe no video format.
    InvalidCaps,
    /// The buffer has no presentation time.
    NoTimecode,
    /// The buffer could not be read as a picture of the announced size.
    FrameUnreadable,
}

impl FrameError {
    /// What went wrong, in words.
    pub open spec fn text(self) -> Seq<char> {
        match self {
            FrameError::NoBuffer => "No buffer"@,
            FrameError::NoCaps => "No caps"@,
            FrameError::InvalidCaps => "Caps describe no video"@,
            FrameError::NoTimecode => "No timecode in video frame"@,
            FrameError::FrameUnreadable => "Failed to grab frame"@,
        }
    }

    /// What went wrong, in words.
    pub fn message(&self) -> (m: &'static str)
        ensures
            m@ == self.text(),
    {
        match self {
            FrameError::NoBuffer => "No buffer",
            FrameError::NoCaps => "No caps",
            FrameError::InvalidCaps => "Caps describe no video",
            FrameError::NoTimecode => "No timecode in video frame",
            FrameError::FrameUnreadable => "Failed to grab frame",
        }
    }
}

impl VideoFrame {
    /// The frame holds exactly the bytes of a picture of its size.
    pub open spec fn is_packed(&self) -> bool {
        self.data@.len() == packed_len(self.width, self.height)
    }
}

/// The first thing that a sample lacks to yield a frame, if it lacks any.
pub open spec fn sample_defect(sample: Sample) -> Option<FrameError> {
    if sample.buffer is None {
        Some(FrameError::NoBuffer)
    } else if sample.caps is None {
        Some(FrameError::NoCaps)
    } else if sample.caps->0.video_info is None {
        Some(FrameError::InvalidCaps)
    } else if sample.buffer->0.pts is None {
        Some(FrameError::NoTimecode)
    } else if sample.buffer->0.plane is None {
        Some(FrameError::FrameUnreadable)
    } else if sample.buffer->0.plane->0@.len() < packed_len(
        sample.caps->0.video_info->0.width,
        sample.caps->0.video_info->0.height,
    ) {
        Some(FrameError::FrameUnreadable)
    } else {
        None
    }
}

impl FrameUpdate {
    /// Turns a pipeline sample into a frame and the video format it came in.
    /// Of a plane with more bytes than the picture takes, the picture's bytes
    /// are kept.
    pub fn from_sample(sample: Sample) -> (r: Result<(FrameUpdate, VideoInfo), FrameError>)
        ensures
            r matches Err(e) ==> sample_defect(sample) == Some(e),
            r matches Ok((update, info)) ==> {
                &&& sample_defect(sample) is None
                &&& info == sample.caps->0.video_info->0
                &&& update.timecode == sample.buffer->0.pts->0
                &&& update.frame.width == info.width
                &&& update.frame.height == info.height
                &&& update.frame.data@ == sample.buffer->0.plane->0@.take(
                    packed_len(info.width, info.height) as int,
                )
                &&& update.frame.is_packed()
            },
    {
        let buffer = match sample.buffer {
            Some(buffer) => buffer,
            None => { return Err(FrameError::NoBuffer); },
        };
        let caps = match sample.caps {
            Some(caps) => caps,
            None => { return Err(FrameError::NoCaps); },
        };
        let info = match caps.video_info {
            Some(info) => info,
            None => { return Err(FrameError::InvalidCaps); },
        };
        let timecode = match buffer.pts {
            Some(pts) => pts,
            None => { return Err(FrameError::NoTimecode); },
        };
        let mut data = match buffer.plane {
            Some(plane) => plane,
            None => { return Err(FrameError::FrameUnreadable); },
        };
        let wide: u128 = info.width as u128;
        let high: u128 = info.height as u128;
        assert(4 * wide * high <= 4 * 0xffff_ffff * 0xffff_ffff) by (nonlinear_arith)
            requires
                wide <= 0xffff_ffff,
                high <= 0xffff_ffff,
        ;
        let need: u128 = 4 * wide * high;
        if (data.len() as u128) < need {
            return Err(FrameError::FrameUnreadable);
        }
        data.truncate(need as usize);
        let frame = VideoFrame { width: info.width, height: info.height, data };
        Ok((FrameUpdate { frame, timecode }, info))
    }
}

} // verus!
