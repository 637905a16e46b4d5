//! Engine-independent core of a video playback backend.
//!
//! A player sits between a multimedia pipeline, which decodes on its own
//! threads and changes state when it pleases, and a redraw loop that polls
//! once per tick. This crate holds everything on that seam that can be
//! decided without the pipeline in hand: which state the caller intends, when
//! a paused pipeline has to be woken for a single frame, where a seek or a
//! frame step lands, which metadata is known, and what the pipeline has to be
//! asked next. The caller performs the requests and reports what came back.

pub mod async_probe;
pub mod audio;
pub mod backend;
pub mod backend_framework;
pub mod channel;
pub mod clock;
pub mod custom_log;
pub mod frame;
pub mod fullscreen;
pub mod play_flags;
pub mod playback;
pub mod probe;
pub mod seek;
pub mod texture;
pub mod uri;
pub mod volume;
