//! The bounded hand-off of decoded frames from the pipeline's callback thread
//! to the polling side.
//!
//! The channel holds one or two frames: it bounds how stale a frame can be,
//! it is no buffer. The producer waits a bounded time for room and then gives
//! the frame up; the consumer polls without waiting.

use vstd::prelude::*;
use crate::frame::{FrameUpdate, VideoInfo};

verus! {

/// Milliseconds that the producer waits for room before it drops a frame.
pub const SEND_TIMEOUT_MS: u64 = 500;

#[verifier::external_type_specification]
#[verifier::external_body]
#[verifier::reject_recursive_types(T)]
pub struct ExReceiver<T>(crossbeam_channel::Receiver<T>);

#[verifier::external_type_specification]
#[verifier::external_body]
#[verifier::reject_recursive_types(T)]
pub struct ExSender<T>(crossbeam_channel::Sender<T>);

/// The capacity that a channel was made with, as
/// `crossbeam_channel::Receiver::capacity` reports it.
pub uninterp spec fn channel_capacity(
    receiver: crossbeam_channel::Receiver<(FrameUpdate, VideoInfo)>,
) -> Option<usize>;

/// Why the consumer got no frame.
#[derive(Clone, Copy, Debug, PartialEq, Eq, Structural)]
pub enum RecvFailure {
    /// Nothing is waiting in the channel.
    Empty,
    /// Nothing is waiting and every sender is gone.
    Disconnected,
}

/// What became of a frame that the producer offered.
#[derive(Clone, Copy, Debug, PartialEq, Eq, Structural)]
pub enum SendOutcome {
    /// The frame is in the channel.
    Sent,
    /// The channel stayed full for the whole wait; the frame was dropped.
    TimedOut,
    /// The receiver is gone; the frame was dropped.
    Disconnected,
}

/// The producer's end of the frame channel.
pub struct FrameSender {
    inner: crossbeam_channel::Sender<(FrameUpdate, VideoInfo)>,
}

/// The consumer's end of the frame channel.
pub struct FrameReceiver {
    inner: crossbeam_channel::Receiver<(FrameUpdate, VideoInfo)>,
}

/// `crossbeam_channel::bounded`: a channel that holds at most `capacity`
/// messages. The receiver reports that capacity. Zero, which would make a
/// rendezvous channel, and sizes too large to allocate are left out.
#[verifier::external_body]
fn bounded_frames(capacity: usize) -> (ends: (
    crossbeam_channel::Sender<(FrameUpdate, VideoInfo)>,
    crossbeam_channel::Receiver<(FrameUpdate, VideoInfo)>,
))
    requires
        1 <= capacity <= 2,
    ensures
        channel_capacity(ends.1) == Some(capacity),
{
    crossbeam_channel::bounded(capacity)
}

/// `crossbeam_channel::Receiver::capacity`.
#[verifier::external_body]
fn capacity_of(receiver: &crossbeam_channel::Receiver<(FrameUpdate, VideoInfo)>) -> (c: Option<
    usize,
>)
    ensures
        c == channel_capacity(*receiver),
{
    receiver.capacity()
}

/// `crossbeam_channel::Receiver::try_recv`: takes a waiting message without
/// blocking. What is waiting depends on the sending thread, so nothing is
/// claimed of the result.
#[verifier::external_body]
fn try_recv_frame(receiver: &crossbeam_channel::Receiver<(FrameUpdate, VideoInfo)>) -> Result<
    (FrameUpdate, VideoInfo),
    RecvFailure,
> {
    match receiver.try_recv() {
        Ok(message) => Ok(message),
        Err(crossbeam_channel::TryRecvError::Empty) => Err(RecvFailure::Empty),
        Err(crossbeam_channel::TryRecvError::Disconnected) => Err(RecvFailure::Disconnected),
    }
}

/// `crossbeam_channel::Receiver::recv`: waits until a message arrives or
/// every sender is gone. Its one failure says that the channel is empty and
/// disconnected, so a failure here is never that of a channel that is merely
/// empty. Which message arrives depends on the sending thread, and nothing is
/// claimed of it.
#[verifier::external_body]
fn recv_frame(receiver: &crossbeam_channel::Receiver<(FrameUpdate, VideoInfo)>) -> (r: Result<
    (FrameUpdate, VideoInfo),
    RecvFailure,
>)
    ensures
        r matches Err(failure) ==> failure == RecvFailure::Disconnected,
{
    match receiver.recv() {
        Ok(message) => Ok(message),
        Err(crossbeam_channel::RecvError) => Err(RecvFailure::Disconnected),
    }
}

/// `crossbeam_channel::Sender::send_timeout`: waits at most `millis`
/// milliseconds for room. Whether there is room depends on the receiving
/// thread, so nothing is claimed of the result.
#[verifier::external_body]
fn send_frame_timeout(
    sender: &crossbeam_channel::Sender<(FrameUpdate, VideoInfo)>,
    update: FrameUpdate,
    info: VideoInfo,
    millis: u64,
) -> SendOutcome {
    match sender.send_timeout((update, info), std::time::Duration::from_millis(millis)) {
        Ok(()) => SendOutcome::Sent,
        Err(crossbeam_channel::SendTimeoutError::Timeout(_)) => SendOutcome::TimedOut,
        Err(crossbeam_channel::SendTimeoutError::Disconnected(_)) => SendOutcome::Disconnected,
    }
}

/// Makes a frame channel for `capacity` frames; `None` unless that is one or
/// two.
pub fn frame_channel(capacity: usize) -> (ends: Option<(FrameSender, FrameReceiver)>)
    ensures
        ends is Some <==> 1 <= capacity <= 2,
        ends matches Some((_, receiver)) ==> receiver.capacity_spec() == capacity,
{
    if capacity < 1 || capacity > 2 {
        return None;
    }
    let (sender, receiver) = bounded_frames(capacity);
    Some((FrameSender { inner: sender }, FrameReceiver { inner: receiver }))
}

impl FrameSender {
    /// Offers a frame to the consumer, waiting at most [`SEND_TIMEOUT_MS`]
    /// for room. A frame that finds none is dropped: a slow consumer must not
    /// stall the decoding thread.
    pub fn send(&self, update: FrameUpdate, info: VideoInfo) -> SendOutcome {
        send_frame_timeout(&self.inner, update, info, SEND_TIMEOUT_MS)
    }
}

impl FrameReceiver {
    #[verifier::type_invariant]
    spec fn bounded_to_two(self) -> bool {
        channel_capacity(self.inner) matches Some(n) && 1 <= n <= 2
    }

    /// Frames that the channel can hold.
    pub closed spec fn capacity_spec(&self) -> nat {
        channel_capacity(self.inner)->0 as nat
    }

    /// Frames that the channel can hold: one or two.
    pub fn capacity(&self) -> (c: usize)
        ensures
            c == self.capacity_spec(),
            1 <= c <= 2,
    {
        proof {
            use_type_invariant(self);
        }
        match capacity_of(&self.inner) {
            Some(c) => c,
            None => 1,
        }
    }

    /// Takes the waiting frame, if there is one, without blocking.
    pub fn try_recv(&self) -> Result<(FrameUpdate, VideoInfo), RecvFailure> {
        try_recv_frame(&self.inner)
    }

    /// Waits for the next frame. This returns only when a frame arrives or
    /// the producer is gone: call it only on a pipeline that is playing. An
    /// empty channel is waited on, never reported.
    pub fn recv(&self) -> (r: Result<(FrameUpdate, VideoInfo), RecvFailure>)
        ensures
            r matches Err(failure) ==> failure == RecvFailure::Disconnected,
    {
        recv_frame(&self.inner)
    }
}

} // verus!
