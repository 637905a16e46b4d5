//! The state that the caller intends the pipeline to be in, and the
//! bookkeeping that lets a paused pipeline give out exactly one fresh frame.
//!
//! A pipeline changes state in its own time, so the state tracked here is the
//! one that was last asked for and accepted, not the one the pipeline is in.
//! A frame fetch runs over several ticks: the pipeline is set playing, a
//! later poll finds the frame, and the state from before the fetch comes
//! back.

use vstd::prelude::*;

verus! {

/// The playback state that the caller intends.
#[derive(Clone, Copy, Debug, PartialEq, Eq, Structural)]
pub enum TargetState {
    /// No state was asked for yet.
    Uninitialized,
    /// Ready to play, showing the current frame.
    Paused,
    /// Running.
    Playing,
    /// Torn down. Nothing leaves this state.
    Stopped,
}

/// A state that the pipeline can be asked to enter.
#[derive(Clone, Copy, Debug, PartialEq, Eq, Structural)]
pub enum StateRequest {
    Play,
    Pause,
    Quit,
}

/// Where a forced frame fetch stands.
#[derive(Clone, Copy, Debug, PartialEq, Eq, Structural)]
pub enum FrameFetch {
    /// No frame was asked for.
    Idle,
    /// A frame was asked for; the pipeline has not been woken for it yet.
    Requested,
    /// The pipeline was set playing to produce the frame. `start_state` is
    /// the target state from before.
    InProgress { start_state: TargetState },
}

/// Target state and frame fetch together.
#[derive(Clone, Copy, Debug, PartialEq, Eq, Structural)]
pub struct PlaybackStateMachine {
    pub target_state: TargetState,
    pub fetch: FrameFetch,
}

/// What has to happen before the frame channel is polled.
#[derive(Clone, Copy, Debug, PartialEq, Eq, Structural)]
pub enum FetchPlan {
    /// Nothing: poll.
    Poll,
    /// Set the pipeline playing, then poll.
    WakeThenPoll,
}

impl StateRequest {
    /// The target state that an accepted request leads to.
    pub open spec fn target(self) -> TargetState {
        match self {
            StateRequest::Play => TargetState::Playing,
            StateRequest::Pause => TargetState::Paused,
            StateRequest::Quit => TargetState::Stopped,
        }
    }

    pub fn target_state(self) -> (t: TargetState)
        ensures
            t == self.target(),
    {
        match self {
            StateRequest::Play => TargetState::Playing,
            StateRequest::Pause => TargetState::Paused,
            StateRequest::Quit => TargetState::Stopped,
        }
    }
}

impl TargetState {
    /// The request that brings a pipeline back to this state after a frame
    /// fetch. Only a paused or playing state is brought back.
    pub open spec fn restoring_request(self) -> Option<StateRequest> {
        match self {
            TargetState::Paused => Some(StateRequest::Pause),
            TargetState::Playing => Some(StateRequest::Play),
            _ => None,
        }
    }

    pub fn restore_request(self) -> (r: Option<StateRequest>)
        ensures
            r == self.restoring_request(),
    {
        match self {
            TargetState::Paused => Some(StateRequest::Pause),
            TargetState::Playing => Some(StateRequest::Play),
            _ => None,
        }
    }
}

impl FrameFetch {
    /// A frame was asked for and has not arrived.
    pub open spec fn queued(self) -> bool {
        self != FrameFetch::Idle
    }

    /// The pipeline was woken for the frame.
    pub open spec fn in_progress(self) -> bool {
        self is InProgress
    }

    pub fn is_queued(self) -> (b: bool)
        ensures
            b == self.queued(),
    {
        match self {
            FrameFetch::Idle => false,
            _ => true,
        }
    }

    pub fn is_in_progress(self) -> (b: bool)
        ensures
            b == self.in_progress(),
    {
        match self {
            FrameFetch::InProgress { .. } => true,
            _ => false,
        }
    }
}

impl PlaybackStateMachine {
    /// The machine of a fresh backend: no state yet, and a frame asked for,
    /// so that at least one frame is shown at the start.
    pub open spec fn initial() -> PlaybackStateMachine {
        PlaybackStateMachine {
            target_state: TargetState::Uninitialized,
            fetch: FrameFetch::Requested,
        }
    }

    /// The machine after the pipeline accepted `request`. A stopped machine
    /// stays as it is.
    pub open spec fn entered(self, request: StateRequest) -> PlaybackStateMachine {
        if self.target_state == TargetState::Stopped {
            self
        } else {
            PlaybackStateMachine { target_state: request.target(), ..self }
        }
    }

    /// The machine after a frame was asked for.
    pub open spec fn queued(self) -> PlaybackStateMachine {
        if self.fetch == FrameFetch::Idle {
            PlaybackStateMachine { fetch: FrameFetch::Requested, ..self }
        } else {
            self
        }
    }

    /// What has to happen before the next poll: a wake-up, where a frame was
    /// requested and the pipeline was not woken for it yet. A stopped machine
    /// is never woken, so there the poll comes at once.
    pub open spec fn plan(self) -> FetchPlan {
        if self.target_state != TargetState::Stopped && self.fetch == FrameFetch::Requested {
            FetchPlan::WakeThenPoll
        } else {
            FetchPlan::Poll
        }
    }

    /// The machine after the pipeline was woken for a requested frame: the
    /// target state of before is saved, the new one is playing. Without a
    /// request, or once stopped, nothing changes.
    pub open spec fn woken(self) -> PlaybackStateMachine {
        if self.plan() == FetchPlan::WakeThenPoll {
            PlaybackStateMachine {
                target_state: TargetState::Playing,
                fetch: FrameFetch::InProgress { start_state: self.target_state },
            }
        } else {
            self
        }
    }

    /// The state request that has to follow a received frame, if any: the one
    /// that brings back the state saved when the fetch began. Once stopped,
    /// nothing is brought back.
    pub open spec fn restore_after_frame(self) -> Option<StateRequest> {
        if self.target_state == TargetState::Stopped {
            None
        } else {
            match self.fetch {
                FrameFetch::InProgress { start_state } => start_state.restoring_request(),
                _ => None,
            }
        }
    }

    /// The machine after a frame was received: no fetch is open any more.
    pub open spec fn received(self) -> PlaybackStateMachine {
        PlaybackStateMachine { fetch: FrameFetch::Idle, ..self }
    }

    pub fn new() -> (m: PlaybackStateMachine)
        ensures
            m == PlaybackStateMachine::initial(),
    {
        PlaybackStateMachine {
            target_state: TargetState::Uninitialized,
            fetch: FrameFetch::Requested,
        }
    }

    /// Whether the intended state is playing.
    pub fn is_playing(&self) -> (b: bool)
        ensures
            b == (self.target_state == TargetState::Playing),
    {
        self.target_state == TargetState::Playing
    }

    /// Whether the intended state is paused.
    pub fn is_paused(&self) -> (b: bool)
        ensures
            b == (self.target_state == TargetState::Paused),
    {
        self.target_state == TargetState::Paused
    }

    /// Whether the backend was torn down.
    pub fn is_stopped(&self) -> (b: bool)
        ensures
            b == (self.target_state == TargetState::Stopped),
    {
        self.target_state == TargetState::Stopped
    }

    /// Records that the pipeline accepted `request`.
    pub fn enter(&mut self, request: StateRequest)
        ensures
            *final(self) == old(self).entered(request),
    {
        if self.target_state != TargetState::Stopped {
            self.target_state = request.target_state();
        }
    }

    /// Asks for one fresh frame.
    pub fn queue_frame_update(&mut self)
        ensures
            *final(self) == old(self).queued(),
            final(self).fetch.queued(),
    {
        if self.fetch == FrameFetch::Idle {
            self.fetch = FrameFetch::Requested;
        }
    }

    /// What has to happen before the next poll.
    pub fn fetch_plan(&self) -> (p: FetchPlan)
        ensures
            p == self.plan(),
    {
        if self.target_state != TargetState::Stopped && self.fetch == FrameFetch::Requested {
            FetchPlan::WakeThenPoll
        } else {
            FetchPlan::Poll
        }
    }

    /// Records that the pipeline was set playing for a requested frame.
    pub fn wake(&mut self)
        ensures
            *final(self) == old(self).woken(),
    {
        if self.target_state != TargetState::Stopped && self.fetch == FrameFetch::Requested {
            self.fetch = FrameFetch::InProgress { start_state: self.target_state };
            self.target_state = TargetState::Playing;
        }
    }

    /// Records that a frame was received, and tells which state request has
    /// to follow to bring back the state from before the fetch.
    pub fn receive(&mut self) -> (restore: Option<StateRequest>)
        ensures
            *final(self) == old(self).received(),
            restore == old(self).restore_after_frame(),
            !final(self).fetch.queued(),
            !final(self).fetch.in_progress(),
    {
        let restore = if self.target_state == TargetState::Stopped {
            None
        } else {
            match self.fetch {
                FrameFetch::InProgress { start_state } => start_state.restore_request(),
                _ => None,
            }
        };
        self.fetch = FrameFetch::Idle;
        restore
    }
}

/// Once stopped, always stopped: no state request, frame request, wake-up or
/// received frame leads out of it, no wake-up is asked for, and a received
/// frame brings no state back.
pub proof fn lemma_stopped_is_terminal(m: PlaybackStateMachine, request: StateRequest)
    requires
        m.target_state == TargetState::Stopped,
    ensures
        m.entered(request).target_state == TargetState::Stopped,
        m.queued().target_state == TargetState::Stopped,
        m.woken().target_state == TargetState::Stopped,
        m.received().target_state == TargetState::Stopped,
        m.plan() == FetchPlan::Poll,
        m.restore_after_frame() is None,
{
}

/// A fetch that is in progress always has a request behind it, and only a
/// received frame closes it: asking again, waking again or a state change
/// leave the saved state as it is.
pub proof fn lemma_fetch_closes_only_on_frame(m: PlaybackStateMachine, request: StateRequest)
    requires
        m.fetch.in_progress(),
    ensures
        m.fetch.queued(),
        m.queued().fetch == m.fetch,
        m.woken().fetch == m.fetch,
        m.entered(request).fetch == m.fetch,
        m.received().fetch == FrameFetch::Idle,
{
}

/// The two phases of a forced fetch. A machine with a frame requested, once
/// woken, has the fetch in progress and playing as its target. The frame
/// that arrives later closes the fetch; the request that follows it, once
/// accepted, brings back the target state from before the wake-up, where
/// that was paused or playing.
pub proof fn lemma_forced_fetch_two_phases(m: PlaybackStateMachine)
    requires
        m.fetch == FrameFetch::Requested,
        m.target_state != TargetState::Stopped,
    ensures
        m.woken().fetch.queued(),
        m.woken().fetch.in_progress(),
        m.woken().target_state == TargetState::Playing,
        m.woken().plan() == FetchPlan::Poll,
        !m.woken().received().fetch.queued(),
        !m.woken().received().fetch.in_progress(),
        m.target_state != TargetState::Uninitialized ==> {
            &&& m.woken().restore_after_frame() is Some
            &&& m.woken().received().entered(m.woken().restore_after_frame()->0).target_state
                == m.target_state
        },
        m.target_state == TargetState::Uninitialized ==> {
            &&& m.woken().restore_after_frame() is None
            &&& m.woken().received().target_state == TargetState::Playing
        },
{
}

} // verus!
