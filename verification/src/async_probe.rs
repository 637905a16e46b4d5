//! The bookkeeping of the one background probe that a backend runs.
//!
//! The probe itself runs elsewhere, on a task that cannot be stopped. What is
//! kept here is the ticket of the task whose result is wanted and, once it is
//! in, that result. A task that was abandoned still finishes some day; its
//! ticket no longer matches and its result is turned away.

use vstd::prelude::*;
use crate::probe::Probe;

verus! {

/// Names one probe task of one tracker.
#[derive(Clone, Copy, Debug, PartialEq, Eq, Structural)]
pub struct ProbeTicket {
    pub id: u64,
}

/// How a probe task ended.
#[derive(Debug)]
pub enum ProbeOutcome {
    /// The discovery went through.
    Found(Probe),
    /// The discovery failed, with the reason it gave.
    DiscoveryFailed(String),
    /// The task itself broke down before the discovery told anything.
    TaskFailed,
}

/// Why no probe can be had.
#[derive(Clone, Copy, Debug, PartialEq, Eq, Structural)]
pub enum ProbeError {
    /// The task has not finished.
    NotReady,
    /// The discovery failed.
    DiscoveryFailed,
    /// The task broke down.
    TaskFailed,
}

impl ProbeError {
    /// What went wrong, in words.
    pub open spec fn text(self) -> Seq<char> {
        match self {
            ProbeError::NotReady => "Not initialized yet"@,
            ProbeError::DiscoveryFailed => "Probe discovery failed"@,
            ProbeError::TaskFailed => "Probe task failed"@,
        }
    }

    /// What went wrong, in words.
    pub fn message(&self) -> (m: &'static str)
        ensures
            m@ == self.text(),
    {
        match self {
            ProbeError::NotReady => "Not initialized yet",
            ProbeError::DiscoveryFailed => "Probe discovery failed",
            ProbeError::TaskFailed => "Probe task failed",
        }
    }
}

/// Tracks the probe of the medium that is open.
pub struct AsyncProbe {
    uri: String,
    ticket: u64,
    outcome: Option<ProbeOutcome>,
}

impl AsyncProbe {
    /// The medium that the wanted probe is of.
    pub closed spec fn uri(&self) -> Seq<char> {
        self.uri@
    }

    /// The ticket of the task whose result is wanted.
    pub closed spec fn current_ticket(&self) -> ProbeTicket {
        ProbeTicket { id: self.ticket }
    }

    /// How the wanted task ended, once it has.
    pub closed spec fn outcome(&self) -> Option<ProbeOutcome> {
        self.outcome
    }

    /// What a query for the probe yields.
    pub open spec fn lookup(&self) -> Result<Probe, ProbeError> {
        match self.outcome() {
            None => Err(ProbeError::NotReady),
            Some(ProbeOutcome::Found(probe)) => Ok(probe),
            Some(ProbeOutcome::DiscoveryFailed(_)) => Err(ProbeError::DiscoveryFailed),
            Some(ProbeOutcome::TaskFailed) => Err(ProbeError::TaskFailed),
        }
    }

    /// Whether the result of the task with `ticket` is taken in: it is the
    /// wanted task, and no result is in yet.
    pub open spec fn accepts(&self, ticket: ProbeTicket) -> bool {
        ticket == self.current_ticket() && self.outcome() is None
    }

    /// The tracker after the task with `ticket` reported `outcome`.
    pub closed spec fn completed(self, ticket: ProbeTicket, outcome: ProbeOutcome) -> AsyncProbe {
        if self.accepts(ticket) {
            AsyncProbe { outcome: Some(outcome), ..self }
        } else {
            self
        }
    }

    /// Begins to track the probe of `uri`. The caller starts the task and
    /// keeps the ticket with it.
    pub fn start(uri: &str) -> (probe: AsyncProbe)
        ensures
            probe.uri() == uri@,
            probe.current_ticket() == (ProbeTicket { id: 0 }),
            probe.outcome() is None,
    {
        AsyncProbe { uri: uri.to_owned(), ticket: 0, outcome: None }
    }

    /// The ticket of the task whose result is wanted.
    pub fn ticket(&self) -> (ticket: ProbeTicket)
        ensures
            ticket == self.current_ticket(),
    {
        ProbeTicket { id: self.ticket }
    }

    /// Whether the wanted task has reported.
    pub fn is_finished(&self) -> (done: bool)
        ensures
            done == self.outcome() is Some,
    {
        self.outcome.is_some()
    }

    /// Turns to another medium: whatever is known or under way is given up,
    /// and a fresh ticket names the task to start. `None`, with nothing
    /// changed, once the tickets have run out.
    pub fn restart(&mut self, uri: &str) -> (ticket: Option<ProbeTicket>)
        ensures
            old(self).current_ticket().id < u64::MAX ==> {
                &&& ticket == Some(ProbeTicket { id: (old(self).current_ticket().id + 1) as u64 })
                &&& final(self).current_ticket() == ticket->0
                &&& final(self).outcome() is None
                &&& final(self).uri() == uri@
            },
            old(self).current_ticket().id == u64::MAX ==> ticket is None && *final(self) == *old(
                self,
            ),
    {
        if self.ticket == u64::MAX {
            return None;
        }
        self.ticket = self.ticket + 1;
        self.outcome = None;
        self.uri = uri.to_owned();
        Some(ProbeTicket { id: self.ticket })
    }

    /// Takes in what the task with `ticket` reported, if that is the wanted
    /// task and nothing was taken in before. Tells whether it was.
    pub fn complete(&mut self, ticket: ProbeTicket, outcome: ProbeOutcome) -> (accepted: bool)
        ensures
            accepted == old(self).accepts(ticket),
            *final(self) == old(self).completed(ticket, outcome),
            accepted ==> final(self).outcome() == Some(outcome),
            !accepted ==> *final(self) == *old(self),
            final(self).current_ticket() == old(self).current_ticket(),
            final(self).uri() == old(self).uri(),
    {
        if ticket.id == self.ticket && self.outcome.is_none() {
            self.outcome = Some(outcome);
            true
        } else {
            false
        }
    }

    /// The probe, once it is known. Until then, and after a failure, the
    /// reason why there is none. This never waits.
    pub fn get(&self) -> (r: Result<&Probe, ProbeError>)
        ensures
            r matches Ok(probe) ==> self.lookup() == Ok::<Probe, ProbeError>(*probe),
            r matches Err(e) ==> self.lookup() == Err::<Probe, ProbeError>(e),
    {
        match &self.outcome {
            None => Err(ProbeError::NotReady),
            Some(ProbeOutcome::Found(probe)) => Ok(probe),
            Some(ProbeOutcome::DiscoveryFailed(_)) => Err(ProbeError::DiscoveryFailed),
            Some(ProbeOutcome::TaskFailed) => Err(ProbeError::TaskFailed),
        }
    }

    /// The reason that a failed discovery gave.
    pub fn failure_text(&self) -> (text: Option<&String>)
        ensures
            match self.outcome() {
                Some(ProbeOutcome::DiscoveryFailed(reason)) => text == Some(&reason),
                _ => text is None,
            },
    {
        match &self.outcome {
            Some(ProbeOutcome::DiscoveryFailed(reason)) => Some(reason),
            _ => None,
        }
    }
}

/// Until the wanted task reports, a query finds the probe not ready; once
/// its report is in, every query finds that report.
pub proof fn lemma_probe_ready_after_completion(
    probe: AsyncProbe,
    ticket: ProbeTicket,
    outcome: ProbeOutcome,
)
    requires
        probe.accepts(ticket),
    ensures
        probe.lookup() == Err::<Probe, ProbeError>(ProbeError::NotReady),
        probe.completed(ticket, outcome).outcome() == Some(outcome),
        outcome matches ProbeOutcome::Found(found) ==> probe.completed(ticket, outcome).lookup()
            == Ok::<Probe, ProbeError>(found),
{
}

/// A result that is in stays: no later report, under whatever ticket,
/// replaces it.
pub proof fn lemma_probe_result_is_cached(
    probe: AsyncProbe,
    ticket: ProbeTicket,
    outcome: ProbeOutcome,
)
    requires
        probe.outcome() is Some,
    ensures
        probe.completed(ticket, outcome) == probe,
        probe.completed(ticket, outcome).lookup() == probe.lookup(),
{
}

/// The report of a task other than the wanted one changes nothing.
pub proof fn lemma_stale_report_is_dropped(
    probe: AsyncProbe,
    ticket: ProbeTicket,
    outcome: ProbeOutcome,
)
    requires
        ticket != probe.current_ticket(),
    ensures
        !probe.accepts(ticket),
        probe.completed(ticket, outcome) == probe,
{
}

/// After a restart no task that was started before it is the wanted one:
/// whenever such a task reports, and whatever it reports, the tracker stays
/// as the restart left it.
pub proof fn lemma_restart_abandons_earlier_tasks(
    before: AsyncProbe,
    after: AsyncProbe,
    ticket: ProbeTicket,
    outcome: ProbeOutcome,
)
    requires
        after.current_ticket().id == before.current_ticket().id + 1,
        ticket.id <= before.current_ticket().id,
    ensures
        !after.accepts(ticket),
        after.completed(ticket, outcome) == after,
{
}

} // verus!
