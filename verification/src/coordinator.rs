//! Sampling coordinator.
//!
//! The coordinator owns the polling loop's state: it waits out an optional
//! startup delay, folds each measurement into a running maximum, and stops
//! exactly when the one-shot stop notification is observed. The surrounding
//! loop performs the waiting and measuring and reports each observation as
//! an [`Event`]; `step` decides the next state and tells the loop whether
//! to keep polling or halt.

use vstd::prelude::*;

use crate::peak::{seq_max, PeakTracker};

verus! {

/// Lifecycle phase of the coordinator.
#[derive(Clone, Copy, Debug, PartialEq, Eq, Structural)]
pub enum Phase {
    /// The startup delay has not elapsed yet; no sample is counted.
    Waiting,
    /// Steady-state polling: samples are folded into the peak.
    Sampling,
    /// Terminal: the stop notification was observed and the peak is final.
    Stopped,
}

/// One observation made by the polling loop since the last step.
#[derive(Clone, Copy, Debug, PartialEq, Eq, Structural)]
pub enum Event {
    /// The startup delay has elapsed.
    DelayElapsed,
    /// The backend measured the process's resident memory, in kilobytes.
    Sample(u64),
    /// The backend could not read a measurement this round (soft failure).
    SampleUnavailable,
    /// The stop notification arrived: the child process has terminated.
    StopRequested,
}

/// What the polling loop must do after a step.
#[derive(Clone, Copy, Debug, PartialEq, Eq, Structural)]
pub enum Action {
    /// Sleep one sampling interval, then poll again.
    Continue,
    /// Leave the loop; the peak is final.
    Halt,
}

/// The coordinator as contracts see it: its phase and the samples counted
/// so far, oldest first. The peak is the maximum of the history.
pub ghost struct Model {
    pub phase: Phase,
    pub history: Seq<u64>,
}

/// The peak a model reports: the largest sample counted, zero if none.
pub open spec fn model_peak(m: Model) -> u64 {
    seq_max(m.history)
}

/// Next state and action for one observation. A stop request halts from
/// every phase and never alters the history; a sample is counted only in
/// the sampling phase; everything after the stop is ignored.
pub open spec fn spec_step(m: Model, ev: Event) -> (Model, Action) {
    if m.phase == Phase::Stopped {
        (m, Action::Halt)
    } else {
        match ev {
            Event::StopRequested => ((Model { phase: Phase::Stopped, history: m.history }), Action::Halt),
            Event::DelayElapsed => ((Model { phase: Phase::Sampling, history: m.history }), Action::Continue),
            Event::Sample(kb) => if m.phase == Phase::Sampling {
                ((Model { phase: Phase::Sampling, history: m.history.push(kb) }), Action::Continue)
            } else {
                (m, Action::Continue)
            },
            Event::SampleUnavailable => (m, Action::Continue),
        }
    }
}

/// Law: observing the stop is idempotent. One stop request reaches the
/// stopped phase with the history unchanged, and a second stop request
/// changes nothing further.
pub proof fn lemma_stop_idempotent(m: Model)
    ensures
        spec_step(m, Event::StopRequested).0.phase == Phase::Stopped,
        spec_step(m, Event::StopRequested).0.history == m.history,
        spec_step(spec_step(m, Event::StopRequested).0, Event::StopRequested) == spec_step(
            m,
            Event::StopRequested,
        ),
{
}

/// Law: if the stop is observed before any sample was counted, the final
/// peak is zero.
pub proof fn lemma_zero_sample_peak(m: Model)
    requires
        m.history.len() == 0,
    ensures
        model_peak(spec_step(m, Event::StopRequested).0) == 0,
{
    assert(spec_step(m, Event::StopRequested).0.history =~= Seq::<u64>::empty());
}

/// Law: while the startup delay has not elapsed, a measurement is not
/// counted — the first sample can only be taken after the delay.
pub proof fn lemma_waiting_ignores_samples(m: Model, kb: u64)
    requires
        m.phase == Phase::Waiting,
    ensures
        spec_step(m, Event::Sample(kb)).0 == m,
{
}

/// Owns the polling loop's state: the lifecycle phase and the running peak.
pub struct Coordinator {
    phase: Phase,
    tracker: PeakTracker,
}

impl Coordinator {
    /// The coordinator's mathematical state.
    pub closed spec fn model(self) -> Model {
        Model { phase: self.phase, history: self.tracker.history() }
    }

    /// The tracked peak always equals the largest sample counted so far.
    pub closed spec fn wf(self) -> bool {
        self.tracker.wf()
    }

    /// A fresh coordinator: waiting out the startup delay, no samples.
    pub fn new() -> (c: Self)
        ensures
            c.wf(),
            c.model() == (Model { phase: Phase::Waiting, history: Seq::<u64>::empty() }),
    {
        Coordinator { phase: Phase::Waiting, tracker: PeakTracker::new() }
    }

    /// Advance the state machine by one observation.
    pub fn step(&mut self, ev: Event) -> (a: Action)
        requires
            old(self).wf(),
        ensures
            final(self).wf(),
            (final(self).model(), a) == spec_step(old(self).model(), ev),
    {
        if self.phase == Phase::Stopped {
            return Action::Halt;
        }
        match ev {
            Event::StopRequested => {
                self.phase = Phase::Stopped;
                Action::Halt
            },
            Event::DelayElapsed => {
                self.phase = Phase::Sampling;
                Action::Continue
            },
            Event::Sample(kb) => {
                if self.phase == Phase::Sampling {
                    self.tracker.fold(kb);
                }
                Action::Continue
            },
            Event::SampleUnavailable => Action::Continue,
        }
    }

    /// Yield the final peak in kilobytes. Only meaningful once the loop has
    /// halted: the result is the maximum of every sample counted.
    pub fn finish(self) -> (r: u64)
        requires
            self.wf(),
            self.model().phase == Phase::Stopped,
        ensures
            r == model_peak(self.model()),
    {
        self.tracker.peak_value()
    }
}

} // verus!
