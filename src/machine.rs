//! The lifecycle of one watch: sign in, open the product page, probe it until
//! the product can be bought, waiting a fixed number of seconds and reloading
//! the page between probes, then add it to the cart and send one notification.
//!
//! The watcher decides; the caller acts. Each phase asks for one action, the
//! caller performs it and reports what happened as an event, and `step` moves
//! the watcher on.
use vstd::prelude::*;
use crate::error::WatchError;

verus! {

/// Seconds counted down between an unavailable probe and the next reload.
/// The same for every cycle of the whole run: no growth, no jitter.
pub const BACKOFF_SECONDS: u64 = 15;

/// What one probe of the product page found.
#[derive(Clone, Copy, Debug, PartialEq, Eq, Structural)]
pub enum ProbeOutcome {
    /// The add-to-cart control is present and enabled.
    Enabled,
    /// The add-to-cart control is present but disabled.
    Disabled,
    /// The add-to-cart control is not on the page at all.
    NotFound,
}

/// How a watch ended.
#[derive(Clone, Copy, Debug, PartialEq, Eq, Structural)]
pub enum Outcome {
    /// The product is in the cart; `notified` tells whether the message went out.
    Acquired { notified: bool },
    /// The watch stopped on an error before the product reached the cart.
    Failed { error: WatchError },
}

/// Where a watch stands.
#[derive(Clone, Copy, Debug, PartialEq, Eq, Structural)]
pub enum Phase {
    SigningIn,
    Navigating,
    Probing,
    ReportingUnavailable,
    /// Counting down; `remaining` seconds are announced next.
    Waiting { remaining: u64 },
    Reloading,
    Acquiring,
    Notifying,
    Done { outcome: Outcome },
}

/// What the caller is asked to do next.
#[derive(Clone, Copy, Debug, PartialEq, Eq, Structural)]
pub enum Action {
    /// Sign in with the account's credentials.
    SignIn,
    /// Open the product page.
    Navigate,
    /// Read the state of the add-to-cart control.
    Probe,
    /// Tell the operator, with the time, that the product is unavailable.
    ReportUnavailable,
    /// Announce that `remaining` seconds are left, then wait one second.
    Wait { remaining: u64 },
    /// Reload the current page, keeping the session.
    Reload,
    /// Use the add-to-cart control and wait for the cart to show the product.
    Acquire,
    /// Send the one notification message.
    Notify,
    /// Stop: the watch is over.
    Finish { outcome: Outcome },
}

/// What happened when the caller performed the requested action.
#[derive(Clone, Copy, Debug, PartialEq, Eq, Structural)]
pub enum Event {
    SignedIn { ok: bool },
    Navigated { ok: bool },
    Probed { outcome: ProbeOutcome },
    Reported,
    Waited,
    Reloaded { ok: bool },
    Acquired { ok: bool },
    Notified { ok: bool },
}

/// Reads a probe: a missing control is an error of its own, distinct from a
/// control that is present but disabled.
pub fn classify_probe(located: bool, disabled: bool) -> (r: ProbeOutcome)
    ensures
        r == (if !located {
            ProbeOutcome::NotFound
        } else if disabled {
            ProbeOutcome::Disabled
        } else {
            ProbeOutcome::Enabled
        }),
{
    if !located {
        ProbeOutcome::NotFound
    } else if disabled {
        ProbeOutcome::Disabled
    } else {
        ProbeOutcome::Enabled
    }
}

/// The action that a phase asks for.
pub open spec fn action_of(p: Phase) -> Action {
    match p {
        Phase::SigningIn => Action::SignIn,
        Phase::Navigating => Action::Navigate,
        Phase::Probing => Action::Probe,
        Phase::ReportingUnavailable => Action::ReportUnavailable,
        Phase::Waiting { remaining } => Action::Wait { remaining },
        Phase::Reloading => Action::Reload,
        Phase::Acquiring => Action::Acquire,
        Phase::Notifying => Action::Notify,
        Phase::Done { outcome } => Action::Finish { outcome },
    }
}

/// Whether an event answers the action that a phase asks for.
pub open spec fn answers(p: Phase, e: Event) -> bool {
    match (p, e) {
        (Phase::SigningIn, Event::SignedIn { .. }) => true,
        (Phase::Navigating, Event::Navigated { .. }) => true,
        (Phase::Probing, Event::Probed { .. }) => true,
        (Phase::ReportingUnavailable, Event::Reported) => true,
        (Phase::Waiting { .. }, Event::Waited) => true,
        (Phase::Reloading, Event::Reloaded { .. }) => true,
        (Phase::Acquiring, Event::Acquired { .. }) => true,
        (Phase::Notifying, Event::Notified { .. }) => true,
        _ => false,
    }
}

pub open spec fn failed(error: WatchError) -> Phase {
    Phase::Done { outcome: Outcome::Failed { error } }
}

/// The phase that follows `p` on an event that answers it.
pub open spec fn next_phase(p: Phase, e: Event) -> Phase {
    match (p, e) {
        (Phase::SigningIn, Event::SignedIn { ok }) => if ok {
            Phase::Navigating
        } else {
            failed(WatchError::Authentication)
        },
        (Phase::Navigating, Event::Navigated { ok }) => if ok {
            Phase::Probing
        } else {
            failed(WatchError::Navigation)
        },
        (Phase::Probing, Event::Probed { outcome }) => match outcome {
            ProbeOutcome::Enabled => Phase::Acquiring,
            ProbeOutcome::Disabled => Phase::ReportingUnavailable,
            ProbeOutcome::NotFound => failed(WatchError::Probe),
        },
        (Phase::ReportingUnavailable, Event::Reported) => Phase::Waiting {
            remaining: BACKOFF_SECONDS,
        },
        (Phase::Waiting { remaining }, Event::Waited) => if remaining == 0 {
            Phase::Reloading
        } else {
            Phase::Waiting { remaining: (remaining - 1) as u64 }
        },
        (Phase::Reloading, Event::Reloaded { ok }) => if ok {
            Phase::Probing
        } else {
            failed(WatchError::Navigation)
        },
        (Phase::Acquiring, Event::Acquired { ok }) => if ok {
            Phase::Notifying
        } else {
            failed(WatchError::Acquisition)
        },
        (Phase::Notifying, Event::Notified { ok }) => Phase::Done {
            outcome: Outcome::Acquired { notified: ok },
        },
        _ => p,
    }
}

/// One watch: its phase and how many reloads it has completed.
#[derive(Clone, Copy, Debug, PartialEq, Eq, Structural)]
pub struct Watcher {
    pub phase: Phase,
    /// Completed backoff-and-reload cycles; it stops growing at `u64::MAX`.
    pub cycles: u64,
}

impl Watcher {
    /// A countdown never starts above the backoff constant.
    pub open spec fn wf(self) -> bool {
        match self.phase {
            Phase::Waiting { remaining } => remaining <= BACKOFF_SECONDS,
            _ => true,
        }
    }

    /// Whether the watch is over.
    pub open spec fn is_done(self) -> bool {
        self.phase is Done
    }

    /// The watcher after an event. An event that answers no pending action
    /// leaves it as it was.
    pub open spec fn after(self, e: Event) -> Watcher {
        if !answers(self.phase, e) {
            self
        } else {
            Watcher {
                phase: next_phase(self.phase, e),
                cycles: match e {
                    Event::Reloaded { ok: true } => if self.cycles < u64::MAX {
                        (self.cycles + 1) as u64
                    } else {
                        self.cycles
                    },
                    _ => self.cycles,
                },
            }
        }
    }

    /// A watch that has yet to sign in.
    pub fn new() -> (r: Watcher)
        ensures
            r.phase == Phase::SigningIn,
            r.cycles == 0,
            r.wf(),
    {
        Watcher { phase: Phase::SigningIn, cycles: 0 }
    }

    /// The action that the current phase asks for.
    pub fn pending(&self) -> (r: Action)
        ensures
            r == action_of(self.phase),
    {
        match self.phase {
            Phase::SigningIn => Action::SignIn,
            Phase::Navigating => Action::Navigate,
            Phase::Probing => Action::Probe,
            Phase::ReportingUnavailable => Action::ReportUnavailable,
            Phase::Waiting { remaining } => Action::Wait { remaining },
            Phase::Reloading => Action::Reload,
            Phase::Acquiring => Action::Acquire,
            Phase::Notifying => Action::Notify,
            Phase::Done { outcome } => Action::Finish { outcome },
        }
    }

    /// Whether `e` answers the action that the current phase asks for.
    pub fn accepts(&self, e: Event) -> (r: bool)
        ensures
            r == answers(self.phase, e),
    {
        match (self.phase, e) {
            (Phase::SigningIn, Event::SignedIn { .. }) => true,
            (Phase::Navigating, Event::Navigated { .. }) => true,
            (Phase::Probing, Event::Probed { .. }) => true,
            (Phase::ReportingUnavailable, Event::Reported) => true,
            (Phase::Waiting { .. }, Event::Waited) => true,
            (Phase::Reloading, Event::Reloaded { .. }) => true,
            (Phase::Acquiring, Event::Acquired { .. }) => true,
            (Phase::Notifying, Event::Notified { .. }) => true,
            _ => false,
        }
    }

    /// Takes in what happened and returns the next action to perform.
    pub fn step(&mut self, e: Event) -> (r: Action)
        requires
            old(self).wf(),
        ensures
            *final(self) == old(self).after(e),
            final(self).wf(),
            r == action_of(final(self).phase),
    {
        if self.accepts(e) {
            let phase = match (self.phase, e) {
                (Phase::SigningIn, Event::SignedIn { ok }) => if ok {
                    Phase::Navigating
                } else {
                    Phase::Done { outcome: Outcome::Failed { error: WatchError::Authentication } }
                },
                (Phase::Navigating, Event::Navigated { ok }) => if ok {
                    Phase::Probing
                } else {
                    Phase::Done { outcome: Outcome::Failed { error: WatchError::Navigation } }
                },
                (Phase::Probing, Event::Probed { outcome }) => match outcome {
                    ProbeOutcome::Enabled => Phase::Acquiring,
                    ProbeOutcome::Disabled => Phase::ReportingUnavailable,
                    ProbeOutcome::NotFound => Phase::Done {
                        outcome: Outcome::Failed { error: WatchError::Probe },
                    },
                },
                (Phase::ReportingUnavailable, Event::Reported) => Phase::Waiting {
                    remaining: BACKOFF_SECONDS,
                },
                (Phase::Waiting { remaining }, Event::Waited) => if remaining == 0 {
                    Phase::Reloading
                } else {
                    Phase::Waiting { remaining: remaining - 1 }
                },
                (Phase::Reloading, Event::Reloaded { ok }) => if ok {
                    Phase::Probing
                } else {
                    Phase::Done { outcome: Outcome::Failed { error: WatchError::Navigation } }
                },
                (Phase::Acquiring, Event::Acquired { ok }) => if ok {
                    Phase::Notifying
                } else {
                    Phase::Done { outcome: Outcome::Failed { error: WatchError::Acquisition } }
                },
                (Phase::Notifying, Event::Notified { ok }) => Phase::Done {
                    outcome: Outcome::Acquired { notified: ok },
                },
                _ => self.phase,
            };
            let cycles = match e {
                Event::Reloaded { ok: true } => self.cycles.saturating_add(1),
                _ => self.cycles,
            };
            *self = Watcher { phase, cycles };
        }
        self.pending()
    }
}

} // verus!
