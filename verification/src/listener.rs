//! The global listener bridge.
//!
//! One background listener per process captures every input event, and each
//! capture is normalized and handed to the host's callback without waiting
//! for the callback to finish. The waiting, the thread and the hand-over are
//! the caller's; what to do next is decided here. The caller tells the
//! bridge what happened with a `Signal`, and the bridge answers with the
//! `Action` to take.
//!
//! The listener is started once. A second start is refused, and a listener
//! that has stopped stays stopped. A capture that cannot be normalized is
//! dropped by itself. A hook that cannot be registered, or a hand-over that
//! fails, ends the listener; nothing is tried again.

use vstd::prelude::*;
use crate::error::ConversionError;
use crate::event::{normalize, NativeEvent, NativeEventView, NormalizedEvent, NormalizedEventView};

verus! {

/// Why the listener ended.
#[derive(Clone, Copy, Debug, PartialEq, Eq, Structural)]
pub enum StopCause {
    /// The hook could not be registered with the operating system.
    HookRegistrationFailure,
    /// An event could not be handed to the host.
    DeliveryFailure,
    /// The host asked for it.
    Requested,
}

impl StopCause {
    /// What is reported when the listener ends. Only a failed registration
    /// is reported: the caller of the start has long returned, and no event
    /// will ever tell the host.
    pub open spec fn diagnostic_of(self) -> Option<Seq<char>> {
        match self {
            StopCause::HookRegistrationFailure => Some("Error listening to events"@),
            StopCause::DeliveryFailure => None,
            StopCause::Requested => None,
        }
    }

    /// The text to report when the listener ends for this cause, if any.
    pub fn diagnostic(self) -> (text: Option<&'static str>)
        ensures
            match text {
                Some(t) => self.diagnostic_of() == Some(t@),
                None => self.diagnostic_of() is None,
            },
    {
        match self {
            StopCause::HookRegistrationFailure => Some("Error listening to events"),
            StopCause::DeliveryFailure => None,
            StopCause::Requested => None,
        }
    }
}

/// Where the one listener of the process stands.
#[derive(Clone, Copy, Debug, PartialEq, Eq, Structural)]
pub enum Phase {
    /// No listener was started yet.
    Idle,
    /// The listener thread runs.
    Listening,
    /// The listener has ended, for good.
    Stopped(StopCause),
}

/// What the caller tells the bridge.
#[derive(Debug, PartialEq, Eq)]
pub enum Signal {
    /// The host asks for the listener.
    Start,
    /// The listener thread could not register its hook.
    HookFailed,
    /// The listener thread captured an event.
    Captured(NativeEvent),
    /// The last hand-over to the host could not be scheduled.
    DeliveryFailed,
    /// The host asks that nothing more be delivered.
    Stop,
}

/// A `Signal` in specifications.
pub enum SignalView {
    Start,
    HookFailed,
    Captured(NativeEventView),
    DeliveryFailed,
    Stop,
}

impl View for Signal {
    type V = SignalView;

    open spec fn view(&self) -> SignalView {
        match self {
            Signal::Start => SignalView::Start,
            Signal::HookFailed => SignalView::HookFailed,
            Signal::Captured(ev) => SignalView::Captured(ev@),
            Signal::DeliveryFailed => SignalView::DeliveryFailed,
            Signal::Stop => SignalView::Stop,
        }
    }
}

/// What the bridge tells the caller to do.
#[derive(Debug, PartialEq, Eq)]
pub enum Action {
    /// Spawn the listener thread.
    Spawn,
    /// Refuse the start: a listener was started before.
    Refuse,
    /// Hand the event to the host, without waiting for it.
    Deliver(NormalizedEvent),
    /// Drop the capture, for the reason given.
    Discard(ConversionError),
    /// End the listener.
    Terminate(StopCause),
    /// Nothing.
    Ignore,
}

/// An `Action` in specifications.
pub enum ActionView {
    Spawn,
    Refuse,
    Deliver(NormalizedEventView),
    Discard(ConversionError),
    Terminate(StopCause),
    Ignore,
}

impl View for Action {
    type V = ActionView;

    open spec fn view(&self) -> ActionView {
        match self {
            Action::Spawn => ActionView::Spawn,
            Action::Refuse => ActionView::Refuse,
            Action::Deliver(ev) => ActionView::Deliver(ev@),
            Action::Discard(why) => ActionView::Discard(*why),
            Action::Terminate(cause) => ActionView::Terminate(*cause),
            Action::Ignore => ActionView::Ignore,
        }
    }
}

/// The phase after `signal` arrives in `phase`, and the action to take.
pub open spec fn next(phase: Phase, signal: SignalView) -> (Phase, ActionView) {
    match signal {
        SignalView::Start => if phase is Idle {
            (Phase::Listening, ActionView::Spawn)
        } else {
            (phase, ActionView::Refuse)
        },
        SignalView::HookFailed => if phase is Listening {
            (
                Phase::Stopped(StopCause::HookRegistrationFailure),
                ActionView::Terminate(StopCause::HookRegistrationFailure),
            )
        } else {
            (phase, ActionView::Ignore)
        },
        SignalView::Captured(ev) => if phase is Listening {
            match ev.normalized() {
                Ok(n) => (phase, ActionView::Deliver(n)),
                Err(why) => (phase, ActionView::Discard(why)),
            }
        } else {
            (phase, ActionView::Ignore)
        },
        SignalView::DeliveryFailed => if phase is Listening {
            (
                Phase::Stopped(StopCause::DeliveryFailure),
                ActionView::Terminate(StopCause::DeliveryFailure),
            )
        } else {
            (phase, ActionView::Ignore)
        },
        SignalView::Stop => if phase is Listening {
            (Phase::Stopped(StopCause::Requested), ActionView::Terminate(StopCause::Requested))
        } else {
            (phase, ActionView::Ignore)
        },
    }
}

/// The record of the one listener that a process may have.
#[derive(Debug)]
pub struct Bridge {
    phase: Phase,
}

impl View for Bridge {
    type V = Phase;

    closed spec fn view(&self) -> Phase {
        self.phase
    }
}

impl Bridge {
    /// A bridge on which no listener was started.
    pub fn new() -> (bridge: Bridge)
        ensures
            bridge@ == Phase::Idle,
    {
        Bridge { phase: Phase::Idle }
    }

    /// Where the listener stands.
    pub fn phase(&self) -> (phase: Phase)
        ensures
            phase == self@,
    {
        self.phase
    }

    /// Takes one signal: moves to the next phase and says what to do.
    pub fn step(&mut self, signal: Signal) -> (action: Action)
        ensures
            (final(self)@, action@) == next(old(self)@, signal@),
    {
        let listening: bool = match self.phase {
            Phase::Listening => true,
            _ => false,
        };
        match signal {
            Signal::Start => match self.phase {
                Phase::Idle => {
                    self.phase = Phase::Listening;
                    Action::Spawn
                },
                _ => Action::Refuse,
            },
            Signal::HookFailed => if listening {
                self.phase = Phase::Stopped(StopCause::HookRegistrationFailure);
                Action::Terminate(StopCause::HookRegistrationFailure)
            } else {
                Action::Ignore
            },
            Signal::Captured(ev) => if listening {
                match normalize(ev) {
                    Ok(n) => Action::Deliver(n),
                    Err(why) => Action::Discard(why),
                }
            } else {
                Action::Ignore
            },
            Signal::DeliveryFailed => if listening {
                self.phase = Phase::Stopped(StopCause::DeliveryFailure);
                Action::Terminate(StopCause::DeliveryFailure)
            } else {
                Action::Ignore
            },
            Signal::Stop => if listening {
                self.phase = Phase::Stopped(StopCause::Requested);
                Action::Terminate(StopCause::Requested)
            } else {
                Action::Ignore
            },
        }
    }
}

/// Asks for the listener. It answers at once and says whether the listener
/// thread is to be spawned: on the first call it is, on every later call the
/// start is refused and nothing changes. Whether the hook could be
/// registered is not known when this returns.
pub fn start_listening(bridge: &mut Bridge) -> (spawn: bool)
    ensures
        spawn == (old(bridge)@ is Idle),
        final(bridge)@ == next(old(bridge)@, SignalView::Start).0,
{
    match bridge.step(Signal::Start) {
        Action::Spawn => true,
        _ => false,
    }
}

} // verus!
