//! The connection pool initializer as a state machine.
//!
//! Opening the pool is tried until it succeeds or the retry window has
//! passed. The machine decides; its driver acts. The driver performs the
//! action it is handed (connect, sleep, finish, abort) and reports what
//! happened as an event. Time is the driver's: every `Slept` event carries the
//! time that has passed since the initializer was started, in nanoseconds, and
//! the machine holds that reading against the window. It keeps no clock of its
//! own, so nothing that has passed is ever forgotten.
//!
//! The first action is always to connect, however short the window. After a
//! failed attempt the machine always sleeps once; only after a sleep is the
//! window looked at.

use vstd::prelude::*;
use crate::backoff::{backoff_interval_for, pause_secs, whole_secs, NANOS_PER_SEC};

verus! {

/// The retry window that the service gives the database at startup, in whole
/// seconds: ten minutes.
pub const STARTUP_WINDOW_SECS: u64 = 600;

/// Where the initializer stands.
#[derive(Clone, Copy, Debug, PartialEq, Eq, Structural)]
pub enum Phase {
    /// An attempt to open the pool is under way.
    Attempting,
    /// The last attempt failed; the pause before the next one is running.
    Sleeping,
    /// The pool is open. Final.
    Succeeded,
    /// The window passed without an open pool. Final.
    FatallyFailed,
}

/// What the driver reports.
#[derive(Clone, Copy, Debug, PartialEq, Eq, Structural)]
pub enum Event {
    /// The attempt opened the pool.
    Connected,
    /// The attempt failed.
    ConnectFailed,
    /// The pause is over; `elapsed_nanos` have passed since the start.
    Slept { elapsed_nanos: u128 },
}

/// What the driver is to do next.
#[derive(Clone, Copy, Debug, PartialEq, Eq, Structural)]
pub enum Action {
    /// Try to open the pool.
    Connect,
    /// Sleep for `secs` seconds, then report `Slept`.
    Sleep { secs: u64 },
    /// Hand out the open pool.
    Finish,
    /// Give up for good: the window of `window_secs` whole seconds has passed.
    Abort { window_secs: u128 },
}

/// The initializer as a mathematical value.
pub struct InitializerView {
    /// The retry window in nanoseconds.
    pub window_nanos: nat,
    pub phase: Phase,
    /// The attempts begun so far, counted up to `u64::MAX`.
    pub attempts: nat,
}

/// The state in which every initializer starts: the first attempt is under
/// way.
pub open spec fn initial_state(window_nanos: nat) -> InitializerView {
    InitializerView { window_nanos, phase: Phase::Attempting, attempts: 1 }
}

/// The attempt count after one more attempt.
pub open spec fn one_more(attempts: nat) -> nat {
    if attempts < u64::MAX {
        attempts + 1
    } else {
        attempts
    }
}

/// The state that follows `s` on `event`. An event that the phase does not
/// wait for changes nothing.
pub open spec fn next_state(s: InitializerView, event: Event) -> InitializerView {
    match (s.phase, event) {
        (Phase::Attempting, Event::Connected) => InitializerView { phase: Phase::Succeeded, ..s },
        (Phase::Attempting, Event::ConnectFailed) => InitializerView {
            phase: Phase::Sleeping,
            ..s
        },
        (Phase::Sleeping, Event::Slept { elapsed_nanos }) => {
            if elapsed_nanos < s.window_nanos {
                InitializerView { phase: Phase::Attempting, attempts: one_more(s.attempts), ..s }
            } else {
                InitializerView { phase: Phase::FatallyFailed, ..s }
            }
        },
        _ => s,
    }
}

/// What the driver has to do while the initializer is in state `s`.
pub open spec fn pending_action(s: InitializerView) -> Action {
    match s.phase {
        Phase::Attempting => Action::Connect,
        Phase::Sleeping => Action::Sleep {
            secs: pause_secs(whole_secs(s.window_nanos)) as u64,
        },
        Phase::Succeeded => Action::Finish,
        Phase::FatallyFailed => Action::Abort { window_secs: whole_secs(s.window_nanos) as u128 },
    }
}

/// The state after the events `events`, reported in this order to a fresh
/// initializer.
pub open spec fn state_after(window_nanos: nat, events: Seq<Event>) -> InitializerView
    decreases events.len(),
{
    if events.len() == 0 {
        initial_state(window_nanos)
    } else {
        next_state(state_after(window_nanos, events.drop_last()), events.last())
    }
}

/// The retry state machine of the connection pool initializer.
#[derive(Debug)]
pub struct Initializer {
    window_nanos: u128,
    phase: Phase,
    attempts: u64,
}

impl View for Initializer {
    type V = InitializerView;

    closed spec fn view(&self) -> InitializerView {
        InitializerView {
            window_nanos: self.window_nanos as nat,
            phase: self.phase,
            attempts: self.attempts as nat,
        }
    }
}

impl Initializer {
    /// Starts an initializer with a retry window of `window_nanos`
    /// nanoseconds. The action that comes with it is `Connect`, for every
    /// window: one attempt is always made.
    pub fn start(window_nanos: u128) -> (started: (Initializer, Action))
        ensures
            started.0@ == initial_state(window_nanos as nat),
            started.1 == Action::Connect,
            started.1 == pending_action(started.0@),
    {
        (Initializer { window_nanos, phase: Phase::Attempting, attempts: 1 }, Action::Connect)
    }

    /// Takes in what the driver reports and says what to do next.
    pub fn step(&mut self, event: Event) -> (action: Action)
        ensures
            final(self)@ == next_state(old(self)@, event),
            action == pending_action(final(self)@),
    {
        match (self.phase, event) {
            (Phase::Attempting, Event::Connected) => {
                self.phase = Phase::Succeeded;
            },
            (Phase::Attempting, Event::ConnectFailed) => {
                self.phase = Phase::Sleeping;
            },
            (Phase::Sleeping, Event::Slept { elapsed_nanos }) => {
                if elapsed_nanos < self.window_nanos {
                    self.phase = Phase::Attempting;
                    if self.attempts < u64::MAX {
                        self.attempts = self.attempts + 1;
                    }
                } else {
                    self.phase = Phase::FatallyFailed;
                }
            },
            _ => {},
        }
        self.pending()
    }

    /// What the driver has to do in the present state.
    pub fn pending(&self) -> (action: Action)
        ensures
            action == pending_action(self@),
    {
        match self.phase {
            Phase::Attempting => Action::Connect,
            Phase::Sleeping => Action::Sleep { secs: backoff_interval_for(self.window_nanos) },
            Phase::Succeeded => Action::Finish,
            Phase::FatallyFailed => Action::Abort { window_secs: self.window_nanos / NANOS_PER_SEC },
        }
    }

    /// The phase the initializer is in.
    pub fn phase(&self) -> (phase: Phase)
        ensures
            phase == self@.phase,
    {
        self.phase
    }

    /// The attempts begun so far.
    pub fn attempts(&self) -> (attempts: u64)
        ensures
            attempts == self@.attempts,
    {
        self.attempts
    }

    /// The retry window in nanoseconds.
    pub fn window_nanos(&self) -> (nanos: u128)
        ensures
            nanos == self@.window_nanos,
    {
        self.window_nanos
    }

    /// Whether the initializer has reached one of its two final phases.
    pub fn is_settled(&self) -> (settled: bool)
        ensures
            settled <==> self@.phase == Phase::Succeeded || self@.phase == Phase::FatallyFailed,
    {
        match self.phase {
            Phase::Succeeded => true,
            Phase::FatallyFailed => true,
            _ => false,
        }
    }
}

} // verus!
