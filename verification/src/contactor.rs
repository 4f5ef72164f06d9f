//! The contactor controller: a state machine from a single boolean
//! "should be closed" signal to hardware drive actions.
//!
//! The machine itself is pure; the caller performs the returned action
//! (PWM duty changes, the precharge relay, the settle delay) and reports
//! the settle completion back. Opening on a false signal is immediate
//! and unconditional.

use vstd::prelude::*;

verus! {

/// Where the contactor hardware stands.
#[derive(Clone, Copy, Debug, PartialEq, Eq, Structural)]
pub enum ContactorState {
    /// Everything de-energized.
    Open,
    /// Precharge relay energized; waiting out the settle delay.
    Precharge,
    /// Main contactor driven (full duty, then reduced to holding duty).
    Closed,
}

/// What the hardware must do after a step.
#[derive(Clone, Copy, Debug, PartialEq, Eq, Structural)]
pub enum DriveAction {
    /// Nothing changes.
    Idle,
    /// Disable the main drive and the precharge relay at once.
    Disconnect,
    /// Energize the precharge relay and start the settle delay.
    BeginPrecharge,
    /// Drive the main contactor at full duty, hold briefly, then reduce
    /// to holding duty; de-energize the precharge relay.
    CloseMain,
}

/// Settle delay for the precharge relay, milliseconds.
pub const PRECHARGE_SETTLE_MS: u64 = 500;

/// Time at full drive before reducing to holding duty, milliseconds.
pub const FULL_DRIVE_MS: u64 = 100;

/// The contactor controller.
#[derive(Clone, Copy, Debug, PartialEq, Eq, Structural)]
pub struct Contactor {
    pub state: ContactorState,
    /// Whether the hardware has a separate precharge relay.
    pub has_precharge: bool,
}

/// The transition relation of the controller, as a pure function:
/// next state and required action for one signal reading.
pub open spec fn spec_step(c: Contactor, signal: bool) -> (Contactor, DriveAction) {
    match (c.state, signal) {
        (ContactorState::Open, false) => (c, DriveAction::Idle),
        (ContactorState::Open, true) => {
            if c.has_precharge {
                (Contactor { state: ContactorState::Precharge, ..c }, DriveAction::BeginPrecharge)
            } else {
                (Contactor { state: ContactorState::Closed, ..c }, DriveAction::CloseMain)
            }
        },
        (ContactorState::Precharge, false) => (
            Contactor { state: ContactorState::Open, ..c },
            DriveAction::Disconnect,
        ),
        (ContactorState::Precharge, true) => (c, DriveAction::Idle),
        (ContactorState::Closed, false) => (
            Contactor { state: ContactorState::Open, ..c },
            DriveAction::Disconnect,
        ),
        (ContactorState::Closed, true) => (c, DriveAction::Idle),
    }
}

impl Contactor {
    /// A controller starting open.
    pub fn new(has_precharge: bool) -> (r: Contactor)
        ensures
            r.state == ContactorState::Open,
            r.has_precharge == has_precharge,
    {
        Contactor { state: ContactorState::Open, has_precharge }
    }

    /// Feed one reading of the "should be closed" signal; returns the
    /// action the hardware must perform. A false signal from `Precharge`
    /// or `Closed` disconnects immediately; a true signal while already
    /// `Closed` is a no-op (the close sequence is never re-triggered).
    pub fn step(&mut self, signal: bool) -> (action: DriveAction)
        ensures
            (*final(self), action) == spec_step(*old(self), signal),
            !signal ==> final(self).state == ContactorState::Open,
            final(self).has_precharge == old(self).has_precharge,
    {
        match (self.state, signal) {
            (ContactorState::Open, false) => DriveAction::Idle,
            (ContactorState::Open, true) => {
                if self.has_precharge {
                    self.state = ContactorState::Precharge;
                    DriveAction::BeginPrecharge
                } else {
                    self.state = ContactorState::Closed;
                    DriveAction::CloseMain
                }
            },
            (ContactorState::Precharge, false) => {
                self.state = ContactorState::Open;
                DriveAction::Disconnect
            },
            (ContactorState::Precharge, true) => DriveAction::Idle,
            (ContactorState::Closed, false) => {
                self.state = ContactorState::Open;
                DriveAction::Disconnect
            },
            (ContactorState::Closed, true) => DriveAction::Idle,
        }
    }

    /// The precharge settle delay has elapsed with the signal still
    /// true: drive the main contactor. Only meaningful in `Precharge`.
    pub fn settle_elapsed(&mut self, signal: bool) -> (action: DriveAction)
        ensures
            old(self).state == ContactorState::Precharge && signal ==> final(self).state
                == ContactorState::Closed && action == DriveAction::CloseMain,
            old(self).state == ContactorState::Precharge && !signal ==> final(self).state
                == ContactorState::Open && action == DriveAction::Disconnect,
            old(self).state != ContactorState::Precharge ==> *final(self) == *old(self) && action
                == DriveAction::Idle,
            final(self).has_precharge == old(self).has_precharge,
    {
        if !matches!(self.state, ContactorState::Precharge) {
            return DriveAction::Idle;
        }
        if signal {
            self.state = ContactorState::Closed;
            DriveAction::CloseMain
        } else {
            self.state = ContactorState::Open;
            DriveAction::Disconnect
        }
    }
}

/// The "should be closed" signal some inverter links derive: the link
/// reports a result each cycle, and the contactor may close only after
/// two consecutive good results. One good result primes the link; the
/// signal it emits is true only when the previous result was also good.
#[derive(Clone, Copy, Debug, PartialEq, Eq, Structural)]
pub struct DebouncedSignal {
    /// Whether the previous cycle's result was good.
    pub primed: bool,
}

/// The transition of the debounced signal: new state and emitted signal.
pub open spec fn spec_debounce_step(primed: bool, good: bool) -> (bool, bool) {
    (good, good && primed)
}

impl DebouncedSignal {
    /// A link that has not yet seen a good result.
    pub fn new() -> (r: DebouncedSignal)
        ensures
            !r.primed,
    {
        DebouncedSignal { primed: false }
    }

    /// Report one cycle's result; returns the contactor signal to emit.
    pub fn on_result(&mut self, good: bool) -> (signal: bool)
        ensures
            (final(self).primed, signal) == spec_debounce_step(old(self).primed, good),
    {
        let signal = good && self.primed;
        self.primed = good;
        signal
    }
}

/// Contactor debounce: starting unprimed, a single good result emits no
/// close signal; only the second consecutive good result does; and a
/// good result followed by a bad one emits no close signal at either
/// step.
pub proof fn lemma_contactor_debounce()
    ensures
        spec_debounce_step(false, true) == (true, false),
        spec_debounce_step(true, true) == (true, true),
        spec_debounce_step(true, false) == (false, false),
        spec_debounce_step(false, false) == (false, false),
{
}

/// Immediate opening: whatever state the contactor is in, one false
/// signal drives it open, and from `Closed` the action is an immediate
/// `Disconnect` with no intervening state.
pub proof fn lemma_immediate_open(c: Contactor)
    ensures
        spec_step(c, false).0.state == ContactorState::Open,
        c.state == ContactorState::Closed ==> spec_step(c, false).1 == DriveAction::Disconnect,
        c.state == ContactorState::Precharge ==> spec_step(c, false).1 == DriveAction::Disconnect,
{
}

/// Idempotence of a true signal while closed: no re-trigger of the
/// close or precharge sequence.
pub proof fn lemma_closed_idempotent(c: Contactor)
    requires
        c.state == ContactorState::Closed,
    ensures
        spec_step(c, true) == (c, DriveAction::Idle),
{
}

} // verus!
