//! The interrupt guard of protected calls.
//!
//! While a protected call runs, an interrupt from the console does not end
//! the process: it asks the running call to stop, and the call fails at its
//! next checkpoint. Only one interrupt is caught. From the moment it is
//! delivered, a second one has the effect that the system gives it. The
//! caller installs and removes the handler and the checkpoint hook; the
//! functions here say when.

use vstd::prelude::*;

verus! {

/// The state of the guard.
#[derive(Clone, Copy, PartialEq, Eq, Debug)]
pub struct InterruptState {
    /// The handler is installed: an interrupt will be caught.
    pub armed: bool,
    /// An interrupt was caught and the running code has not yet been stopped.
    pub stop_requested: bool,
}

/// What the delivery of an interrupt does.
#[derive(Clone, Copy, PartialEq, Eq, Debug)]
pub enum Delivery {
    /// It is caught: default handling is restored and the checkpoint hook is set.
    Caught,
    /// It is not caught: the system's default applies, which ends the process.
    Default,
}

/// What a checkpoint inside the engine does.
#[derive(Clone, Copy, PartialEq, Eq, Debug)]
pub enum Checkpoint {
    /// The running code goes on.
    Proceed,
    /// The hook is cleared and the running call fails as interrupted.
    Interrupt,
}

/// The state in which no call is protected and nothing is pending.
pub open spec fn idle() -> InterruptState {
    InterruptState { armed: false, stop_requested: false }
}

/// The state after a protected call began.
pub open spec fn armed(state: InterruptState) -> InterruptState {
    InterruptState { armed: true, ..state }
}

/// The state after a protected call ended, however it ended.
pub open spec fn disarmed(state: InterruptState) -> InterruptState {
    InterruptState { armed: false, ..state }
}

/// The state after an interrupt was delivered.
pub open spec fn delivered(state: InterruptState) -> InterruptState {
    if state.armed {
        InterruptState { armed: false, stop_requested: true }
    } else {
        state
    }
}

/// What an interrupt delivered in `state` does.
pub open spec fn delivery(state: InterruptState) -> Delivery {
    if state.armed {
        Delivery::Caught
    } else {
        Delivery::Default
    }
}

/// The state after a checkpoint.
pub open spec fn checked(state: InterruptState) -> InterruptState {
    InterruptState { stop_requested: false, ..state }
}

/// What a checkpoint reached in `state` does.
pub open spec fn checkpoint(state: InterruptState) -> Checkpoint {
    if state.stop_requested {
        Checkpoint::Interrupt
    } else {
        Checkpoint::Proceed
    }
}

impl InterruptState {
    /// The guard at rest.
    pub fn new() -> (state: InterruptState)
        ensures
            state == idle(),
    {
        InterruptState { armed: false, stop_requested: false }
    }

    /// A protected call begins: the handler is to be installed.
    pub fn arm(self) -> (next: InterruptState)
        ensures
            next == armed(self),
    {
        InterruptState { armed: true, stop_requested: self.stop_requested }
    }

    /// A protected call ended: default handling is to be restored.
    pub fn disarm(self) -> (next: InterruptState)
        ensures
            next == disarmed(self),
    {
        InterruptState { armed: false, stop_requested: self.stop_requested }
    }

    /// An interrupt is delivered. Under an installed handler it is caught:
    /// default handling is restored at once and a stop is requested. Else it
    /// takes the system's default.
    pub fn on_signal(self) -> (result: (InterruptState, Delivery))
        ensures
            result.0 == delivered(self),
            result.1 == delivery(self),
    {
        if self.armed {
            (InterruptState { armed: false, stop_requested: true }, Delivery::Caught)
        } else {
            (self, Delivery::Default)
        }
    }

    /// The engine reaches a checkpoint. A requested stop is consumed and
    /// interrupts the running call.
    pub fn on_checkpoint(self) -> (result: (InterruptState, Checkpoint))
        ensures
            result.0 == checked(self),
            result.1 == checkpoint(self),
    {
        if self.stop_requested {
            (InterruptState { armed: self.armed, stop_requested: false }, Checkpoint::Interrupt)
        } else {
            (self, Checkpoint::Proceed)
        }
    }
}

/// An interrupt that arrives while a call is protected is caught, and the
/// next checkpoint interrupts the call.
pub proof fn lemma_interrupt_stops_call(state: InterruptState)
    ensures
        delivery(armed(state)) == Delivery::Caught,
        checkpoint(delivered(armed(state))) == Checkpoint::Interrupt,
{
}

/// Only one interrupt is caught: whatever the state, an interrupt that
/// follows another with no new call begun in between takes the system's
/// default, before and after the first has stopped the call, and after the
/// call has ended.
pub proof fn lemma_second_interrupt_is_default(state: InterruptState)
    ensures
        delivery(delivered(state)) == Delivery::Default,
        delivery(checked(delivered(state))) == Delivery::Default,
        delivery(disarmed(checked(delivered(state)))) == Delivery::Default,
{
}

/// Outside a protected call no interrupt is caught.
pub proof fn lemma_unprotected_is_default(state: InterruptState)
    ensures
        delivery(idle()) == Delivery::Default,
        delivery(disarmed(state)) == Delivery::Default,
{
}

/// A stop is requested by a caught interrupt only, and one checkpoint
/// consumes it: without a pending stop, arming, disarming and checkpoints
/// never interrupt.
pub proof fn lemma_no_interrupt_without_signal(state: InterruptState)
    requires
        !state.stop_requested,
    ensures
        checkpoint(armed(state)) == Checkpoint::Proceed,
        checkpoint(disarmed(state)) == Checkpoint::Proceed,
        checkpoint(checked(state)) == Checkpoint::Proceed,
        checkpoint(checked(delivered(state))) == Checkpoint::Proceed,
{
}

} // verus!
