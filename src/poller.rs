use vstd::prelude::*;

use crate::adapter::{AdapterError, Port};
use crate::input::{Input, Rumble};

verus! {

/// Pause before the adapter is opened again after a failure, in milliseconds.
pub const ERROR_TIMEOUT_MS: u64 = 8;

/// Time budget of every USB transfer, in milliseconds.
pub const USB_TIMEOUT_MS: u64 = 16;

/// What the poller knows between iterations.
#[derive(Clone, Copy, Debug, PartialEq, Eq, Structural)]
pub struct PollerState {
    /// An adapter session is open.
    pub adapter_open: bool,
    /// The observable connected flag.
    pub connected: bool,
}

/// What the poll loop does next.
#[derive(Clone, Copy, Debug, PartialEq, Eq, Structural)]
pub enum PollAction {
    /// Open an adapter session.
    Open,
    /// Read inputs and write rumble on the open session.
    Poll,
    /// Wait `ERROR_TIMEOUT_MS` before trying again.
    Backoff,
    /// Leave the loop.
    Exit,
}

impl PollerState {
    /// No session, not connected.
    pub fn new() -> (r: PollerState)
        ensures
            !r.adapter_open,
            !r.connected,
    {
        PollerState { adapter_open: false, connected: false }
    }

    /// The next action at the top of an iteration.
    pub fn next_action(&self, stop: bool) -> (r: PollAction)
        ensures
            r == (if stop { PollAction::Exit } else if !self.adapter_open { PollAction::Open } else { PollAction::Poll }),
    {
        if stop {
            PollAction::Exit
        } else if !self.adapter_open {
            PollAction::Open
        } else {
            PollAction::Poll
        }
    }

    /// Records the outcome of opening a session: connected on success, a
    /// backoff on failure.
    pub fn after_open(&mut self, result: Result<(), AdapterError>) -> (r: PollAction)
        ensures
            final(self).adapter_open == result is Ok,
            final(self).connected == result is Ok,
            r == (if result is Ok { PollAction::Poll } else { PollAction::Backoff }),
    {
        match result {
            Ok(()) => {
                self.adapter_open = true;
                self.connected = true;
                PollAction::Poll
            },
            Err(_) => {
                self.adapter_open = false;
                self.connected = false;
                PollAction::Backoff
            },
        }
    }

    /// Records the outcome of one read-and-write iteration; returns whether
    /// the lap time is published. A timeout keeps the session; any other
    /// error drops it so that the next iteration reopens it.
    pub fn after_poll(&mut self, result: Result<(), AdapterError>) -> (r: bool)
        ensures
            r == result is Ok,
            *final(self) == polled(*old(self), result),
    {
        match result {
            Ok(()) => true,
            Err(AdapterError::Timeout) => false,
            Err(_) => {
                self.adapter_open = false;
                false
            },
        }
    }

    /// Leaves the loop: no longer connected.
    pub fn exit(&mut self)
        ensures
            !final(self).connected,
            final(self).adapter_open == old(self).adapter_open,
    {
        self.connected = false;
    }
}

/// The state after an iteration with `result`.
pub open spec fn polled(s: PollerState, result: Result<(), AdapterError>) -> PollerState {
    PollerState {
        adapter_open: s.adapter_open && (result is Ok || result == Err::<(), AdapterError>(AdapterError::Timeout)),
        connected: s.connected,
    }
}

/// The outcome of an iteration from its two halves: the read's error if it
/// failed, else the write's.
pub fn combine_results(input: Result<(), AdapterError>, rumble: Result<(), AdapterError>) -> (r: Result<(), AdapterError>)
    ensures
        r == (if input is Err { input } else { rumble }),
{
    match input {
        Ok(()) => rumble,
        Err(e) => Err(e),
    }
}

/// What the listener of `port` receives from one read.
pub fn route_input(inputs: &[Option<Input>; 4], port: Port) -> (r: Option<Input>)
    ensures
        r == inputs[port.index_of() as int],
{
    inputs[port.index()]
}

/// The four rumble cells, one per port, that listeners set and the poller
/// writes out each iteration.
pub struct RumbleCells {
    pub states: [Rumble; 4],
}

impl RumbleCells {
    /// All ports off.
    pub fn new() -> (r: RumbleCells)
        ensures
            forall|i: int| 0 <= i < 4 ==> #[trigger] r.states[i] == Rumble::Off,
    {
        RumbleCells { states: [Rumble::Off, Rumble::Off, Rumble::Off, Rumble::Off] }
    }

    /// Sets the cell of `port`; the other cells keep their commands.
    pub fn set_rumble(&mut self, port: Port, rumble: Rumble)
        ensures
            final(self).states@ == old(self).states@.update(port.index_of() as int, rumble),
    {
        let i = port.index();
        self.states[i] = rumble;
    }

    /// Switches the motor of `port` off.
    pub fn reset_rumble(&mut self, port: Port)
        ensures
            final(self).states@ == old(self).states@.update(port.index_of() as int, Rumble::Off),
    {
        self.set_rumble(port, Rumble::Off)
    }

    /// The commands of all four ports, for one rumble write.
    pub fn snapshot(&self) -> (r: [Rumble; 4])
        ensures
            r == self.states,
    {
        self.states
    }
}

/// The state after a run of iterations that all time out.
pub open spec fn after_timeouts(s: PollerState, n: nat) -> PollerState
    decreases n,
{
    if n == 0 {
        s
    } else {
        polled(after_timeouts(s, (n - 1) as nat), Err(AdapterError::Timeout))
    }
}

/// A session on which every transfer times out stays open and connected:
/// after a successful open, any number of timed-out iterations keeps both
/// flags set (and `after_poll` publishes no lap for them).
pub proof fn lemma_timeouts_keep_connection(s: PollerState, n: nat)
    requires
        s.adapter_open,
        s.connected,
    ensures
        after_timeouts(s, n).adapter_open,
        after_timeouts(s, n).connected,
    decreases n,
{
    if n > 0 {
        lemma_timeouts_keep_connection(s, (n - 1) as nat);
    }
}

} // verus!
