//! Decisions of the three ways to take an event: poll, wait, and wait with
//! a timeout. The owner of the native source performs what is decided.

use vstd::prelude::*;

verus! {

/// How the caller wants to take an event.
#[derive(Copy, Clone, Debug, PartialEq, Eq, Structural)]
pub enum WaitMode {
    /// Never block.
    Poll,
    /// Block until an event is available.
    Wait,
    /// Block once, until an event or a wake-up after the timeout.
    WaitTimeout,
}

/// What to do after a poll.
#[derive(Copy, Clone, Debug, PartialEq, Eq, Structural)]
pub enum WaitAction {
    /// Hand the poll's result to the caller.
    Finish,
    /// Block until the native source delivers an event, then poll again.
    Block,
    /// Start a timer that wakes the native source after the timeout, block
    /// until an event or the wake-up, then poll again.
    ArmTimerAndBlock,
}

/// The state of one call that takes an event.
#[derive(Copy, Clone, Debug, PartialEq, Eq, Structural)]
pub struct Waiter {
    pub mode: WaitMode,
    /// Whether the call has already blocked once.
    pub blocked: bool,
}

/// What follows a poll that did or did not yield an event.
pub open spec fn action_after(w: Waiter, got_event: bool) -> WaitAction {
    if got_event {
        WaitAction::Finish
    } else {
        match w.mode {
            WaitMode::Poll => WaitAction::Finish,
            WaitMode::Wait => WaitAction::Block,
            WaitMode::WaitTimeout => if w.blocked {
                WaitAction::Finish
            } else {
                WaitAction::ArmTimerAndBlock
            },
        }
    }
}

impl Waiter {
    /// A call that has not blocked yet.
    pub fn new(mode: WaitMode) -> (r: Waiter)
        ensures
            r == (Waiter { mode, blocked: false }),
    {
        Waiter { mode, blocked: false }
    }

    /// Decides what follows a poll; `got_event` says whether it yielded one.
    pub fn after_poll(&mut self, got_event: bool) -> (r: WaitAction)
        ensures
            r == action_after(*old(self), got_event),
            final(self).mode == old(self).mode,
            final(self).blocked == (old(self).blocked || r != WaitAction::Finish),
    {
        let r = if got_event {
            WaitAction::Finish
        } else {
            match self.mode {
                WaitMode::Poll => WaitAction::Finish,
                WaitMode::Wait => WaitAction::Block,
                WaitMode::WaitTimeout => if self.blocked {
                    WaitAction::Finish
                } else {
                    WaitAction::ArmTimerAndBlock
                },
            }
        };
        if r != WaitAction::Finish {
            self.blocked = true;
        }
        r
    }
}

/// A wait with a timeout arms exactly one timer, blocks once, and then
/// finishes whether or not the second poll yielded an event.
pub proof fn lemma_timeout_blocks_once(got_second: bool)
    ensures
        action_after(Waiter { mode: WaitMode::WaitTimeout, blocked: false }, false)
            == WaitAction::ArmTimerAndBlock,
        action_after(Waiter { mode: WaitMode::WaitTimeout, blocked: true }, got_second)
            == WaitAction::Finish,
{
}

/// A poll never blocks, and a wait finishes only once an event is available.
pub proof fn lemma_poll_never_blocks_wait_never_gives_up(w: Waiter, got_event: bool)
    ensures
        w.mode == WaitMode::Poll ==> action_after(w, got_event) == WaitAction::Finish,
        w.mode == WaitMode::Wait ==> (action_after(w, got_event) == WaitAction::Finish <==> got_event),
{
}

} // verus!
