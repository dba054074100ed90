//! A transient message: the last action or failure, shown until it has been
//! on display for a fixed number of ticks.

use vstd::prelude::*;

verus! {

/// The number of ticks after which a message is cleared.
pub const ACTION_RESET_TICKS: u32 = 20;

/// Holds the message that is shown to the user and counts the ticks since it
/// was set.
pub struct ActionDisplay {
    action: String,
    tick_count: u32,
    reset_tick_count: u32,
}

impl ActionDisplay {
    /// The current message; empty when there is none.
    pub closed spec fn message(&self) -> Seq<char> {
        self.action@
    }

    /// The ticks counted since the message was set or last cleared.
    pub closed spec fn ticks(&self) -> nat {
        self.tick_count as nat
    }

    /// The tick count at which the message is cleared.
    pub closed spec fn threshold(&self) -> nat {
        self.reset_tick_count as nat
    }

    /// Well-formedness: the tick count stays below the threshold.
    pub open spec fn wf(&self) -> bool {
        self.ticks() < self.threshold()
    }

    /// What the message is after a tick.
    pub open spec fn message_after_tick(&self) -> Seq<char> {
        if self.ticks() + 1 >= self.threshold() {
            Seq::empty()
        } else {
            self.message()
        }
    }

    /// What the tick count is after a tick.
    pub open spec fn ticks_after_tick(&self) -> nat {
        if self.ticks() + 1 >= self.threshold() {
            0
        } else {
            self.ticks() + 1
        }
    }

    /// A display without a message.
    pub fn new() -> (display: ActionDisplay)
        ensures
            display.wf(),
            display.message() == Seq::<char>::empty(),
            display.ticks() == 0,
            display.threshold() == ACTION_RESET_TICKS,
    {
        ActionDisplay {
            action: String::new(),
            tick_count: 0,
            reset_tick_count: ACTION_RESET_TICKS,
        }
    }

    /// Replaces the message and starts counting ticks afresh.
    pub fn set(&mut self, action: &str)
        ensures
            final(self).message() == action@,
            final(self).ticks() == 0,
            final(self).threshold() == old(self).threshold(),
            old(self).wf() ==> final(self).wf(),
    {
        self.tick_count = 0;
        self.action = action.to_owned();
    }

    /// The current message.
    pub fn get(&self) -> (message: &str)
        ensures
            message@ == self.message(),
    {
        self.action.as_str()
    }

    /// Counts one tick. The message is cleared, and the count starts afresh,
    /// exactly when the count reaches the threshold.
    pub fn tick(&mut self)
        requires
            old(self).wf(),
        ensures
            final(self).wf(),
            final(self).message() == old(self).message_after_tick(),
            final(self).ticks() == old(self).ticks_after_tick(),
            final(self).threshold() == old(self).threshold(),
    {
        self.tick_count += 1;
        if self.tick_count >= self.reset_tick_count {
            self.action = String::new();
            self.tick_count = 0;
        }
    }
}

impl Default for ActionDisplay {
    fn default() -> (display: ActionDisplay)
        ensures
            display.wf(),
            display.message() == Seq::<char>::empty(),
            display.ticks() == 0,
            display.threshold() == ACTION_RESET_TICKS,
    {
        ActionDisplay::new()
    }
}

} // verus!
