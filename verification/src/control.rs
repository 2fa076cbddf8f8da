//! Bookkeeping for control commands issued against the reader.

use vstd::prelude::*;

verus! {

/// Tracks how many control commands have been issued and when the
/// last resetting command happened, in wall-clock milliseconds.
#[derive(Debug, Clone, PartialEq, Eq, Structural)]
pub struct ControlState {
    pub last_reset_ms: u64,
    pub command_count: u32,
}

impl Default for ControlState {
    /// Fresh control state: no command yet, last reset at the epoch.
    fn default() -> (r: ControlState)
        ensures
            r.last_reset_ms == 0,
            r.command_count == 0,
    {
        ControlState { last_reset_ms: 0, command_count: 0 }
    }
}

impl ControlState {
    /// Counts one issued command; the count sticks at its maximum
    /// rather than wrapping.
    pub fn note_command(&mut self)
        ensures
            final(self).command_count == (if old(self).command_count < u32::MAX {
                old(self).command_count + 1
            } else {
                old(self).command_count as int
            }),
            final(self).last_reset_ms == old(self).last_reset_ms,
    {
        if self.command_count < u32::MAX {
            self.command_count = self.command_count + 1;
        }
    }

    /// Counts one resetting command and stamps when it happened.
    pub fn note_reset(&mut self, now_ms: u64)
        ensures
            final(self).command_count == (if old(self).command_count < u32::MAX {
                old(self).command_count + 1
            } else {
                old(self).command_count as int
            }),
            final(self).last_reset_ms == now_ms,
    {
        self.note_command();
        self.last_reset_ms = now_ms;
    }
}

} // verus!
