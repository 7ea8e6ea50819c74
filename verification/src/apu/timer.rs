//! The divider that clocks each sound channel.
use vstd::prelude::*;

verus! {

/// A divider that counts down and reloads from the channel's period.
#[derive(Clone, Copy, Debug, PartialEq, Eq, Structural)]
pub struct State {
    pub divider: u16,
}

impl State {
    pub fn new() -> (s: Self)
        ensures
            s.divider == 0,
    {
        State { divider: 0 }
    }

    /// The divider after one clock with the given period.
    pub open spec fn stepped(self, period: u16) -> Self {
        if self.divider > 0 {
            State { divider: (self.divider - 1) as u16 }
        } else {
            State { divider: (period + 1) as u16 }
        }
    }

    /// One clock: counts down, and at zero reloads with `period + 1` and reports that
    /// the channel's sequencer is to be clocked.
    pub fn step(&mut self, period: u16) -> (clocked: bool)
        requires
            period < u16::MAX,
        ensures
            clocked == (old(self).divider == 0),
            *final(self) == old(self).stepped(period),
    {
        if self.divider > 0 {
            self.divider = self.divider - 1;
            false
        } else {
            self.divider = period + 1;
            true
        }
    }
}

} // verus!
