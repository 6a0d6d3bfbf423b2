use vstd::prelude::*;

verus! {

/// A minimum-interval gate, counted in the same integer time unit as the
/// tick's `dt`. A repeating timer starts over the moment it fires; a
/// one-shot timer stays expired until it is reset.
#[derive(Clone, Copy, PartialEq, Eq, Structural, Debug)]
pub struct TickTimer {
    pub elapsed: u32,
    pub duration: u32,
    pub repeating: bool,
}

impl TickTimer {
    /// Whether advancing by `dt` reaches the duration.
    pub open spec fn fires(self, dt: u32) -> bool {
        self.elapsed + dt >= self.duration
    }

    /// The timer's state after advancing by `dt`.
    pub open spec fn after_tick(self, dt: u32) -> TickTimer {
        if self.fires(dt) {
            TickTimer { elapsed: if self.repeating { 0 } else { self.duration }, ..self }
        } else {
            TickTimer { elapsed: (self.elapsed + dt) as u32, ..self }
        }
    }

    /// A fresh timer with the given interval.
    pub fn new(duration: u32, repeating: bool) -> (r: TickTimer)
        ensures
            r == (TickTimer { elapsed: 0, duration, repeating }),
    {
        TickTimer { elapsed: 0, duration, repeating }
    }

    /// Advances the timer by `dt` and reports whether it fired.
    pub fn tick(&mut self, dt: u32) -> (fired: bool)
        ensures
            fired == old(self).fires(dt),
            *final(self) == old(self).after_tick(dt),
    {
        let total: u64 = self.elapsed as u64 + dt as u64;
        if total >= self.duration as u64 {
            self.elapsed = if self.repeating {
                0
            } else {
                self.duration
            };
            true
        } else {
            self.elapsed = total as u32;
            false
        }
    }

    /// Starts the interval over.
    pub fn reset(&mut self)
        ensures
            *final(self) == (TickTimer { elapsed: 0, ..*old(self) }),
    {
        self.elapsed = 0;
    }
}

} // verus!
