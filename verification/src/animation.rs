use vstd::prelude::*;

use crate::physics::MotionState;

verus! {

/// Immutable per-actor animation data: one sprite-frame sequence per motion
/// state, attached at construction.
#[derive(Clone, PartialEq, Eq, Debug)]
pub struct AnimationConfig {
    pub stopped: Vec<u32>,
    pub running: Vec<u32>,
    pub jumping: Vec<u32>,
}

impl AnimationConfig {
    /// Every sequence has at least one frame.
    pub open spec fn wf(self) -> bool {
        self.stopped@.len() >= 1 && self.running@.len() >= 1 && self.jumping@.len() >= 1
    }

    /// The frame sequence of one motion state.
    pub open spec fn sequence(self, state: MotionState) -> Seq<u32> {
        match state {
            MotionState::Stopped => self.stopped@,
            MotionState::Running => self.running@,
            MotionState::Jumping => self.jumping@,
        }
    }
}

/// The per-actor animation counter. The counter is shared across motion
/// states on purpose: switching states does not reset it.
#[derive(Clone, PartialEq, Eq, Debug)]
pub struct Animate {
    pub config: AnimationConfig,
    pub index: usize,
}

impl Animate {
    /// A fresh counter at the start of its sequences.
    pub fn new(config: AnimationConfig) -> (r: Animate)
        ensures
            r.config == config,
            r.index == 0,
    {
        Animate { config, index: 0 }
    }

    /// One animation timer tick: advance the shared counter modulo the
    /// current state's sequence length, then output the frame it now names.
    pub fn next(&mut self, state: MotionState) -> (frame: u32)
        requires
            old(self).config.wf(),
            old(self).index < usize::MAX,
        ensures
            ({
                let s = old(self).config.sequence(state);
                &&& final(self).index as int == (old(self).index + 1) % (s.len() as int)
                &&& frame == s[final(self).index as int]
                &&& final(self).config == old(self).config
                &&& final(self).index < s.len()
                &&& final(self).index < usize::MAX
            }),
    {
        let seq: &Vec<u32> = match state {
            MotionState::Stopped => &self.config.stopped,
            MotionState::Running => &self.config.running,
            MotionState::Jumping => &self.config.jumping,
        };
        let next_index: usize = (self.index + 1) % seq.len();
        self.index = next_index;
        seq[next_index]
    }
}

} // verus!
