//! Stepping an L-system forward and back by one step.

use vstd::prelude::*;

use crate::lsystem::l_rule::CSSLRule;
use crate::lsystem::l_system::{derivation, used_views, CSSLSystem, LSystem};

verus! {

/// Steps a system and remembers the word from before the last step, so that
/// one step can be undone.
#[derive(Debug)]
pub struct ControlPanel {
    n_steps: usize,
    prev_word: String,
}

impl ControlPanel {
    pub closed spec fn prev_view(&self) -> Seq<char> {
        self.prev_word@
    }

    pub closed spec fn steps_view(&self) -> nat {
        self.n_steps as nat
    }

    /// A panel for `system`, stepping one step at a time.
    pub fn new(system: &CSSLSystem) -> (r: Self)
        ensures
            r.prev_view() == system.state_view().1,
            r.steps_view() == 1,
    {
        ControlPanel { n_steps: 1, prev_word: system.state().word().clone() }
    }

    pub fn n_steps(&self) -> (r: usize)
        ensures
            r == self.steps_view(),
    {
        self.n_steps
    }

    pub fn set_n_steps(&mut self, n: usize)
        ensures
            final(self).steps_view() == n,
            final(self).prev_view() == old(self).prev_view(),
    {
        self.n_steps = n;
    }

    /// Apply `n` steps, remembering the word from before them.
    pub fn step(&mut self, system: &mut CSSLSystem, n: usize) -> (r: Vec<Vec<CSSLRule>>)
        requires
            old(system).state_view().0 + n <= i32::MAX,
        ensures
            r@.len() == n,
            final(self).prev_view() == old(system).state_view().1,
            final(self).steps_view() == old(self).steps_view(),
            final(system).rule_seq() == old(system).rule_seq(),
            final(system).start_view() == old(system).start_view(),
            final(system).state_view().0 == old(system).state_view().0 + n,
            exists|words: Seq<Seq<char>>|
                #[trigger] derivation(old(system).rule_seq(), words, used_views(r@)) && words.len()
                    == n + 1 && words[0] == old(system).state_view().1 && words[n as int]
                    == final(system).state_view().1,
    {
        self.prev_word = system.state().word().clone();
        system.steps(n)
    }

    /// Undo the last step: restore the remembered word one iteration back.
    /// At iteration 0 there is nothing to undo.
    pub fn back(&mut self, system: &mut CSSLSystem)
        ensures
            *final(self) == *old(self),
            final(system).rule_seq() == old(system).rule_seq(),
            final(system).start_view() == old(system).start_view(),
            final(system).state_view() == if old(system).state_view().0 >= 1 {
                (old(system).state_view().0 - 1, old(self).prev_view())
            } else {
                old(system).state_view()
            },
    {
        if *system.state().iter_num() >= 1 {
            system.rollback(self.prev_word.clone());
        }
    }

    /// Undo the last step and take it again.
    pub fn retry_step(&mut self, system: &mut CSSLSystem) -> (r: Vec<Vec<CSSLRule>>)
        requires
            old(system).state_view().0 < i32::MAX,
        ensures
            r@.len() == 1,
            final(system).rule_seq() == old(system).rule_seq(),
            final(system).start_view() == old(system).start_view(),
            old(system).state_view().0 >= 1 ==> final(system).state_view().0
                == old(system).state_view().0 && final(self).prev_view() == old(self).prev_view(),
            old(system).state_view().0 < 1 ==> final(system).state_view().0
                == old(system).state_view().0 + 1 && final(self).prev_view()
                == old(system).state_view().1,
    {
        self.back(system);
        self.step(system, 1)
    }
}

} // verus!
