use vstd::prelude::*;

use crate::variant::{is_known_variant, lists_name, pattern_for, pattern_of, SpawnPattern};

verus! {

/// Why a visualization could not be started.
#[derive(Clone, Copy, Debug, PartialEq, Eq, Structural)]
pub enum StartError {
    /// The requested theme is not among the discovered ones.
    UnknownVariant,
    /// A render thread is still running or tearing down.
    AlreadyActive,
}

/// Liveness of the render thread and the request to end it.
#[derive(Clone, Copy, Debug, PartialEq, Eq, Structural)]
pub struct RunState {
    /// Set when a render thread is launched, cleared once it has torn down.
    pub active: bool,
    /// Set by a stop request, read by the render thread at every wake.
    pub should_exit: bool,
}

impl RunState {
    /// Nothing running, no stop pending.
    pub fn new() -> (r: RunState)
        ensures
            !r.active,
            !r.should_exit,
    {
        RunState { active: false, should_exit: false }
    }

    /// Decides whether a run of `variant` may begin, given the discovered
    /// theme names. An unknown name, or a run that has not yet torn down,
    /// is refused and leaves the state as it was; otherwise the run is
    /// marked active, the stop request is cleared, and the particle layout
    /// of the theme is returned.
    pub fn begin_start(&mut self, variants: &Vec<String>, variant: &str) -> (r: Result<
        SpawnPattern,
        StartError,
    >)
        ensures
            !lists_name(variants@, variant@) ==> r == Err::<SpawnPattern, StartError>(
                StartError::UnknownVariant,
            ) && *final(self) == *old(self),
            lists_name(variants@, variant@) && old(self).active ==> r == Err::<
                SpawnPattern,
                StartError,
            >(StartError::AlreadyActive) && *final(self) == *old(self),
            lists_name(variants@, variant@) && !old(self).active ==> r == Ok::<
                SpawnPattern,
                StartError,
            >(pattern_for(variant@)) && final(self).active && !final(self).should_exit,
    {
        if !is_known_variant(variants, variant) {
            return Err(StartError::UnknownVariant);
        }
        if self.active {
            return Err(StartError::AlreadyActive);
        }
        self.active = true;
        self.should_exit = false;
        Ok(pattern_of(variant))
    }

    /// Asks the render thread to end at its next wake. Repeating it changes
    /// nothing further.
    pub fn request_stop(&mut self)
        ensures
            final(self).should_exit,
            final(self).active == old(self).active,
    {
        self.should_exit = true;
    }

    /// Records that the render thread has fully torn down.
    pub fn finish(&mut self)
        ensures
            !final(self).active,
            final(self).should_exit == old(self).should_exit,
    {
        self.active = false;
    }

    /// Whether a render thread is running or tearing down.
    pub fn is_active(&self) -> (r: bool)
        ensures
            r == self.active,
    {
        self.active
    }

    /// Whether a stop has been requested.
    pub fn should_exit(&self) -> (r: bool)
        ensures
            r == self.should_exit,
    {
        self.should_exit
    }
}

} // verus!
