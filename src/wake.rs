use vstd::prelude::*;

verus! {

/// Why the render thread's event loop woke.
#[derive(Clone, Copy, Debug, PartialEq, Eq, Structural)]
pub enum WakeCause {
    /// The loop has just begun.
    Init,
    /// The scheduled tick time has come.
    TimerElapsed,
    /// The platform asked to close the window.
    CloseRequested,
    /// Anything else: input, redraw requests, spurious wakes.
    Other,
}

/// What the render thread does on a wake.
#[derive(Clone, Copy, Debug, PartialEq, Eq, Structural)]
pub enum WakeAction {
    /// Keep waiting for the scheduled time.
    Ignore,
    /// Leave the loop and tear the window down.
    Exit,
    /// Render one frame and schedule the next wake one period after now.
    Tick,
}

/// A close request ends the loop; the start and the scheduled time end it
/// too when a stop was requested, and render a frame otherwise; any other
/// wake is ignored.
pub open spec fn spec_on_wake(cause: WakeCause, should_exit: bool) -> WakeAction {
    match cause {
        WakeCause::CloseRequested => WakeAction::Exit,
        WakeCause::Other => WakeAction::Ignore,
        _ => if should_exit {
            WakeAction::Exit
        } else {
            WakeAction::Tick
        },
    }
}

/// Decides what one wake of the event loop does.
pub fn on_wake(cause: WakeCause, should_exit: bool) -> (r: WakeAction)
    ensures
        r == spec_on_wake(cause, should_exit),
{
    match cause {
        WakeCause::CloseRequested => WakeAction::Exit,
        WakeCause::Other => WakeAction::Ignore,
        _ => if should_exit {
            WakeAction::Exit
        } else {
            WakeAction::Tick
        },
    }
}

/// Where a render thread stands in its life.
#[derive(Clone, Copy, Debug, PartialEq, Eq, Structural)]
pub enum Phase {
    /// Window and resources being built.
    Starting,
    /// Ticking at the target rate.
    Running,
    /// Loop left; window being released.
    Exiting,
    /// Everything released; the run is over.
    TornDown,
}

impl Phase {
    /// The phase after `action` was taken in this one: an exit moves a
    /// running loop to `Exiting`; nothing else moves it.
    pub fn on_action(self, action: WakeAction) -> (r: Phase)
        ensures
            self == Phase::Running && action == WakeAction::Exit ==> r == Phase::Exiting,
            !(self == Phase::Running && action == WakeAction::Exit) ==> r == self,
    {
        match (self, action) {
            (Phase::Running, WakeAction::Exit) => Phase::Exiting,
            _ => self,
        }
    }

    /// The phase after resources were built.
    pub fn on_built(self) -> (r: Phase)
        ensures
            self == Phase::Starting ==> r == Phase::Running,
            self != Phase::Starting ==> r == self,
    {
        match self {
            Phase::Starting => Phase::Running,
            _ => self,
        }
    }

    /// The phase after the window was released.
    pub fn on_teardown(self) -> (r: Phase)
        ensures
            self == Phase::Exiting ==> r == Phase::TornDown,
            self != Phase::Exiting ==> r == self,
    {
        match self {
            Phase::Exiting => Phase::TornDown,
            _ => self,
        }
    }

    /// Whether the loop may still render frames.
    pub fn is_running(self) -> (r: bool)
        ensures
            r == (self == Phase::Running),
    {
        match self {
            Phase::Running => true,
            _ => false,
        }
    }
}

} // verus!
