//! The server process and the order to stop it.

use vstd::prelude::*;
use crate::teardown::Step;
use crate::teardown::StepView;

verus! {

/// The one owner of a child process: through it the process is stopped once,
/// and never twice.
#[derive(Debug, PartialEq, Eq)]
pub struct KillOnDrop {
    /// The PID of the child process.
    pid: u32,
    /// True until the order to stop the process has been given.
    alive: bool,
}

/// What is known of an owned child process.
pub struct ProcessView {
    pub pid: u32,
    pub alive: bool,
}

impl ProcessView {
    /// The steps that stop the process: one while it is alive, none after.
    pub open spec fn stop(self) -> Seq<StepView> {
        if self.alive {
            seq![StepView::Terminate { pid: self.pid }]
        } else {
            Seq::empty()
        }
    }

    /// The process once the order to stop it has been given.
    pub open spec fn stopped(self) -> ProcessView {
        ProcessView { pid: self.pid, alive: false }
    }
}

impl View for KillOnDrop {
    type V = ProcessView;

    closed spec fn view(&self) -> ProcessView {
        ProcessView { pid: self.pid, alive: self.alive }
    }
}

impl KillOnDrop {
    /// Takes charge of the child process with the given PID, which runs.
    pub fn new(pid: u32) -> (process: Self)
        ensures
            process@ == (ProcessView { pid, alive: true }),
    {
        KillOnDrop { pid, alive: true }
    }

    /// Get the PID of the child process.
    pub fn id(&self) -> (pid: u32)
        ensures
            pid == self@.pid,
    {
        self.pid
    }

    /// Whether the order to stop the process is still to be given.
    pub fn is_alive(&self) -> (alive: bool)
        ensures
            alive == self@.alive,
    {
        self.alive
    }

    /// Kill the child process. The first call hands out the step that
    /// signals the process and waits for it; every later call hands out
    /// nothing, since there is nothing left to stop.
    pub fn kill(&mut self) -> (step: Option<Step>)
        ensures
            final(self)@ == old(self)@.stopped(),
            old(self)@.alive ==> step is Some && step->0@ == (StepView::Terminate {
                pid: old(self)@.pid,
            }),
            !old(self)@.alive ==> step is None,
    {
        if self.alive {
            self.alive = false;
            Some(Step::Terminate { pid: self.pid })
        } else {
            None
        }
    }
}

} // verus!
