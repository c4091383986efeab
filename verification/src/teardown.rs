//! The plans that take an instance down, and what a disposal returns.

use vstd::prelude::*;
use crate::error::Error;
use crate::error::ErrorInner;
use crate::error::ErrorView;
use crate::util::kill_on_drop::KillOnDrop;
use crate::util::kill_on_drop::ProcessView;
use crate::util::temp_dir::TempDir;
use crate::util::temp_dir::TempDirView;

verus! {

/// One thing the driver does while an instance is taken down.
#[derive(Debug, Clone, PartialEq, Eq)]
pub enum Step {
    /// Shut the client down at once, without draining pending operations.
    ShutdownClient,
    /// Signal the server process and wait until it has exited.
    Terminate { pid: u32 },
    /// Wait for the given time, so that the server has let go of its files.
    Settle { millis: u64 },
    /// Remove the state directory and all that is in it.
    RemoveDir { path: String },
    /// Leave the state directory on the filesystem for good.
    KeepDir { path: String },
}

/// A step over sequences of characters.
pub enum StepView {
    ShutdownClient,
    Terminate { pid: u32 },
    Settle { millis: u64 },
    RemoveDir { path: Seq<char> },
    KeepDir { path: Seq<char> },
}

impl View for Step {
    type V = StepView;

    open spec fn view(&self) -> StepView {
        match self {
            Step::ShutdownClient => StepView::ShutdownClient,
            Step::Terminate { pid } => StepView::Terminate { pid: *pid },
            Step::Settle { millis } => StepView::Settle { millis: *millis },
            Step::RemoveDir { path } => StepView::RemoveDir { path: path@ },
            Step::KeepDir { path } => StepView::KeepDir { path: path@ },
        }
    }
}

impl StepView {
    /// The place of a step in every plan: the client goes first, then the
    /// process, then the pause, then the directory.
    pub open spec fn rank(self) -> int {
        match self {
            StepView::ShutdownClient => 0,
            StepView::Terminate { pid } => 1,
            StepView::Settle { millis } => 2,
            StepView::RemoveDir { path } => 3,
            StepView::KeepDir { path } => 3,
        }
    }

    /// The error that a failure of this step is reported as. Only stopping
    /// the process and removing the directory can fail.
    pub open spec fn blame(self, failure: Option<Seq<char>>) -> Option<ErrorView> {
        match (self, failure) {
            (StepView::Terminate { pid }, Some(cause)) => Some(ErrorView::KillServer(cause)),
            (StepView::RemoveDir { path }, Some(cause)) => Some(ErrorView::CleanDir(path, cause)),
            _ => None,
        }
    }
}

/// The cause that stands for a step of which the driver said nothing.
pub open spec fn missing() -> Seq<char> {
    "no outcome was reported"@
}

/// How step `at` went: its cause of failure, none where it went well. A step
/// of which the driver said nothing counts as failed.
pub open spec fn outcome_at(failures: Seq<Option<Seq<char>>>, at: int) -> Option<Seq<char>> {
    if 0 <= at < failures.len() {
        failures[at]
    } else {
        Some(missing())
    }
}

/// A plan is in order when its steps go strictly up in rank: no kind of step
/// twice, the client before the process, the process before the directory.
pub open spec fn in_order(steps: Seq<StepView>) -> bool {
    forall|i: int, j: int| 0 <= i < j < steps.len() ==> steps[i].rank() < steps[j].rank()
}

/// The error of the first step, from `from` on, that failed with an error to
/// report. The process counts as stopped and the directory as removed only
/// where the driver said so.
pub open spec fn first_failure(
    steps: Seq<StepView>,
    failures: Seq<Option<Seq<char>>>,
    from: int,
) -> Option<ErrorView>
    decreases steps.len() - from,
{
    if from < 0 || from >= steps.len() {
        None
    } else {
        match steps[from].blame(outcome_at(failures, from)) {
            Some(error) => Some(error),
            None => first_failure(steps, failures, from + 1),
        }
    }
}

/// The errors of all steps among the first `upto` that failed with an error
/// to report, in the order of the steps.
pub open spec fn every_failure(
    steps: Seq<StepView>,
    failures: Seq<Option<Seq<char>>>,
    upto: int,
) -> Seq<ErrorView>
    decreases upto,
{
    if upto <= 0 {
        Seq::empty()
    } else {
        let before = every_failure(steps, failures, upto - 1);
        if upto <= steps.len() {
            match steps[upto - 1].blame(outcome_at(failures, upto - 1)) {
                Some(error) => before.push(error),
                None => before,
            }
        } else {
            before
        }
    }
}

/// How long the server is given to let go of its files before the state
/// directory is removed, in milliseconds.
pub const SETTLE_MILLIS: u64 = 50;

/// The steps of an explicit disposal that cleans: the client is shut down,
/// the process is stopped, and after a pause the state directory is removed,
/// whatever it says of cleaning on drop.
pub open spec fn clean_plan(server: ProcessView, dir: TempDirView) -> Seq<StepView> {
    seq![StepView::ShutdownClient] + server.stop() + seq![
        StepView::Settle { millis: SETTLE_MILLIS },
        StepView::RemoveDir { path: dir.path },
    ]
}

/// The steps of an explicit disposal that keeps the state: the client is
/// shut down, the process is stopped, and the state directory is left on the
/// filesystem, whatever it says of cleaning on drop.
pub open spec fn keep_plan(server: ProcessView, dir: TempDirView) -> Seq<StepView> {
    seq![StepView::ShutdownClient] + server.stop() + seq![StepView::KeepDir { path: dir.path }]
}

/// The steps when an instance, or what there is of it, is let go of without
/// a word: the client is shut down where there is one, the process is
/// stopped where there is one, and the state directory goes the way that it
/// says of itself.
pub open spec fn implicit_plan(
    client: bool,
    server: Option<ProcessView>,
    dir: TempDirView,
) -> Seq<StepView> {
    let first = if client {
        seq![StepView::ShutdownClient]
    } else {
        Seq::empty()
    };
    let second = match server {
        Some(server) => server.stop(),
        None => Seq::empty(),
    };
    first + second + seq![dir.dispose()]
}

/// The steps that take an instance down, in the order in which the driver
/// carries them out.
#[derive(Debug, Clone, PartialEq, Eq)]
pub struct Teardown {
    steps: Vec<Step>,
}

impl View for Teardown {
    type V = Seq<StepView>;

    closed spec fn view(&self) -> Seq<StepView> {
        self.steps.deep_view()
    }
}

impl DeepView for Step {
    type V = StepView;

    open spec fn deep_view(&self) -> StepView {
        self@
    }
}

impl Teardown {
    /// The plan without steps: nothing was made that could be taken down.
    pub fn nothing() -> (plan: Teardown)
        ensures
            plan@ == Seq::<StepView>::empty(),
    {
        Teardown { steps: Vec::new() }
    }

    /// The plan of an explicit disposal that cleans.
    pub fn clean(server: KillOnDrop, dir: TempDir) -> (plan: Teardown)
        ensures
            plan@ == clean_plan(server@, dir@),
    {
        let mut process = server;
        let mut steps: Vec<Step> = Vec::new();
        steps.push(Step::ShutdownClient);
        if let Some(stop) = process.kill() {
            steps.push(stop);
        }
        steps.push(Step::Settle { millis: SETTLE_MILLIS });
        steps.push(dir.close());
        Teardown { steps }
    }

    /// The plan of an explicit disposal that keeps the state.
    pub fn keep(server: KillOnDrop, dir: TempDir) -> (plan: Teardown)
        ensures
            plan@ == keep_plan(server@, dir@),
    {
        let mut process = server;
        let mut steps: Vec<Step> = Vec::new();
        steps.push(Step::ShutdownClient);
        if let Some(stop) = process.kill() {
            steps.push(stop);
        }
        steps.push(dir.into_path());
        Teardown { steps }
    }

    /// The plan when what was made is let go of without a word. `client` says
    /// whether a client was made.
    pub fn implicit(client: bool, server: Option<KillOnDrop>, dir: TempDir) -> (plan: Teardown)
        ensures
            plan@ == implicit_plan(
                client,
                match server {
                    Some(server) => Some(server@),
                    None => None,
                },
                dir@,
            ),
    {
        let mut steps: Vec<Step> = Vec::new();
        if client {
            steps.push(Step::ShutdownClient);
        }
        if let Some(server) = server {
            let mut process = server;
            if let Some(stop) = process.kill() {
                steps.push(stop);
            }
        }
        steps.push(dir.dispose());
        Teardown { steps }
    }

    /// The steps, in order.
    pub fn steps(&self) -> (steps: &Vec<Step>)
        ensures
            steps.deep_view() == self@,
    {
        &self.steps
    }

    /// The directory that this plan leaves on the filesystem, if it leaves
    /// one: the path of its first `KeepDir` step.
    pub fn retained(&self) -> (path: Option<&String>)
        ensures
            match path {
                Some(path) => exists|i: int|
                    0 <= i < self@.len() && self@[i] == (StepView::KeepDir { path: path@ }) && (
                    forall|j: int| 0 <= j < i ==> !(self@[j] is KeepDir)),
                None => forall|i: int| 0 <= i < self@.len() ==> !(self@[i] is KeepDir),
            },
    {
        let mut i: usize = 0;
        while i < self.steps.len()
            invariant
                i <= self.steps.len(),
                forall|j: int| 0 <= j < i ==> !(self@[j] is KeepDir),
            decreases self.steps.len() - i,
        {
            if let Step::KeepDir { path } = &self.steps[i] {
                return Some(path);
            }
            assert(!(self@[i as int] is KeepDir));
            i = i + 1;
        }
        None
    }

    /// How step `at` went, as the driver said: the cause of its failure, none
    /// where it went well, and a cause of its own where the driver said
    /// nothing of the step.
    fn outcome(failures: &Vec<Option<String>>, at: usize) -> (cause: Option<String>)
        ensures
            cause.deep_view() == outcome_at(failures.deep_view(), at as int),
    {
        if at < failures.len() {
            match &failures[at] {
                Some(cause) => Some(cause.clone()),
                None => None,
            }
        } else {
            Some(String::from_str("no outcome was reported"))
        }
    }

    /// The error that step `at` is reported as, if it failed with one.
    fn blame(&self, at: usize, failures: &Vec<Option<String>>) -> (error: Option<Error>)
        requires
            at < self@.len(),
        ensures
            error.deep_view() == self@[at as int].blame(
                outcome_at(failures.deep_view(), at as int),
            ),
    {
        let inner = match &self.steps[at] {
            Step::Terminate { pid } => match Self::outcome(failures, at) {
                Some(cause) => Some(ErrorInner::KillServer(cause)),
                None => None,
            },
            Step::RemoveDir { path } => match Self::outcome(failures, at) {
                Some(cause) => Some(ErrorInner::CleanDir(path.clone(), cause)),
                None => None,
            },
            _ => None,
        };
        match inner {
            Some(inner) => {
                proof {
                    crate::error::lemma_from_keeps_kind(inner);
                }
                Some(Error::from(inner))
            },
            None => None,
        }
    }

    /// Every error of an explicit disposal, in the order of the steps: first
    /// that of stopping the process, then that of removing the directory,
    /// each where its step failed. `failures` is as for `conclude`, which
    /// returns the first of them.
    pub fn errors(&self, failures: &Vec<Option<String>>) -> (errors: Vec<Error>)
        ensures
            errors.deep_view() == every_failure(
                self@,
                failures.deep_view(),
                self@.len() as int,
            ),
    {
        let mut errors: Vec<Error> = Vec::new();
        let mut i: usize = 0;
        while i < self.steps.len()
            invariant
                i <= self.steps.len(),
                errors.deep_view() == every_failure(self@, failures.deep_view(), i as int),
            decreases self.steps.len() - i,
        {
            if let Some(error) = self.blame(i, failures) {
                errors.push(error);
            }
            i = i + 1;
        }
        errors
    }

    /// What an explicit disposal returns once the driver has carried the
    /// plan out. `failures[i]` is the cause where step `i` failed and `None`
    /// where it went well; a step of which `failures` says nothing counts as
    /// failed. The first failure of stopping the process or of removing the
    /// directory is returned; with none there is success.
    pub fn conclude(&self, failures: &Vec<Option<String>>) -> (result: Result<(), Error>)
        ensures
            match result {
                Ok(()) => first_failure(self@, failures.deep_view(), 0) is None,
                Err(error) => first_failure(self@, failures.deep_view(), 0) == Some(error@),
            },
    {
        let mut i: usize = 0;
        while i < self.steps.len()
            invariant
                i <= self.steps.len(),
                first_failure(self@, failures.deep_view(), 0) == first_failure(
                    self@,
                    failures.deep_view(),
                    i as int,
                ),
            decreases self.steps.len() - i,
        {
            if let Some(error) = self.blame(i, failures) {
                return Err(error);
            }
            i = i + 1;
        }
        Ok(())
    }
}

} // verus!
