//! The state directory and what becomes of it.

use vstd::prelude::*;
use crate::teardown::Step;
use crate::teardown::StepView;

verus! {

/// A temporary directory that is either removed or left on the filesystem
/// when its owner lets go of it.
#[derive(Debug, PartialEq, Eq)]
pub struct TempDir {
    /// The path of the directory. It never changes.
    path: String,
    /// If true, the directory is removed when the owner lets go of it
    /// without saying what should become of it.
    clean_on_drop: bool,
}

/// A temporary directory over sequences of characters.
pub struct TempDirView {
    pub path: Seq<char>,
    pub clean_on_drop: bool,
}

impl TempDirView {
    /// What becomes of the directory when its owner lets go of it without
    /// saying so: removed where it cleans on drop, left where it does not.
    pub open spec fn dispose(self) -> StepView {
        if self.clean_on_drop {
            StepView::RemoveDir { path: self.path }
        } else {
            StepView::KeepDir { path: self.path }
        }
    }
}

impl View for TempDir {
    type V = TempDirView;

    closed spec fn view(&self) -> TempDirView {
        TempDirView { path: self.path@, clean_on_drop: self.clean_on_drop }
    }
}

impl TempDir {
    /// Takes charge of the directory at `path`, which was just created.
    pub fn new(path: String, clean_on_drop: bool) -> (dir: Self)
        ensures
            dir@ == (TempDirView { path: path@, clean_on_drop }),
    {
        TempDir { path, clean_on_drop }
    }

    /// Get the path of the temporary directory.
    pub fn path(&self) -> (path: &String)
        ensures
            path@ == self@.path,
    {
        &self.path
    }

    /// Whether the directory is removed when its owner lets go of it.
    pub fn clean_on_drop(&self) -> (clean: bool)
        ensures
            clean == self@.clean_on_drop,
    {
        self.clean_on_drop
    }

    /// Enable or disable clean-on-drop behavior.
    pub fn set_clean_on_drop(&mut self, clean_on_drop: bool)
        ensures
            final(self)@ == (TempDirView { path: old(self)@.path, clean_on_drop }),
        no_unwind
    {
        self.clean_on_drop = clean_on_drop;
    }

    /// Persist the temporary directory: the step that leaves it on the
    /// filesystem, whatever `clean_on_drop` says.
    pub fn into_path(self) -> (step: Step)
        ensures
            step@ == (StepView::KeepDir { path: self@.path }),
    {
        Step::KeepDir { path: self.path }
    }

    /// Close the temporary directory: the step that removes it from the
    /// filesystem, whatever `clean_on_drop` says.
    pub fn close(self) -> (step: Step)
        ensures
            step@ == (StepView::RemoveDir { path: self@.path }),
    {
        Step::RemoveDir { path: self.path }
    }

    /// Let go of the directory: the step that removes it where it cleans on
    /// drop, and the step that leaves it where it does not.
    pub fn dispose(self) -> (step: Step)
        ensures
            step@ == self@.dispose(),
    {
        if self.clean_on_drop {
            Step::RemoveDir { path: self.path }
        } else {
            Step::KeepDir { path: self.path }
        }
    }
}

} // verus!
