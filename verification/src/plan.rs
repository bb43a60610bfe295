//! What a command asks the caller to do on disk, and how the answers are taken.
//!
//! A validated command yields a list of [`Step`]s. A [`Run`] hands them out one
//! at a time: the caller carries out the pending operation, reports whether it
//! succeeded, and the run decides what comes next. The first failure ends the
//! run; what was done before it stays done.

use vstd::prelude::*;
use crate::errors::{CommandError, CommandErrorView};

verus! {

/// One operation on the filesystem, or on the editor.
#[derive(Debug, PartialEq, Eq)]
pub enum FsOp {
    /// Delete the file at `path`.
    RemoveFile { path: String },
    /// Duplicate the content of the file `from` into the file `to`.
    CopyFile { from: String, to: String },
    /// Rename or move `from` to `to`. `to` is taken as it was typed.
    Rename { from: String, to: String },
    /// Create an empty file at `path`, failing if something is there already.
    CreateFile { path: String },
    /// Create a directory at `path`, failing if something is there already.
    CreateDir { path: String },
    /// Start `program` with `args` and wait for it.
    Launch { program: String, args: Vec<String> },
}

/// What an [`FsOp`] holds, as plain values.
#[verifier::ext_equal]
pub enum FsOpView {
    RemoveFile { path: Seq<char> },
    CopyFile { from: Seq<char>, to: Seq<char> },
    Rename { from: Seq<char>, to: Seq<char> },
    CreateFile { path: Seq<char> },
    CreateDir { path: Seq<char> },
    Launch { program: Seq<char>, args: Seq<Seq<char>> },
}

impl View for FsOp {
    type V = FsOpView;

    open spec fn view(&self) -> FsOpView {
        match self {
            FsOp::RemoveFile { path } => FsOpView::RemoveFile { path: path@ },
            FsOp::CopyFile { from, to } => FsOpView::CopyFile { from: from@, to: to@ },
            FsOp::Rename { from, to } => FsOpView::Rename { from: from@, to: to@ },
            FsOp::CreateFile { path } => FsOpView::CreateFile { path: path@ },
            FsOp::CreateDir { path } => FsOpView::CreateDir { path: path@ },
            FsOp::Launch { program, args } => FsOpView::Launch {
                program: program@,
                args: args.deep_view(),
            },
        }
    }
}

impl DeepView for FsOp {
    type V = FsOpView;

    open spec fn deep_view(&self) -> FsOpView {
        self@
    }
}

/// One operation, with what to report when it fails and what to tell the user
/// when it succeeds.
#[derive(Debug, PartialEq, Eq)]
pub struct Step {
    pub op: FsOp,
    pub failure: CommandError,
    pub notice: Option<String>,
}

/// What a [`Step`] holds, as plain values.
#[verifier::ext_equal]
pub struct StepView {
    pub op: FsOpView,
    pub failure: CommandErrorView,
    pub notice: Option<Seq<char>>,
}

impl View for Step {
    type V = StepView;

    open spec fn view(&self) -> StepView {
        StepView { op: self.op@, failure: self.failure@, notice: self.notice.deep_view() }
    }
}

impl DeepView for Step {
    type V = StepView;

    open spec fn deep_view(&self) -> StepView {
        self@
    }
}

/// What a verb hands back, as plain values: its steps, or why it was refused.
pub open spec fn planned(result: Result<Vec<Step>, CommandError>) -> Result<
    Seq<StepView>,
    CommandErrorView,
> {
    match result {
        Ok(steps) => Ok(steps.deep_view()),
        Err(error) => Err(error@),
    }
}

/// The operations of a list of steps, in order.
pub open spec fn ops_of(steps: Seq<StepView>) -> Seq<FsOpView> {
    Seq::new(steps.len(), |i: int| steps[i].op)
}

/// A list of steps being carried out.
#[derive(Debug)]
pub struct Run {
    steps: Vec<Step>,
    done: usize,
    failed: bool,
}

/// Where a [`Run`] stands.
#[verifier::ext_equal]
pub struct RunView {
    /// The steps, in the order in which they are carried out.
    pub steps: Seq<StepView>,
    /// How many steps, from the first, have succeeded.
    pub done: nat,
    /// Whether the step after those failed.
    pub failed: bool,
}

impl RunView {
    /// A run never counts more successes than it has steps, and a failure is
    /// the failure of a step.
    pub open spec fn wf(self) -> bool {
        &&& self.done <= self.steps.len()
        &&& self.failed ==> self.done < self.steps.len()
    }

    /// Whether an operation waits to be carried out.
    pub open spec fn is_pending(self) -> bool {
        !self.failed && self.done < self.steps.len()
    }

    /// The run after the caller reported `ok` for the pending operation. With
    /// nothing pending a report changes nothing.
    pub open spec fn settled(self, ok: bool) -> RunView {
        if !self.is_pending() {
            self
        } else if ok {
            RunView { done: self.done + 1, ..self }
        } else {
            RunView { failed: true, ..self }
        }
    }

    /// What to tell the user when `ok` is reported for the pending operation.
    pub open spec fn notice_on(self, ok: bool) -> Option<Seq<char>> {
        if self.is_pending() && ok {
            self.steps[self.done as int].notice
        } else {
            None
        }
    }

    /// The run after the caller reported `answers`, one after the other.
    pub open spec fn after(self, answers: Seq<bool>) -> RunView
        decreases answers.len(),
    {
        if answers.len() == 0 {
            self
        } else {
            self.after(answers.drop_last()).settled(answers.last())
        }
    }

    /// How the command ended, once nothing is pending.
    pub open spec fn verdict(self) -> Option<Result<(), CommandErrorView>> {
        if self.is_pending() {
            None
        } else if self.failed {
            Some(Err(self.steps[self.done as int].failure))
        } else {
            Some(Ok(()))
        }
    }
}

impl View for Run {
    type V = RunView;

    closed spec fn view(&self) -> RunView {
        RunView { steps: self.steps.deep_view(), done: self.done as nat, failed: self.failed }
    }
}

impl Run {
    #[verifier::type_invariant]
    spec fn inv(self) -> bool {
        self@.wf()
    }

    /// A run of `steps` of which none has been carried out yet.
    pub fn new(steps: Vec<Step>) -> (run: Run)
        ensures
            run@ == (RunView { steps: steps.deep_view(), done: 0, failed: false }),
    {
        Run { steps, done: 0, failed: false }
    }

    /// The operation to carry out next, if the run has not ended.
    pub fn pending(&self) -> (op: Option<&FsOp>)
        ensures
            self@.wf(),
            match op {
                Some(op) => self@.is_pending() && op@ == self@.steps[self@.done as int].op,
                None => !self@.is_pending(),
            },
    {
        proof {
            use_type_invariant(self);
        }
        if !self.failed && self.done < self.steps.len() {
            Some(&self.steps[self.done].op)
        } else {
            None
        }
    }

    /// Takes the caller's report on the pending operation: `ok` if it
    /// succeeded. Hands back what to tell the user, if anything.
    pub fn settle(&mut self, ok: bool) -> (notice: Option<String>)
        ensures
            old(self)@.wf(),
            final(self)@ == old(self)@.settled(ok),
            notice.deep_view() == old(self)@.notice_on(ok),
    {
        proof {
            use_type_invariant(&*self);
        }
        if self.failed || self.done >= self.steps.len() {
            None
        } else if ok {
            let notice = match &self.steps[self.done].notice {
                Some(text) => Some(text.clone()),
                None => None,
            };
            self.done = self.done + 1;
            notice
        } else {
            self.failed = true;
            None
        }
    }

    /// How the command ended: nothing while an operation is pending, the
    /// failure of the step that failed, or success when every step succeeded.
    pub fn verdict(&self) -> (end: Option<Result<(), CommandError>>)
        ensures
            match end {
                None => self@.verdict() is None,
                Some(Ok(_)) => self@.verdict() == Some(Ok::<(), CommandErrorView>(())),
                Some(Err(error)) => self@.verdict() == Some(Err::<(), CommandErrorView>(error@)),
            },
    {
        proof {
            use_type_invariant(self);
        }
        if self.failed {
            Some(Err(self.steps[self.done].failure.duplicate()))
        } else if self.done < self.steps.len() {
            None
        } else {
            Some(Ok(()))
        }
    }
}

} // verus!
