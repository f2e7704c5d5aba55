use vstd::prelude::*;

use crate::errors::Errcode;
use crate::mounts::MountFlags;
use crate::resources::{CgroupSpec, CgroupView};

verus! {

/// One operation on the host system that the container runtime asks for.
/// The library decides which operations run, with which arguments and in
/// which order; the program around it performs them.
#[derive(Debug)]
pub enum SysOp {
    /// Mounts `source` (or remounts `target` where there is none) with `flags`.
    Mount { source: Option<String>, target: String, flags: MountFlags },
    /// Detaches the mount at `path`.
    Unmount { path: String },
    /// Removes the empty directory `path`.
    RemoveDir { path: String },
    /// Creates `path` with every missing parent.
    CreateDirAll { path: String },
    /// Makes `new_root` the root and puts the old root at `put_old`.
    PivotRoot { new_root: String, put_old: String },
    /// Changes the working directory to `path`.
    Chdir { path: String },
    /// Sets the hostname of the current namespace.
    SetHostname { name: String },
    /// Creates the control group that `spec` describes.
    BuildCgroup { spec: CgroupSpec },
    /// Adds the process `pid` to the control group built before.
    AddTaskToCgroup { pid: u64 },
    /// Sets the limits on open files.
    LimitOpenFiles { soft: u64, hard: u64 },
    /// Resolves `path` to its canonical form.
    Canonicalize { path: String },
    /// Removes the directory that the last `Canonicalize` resolved.
    RemoveCanonicalDir,
    /// Runs `program` with `args` and waits for its output.
    Run { program: String, args: Vec<String> },
}

/// An operation, with the error that the runtime reports when it fails.
#[derive(Debug)]
pub struct SysStep {
    pub op: SysOp,
    pub on_error: Errcode,
}

/// `SysOp` with its strings taken as character sequences.
pub enum OpView {
    Mount { source: Option<Seq<char>>, target: Seq<char>, flags: MountFlags },
    Unmount { path: Seq<char> },
    RemoveDir { path: Seq<char> },
    CreateDirAll { path: Seq<char> },
    PivotRoot { new_root: Seq<char>, put_old: Seq<char> },
    Chdir { path: Seq<char> },
    SetHostname { name: Seq<char> },
    BuildCgroup { spec: CgroupView },
    AddTaskToCgroup { pid: u64 },
    LimitOpenFiles { soft: u64, hard: u64 },
    Canonicalize { path: Seq<char> },
    RemoveCanonicalDir,
    Run { program: Seq<char>, args: Seq<Seq<char>> },
}

/// `SysStep` with its strings taken as character sequences.
pub struct StepView {
    pub op: OpView,
    pub on_error: Errcode,
}

impl DeepView for SysOp {
    type V = OpView;

    open spec fn deep_view(&self) -> OpView {
        match self {
            SysOp::Mount { source, target, flags } => OpView::Mount {
                source: match source {
                    Some(s) => Some(s@),
                    None => None,
                },
                target: target@,
                flags: *flags,
            },
            SysOp::Unmount { path } => OpView::Unmount { path: path@ },
            SysOp::RemoveDir { path } => OpView::RemoveDir { path: path@ },
            SysOp::CreateDirAll { path } => OpView::CreateDirAll { path: path@ },
            SysOp::PivotRoot { new_root, put_old } => OpView::PivotRoot {
                new_root: new_root@,
                put_old: put_old@,
            },
            SysOp::Chdir { path } => OpView::Chdir { path: path@ },
            SysOp::SetHostname { name } => OpView::SetHostname { name: name@ },
            SysOp::BuildCgroup { spec } => OpView::BuildCgroup { spec: spec.deep_view() },
            SysOp::AddTaskToCgroup { pid } => OpView::AddTaskToCgroup { pid: *pid },
            SysOp::LimitOpenFiles { soft, hard } => OpView::LimitOpenFiles {
                soft: *soft,
                hard: *hard,
            },
            SysOp::Canonicalize { path } => OpView::Canonicalize { path: path@ },
            SysOp::RemoveCanonicalDir => OpView::RemoveCanonicalDir,
            SysOp::Run { program, args } => OpView::Run {
                program: program@,
                args: args.deep_view(),
            },
        }
    }
}

impl DeepView for SysStep {
    type V = StepView;

    open spec fn deep_view(&self) -> StepView {
        StepView { op: self.op.deep_view(), on_error: self.on_error }
    }
}

/// How far a plan has run: the number of operations that succeeded, and the
/// outcome once the plan is over.
pub struct RunState {
    pub done: nat,
    pub outcome: Option<Result<(), Errcode>>,
}

/// The state of a plan whose operations fail with `errors`, before any runs.
pub open spec fn run_start(errors: Seq<Errcode>) -> RunState {
    RunState {
        done: 0,
        outcome: if errors.len() == 0 {
            Some(Ok(()))
        } else {
            None
        },
    }
}

/// The state after the pending operation is reported to have `succeeded` or
/// not: a failure ends the plan with the operation's error, the success of
/// the last operation ends it well, and a plan that is over stays as it is.
pub open spec fn run_report(errors: Seq<Errcode>, st: RunState, succeeded: bool) -> RunState {
    if st.outcome is Some {
        st
    } else if !succeeded {
        RunState { done: st.done, outcome: Some(Err(errors[st.done as int])) }
    } else if st.done + 1 >= errors.len() {
        RunState { done: st.done + 1, outcome: Some(Ok(())) }
    } else {
        RunState { done: st.done + 1, outcome: None }
    }
}

/// The state after the reports `results`, in order.
pub open spec fn run_replay(errors: Seq<Errcode>, results: Seq<bool>) -> RunState
    decreases results.len(),
{
    if results.len() == 0 {
        run_start(errors)
    } else {
        run_report(errors, run_replay(errors, results.drop_last()), results.last())
    }
}

/// A plan being run: the program asks for the pending operation, performs
/// it, and reports whether it succeeded.
pub struct PlanRun {
    steps: Vec<SysStep>,
    done: usize,
    outcome: Option<Result<(), Errcode>>,
}

impl PlanRun {
    #[verifier::type_invariant]
    spec fn well_formed(self) -> bool {
        &&& self.done <= self.steps@.len()
        &&& self.outcome is None ==> self.done < self.steps@.len()
    }

    /// The operations of the plan.
    pub closed spec fn steps(&self) -> Seq<StepView> {
        self.steps.deep_view()
    }

    /// The errors of the plan's operations, in order.
    pub open spec fn errors(&self) -> Seq<Errcode> {
        self.steps().map_values(|s: StepView| s.on_error)
    }

    pub closed spec fn state(&self) -> RunState {
        RunState { done: self.done as nat, outcome: self.outcome }
    }

    /// Starts running `steps`; a plan without operations is over at once.
    pub fn new(steps: Vec<SysStep>) -> (r: PlanRun)
        ensures
            r.steps() == steps.deep_view(),
            r.state() == run_start(r.errors()),
    {
        let outcome = if steps.len() == 0 {
            Some(Ok(()))
        } else {
            None
        };
        PlanRun { steps, done: 0, outcome }
    }

    /// The operation to perform next, or `None` once the plan is over.
    pub fn pending(&self) -> (r: Option<&SysOp>)
        ensures
            self.state().outcome is None <==> r is Some,
            self.state().outcome is None ==> self.state().done < self.steps().len(),
            r matches Some(op) ==> op.deep_view() == self.steps()[self.state().done as int].op,
    {
        proof {
            use_type_invariant(self);
        }
        if self.outcome.is_none() {
            Some(&self.steps[self.done].op)
        } else {
            None
        }
    }

    /// Records whether the pending operation succeeded.
    pub fn report(&mut self, succeeded: bool)
        ensures
            final(self).steps() == old(self).steps(),
            final(self).state() == run_report(old(self).errors(), old(self).state(), succeeded),
    {
        proof {
            use_type_invariant(&*self);
        }
        if self.outcome.is_none() {
            if !succeeded {
                let e = self.steps[self.done].on_error;
                self.outcome = Some(Err(e));
            } else {
                let len = self.steps.len();
                assert(self.done < len);
                let d = self.done + 1;
                if d >= len {
                    self.outcome = Some(Ok(()));
                    self.done = d;
                } else {
                    self.done = d;
                }
            }
        }
    }

    /// The outcome of the plan, once it is over.
    pub fn outcome(&self) -> (r: Option<Result<(), Errcode>>)
        ensures
            r == self.state().outcome,
    {
        self.outcome
    }
}

/// A plan stops at its first failing operation and reports that operation's
/// error; when every operation succeeds it succeeds; while neither has
/// happened it waits for the next report, having counted each success.
pub proof fn lemma_plan_outcome(errors: Seq<Errcode>, results: Seq<bool>)
    ensures
        forall|i: int|
            0 <= i < results.len() && i < errors.len() && !results[i] && (forall|j: int|
                0 <= j < i ==> #[trigger] results[j]) ==> run_replay(errors, results).outcome
                == Some(Err::<(), Errcode>(errors[i])),
        (forall|j: int| 0 <= j < results.len() ==> #[trigger] results[j]) && results.len()
            >= errors.len() ==> run_replay(errors, results).outcome == Some(Ok::<(), Errcode>(())),
        (forall|j: int| 0 <= j < results.len() ==> #[trigger] results[j]) && results.len()
            < errors.len() ==> run_replay(errors, results).outcome is None && run_replay(
            errors,
            results,
        ).done == results.len(),
    decreases results.len(),
{
    if results.len() > 0 {
        let prev = results.drop_last();
        lemma_plan_outcome(errors, prev);
        assert forall|i: int|
            0 <= i < results.len() && i < errors.len() && !results[i] && (forall|j: int|
                0 <= j < i ==> #[trigger] results[j]) implies run_replay(errors, results).outcome
            == Some(Err::<(), Errcode>(errors[i])) by {
            if i < results.len() - 1 {
                assert(prev[i] == results[i]);
                assert forall|j: int| 0 <= j < i implies #[trigger] prev[j] by {
                    assert(prev[j] == results[j]);
                }
            } else {
                assert forall|j: int| 0 <= j < prev.len() implies #[trigger] prev[j] by {
                    assert(prev[j] == results[j]);
                }
            }
        }
        if forall|j: int| 0 <= j < results.len() ==> #[trigger] results[j] {
            assert forall|j: int| 0 <= j < prev.len() implies #[trigger] prev[j] by {
                assert(prev[j] == results[j]);
            }
            assert(results.last() == results[results.len() - 1]);
        }
    }
}

} // verus!
