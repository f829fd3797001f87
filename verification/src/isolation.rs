//! The isolated context's side of the launch: perform the isolation
//! steps strictly in order, abort on the first fatal failure, and hand
//! off to the command only when every step has succeeded.

use vstd::prelude::*;
use crate::config::Config;
use crate::plan::{MountStep, StepView, build_isolation_steps, isolation_plan, steps_view};

verus! {

/// What the isolated context must do next.
#[derive(Debug, PartialEq, Eq, Structural, Clone, Copy)]
pub enum Directive {
    /// Perform the current isolation step and report its outcome.
    Perform,
    /// Every isolation step is done: replace the image with the command.
    Exec,
    /// A fatal step failed: report the error and terminate; the command
    /// must never run.
    Report,
}

/// Mathematical image of an [`IsolationRun`].
pub struct RunView {
    pub steps: Seq<StepView>,
    pub command: Seq<Seq<char>>,
    pub pos: int,
    pub failed: bool,
}

/// Whether a step's failure is tolerated rather than fatal: only the
/// proc unmount, which may fail merely because proc was not mounted.
pub open spec fn tolerated(s: StepView) -> bool {
    s is UnmountProc
}

impl RunView {
    pub open spec fn wf(self) -> bool {
        0 <= self.pos <= self.steps.len() && self.command.len() > 0
    }

    /// The machine's decision in its current state.
    pub open spec fn directive(self) -> Directive {
        if self.failed {
            Directive::Report
        } else if self.pos < self.steps.len() {
            Directive::Perform
        } else {
            Directive::Exec
        }
    }

    /// The state after the current step reported the given outcome.
    pub open spec fn observe(self, ok: bool) -> RunView {
        if ok || tolerated(self.steps[self.pos]) {
            RunView { pos: self.pos + 1, ..self }
        } else {
            RunView { failed: true, ..self }
        }
    }

    /// The machine driven by a whole sequence of step outcomes; it
    /// stops consuming them as soon as it no longer asks for a step.
    pub open spec fn run(self, outcomes: Seq<bool>) -> RunView
        decreases outcomes.len(),
    {
        if outcomes.len() == 0 {
            self
        } else if self.directive() == Directive::Perform {
            self.observe(outcomes[0]).run(outcomes.skip(1))
        } else {
            self
        }
    }
}

/// The state of one isolated context: the plan it performs, the command
/// it hands off to, how far it has come, and whether a fatal step
/// failed.
pub struct IsolationRun {
    steps: Vec<MountStep>,
    command: Vec<String>,
    pos: usize,
    failed: bool,
}

impl View for IsolationRun {
    type V = RunView;

    closed spec fn view(&self) -> RunView {
        RunView {
            steps: steps_view(self.steps@),
            command: self.command.deep_view(),
            pos: self.pos as int,
            failed: self.failed,
        }
    }
}

/// A vector of strings viewed deeply is its elementwise view.
proof fn lemma_strings_deep_view_index(v: Vec<String>)
    ensures
        v.deep_view().len() == v@.len(),
        forall|k: int|
            #![trigger v.deep_view()[k]]
            #![trigger v@[k]]
            0 <= k < v@.len() ==> v.deep_view()[k] == v@[k]@,
{
}

/// Copies a sequence of strings value by value.
fn copy_strings(v: &Vec<String>) -> (r: Vec<String>)
    ensures
        r.deep_view() == v.deep_view(),
{
    let mut r: Vec<String> = Vec::new();
    for i in 0..v.len()
        invariant
            r.deep_view() == v.deep_view().take(i as int),
    {
        let ghost entry = r;
        r.push(v[i].clone());
        proof {
            lemma_strings_deep_view_index(entry);
            lemma_strings_deep_view_index(r);
            lemma_strings_deep_view_index(*v);
            assert(r.deep_view() =~= v.deep_view().take(i + 1));
        }
    }
    proof {
        lemma_strings_deep_view_index(*v);
        assert(v.deep_view().take(v.deep_view().len() as int) =~= v.deep_view());
    }
    r
}

impl IsolationRun {
    /// A fresh run for the configuration: the full isolation plan ahead
    /// of it, the configured command to hand off to, nothing failed.
    pub fn new(config: &Config) -> (r: IsolationRun)
        requires
            config@.wf(),
        ensures
            r@.steps == isolation_plan(config@),
            r@.command == config@.command,
            r@.pos == 0,
            !r@.failed,
            r@.wf(),
    {
        IsolationRun {
            steps: build_isolation_steps(config),
            command: copy_strings(config.command()),
            pos: 0,
            failed: false,
        }
    }

    /// What to do next.
    pub fn directive(&self) -> (d: Directive)
        ensures
            d == self@.directive(),
    {
        if self.failed {
            Directive::Report
        } else if self.pos < self.steps.len() {
            Directive::Perform
        } else {
            Directive::Exec
        }
    }

    /// The step to perform now.
    pub fn current_step(&self) -> (s: &MountStep)
        requires
            self@.wf(),
            self@.directive() == Directive::Perform,
        ensures
            s@ == self@.steps[self@.pos],
    {
        proof {
            crate::plan::lemma_steps_view_index(self.steps@);
        }
        &self.steps[self.pos]
    }

    /// The command to hand off to.
    pub fn command(&self) -> (c: &Vec<String>)
        ensures
            c.deep_view() == self@.command,
    {
        &self.command
    }

    /// Record the outcome of the step just performed: on success — or
    /// on failure of the one tolerated step — move on; on any other
    /// failure the run is failed for good.
    pub fn observe(&mut self, ok: bool)
        requires
            old(self)@.wf(),
            old(self)@.directive() == Directive::Perform,
        ensures
            final(self)@ == old(self)@.observe(ok),
            final(self)@.wf(),
    {
        proof {
            crate::plan::lemma_steps_view_index(self.steps@);
        }
        // Reading the length bounds `pos`, so the increment below cannot
        // overflow.
        let _bound: usize = self.steps.len();
        let fatal = match &self.steps[self.pos] {
            MountStep::UnmountProc => false,
            _ => true,
        };
        if ok || !fatal {
            self.pos = self.pos + 1;
        } else {
            self.failed = true;
        }
    }
}

/// Law: the command is handed off only when the whole plan is done:
/// whatever outcomes come in, if the machine decides to exec, it has
/// performed every step of its plan and no fatal step has failed.
pub proof fn lemma_exec_requires_complete_isolation(m: RunView, outcomes: Seq<bool>)
    requires
        m.wf(),
    ensures
        m.run(outcomes).directive() == Directive::Exec ==> m.run(outcomes).pos
            == m.run(outcomes).steps.len() && !m.run(outcomes).failed,
{
    lemma_run_preserves_wf(m, outcomes);
}

/// Driving the machine preserves its well-formedness.
pub proof fn lemma_run_preserves_wf(m: RunView, outcomes: Seq<bool>)
    requires
        m.wf(),
    ensures
        m.run(outcomes).wf(),
        m.run(outcomes).steps == m.steps,
        m.run(outcomes).command == m.command,
    decreases outcomes.len(),
{
    if outcomes.len() > 0 && m.directive() == Directive::Perform {
        lemma_run_preserves_wf(m.observe(outcomes[0]), outcomes.skip(1));
    }
}

/// Law: a failed run never execs: from a failed state, no sequence of
/// further outcomes ever yields the exec directive.
pub proof fn lemma_no_exec_after_failure(m: RunView, outcomes: Seq<bool>)
    requires
        m.failed,
    ensures
        m.run(outcomes).failed,
        m.run(outcomes).directive() != Directive::Exec,
{
}

/// Law: success is owed when every step succeeds: a machine that is
/// handed a successful outcome for each remaining step of its plan
/// decides to exec.
pub proof fn lemma_all_ok_reaches_exec(m: RunView, outcomes: Seq<bool>)
    requires
        m.wf(),
        !m.failed,
        outcomes.len() == m.steps.len() - m.pos,
        forall|i: int| 0 <= i < outcomes.len() ==> outcomes[i],
    ensures
        m.run(outcomes).directive() == Directive::Exec,
    decreases outcomes.len(),
{
    if outcomes.len() > 0 {
        lemma_all_ok_reaches_exec(m.observe(outcomes[0]), outcomes.skip(1));
    }
}

/// Law: a fatal step that fails prevents the exec: if the machine is
/// about to perform a step whose failure is not tolerated — the
/// working-directory change when `initial_dir` is absent, any mount,
/// the proc mount, the hostname change — and that step fails, then no
/// sequence of further outcomes ever reaches the command.
pub proof fn lemma_fatal_failure_prevents_exec(m: RunView, outcomes: Seq<bool>)
    requires
        m.wf(),
        m.directive() == Directive::Perform,
        !tolerated(m.steps[m.pos]),
    ensures
        m.observe(false).run(outcomes).directive() != Directive::Exec,
{
    lemma_no_exec_after_failure(m.observe(false), outcomes);
}

/// Law: when the working-directory change fails — `initial_dir` absent
/// or inaccessible in the constructed filesystem view — the command is
/// never executed: the directory step is fatal, so no sequence of
/// further outcomes ever reaches the exec directive.
pub proof fn lemma_missing_initial_dir_prevents_exec(m: RunView, outcomes: Seq<bool>)
    requires
        m.wf(),
        m.directive() == Directive::Perform,
        m.steps[m.pos] is ChangeDir,
    ensures
        m.observe(false).run(outcomes).directive() != Directive::Exec,
{
    lemma_fatal_failure_prevents_exec(m, outcomes);
}

} // verus!
