//! The originating context's side of the launch: load the configuration,
//! create one isolated execution context, wait for it to terminate.
//! The decisions live here; performing them — the namespaced clone, the
//! blocking wait — is the caller's job.

use vstd::prelude::*;
use crate::config::Config;
use crate::isolation::IsolationRun;
use crate::plan::isolation_plan;

verus! {

/// The stack handed to the context-creation call: one mebibyte.
pub const STACK_SIZE: usize = 1048576;

/// The namespace request for the new execution context: a private mount
/// table, process-ID space, hostname identity and network stack, with
/// standard child-exit notification, on a dedicated stack.
#[derive(Debug, PartialEq, Eq, Structural, Clone, Copy)]
pub struct CloneRequest {
    pub new_mount_ns: bool,
    pub new_pid_ns: bool,
    pub new_uts_ns: bool,
    pub new_net_ns: bool,
    /// Standard child-exit notification is requested, so the wait for
    /// termination can observe the new context.
    pub child_exit_signal: bool,
    /// Size of the dedicated stack region backing the new context. The
    /// region must stay valid until the context has exited or replaced
    /// its image.
    pub stack_size: usize,
}

/// The fixed namespace request of this launcher.
pub fn clone_request() -> (r: CloneRequest)
    ensures
        r.new_mount_ns,
        r.new_pid_ns,
        r.new_uts_ns,
        r.new_net_ns,
        r.child_exit_signal,
        r.stack_size == STACK_SIZE,
{
    CloneRequest {
        new_mount_ns: true,
        new_pid_ns: true,
        new_uts_ns: true,
        new_net_ns: true,
        child_exit_signal: true,
        stack_size: STACK_SIZE,
    }
}

/// Where one invocation stands, seen from the originating context.
#[derive(Debug, PartialEq, Eq, Structural, Clone, Copy)]
pub enum LaunchPhase {
    /// The configuration is being acquired; no context exists yet.
    LoadingConfig,
    /// The configuration is in hand; the isolated context is requested.
    CreatingContext,
    /// The context exists; block until it terminates.
    Waiting,
    /// The context terminated; the invocation is over.
    Done,
    /// Something failed; report and terminate without going further.
    Failed,
}

/// What the originating context observes.
#[derive(Debug, PartialEq, Eq, Structural, Clone, Copy)]
pub enum LaunchEvent {
    ConfigLoaded,
    ConfigFailed,
    ContextCreated,
    ContextFailed,
    ChildTerminated,
}

/// What the originating context must do next.
#[derive(Debug, PartialEq, Eq, Structural, Clone, Copy)]
pub enum LaunchDirective {
    /// Acquire the configuration.
    LoadConfig,
    /// Create the isolated execution context.
    CreateContext,
    /// Block until the created context terminates.
    WaitForChild,
    /// Report the failure; no context may be created from here.
    ReportError,
    /// Nothing is left to do.
    Finish,
}

/// The transition on one observed event. An event that does not belong
/// to the current phase changes nothing.
pub open spec fn launch_step(p: LaunchPhase, e: LaunchEvent) -> LaunchPhase {
    match (p, e) {
        (LaunchPhase::LoadingConfig, LaunchEvent::ConfigLoaded) => LaunchPhase::CreatingContext,
        (LaunchPhase::LoadingConfig, LaunchEvent::ConfigFailed) => LaunchPhase::Failed,
        (LaunchPhase::CreatingContext, LaunchEvent::ContextCreated) => LaunchPhase::Waiting,
        (LaunchPhase::CreatingContext, LaunchEvent::ContextFailed) => LaunchPhase::Failed,
        (LaunchPhase::Waiting, LaunchEvent::ChildTerminated) => LaunchPhase::Done,
        _ => p,
    }
}

/// The decision of each phase.
pub open spec fn launch_directive(p: LaunchPhase) -> LaunchDirective {
    match p {
        LaunchPhase::LoadingConfig => LaunchDirective::LoadConfig,
        LaunchPhase::CreatingContext => LaunchDirective::CreateContext,
        LaunchPhase::Waiting => LaunchDirective::WaitForChild,
        LaunchPhase::Done => LaunchDirective::Finish,
        LaunchPhase::Failed => LaunchDirective::ReportError,
    }
}

/// The machine driven by a whole sequence of events.
pub open spec fn launch_run(p: LaunchPhase, events: Seq<LaunchEvent>) -> LaunchPhase
    decreases events.len(),
{
    if events.len() == 0 {
        p
    } else {
        launch_run(launch_step(p, events[0]), events.skip(1))
    }
}

/// The originating context's state machine as a value.
pub struct Launcher {
    phase: LaunchPhase,
}

impl View for Launcher {
    type V = LaunchPhase;

    closed spec fn view(&self) -> LaunchPhase {
        self.phase
    }
}

impl Launcher {
    /// A fresh invocation: the configuration is not loaded yet.
    pub fn new() -> (r: Launcher)
        ensures
            r@ == LaunchPhase::LoadingConfig,
    {
        Launcher { phase: LaunchPhase::LoadingConfig }
    }

    /// What to do next.
    pub fn directive(&self) -> (d: LaunchDirective)
        ensures
            d == launch_directive(self@),
    {
        match self.phase {
            LaunchPhase::LoadingConfig => LaunchDirective::LoadConfig,
            LaunchPhase::CreatingContext => LaunchDirective::CreateContext,
            LaunchPhase::Waiting => LaunchDirective::WaitForChild,
            LaunchPhase::Done => LaunchDirective::Finish,
            LaunchPhase::Failed => LaunchDirective::ReportError,
        }
    }

    /// Record one observed event.
    pub fn observe(&mut self, e: LaunchEvent)
        ensures
            final(self)@ == launch_step(old(self)@, e),
    {
        let next = match (self.phase, e) {
            (LaunchPhase::LoadingConfig, LaunchEvent::ConfigLoaded) => LaunchPhase::CreatingContext,
            (LaunchPhase::LoadingConfig, LaunchEvent::ConfigFailed) => LaunchPhase::Failed,
            (LaunchPhase::CreatingContext, LaunchEvent::ContextCreated) => LaunchPhase::Waiting,
            (LaunchPhase::CreatingContext, LaunchEvent::ContextFailed) => LaunchPhase::Failed,
            (LaunchPhase::Waiting, LaunchEvent::ChildTerminated) => LaunchPhase::Done,
            (p, _) => p,
        };
        self.phase = next;
    }
}

/// Everything the launcher decides once the configuration is in hand:
/// the namespace request for the new execution context, and the run that
/// context must perform — the isolation plan followed by the command.
pub struct LaunchPlan {
    pub clone_request: CloneRequest,
    pub isolation: IsolationRun,
}

/// Turns a loaded configuration into the launch plan. This is the whole
/// decision content of an invocation: everything after it is performing
/// the plan and waiting.
pub fn run(config: &Config) -> (p: LaunchPlan)
    requires
        config@.wf(),
    ensures
        p.clone_request.new_mount_ns,
        p.clone_request.new_pid_ns,
        p.clone_request.new_uts_ns,
        p.clone_request.new_net_ns,
        p.clone_request.child_exit_signal,
        p.clone_request.stack_size == STACK_SIZE,
        p.isolation@.steps == isolation_plan(config@),
        p.isolation@.command == config@.command,
        p.isolation@.pos == 0,
        !p.isolation@.failed,
        p.isolation@.wf(),
{
    LaunchPlan { clone_request: clone_request(), isolation: IsolationRun::new(config) }
}

/// A failed invocation stays failed, whatever is observed afterwards.
pub proof fn lemma_failed_is_absorbing(events: Seq<LaunchEvent>)
    ensures
        launch_run(LaunchPhase::Failed, events) == LaunchPhase::Failed,
    decreases events.len(),
{
    if events.len() > 0 {
        lemma_failed_is_absorbing(events.skip(1));
    }
}

/// Law: if configuration acquisition fails, no execution context is
/// ever created — from that point on, whatever is observed, the machine
/// never again decides to create one.
pub proof fn lemma_config_failure_creates_no_context(events: Seq<LaunchEvent>)
    ensures
        launch_directive(
            launch_run(
                launch_step(LaunchPhase::LoadingConfig, LaunchEvent::ConfigFailed),
                events,
            ),
        ) != LaunchDirective::CreateContext,
{
    lemma_failed_is_absorbing(events);
}

} // verus!
