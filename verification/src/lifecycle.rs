//! The life of the process: the startup steps in their order, and how the
//! process ends.
//!
//! The light is set to its start colour first; then the sync client is
//! started, the observer is subscribed to the light state document, and the
//! process waits for a key. Every step that fails ends the process at once,
//! with a status that is not zero: there is no retry and no way on without
//! the step. So does a failure of the render loop while the process waits. A
//! pressed key ends the process with status zero.
//!
//! The lifecycle decides; it does nothing itself. The program around it
//! carries out the action that is pending and reports how it went.

use vstd::prelude::*;
use crate::color::{RenderCall, Variant};
use crate::document::DocumentError;
use crate::observer::Observer;
use crate::startup::{plan_startup, selected_variant, select_variant, startup_plan, texts};
use crate::startup::{ConfigError, StartupPlan};

verus! {

/// Why the process gives up.
#[derive(Clone, Copy, Debug, PartialEq, Eq, Structural)]
pub enum Failure {
    /// The command line does not say what to start with.
    Configuration(ConfigError),
    /// The light driver did not carry out a render call.
    Driver,
    /// The sync client did not start.
    Sync,
    /// The observer could not be subscribed to the document.
    Subscription,
    /// A snapshot of the document could not be rendered.
    Document(DocumentError),
    /// The console could not be read.
    Console,
}

/// How the process ends.
#[derive(Clone, Copy, Debug, PartialEq, Eq, Structural)]
pub enum Outcome {
    /// The operator pressed a key.
    Clean,
    Fatal(Failure),
}

/// Where the process stands: the step that is pending, or the end.
#[derive(Clone, Copy, Debug, PartialEq, Eq, Structural)]
pub enum Stage {
    /// The light is to be set to its start colour.
    InitialRender(RenderCall),
    /// The sync client is to be started.
    StartingSync,
    /// The observer is to be subscribed to the light state document.
    Subscribing,
    /// The process is to wait for a key, while the observer renders.
    Running,
    Stopped(Outcome),
}

/// What the program is to do next.
#[derive(Clone, Copy, Debug, PartialEq, Eq, Structural)]
pub enum Action {
    /// Make this call of the light driver.
    Render(RenderCall),
    /// Start the sync client, under the fixed identity and with both
    /// transports.
    StartSync,
    /// Subscribe to the light state document, and hand every change to this
    /// observer.
    Subscribe(Observer),
    /// Print the prompt and wait for one byte from the console.
    AwaitKey,
    /// End the process.
    Exit(Outcome),
}

/// What the program reports to the lifecycle.
#[derive(Clone, Copy, Debug, PartialEq, Eq, Structural)]
pub enum LifecycleEvent {
    /// The pending action is over, and this is whether it succeeded.
    Finished(bool),
    /// Something failed beside the pending action: the render loop, which
    /// works while the process waits for a key.
    Failed(Failure),
}

/// The lifecycle of one process.
#[derive(Clone, Copy, Debug, PartialEq, Eq, Structural)]
pub struct Lifecycle {
    /// The hardware variant, settled at the start for the whole life.
    pub variant: Variant,
    pub stage: Stage,
}

/// The failure that a stage ends in when its step fails.
pub open spec fn failure_of(stage: Stage) -> Failure
    recommends
        !(stage is Stopped),
{
    match stage {
        Stage::InitialRender(_) => Failure::Driver,
        Stage::StartingSync => Failure::Sync,
        Stage::Subscribing => Failure::Subscription,
        _ => Failure::Console,
    }
}

/// The stage that follows once the step of `stage` has succeeded.
pub open spec fn stage_after_success(stage: Stage) -> Stage {
    match stage {
        Stage::InitialRender(_) => Stage::StartingSync,
        Stage::StartingSync => Stage::Subscribing,
        Stage::Subscribing => Stage::Running,
        Stage::Running => Stage::Stopped(Outcome::Clean),
        Stage::Stopped(outcome) => Stage::Stopped(outcome),
    }
}

/// The stage that follows `stage` on an event. The end is final: no event
/// leads away from it, and the first reason to stop is the one that counts.
pub open spec fn stage_after(stage: Stage, event: LifecycleEvent) -> Stage {
    match stage {
        Stage::Stopped(outcome) => Stage::Stopped(outcome),
        _ => match event {
            LifecycleEvent::Finished(true) => stage_after_success(stage),
            LifecycleEvent::Finished(false) => Stage::Stopped(Outcome::Fatal(failure_of(stage))),
            LifecycleEvent::Failed(failure) => Stage::Stopped(Outcome::Fatal(failure)),
        },
    }
}

/// The exit status of the process: zero for a clean end, one for any other.
pub open spec fn spec_exit_status(outcome: Outcome) -> i32 {
    match outcome {
        Outcome::Clean => 0,
        Outcome::Fatal(_) => 1,
    }
}

/// The exit status of the process.
#[verifier::when_used_as_spec(spec_exit_status)]
pub fn exit_status(outcome: Outcome) -> (status: i32)
    ensures
        status == spec_exit_status(outcome),
        status == 0 <==> outcome == Outcome::Clean,
{
    match outcome {
        Outcome::Clean => 0,
        Outcome::Fatal(_) => 1,
    }
}

impl Lifecycle {
    /// The lifecycle at the start of a process with this command line.
    pub open spec fn spec_launch(tokens: Seq<Seq<char>>, mini: Option<bool>) -> Lifecycle {
        Lifecycle {
            variant: selected_variant(mini),
            stage: match startup_plan(tokens, mini) {
                Ok(plan) => Stage::InitialRender(plan.spec_initial_render()),
                Err(e) => Stage::Stopped(Outcome::Fatal(Failure::Configuration(e))),
            },
        }
    }

    /// The action that is pending.
    pub open spec fn spec_pending_action(&self) -> Action {
        match self.stage {
            Stage::InitialRender(call) => Action::Render(call),
            Stage::StartingSync => Action::StartSync,
            Stage::Subscribing => Action::Subscribe(Observer::spec_new(self.variant)),
            Stage::Running => Action::AwaitKey,
            Stage::Stopped(outcome) => Action::Exit(outcome),
        }
    }

    /// The lifecycle after an event.
    pub open spec fn after(self, event: LifecycleEvent) -> Lifecycle {
        Lifecycle { variant: self.variant, stage: stage_after(self.stage, event) }
    }

    /// The lifecycle after a run of events, the first event first.
    pub open spec fn after_all(self, events: Seq<LifecycleEvent>) -> Lifecycle
        decreases events.len(),
    {
        if events.len() == 0 {
            self
        } else {
            self.after_all(events.drop_last()).after(events.last())
        }
    }

    /// Starts the lifecycle of a process from its command line: the
    /// positional arguments and the variant flag.
    ///
    /// With a command line that cannot be read the lifecycle starts at its
    /// end, before anything is done to the light or the network.
    pub fn launch(tokens: &Vec<String>, mini: Option<bool>) -> (lifecycle: Lifecycle)
        ensures
            lifecycle == Self::spec_launch(texts(tokens@), mini),
    {
        let variant = select_variant(mini);
        match plan_startup(tokens, mini) {
            Ok(plan) => Lifecycle { variant, stage: Stage::InitialRender(plan.initial_render()) },
            Err(e) => Lifecycle {
                variant,
                stage: Stage::Stopped(Outcome::Fatal(Failure::Configuration(e))),
            },
        }
    }

    /// The action that is pending: what the program is to do now.
    #[verifier::when_used_as_spec(spec_pending_action)]
    pub fn pending_action(&self) -> (action: Action)
        ensures
            action == self.spec_pending_action(),
    {
        match self.stage {
            Stage::InitialRender(call) => Action::Render(call),
            Stage::StartingSync => Action::StartSync,
            Stage::Subscribing => Action::Subscribe(Observer::new(self.variant)),
            Stage::Running => Action::AwaitKey,
            Stage::Stopped(outcome) => Action::Exit(outcome),
        }
    }

    /// Takes in one event, and gives the action that is pending then.
    pub fn handle(&mut self, event: LifecycleEvent) -> (action: Action)
        ensures
            *final(self) == old(self).after(event),
            action == final(self).spec_pending_action(),
    {
        let next = match self.stage {
            Stage::Stopped(outcome) => Stage::Stopped(outcome),
            Stage::InitialRender(_) => match event {
                LifecycleEvent::Finished(true) => Stage::StartingSync,
                LifecycleEvent::Finished(false) => Stage::Stopped(Outcome::Fatal(Failure::Driver)),
                LifecycleEvent::Failed(failure) => Stage::Stopped(Outcome::Fatal(failure)),
            },
            Stage::StartingSync => match event {
                LifecycleEvent::Finished(true) => Stage::Subscribing,
                LifecycleEvent::Finished(false) => Stage::Stopped(Outcome::Fatal(Failure::Sync)),
                LifecycleEvent::Failed(failure) => Stage::Stopped(Outcome::Fatal(failure)),
            },
            Stage::Subscribing => match event {
                LifecycleEvent::Finished(true) => Stage::Running,
                LifecycleEvent::Finished(false) => Stage::Stopped(
                    Outcome::Fatal(Failure::Subscription),
                ),
                LifecycleEvent::Failed(failure) => Stage::Stopped(Outcome::Fatal(failure)),
            },
            Stage::Running => match event {
                LifecycleEvent::Finished(true) => Stage::Stopped(Outcome::Clean),
                LifecycleEvent::Finished(false) => Stage::Stopped(Outcome::Fatal(Failure::Console)),
                LifecycleEvent::Failed(failure) => Stage::Stopped(Outcome::Fatal(failure)),
            },
        };
        self.stage = next;
        self.pending_action()
    }

    /// Takes in whether the pending action succeeded, and gives the action
    /// that is pending then.
    pub fn report(&mut self, succeeded: bool) -> (action: Action)
        ensures
            *final(self) == old(self).after(LifecycleEvent::Finished(succeeded)),
            action == final(self).spec_pending_action(),
    {
        self.handle(LifecycleEvent::Finished(succeeded))
    }

    /// Takes in a failure of the render loop. The action that is pending
    /// then is the end of the process.
    pub fn abort(&mut self, failure: Failure) -> (action: Action)
        ensures
            *final(self) == old(self).after(LifecycleEvent::Failed(failure)),
            action == final(self).spec_pending_action(),
            action is Exit,
            !(old(self).stage is Stopped) ==> action == Action::Exit(Outcome::Fatal(failure)),
    {
        self.handle(LifecycleEvent::Failed(failure))
    }
}

/// A command line that can be read starts with the render of its colour on
/// the selected variant; with all steps succeeding the sync client is started
/// next, then the observer is subscribed, then the process waits for a key,
/// and the key ends it cleanly.
pub proof fn lemma_steps_in_order(tokens: Seq<Seq<char>>, mini: Option<bool>, plan: StartupPlan)
    requires
        startup_plan(tokens, mini) == Ok::<StartupPlan, ConfigError>(plan),
    ensures
        ({
            let done = LifecycleEvent::Finished(true);
            let first = Lifecycle::spec_launch(tokens, mini);
            let second = first.after(done);
            let third = second.after(done);
            let fourth = third.after(done);
            let last = fourth.after(done);
            &&& first.spec_pending_action() == Action::Render(
                RenderCall { variant: selected_variant(mini), color: plan.color },
            )
            &&& second.spec_pending_action() == Action::StartSync
            &&& third.spec_pending_action() == Action::Subscribe(
                Observer::spec_new(selected_variant(mini)),
            )
            &&& fourth.spec_pending_action() == Action::AwaitKey
            &&& last.spec_pending_action() == Action::Exit(Outcome::Clean)
        }),
{
}

/// A command line that cannot be read ends the process before any step, with
/// a status that is not zero.
pub proof fn lemma_malformed_arguments_are_fatal(
    tokens: Seq<Seq<char>>,
    mini: Option<bool>,
    error: ConfigError,
)
    requires
        startup_plan(tokens, mini) == Err::<StartupPlan, ConfigError>(error),
    ensures
        Lifecycle::spec_launch(tokens, mini).spec_pending_action() == Action::Exit(
            Outcome::Fatal(Failure::Configuration(error)),
        ),
        spec_exit_status(Outcome::Fatal(Failure::Configuration(error))) != 0,
{
}

/// Whatever fails ends the process at once, with a status that is not zero:
/// a step of the startup, the wait for the key, or the render loop.
pub proof fn lemma_failure_is_fatal(lifecycle: Lifecycle, event: LifecycleEvent)
    requires
        !(lifecycle.stage is Stopped),
        event != LifecycleEvent::Finished(true),
    ensures
        lifecycle.after(event).spec_pending_action() matches Action::Exit(outcome)
            && outcome is Fatal && spec_exit_status(outcome) != 0,
{
}

/// The end is final, and the variant is the same through the whole life.
pub proof fn lemma_end_is_final(lifecycle: Lifecycle, events: Seq<LifecycleEvent>)
    ensures
        lifecycle.after_all(events).variant == lifecycle.variant,
        lifecycle.stage is Stopped ==> lifecycle.after_all(events) == lifecycle,
    decreases events.len(),
{
    if events.len() > 0 {
        lemma_end_is_final(lifecycle, events.drop_last());
    }
}

/// The process ends cleanly only by its four steps and a key: a run of events
/// that ends cleanly starts from a command line that can be read, with the
/// three steps of the startup succeeding and then the key, and nothing
/// failing before.
pub proof fn lemma_clean_end_needs_every_step(
    tokens: Seq<Seq<char>>,
    mini: Option<bool>,
    events: Seq<LifecycleEvent>,
)
    requires
        Lifecycle::spec_launch(tokens, mini).after_all(events).stage == Stage::Stopped(
            Outcome::Clean,
        ),
    ensures
        startup_plan(tokens, mini) is Ok,
        events.len() >= 4,
        forall|i: int| 0 <= i < 4 ==> events[i] == LifecycleEvent::Finished(true),
{
    let first = Lifecycle::spec_launch(tokens, mini);
    lemma_stage_follows_events(first, events);
}

/// How far a run of events brings a lifecycle that stands before its first
/// step or at a fatal end.
proof fn lemma_stage_follows_events(first: Lifecycle, events: Seq<LifecycleEvent>)
    requires
        first.stage is InitialRender || first.stage matches Stage::Stopped(Outcome::Fatal(_)),
    ensures
        ({
            let passed = |steps: int|
                first.stage is InitialRender && events.len() >= steps && forall|i: int|
                    0 <= i < steps ==> events[i] == LifecycleEvent::Finished(true);
            match first.after_all(events).stage {
                Stage::InitialRender(_) => passed(0) && events.len() == 0,
                Stage::StartingSync => passed(1) && events.len() == 1,
                Stage::Subscribing => passed(2) && events.len() == 2,
                Stage::Running => passed(3) && events.len() == 3,
                Stage::Stopped(Outcome::Clean) => passed(4),
                Stage::Stopped(Outcome::Fatal(_)) => true,
            }
        }),
    decreases events.len(),
{
    if events.len() > 0 {
        let before = events.drop_last();
        lemma_stage_follows_events(first, before);
        assert forall|i: int| 0 <= i < before.len() implies before[i] == events[i] by {}
    }
}

} // verus!
