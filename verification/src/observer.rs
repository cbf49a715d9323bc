//! The render loop: from the snapshots that the document store delivers to the
//! calls of the light driver.
//!
//! The store delivers the current snapshot of the light state document
//! whenever it changes, from a thread of its own, and the driver takes its
//! time over every call. The observer stands between the two. It holds one
//! command at most: the one asked for by the latest snapshot that has not
//! been rendered yet. A newer snapshot overwrites it, so that a snapshot which
//! is overtaken before the driver is free is never rendered, and the driver
//! is never handed a second call while it works on one.
//!
//! The observer decides; it does not call the driver. The program around it
//! makes each call that the observer hands out and reports back when the call
//! is done.

use vstd::prelude::*;
use crate::color::{ColorCommand, RenderCall, Variant};
use crate::document::{DocumentError, LightDocument};

verus! {

/// How far the observer has come.
#[derive(Clone, Copy, Debug, PartialEq, Eq, Structural)]
pub enum Phase {
    /// No snapshot of the document has been delivered yet.
    AwaitingFirstUpdate,
    /// At least one snapshot has been delivered.
    Rendering,
}

/// What can happen to the observer.
#[derive(Clone, Copy, Debug, PartialEq, Eq, Structural)]
pub enum ObserverEvent {
    /// The store delivers the current state of the document: its snapshot,
    /// or nothing where the document does not exist.
    Changed(Option<LightDocument>),
    /// The driver reports that the render call handed out last is done.
    RenderCompleted,
}

/// The state of the render loop.
#[derive(Clone, Copy, Debug, PartialEq, Eq, Structural)]
pub struct Observer {
    /// The driver that every call goes to.
    pub variant: Variant,
    pub phase: Phase,
    /// The command of the latest snapshot, while the driver is busy with an
    /// earlier one.
    pub pending: Option<ColorCommand>,
    /// Whether a render call has been handed out and is not done yet.
    pub in_flight: bool,
}

impl Observer {
    /// The observer before anything has happened.
    pub open spec fn spec_new(variant: Variant) -> Observer {
        Observer { variant, phase: Phase::AwaitingFirstUpdate, pending: None, in_flight: false }
    }

    /// A command waits only while the driver is busy.
    pub open spec fn wf(self) -> bool {
        self.pending is Some ==> self.in_flight
    }

    /// The render call that carries `color` to this observer's driver.
    pub open spec fn call_for(self, color: ColorCommand) -> RenderCall {
        RenderCall { variant: self.variant, color }
    }

    /// What the observer answers to an event: a render call to make now, no
    /// call, or the reason why the snapshot cannot be rendered.
    pub open spec fn outcome(self, event: ObserverEvent) -> Result<
        Option<RenderCall>,
        DocumentError,
    > {
        match event {
            ObserverEvent::Changed(None) => Ok(None),
            ObserverEvent::Changed(Some(document)) => match document.command() {
                Err(e) => Err(e),
                Ok(color) => if self.in_flight {
                    Ok(None)
                } else {
                    Ok(Some(self.call_for(color)))
                },
            },
            ObserverEvent::RenderCompleted => match self.pending {
                Some(color) => Ok(Some(self.call_for(color))),
                None => Ok(None),
            },
        }
    }

    /// The observer after an event.
    pub open spec fn next(self, event: ObserverEvent) -> Observer {
        match event {
            ObserverEvent::Changed(None) => self,
            ObserverEvent::Changed(Some(document)) => match document.command() {
                Err(_) => self,
                Ok(color) => Observer {
                    variant: self.variant,
                    phase: Phase::Rendering,
                    pending: if self.in_flight {
                        Some(color)
                    } else {
                        None
                    },
                    in_flight: true,
                },
            },
            ObserverEvent::RenderCompleted => Observer {
                variant: self.variant,
                phase: self.phase,
                pending: None,
                in_flight: self.pending is Some,
            },
        }
    }

    /// The observer after a run of events, the first event first.
    pub open spec fn run(self, events: Seq<ObserverEvent>) -> Observer
        decreases events.len(),
    {
        if events.len() == 0 {
            self
        } else {
            self.run(events.drop_last()).next(events.last())
        }
    }

    /// How many of the snapshots delivered in a run of events are settled
    /// after it: rendered, or passed over for a later one that was rendered.
    /// It is the number of snapshots that had been delivered when the last
    /// render call of the run was handed out.
    pub open spec fn settled(self, events: Seq<ObserverEvent>) -> nat
        decreases events.len(),
    {
        if events.len() == 0 {
            0
        } else if self.run(events.drop_last()).outcome(events.last()) matches Ok(Some(_)) {
            snapshots(events).len()
        } else {
            self.settled(events.drop_last())
        }
    }

    pub fn new(variant: Variant) -> (observer: Observer)
        ensures
            observer == Self::spec_new(variant),
            observer.wf(),
    {
        Observer { variant, phase: Phase::AwaitingFirstUpdate, pending: None, in_flight: false }
    }

    /// Takes in one event and says what to do about it.
    ///
    /// A render call that comes back is to be made now, and its end reported
    /// with [`ObserverEvent::RenderCompleted`]. On an error the observer is
    /// left as it was.
    pub fn handle(&mut self, event: ObserverEvent) -> (outcome: Result<
        Option<RenderCall>,
        DocumentError,
    >)
        ensures
            outcome == old(self).outcome(event),
            *final(self) == old(self).next(event),
            old(self).wf() ==> final(self).wf(),
    {
        match event {
            ObserverEvent::Changed(None) => Ok(None),
            ObserverEvent::Changed(Some(document)) => {
                let color = match document.color_command() {
                    Ok(color) => color,
                    Err(e) => {
                        return Err(e);
                    },
                };
                self.phase = Phase::Rendering;
                if self.in_flight {
                    self.pending = Some(color);
                    Ok(None)
                } else {
                    self.pending = None;
                    self.in_flight = true;
                    Ok(Some(RenderCall { variant: self.variant, color }))
                }
            },
            ObserverEvent::RenderCompleted => {
                let waiting = self.pending;
                self.pending = None;
                match waiting {
                    Some(color) => {
                        self.in_flight = true;
                        Ok(Some(RenderCall { variant: self.variant, color }))
                    },
                    None => {
                        self.in_flight = false;
                        Ok(None)
                    },
                }
            },
        }
    }

    /// Takes in the current state of the document, as the store delivers it.
    pub fn on_document_changed(&mut self, snapshot: Option<LightDocument>) -> (outcome: Result<
        Option<RenderCall>,
        DocumentError,
    >)
        ensures
            outcome == old(self).outcome(ObserverEvent::Changed(snapshot)),
            *final(self) == old(self).next(ObserverEvent::Changed(snapshot)),
            old(self).wf() ==> final(self).wf(),
    {
        self.handle(ObserverEvent::Changed(snapshot))
    }

    /// Takes in the end of the render call handed out last. Gives the next
    /// call where a newer snapshot came in the meantime.
    pub fn on_render_completed(&mut self) -> (call: Option<RenderCall>)
        ensures
            Ok::<Option<RenderCall>, DocumentError>(call) == old(self).outcome(
                ObserverEvent::RenderCompleted,
            ),
            *final(self) == old(self).next(ObserverEvent::RenderCompleted),
            old(self).wf() ==> final(self).wf(),
    {
        match self.handle(ObserverEvent::RenderCompleted) {
            Ok(call) => call,
            Err(_) => None,
        }
    }
}

/// The snapshots that a run of events delivers and that can be rendered, the
/// first one first.
pub open spec fn snapshots(events: Seq<ObserverEvent>) -> Seq<LightDocument>
    decreases events.len(),
{
    if events.len() == 0 {
        Seq::empty()
    } else {
        match events.last() {
            ObserverEvent::Changed(Some(document)) => if document.is_complete() {
                snapshots(events.drop_last()).push(document)
            } else {
                snapshots(events.drop_last())
            },
            _ => snapshots(events.drop_last()),
        }
    }
}

/// What the observer keeps track of, over every run of events from a fresh
/// start: a waiting command is that of the latest snapshot, and that snapshot
/// is not settled yet; with no command waiting, every snapshot is settled.
pub proof fn lemma_run_keeps_track(variant: Variant, events: Seq<ObserverEvent>)
    ensures
        ({
            let observer = Observer::spec_new(variant).run(events);
            let delivered = snapshots(events);
            let settled = Observer::spec_new(variant).settled(events);
            &&& observer.wf()
            &&& observer.variant == variant
            &&& settled <= delivered.len()
            &&& observer.phase == Phase::AwaitingFirstUpdate <==> delivered.len() == 0
            &&& observer.pending is None ==> settled == delivered.len()
            &&& observer.pending matches Some(color) ==> settled < delivered.len()
                && delivered.last().command() == Ok::<ColorCommand, DocumentError>(color)
        }),
    decreases events.len(),
{
    if events.len() > 0 {
        lemma_run_keeps_track(variant, events.drop_last());
    }
}

/// Every render call that the observer hands out carries the command of the
/// latest snapshot delivered up to then, and goes to the driver chosen at the
/// start. That snapshot is newer than every snapshot settled before: no call
/// renders a snapshot a second time, or one older than a snapshot already
/// rendered.
pub proof fn lemma_render_call_is_latest(
    variant: Variant,
    events: Seq<ObserverEvent>,
    event: ObserverEvent,
    call: RenderCall,
)
    requires
        Observer::spec_new(variant).run(events).outcome(event) == Ok::<
            Option<RenderCall>,
            DocumentError,
        >(Some(call)),
    ensures
        snapshots(events.push(event)).len() > 0,
        snapshots(events.push(event)).last().command() == Ok::<ColorCommand, DocumentError>(
            call.color,
        ),
        call.variant == variant,
        Observer::spec_new(variant).settled(events) < snapshots(events.push(event)).len(),
        Observer::spec_new(variant).settled(events.push(event)) == snapshots(
            events.push(event),
        ).len(),
{
    lemma_run_keeps_track(variant, events);
    assert(events.push(event).drop_last() =~= events);
}

/// Once no render call is under way, every snapshot delivered is settled: the
/// light shows what the latest snapshot asks for.
pub proof fn lemma_idle_light_is_current(variant: Variant, events: Seq<ObserverEvent>)
    requires
        !Observer::spec_new(variant).run(events).in_flight,
    ensures
        Observer::spec_new(variant).settled(events) == snapshots(events).len(),
        Observer::spec_new(variant).run(events).pending is None,
{
    lemma_run_keeps_track(variant, events);
}

/// While a render call is under way no second one is handed out for a
/// snapshot: its command waits, in place of any that waited before.
pub proof fn lemma_one_call_at_a_time(observer: Observer, document: LightDocument)
    requires
        observer.in_flight,
        document.is_complete(),
    ensures
        observer.outcome(ObserverEvent::Changed(Some(document))) == Ok::<
            Option<RenderCall>,
            DocumentError,
        >(None),
        Ok::<ColorCommand, DocumentError>(
            observer.next(ObserverEvent::Changed(Some(document))).pending->0,
        ) == document.command(),
        observer.next(ObserverEvent::Changed(Some(document))).pending is Some,
        observer.next(ObserverEvent::Changed(Some(document))).in_flight,
{
}

/// With the driver free, a snapshot is rendered at once, and once that call
/// is done the driver is free again: where every call ends before the next
/// snapshot comes, each snapshot is rendered, in the order delivered.
pub proof fn lemma_rendered_at_once(observer: Observer, document: LightDocument)
    requires
        observer.wf(),
        !observer.in_flight,
        document.is_complete(),
    ensures
        observer.outcome(ObserverEvent::Changed(Some(document))) == Ok::<
            Option<RenderCall>,
            DocumentError,
        >(Some(observer.call_for(document.command()->Ok_0))),
        observer.next(ObserverEvent::Changed(Some(document))).outcome(
            ObserverEvent::RenderCompleted,
        ) == Ok::<Option<RenderCall>, DocumentError>(None),
        observer.next(ObserverEvent::Changed(Some(document))).next(
            ObserverEvent::RenderCompleted,
        ) == (Observer { phase: Phase::Rendering, ..observer }),
{
}

/// A snapshot that is switched off is rendered dark, whatever its channels
/// hold: at once where the driver is free, and else as the command that
/// waits.
pub proof fn lemma_off_snapshot_renders_dark(observer: Observer, document: LightDocument)
    requires
        document.is_complete(),
        document.is_off == Some(true),
    ensures
        !observer.in_flight ==> observer.outcome(ObserverEvent::Changed(Some(document))) == Ok::<
            Option<RenderCall>,
            DocumentError,
        >(Some(RenderCall { variant: observer.variant, color: ColorCommand::spec_off() })),
        observer.in_flight ==> observer.next(ObserverEvent::Changed(Some(document))).pending
            == Some(ColorCommand::spec_off()),
{
}

/// A snapshot that cannot be rendered changes nothing, and neither does the
/// news that the document does not exist.
pub proof fn lemma_broken_snapshot_changes_nothing(observer: Observer, document: LightDocument)
    requires
        !document.is_complete(),
    ensures
        observer.outcome(ObserverEvent::Changed(Some(document))) is Err,
        observer.next(ObserverEvent::Changed(Some(document))) == observer,
        observer.outcome(ObserverEvent::Changed(None)) == Ok::<Option<RenderCall>, DocumentError>(
            None,
        ),
        observer.next(ObserverEvent::Changed(None)) == observer,
{
}

} // verus!
