//! The order of start-up in the background: the power source first, then the
//! word that the interface may go on, then the inventory, which is slow.
//!
//! The coordinator decides what the worker does next and which milestones it
//! reports; the worker carries the tasks out and sends the milestones on.

use crate::specs::SystemSpecs;
use crate::tick::InitMessage;
use vstd::prelude::*;

verus! {

/// Where the background start-up stands.
#[derive(Debug, Clone, Copy, PartialEq, Eq, Structural)]
pub enum InitStage {
    Idle,
    AwaitingPower,
    AwaitingInventory,
    Done,
}

/// What the worker has to do next.
#[derive(Debug, Clone, Copy, PartialEq, Eq, Structural)]
pub enum WorkerTask {
    ReadPowerSource,
    FetchInventory,
}

/// What the worker reports to the coordinator.
#[derive(Debug, Clone)]
pub enum WorkerEvent {
    /// The worker has started.
    Launched,
    /// The power source was asked for: `true` on mains power, nothing if the
    /// query failed.
    PowerSource(Option<bool>),
    /// The inventory was fetched.
    Inventory(SystemSpecs),
}

/// What follows an event: the milestones to report, in order, and the next
/// task.
#[derive(Debug)]
pub struct WorkerStep {
    pub emit: Vec<InitMessage>,
    pub next: Option<WorkerTask>,
}

/// Decides the order of the background start-up.
#[derive(Debug, Clone, Copy)]
pub struct InitializationCoordinator {
    stage: InitStage,
}

/// The three milestones.
#[derive(Debug, Clone, Copy, PartialEq, Eq, Structural)]
pub enum Milestone {
    PowerStateRead,
    InitializationComplete,
    SpecsComplete,
}

/// The milestone that a message reports.
pub open spec fn milestone_of(message: InitMessage) -> Milestone {
    match message {
        InitMessage::PowerStateRead(_) => Milestone::PowerStateRead,
        InitMessage::InitializationComplete => Milestone::InitializationComplete,
        InitMessage::SystemSpecsComplete(_) => Milestone::SpecsComplete,
    }
}

/// Place of a milestone in the order of start-up.
pub open spec fn rank(milestone: Milestone) -> int {
    match milestone {
        Milestone::PowerStateRead => 0,
        Milestone::InitializationComplete => 1,
        Milestone::SpecsComplete => 2,
    }
}

/// What an event leads to at a stage: the next stage, the milestones to
/// report, and the next task. An event that the stage does not await changes
/// nothing and reports nothing.
pub open spec fn advanced(stage: InitStage, event: WorkerEvent) -> (
    InitStage,
    Seq<InitMessage>,
    Option<WorkerTask>,
) {
    match (stage, event) {
        (InitStage::Idle, WorkerEvent::Launched) => (
            InitStage::AwaitingPower,
            Seq::empty(),
            Some(WorkerTask::ReadPowerSource),
        ),
        (InitStage::AwaitingPower, WorkerEvent::PowerSource(Some(ac_power))) => (
            InitStage::AwaitingInventory,
            seq![InitMessage::PowerStateRead(ac_power), InitMessage::InitializationComplete],
            Some(WorkerTask::FetchInventory),
        ),
        (InitStage::AwaitingPower, WorkerEvent::PowerSource(None)) => (
            InitStage::AwaitingInventory,
            seq![InitMessage::InitializationComplete],
            Some(WorkerTask::FetchInventory),
        ),
        (InitStage::AwaitingInventory, WorkerEvent::Inventory(specs)) => (
            InitStage::Done,
            seq![InitMessage::SystemSpecsComplete(specs)],
            None,
        ),
        _ => (stage, Seq::empty(), None),
    }
}

impl InitializationCoordinator {
    /// Where the start-up stands.
    pub closed spec fn stage(&self) -> InitStage {
        self.stage
    }

    /// A coordinator before the worker has started.
    pub fn new() -> (coordinator: Self)
        ensures
            coordinator.stage() == InitStage::Idle,
    {
        InitializationCoordinator { stage: InitStage::Idle }
    }

    /// Whether every milestone has been reported.
    pub fn is_done(&self) -> (done: bool)
        ensures
            done == (self.stage() == InitStage::Done),
    {
        self.stage == InitStage::Done
    }

    /// Takes an event of the worker and tells what follows.
    pub fn advance(&mut self, event: WorkerEvent) -> (step: WorkerStep)
        ensures
            (final(self).stage(), step.emit@, step.next) == advanced(old(self).stage(), event),
    {
        let mut emit: Vec<InitMessage> = Vec::new();
        match (self.stage, event) {
            (InitStage::Idle, WorkerEvent::Launched) => {
                self.stage = InitStage::AwaitingPower;
                assert(emit@ =~= Seq::<InitMessage>::empty());
                WorkerStep { emit, next: Some(WorkerTask::ReadPowerSource) }
            },
            (InitStage::AwaitingPower, WorkerEvent::PowerSource(power)) => {
                if let Some(ac_power) = power {
                    emit.push(InitMessage::PowerStateRead(ac_power));
                }
                emit.push(InitMessage::InitializationComplete);
                self.stage = InitStage::AwaitingInventory;
                assert(emit@ =~= advanced(old(self).stage(), event).1);
                WorkerStep { emit, next: Some(WorkerTask::FetchInventory) }
            },
            (InitStage::AwaitingInventory, WorkerEvent::Inventory(specs)) => {
                emit.push(InitMessage::SystemSpecsComplete(specs));
                self.stage = InitStage::Done;
                assert(emit@ =~= advanced(old(self).stage(), event).1);
                WorkerStep { emit, next: None }
            },
            _ => {
                assert(emit@ =~= Seq::<InitMessage>::empty());
                WorkerStep { emit, next: None }
            },
        }
    }
}

/// The milestones reported over a run of events from a stage.
pub open spec fn reported(stage: InitStage, events: Seq<WorkerEvent>) -> Seq<InitMessage>
    decreases events.len(),
{
    if events.len() == 0 {
        Seq::empty()
    } else {
        let first = advanced(stage, events[0]);
        first.1 + reported(first.0, events.skip(1))
    }
}

/// The lowest rank that a milestone reported from a stage on can have.
pub open spec fn floor(stage: InitStage) -> int {
    match stage {
        InitStage::Idle => 0,
        InitStage::AwaitingPower => 0,
        InitStage::AwaitingInventory => 2,
        InitStage::Done => 3,
    }
}

/// Whether each milestone comes later in the order of start-up than those
/// before it.
pub open spec fn rising(messages: Seq<InitMessage>) -> bool {
    forall|i: int, j: int|
        0 <= i < j < messages.len() ==> rank(milestone_of(#[trigger] messages[i])) < rank(
            milestone_of(#[trigger] messages[j]),
        )
}

/// Whatever the worker reports, and in whatever order, the milestones come
/// in the order power source, initialization complete, inventory, and none
/// comes twice.
pub proof fn milestones_come_once_in_order(stage: InitStage, events: Seq<WorkerEvent>)
    ensures
        rising(reported(stage, events)),
        forall|i: int|
            0 <= i < reported(stage, events).len() ==> rank(
                milestone_of(#[trigger] reported(stage, events)[i]),
            ) >= floor(stage),
    decreases events.len(),
{
    if events.len() > 0 {
        let first = advanced(stage, events[0]);
        let rest = reported(first.0, events.skip(1));
        milestones_come_once_in_order(first.0, events.skip(1));
        let all = first.1 + rest;
        assert forall|i: int| 0 <= i < all.len() implies rank(milestone_of(#[trigger] all[i]))
            >= floor(stage) by {
            if i >= first.1.len() {
                assert(all[i] == rest[i - first.1.len()]);
            }
        }
        assert forall|i: int, j: int| 0 <= i < j < all.len() implies rank(
            milestone_of(#[trigger] all[i]),
        ) < rank(milestone_of(#[trigger] all[j])) by {
            if j >= first.1.len() {
                assert(all[j] == rest[j - first.1.len()]);
            }
            if i >= first.1.len() {
                assert(all[i] == rest[i - first.1.len()]);
            }
        }
    }
}

} // verus!
