//! Handing a batch to the consumers: mark its tasks as being processed
//! (or, for the cleaner, reinitialise them), then append the batch to its
//! stream, and put the status back when the append fails. The store is
//! driven by the caller; this module decides each next step.
use vstd::prelude::*;
use crate::batching::{ProcessTracker, ProcessTrackerBatch};
use crate::errors::{ErrorStack, ProcessTrackerError};

verus! {

/// Which part of the scheduler runs.
#[derive(Clone, Copy, Debug, PartialEq, Eq, Structural)]
pub enum SchedulerFlow {
    Producer,
    Consumer,
    Cleaner,
}

/// How far a hand-over has come.
#[derive(Clone, Copy, Debug, PartialEq, Eq, Structural)]
pub enum AppendStage {
    Start,
    StatusPending,
    AppendPending,
    RevertPending,
    Finished,
}

/// What the store reported back.
#[derive(Clone, Copy, Debug, PartialEq, Eq, Structural)]
pub enum AppendEvent {
    /// The hand-over begins.
    Begin,
    /// The status update (or reinitialisation) of the batch's tasks succeeded or failed.
    StatusDone(bool),
    /// The batch could not be turned into stream fields.
    FieldsFailed(ProcessTrackerError),
    /// Appending the batch to its stream succeeded or failed.
    AppendDone(bool),
    /// Putting the tasks' status back succeeded or failed.
    RevertDone(bool),
}

/// What the caller does next.
#[derive(Clone, Copy, Debug)]
pub enum AppendAction {
    /// Set the status of the batch's tasks to `Processing`.
    UpdateStatusToProcessing,
    /// Reinitialise the batch's tasks that were left in limbo.
    ReinitializeLimbo,
    /// Turn the batch into stream fields and append them to its stream.
    AppendToStream,
    /// Set the status of the batch's tasks to `Processing` again.
    RevertStatus,
    /// Stop, with this result.
    Finish(Result<(), ErrorStack>),
}

pub open spec fn single_error(e: ProcessTrackerError) -> Result<(), ErrorStack> {
    Err(ErrorStack { context: e, extended: None })
}

/// Whether `event` can come in `stage`.
pub open spec fn append_event_fits(stage: AppendStage, event: AppendEvent) -> bool {
    match (stage, event) {
        (AppendStage::Start, AppendEvent::Begin) => true,
        (AppendStage::StatusPending, AppendEvent::StatusDone(_)) => true,
        (AppendStage::AppendPending, AppendEvent::FieldsFailed(_)) => true,
        (AppendStage::AppendPending, AppendEvent::AppendDone(_)) => true,
        (AppendStage::RevertPending, AppendEvent::RevertDone(_)) => true,
        _ => false,
    }
}

/// The next stage and action of a hand-over in `flow`.
pub open spec fn append_next(flow: SchedulerFlow, stage: AppendStage, event: AppendEvent) -> (AppendStage, AppendAction) {
    match (stage, event) {
        (AppendStage::Start, AppendEvent::Begin) => match flow {
            SchedulerFlow::Producer => (AppendStage::StatusPending, AppendAction::UpdateStatusToProcessing),
            SchedulerFlow::Cleaner => (AppendStage::StatusPending, AppendAction::ReinitializeLimbo),
            SchedulerFlow::Consumer => (
                AppendStage::Finished,
                AppendAction::Finish(single_error(ProcessTrackerError::UnexpectedFlow)),
            ),
        },
        (AppendStage::StatusPending, AppendEvent::StatusDone(ok)) => if ok {
            (AppendStage::AppendPending, AppendAction::AppendToStream)
        } else {
            (AppendStage::Finished, AppendAction::Finish(single_error(ProcessTrackerError::ProcessUpdateFailed)))
        },
        (AppendStage::AppendPending, AppendEvent::FieldsFailed(e)) =>
            (AppendStage::Finished, AppendAction::Finish(single_error(e))),
        (AppendStage::AppendPending, AppendEvent::AppendDone(ok)) => if ok {
            (AppendStage::Finished, AppendAction::Finish(Ok(())))
        } else {
            (AppendStage::RevertPending, AppendAction::RevertStatus)
        },
        (AppendStage::RevertPending, AppendEvent::RevertDone(ok)) => if ok {
            (AppendStage::Finished, AppendAction::Finish(single_error(ProcessTrackerError::BatchInsertionFailed)))
        } else {
            (
                AppendStage::Finished,
                AppendAction::Finish(Err(ErrorStack {
                    context: ProcessTrackerError::BatchInsertionFailed,
                    extended: Some(ProcessTrackerError::ProcessUpdateFailed),
                })),
            )
        },
        _ => (stage, AppendAction::Finish(single_error(ProcessTrackerError::UnexpectedFlow))),
    }
}

/// One step of handing a batch to the consumers in `flow`.
pub fn update_status_and_append_step(flow: SchedulerFlow, stage: AppendStage, event: AppendEvent) -> (next: (AppendStage, AppendAction))
    requires
        append_event_fits(stage, event),
    ensures
        next == append_next(flow, stage, event),
{
    match (stage, event) {
        (AppendStage::Start, AppendEvent::Begin) => match flow {
            SchedulerFlow::Producer => (AppendStage::StatusPending, AppendAction::UpdateStatusToProcessing),
            SchedulerFlow::Cleaner => (AppendStage::StatusPending, AppendAction::ReinitializeLimbo),
            SchedulerFlow::Consumer => (
                AppendStage::Finished,
                AppendAction::Finish(Err(ErrorStack { context: ProcessTrackerError::UnexpectedFlow, extended: None })),
            ),
        },
        (AppendStage::StatusPending, AppendEvent::StatusDone(ok)) => if ok {
            (AppendStage::AppendPending, AppendAction::AppendToStream)
        } else {
            (
                AppendStage::Finished,
                AppendAction::Finish(Err(ErrorStack { context: ProcessTrackerError::ProcessUpdateFailed, extended: None })),
            )
        },
        (AppendStage::AppendPending, AppendEvent::FieldsFailed(e)) =>
            (AppendStage::Finished, AppendAction::Finish(Err(ErrorStack { context: e, extended: None }))),
        (AppendStage::AppendPending, AppendEvent::AppendDone(ok)) => if ok {
            (AppendStage::Finished, AppendAction::Finish(Ok(())))
        } else {
            (AppendStage::RevertPending, AppendAction::RevertStatus)
        },
        (_, AppendEvent::RevertDone(ok)) => if ok {
            (
                AppendStage::Finished,
                AppendAction::Finish(Err(ErrorStack { context: ProcessTrackerError::BatchInsertionFailed, extended: None })),
            )
        } else {
            (
                AppendStage::Finished,
                AppendAction::Finish(Err(ErrorStack {
                    context: ProcessTrackerError::BatchInsertionFailed,
                    extended: Some(ProcessTrackerError::ProcessUpdateFailed),
                })),
            )
        },
        _ => (stage, AppendAction::Finish(Err(ErrorStack { context: ProcessTrackerError::UnexpectedFlow, extended: None }))),
    }
}

/// Which entries of a stream an operation addresses.
#[derive(Clone, Copy, Debug, PartialEq, Eq, Structural)]
pub enum RedisEntryId {
    /// A new entry, whose id the store chooses.
    AutoGeneratedID,
    /// The entries not yet delivered to the consumer group.
    UndeliveredEntryID,
}

/// Where a batch is appended.
pub struct StreamAppendTarget {
    pub stream_name: String,
    pub entry_id: RedisEntryId,
}

/// The append of a batch goes to a new entry, with an id that the store
/// chooses, of the batch's own stream.
pub fn batch_append_target(batch: &ProcessTrackerBatch) -> (target: StreamAppendTarget)
    ensures
        target.stream_name@ == batch.stream_name@,
        target.entry_id == RedisEntryId::AutoGeneratedID,
{
    StreamAppendTarget { stream_name: batch.stream_name.clone(), entry_id: RedisEntryId::AutoGeneratedID }
}

/// The ids of the tasks of a batch, in order.
pub fn tracker_ids(trackers: &Vec<ProcessTracker>) -> (ids: Vec<String>)
    ensures
        ids@.len() == trackers@.len(),
        forall|i: int| 0 <= i < ids@.len() ==> #[trigger] ids@[i]@ == trackers@[i].id@,
{
    let mut ids: Vec<String> = Vec::new();
    let mut i: usize = 0;
    while i < trackers.len()
        invariant
            i <= trackers@.len(),
            ids@.len() == i,
            forall|j: int| 0 <= j < i ==> #[trigger] ids@[j]@ == trackers@[j].id@,
        decreases trackers.len() - i,
    {
        ids.push(trackers[i].id.clone());
        i = i + 1;
    }
    ids
}

/// The stage and the actions after feeding `events` to a hand-over from
/// its start, or `None` where an event does not fit its stage.
pub open spec fn append_trace(flow: SchedulerFlow, events: Seq<AppendEvent>) -> Option<(AppendStage, Seq<AppendAction>)>
    decreases events.len(),
{
    if events.len() == 0 {
        Some((AppendStage::Start, Seq::empty()))
    } else {
        match append_trace(flow, events.drop_last()) {
            Some((stage, actions)) => if append_event_fits(stage, events.last()) {
                let (next, action) = append_next(flow, stage, events.last());
                Some((next, actions.push(action)))
            } else {
                None
            },
            None => None,
        }
    }
}

pub open spec fn append_stage_depth(stage: AppendStage) -> int {
    match stage {
        AppendStage::Start => 0,
        AppendStage::StatusPending => 1,
        AppendStage::AppendPending => 2,
        AppendStage::RevertPending => 3,
        AppendStage::Finished => 4,
    }
}

proof fn lemma_append_trace_depth(flow: SchedulerFlow, events: Seq<AppendEvent>)
    ensures
        append_trace(flow, events) matches Some((stage, actions)) ==> {
            &&& actions.len() == events.len()
            &&& events.len() <= append_stage_depth(stage)
            &&& stage != AppendStage::Finished ==> events.len() == append_stage_depth(stage)
        },
    decreases events.len(),
{
    if events.len() > 0 {
        lemma_append_trace_depth(flow, events.drop_last());
    }
}

/// A hand-over takes at most four steps: no event fits once it has finished.
pub proof fn lemma_hand_over_is_short(flow: SchedulerFlow, events: Seq<AppendEvent>)
    requires
        append_trace(flow, events) is Some,
    ensures
        events.len() <= 4,
{
    lemma_append_trace_depth(flow, events);
}

/// A hand-over reports success only when the tasks' status was updated
/// first and the append then succeeded, and only for the producer or the
/// cleaner.
pub proof fn lemma_success_means_status_then_append(flow: SchedulerFlow, events: Seq<AppendEvent>)
    requires
        append_trace(flow, events) matches Some((_, actions))
            && actions.len() > 0 && actions.last() == AppendAction::Finish(Ok(())),
    ensures
        flow != SchedulerFlow::Consumer,
        events =~= seq![AppendEvent::Begin, AppendEvent::StatusDone(true), AppendEvent::AppendDone(true)],
{
    lemma_append_trace_depth(flow, events);
    let init = events.drop_last();
    lemma_append_trace_depth(flow, init);
    let init2 = init.drop_last();
    lemma_append_trace_depth(flow, init2);
    let init3 = init2.drop_last();
    lemma_append_trace_depth(flow, init3);
}

/// When the append fails, the tasks' status is put back before the
/// hand-over finishes, and the hand-over fails with `BatchInsertionFailed`.
pub proof fn lemma_failed_append_is_reverted(flow: SchedulerFlow, events: Seq<AppendEvent>, outcome: Result<(), ErrorStack>)
    requires
        append_trace(flow, events) matches Some((_, actions))
            && actions.len() > 0 && actions.last() == AppendAction::Finish(outcome),
        events.contains(AppendEvent::AppendDone(false)),
    ensures
        append_trace(flow, events) matches Some((_, actions))
            && actions.len() >= 2 && actions[actions.len() - 2] == AppendAction::RevertStatus,
        outcome matches Err(stack) && stack.context == ProcessTrackerError::BatchInsertionFailed,
{
    lemma_append_trace_depth(flow, events);
    let init = events.drop_last();
    lemma_append_trace_depth(flow, init);
    let init2 = init.drop_last();
    lemma_append_trace_depth(flow, init2);
    let init3 = init2.drop_last();
    lemma_append_trace_depth(flow, init3);
    let j = choose|j: int| 0 <= j < events.len() && events[j] == AppendEvent::AppendDone(false);
    assert(events[j] == AppendEvent::AppendDone(false));
}

/// The first action of a hand-over in a flow that hands batches over: the
/// producer marks the tasks as being processed, the cleaner reinitialises them.
pub open spec fn status_action(flow: SchedulerFlow) -> AppendAction {
    if flow == SchedulerFlow::Producer {
        AppendAction::UpdateStatusToProcessing
    } else {
        AppendAction::ReinitializeLimbo
    }
}

/// Every complete hand-over of the producer or the cleaner, and what it
/// does: a successful status step is always followed by the append, a
/// successful append ends in success, a failed status step ends in
/// `ProcessUpdateFailed`, a batch that cannot be encoded ends in its own
/// error, and a failed append is reverted and ends in `BatchInsertionFailed`,
/// extended by `ProcessUpdateFailed` where the revert fails too. The
/// consumer's hand-over ends at once in `UnexpectedFlow`.
pub proof fn lemma_hand_over_outcomes(flow: SchedulerFlow, e: ProcessTrackerError, revert_ok: bool)
    ensures
        append_trace(SchedulerFlow::Consumer, seq![AppendEvent::Begin]) == Some((
            AppendStage::Finished,
            seq![AppendAction::Finish(Err(ErrorStack { context: ProcessTrackerError::UnexpectedFlow, extended: None }))],
        )),
        flow != SchedulerFlow::Consumer ==> {
            &&& append_trace(flow, seq![AppendEvent::Begin])
                == Some((AppendStage::StatusPending, seq![status_action(flow)]))
            &&& append_trace(flow, seq![AppendEvent::Begin, AppendEvent::StatusDone(true)])
                == Some((AppendStage::AppendPending, seq![status_action(flow), AppendAction::AppendToStream]))
            &&& append_trace(flow, seq![AppendEvent::Begin, AppendEvent::StatusDone(false)]) == Some((
                AppendStage::Finished,
                seq![
                    status_action(flow),
                    AppendAction::Finish(Err(ErrorStack { context: ProcessTrackerError::ProcessUpdateFailed, extended: None })),
                ],
            ))
            &&& append_trace(flow, seq![AppendEvent::Begin, AppendEvent::StatusDone(true), AppendEvent::AppendDone(true)])
                == Some((
                AppendStage::Finished,
                seq![status_action(flow), AppendAction::AppendToStream, AppendAction::Finish(Ok(()))],
            ))
            &&& append_trace(flow, seq![AppendEvent::Begin, AppendEvent::StatusDone(true), AppendEvent::FieldsFailed(e)])
                == Some((
                AppendStage::Finished,
                seq![
                    status_action(flow),
                    AppendAction::AppendToStream,
                    AppendAction::Finish(Err(ErrorStack { context: e, extended: None })),
                ],
            ))
            &&& append_trace(
                flow,
                seq![AppendEvent::Begin, AppendEvent::StatusDone(true), AppendEvent::AppendDone(false), AppendEvent::RevertDone(revert_ok)],
            ) == Some((
                AppendStage::Finished,
                seq![
                    status_action(flow),
                    AppendAction::AppendToStream,
                    AppendAction::RevertStatus,
                    AppendAction::Finish(Err(ErrorStack {
                        context: ProcessTrackerError::BatchInsertionFailed,
                        extended: if revert_ok { None } else { Some(ProcessTrackerError::ProcessUpdateFailed) },
                    })),
                ],
            ))
        },
{
    let e0: Seq<AppendEvent> = Seq::empty();
    let e1 = seq![AppendEvent::Begin];
    let ok2 = seq![AppendEvent::Begin, AppendEvent::StatusDone(true)];
    let bad2 = seq![AppendEvent::Begin, AppendEvent::StatusDone(false)];
    let ok3 = seq![AppendEvent::Begin, AppendEvent::StatusDone(true), AppendEvent::AppendDone(true)];
    let enc3 = seq![AppendEvent::Begin, AppendEvent::StatusDone(true), AppendEvent::FieldsFailed(e)];
    let bad3 = seq![AppendEvent::Begin, AppendEvent::StatusDone(true), AppendEvent::AppendDone(false)];
    let rev4 = seq![AppendEvent::Begin, AppendEvent::StatusDone(true), AppendEvent::AppendDone(false), AppendEvent::RevertDone(revert_ok)];
    assert(e1.drop_last() =~= e0);
    assert(ok2.drop_last() =~= e1);
    assert(bad2.drop_last() =~= e1);
    assert(ok3.drop_last() =~= ok2);
    assert(enc3.drop_last() =~= ok2);
    assert(bad3.drop_last() =~= ok2);
    assert(rev4.drop_last() =~= bad3);
    assert(append_trace(SchedulerFlow::Consumer, e0) == Some((AppendStage::Start, Seq::<AppendAction>::empty())));
    assert(append_trace(SchedulerFlow::Consumer, e1).unwrap().1 =~= seq![
        AppendAction::Finish(Err(ErrorStack { context: ProcessTrackerError::UnexpectedFlow, extended: None }))]);
    if flow != SchedulerFlow::Consumer {
        assert(append_trace(flow, e0) == Some((AppendStage::Start, Seq::<AppendAction>::empty())));
        assert(append_trace(flow, e1).unwrap().1 =~= seq![status_action(flow)]);
        assert(append_trace(flow, ok2).unwrap().1 =~= seq![status_action(flow), AppendAction::AppendToStream]);
        assert(append_trace(flow, bad2).unwrap().1 =~= seq![
            status_action(flow),
            AppendAction::Finish(Err(ErrorStack { context: ProcessTrackerError::ProcessUpdateFailed, extended: None }))]);
        assert(append_trace(flow, ok3).unwrap().1 =~= seq![
            status_action(flow), AppendAction::AppendToStream, AppendAction::Finish(Ok(()))]);
        assert(append_trace(flow, enc3).unwrap().1 =~= seq![
            status_action(flow), AppendAction::AppendToStream,
            AppendAction::Finish(Err(ErrorStack { context: e, extended: None }))]);
        assert(append_trace(flow, bad3).unwrap().1 =~= seq![
            status_action(flow), AppendAction::AppendToStream, AppendAction::RevertStatus]);
        assert(append_trace(flow, rev4).unwrap().1 =~= seq![
            status_action(flow), AppendAction::AppendToStream, AppendAction::RevertStatus,
            AppendAction::Finish(Err(ErrorStack {
                context: ProcessTrackerError::BatchInsertionFailed,
                extended: if revert_ok { None } else { Some(ProcessTrackerError::ProcessUpdateFailed) },
            }))]);
    }
}

} // verus!
