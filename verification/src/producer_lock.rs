//! The producer's lock: only the producer that holds it fetches and
//! divides tasks, and it lets the lock go after its work. The store and the
//! work are driven by the caller; this module decides each next step.
use vstd::prelude::*;
use crate::batching::SchedulerSettings;
use crate::errors::{ProcessTrackerError, RedisError};

verus! {

/// The entry that marks the producer's lock.
pub struct LockRequest {
    pub tag: String,
    pub key: String,
    pub value: String,
    pub ttl: i64,
}

/// The lock entry of the producer: tag `PRODUCER_LOCK`, the configured key,
/// value `LOCKED` and the configured time to live.
pub fn producer_lock_request(settings: &SchedulerSettings) -> (request: LockRequest)
    ensures
        request.tag@ == "PRODUCER_LOCK"@,
        request.key@ == settings.producer.lock_key@,
        request.value@ == "LOCKED"@,
        request.ttl == settings.producer.lock_ttl,
{
    LockRequest {
        tag: String::from_str("PRODUCER_LOCK"),
        key: settings.producer.lock_key.clone(),
        value: String::from_str("LOCKED"),
        ttl: settings.producer.lock_ttl,
    }
}

/// How far a locked run has come; while releasing, it holds the work's result.
#[derive(Clone, Copy, Debug)]
pub enum LockStage {
    Start,
    Acquiring,
    Running,
    Releasing(Result<(), ProcessTrackerError>),
    Finished,
}

/// What the store or the work reported back.
#[derive(Clone, Copy, Debug)]
pub enum LockEvent {
    Begin,
    /// Whether the lock was taken, or the store's failure.
    AcquireDone(Result<bool, RedisError>),
    /// The result of the work done under the lock.
    CallbackDone(Result<(), ProcessTrackerError>),
    /// The lock was let go, or the store's failure.
    ReleaseDone(Result<(), RedisError>),
}

/// What the caller does next.
#[derive(Clone, Copy, Debug)]
pub enum LockAction {
    /// Try to take the lock (set the entry unless it exists).
    Acquire,
    /// Do the work.
    RunCallback,
    /// Let the lock go (delete the entry).
    Release,
    /// Stop, with this result.
    Finish(Result<(), ProcessTrackerError>),
}

/// Whether `event` can come in `stage`.
pub open spec fn lock_event_fits(stage: LockStage, event: LockEvent) -> bool {
    match (stage, event) {
        (LockStage::Start, LockEvent::Begin) => true,
        (LockStage::Acquiring, LockEvent::AcquireDone(_)) => true,
        (LockStage::Running, LockEvent::CallbackDone(_)) => true,
        (LockStage::Releasing(_), LockEvent::ReleaseDone(_)) => true,
        _ => false,
    }
}

/// The next stage and action of a locked run.
pub open spec fn lock_next(stage: LockStage, event: LockEvent) -> (LockStage, LockAction) {
    match (stage, event) {
        (LockStage::Start, LockEvent::Begin) => (LockStage::Acquiring, LockAction::Acquire),
        (LockStage::Acquiring, LockEvent::AcquireDone(acquired)) => match acquired {
            Err(_) => (
                LockStage::Finished,
                LockAction::Finish(Err(ProcessTrackerError::ERedisError(RedisError::RedisConnectionError))),
            ),
            Ok(true) => (LockStage::Running, LockAction::RunCallback),
            Ok(false) => (LockStage::Finished, LockAction::Finish(Ok(()))),
        },
        (LockStage::Running, LockEvent::CallbackDone(result)) => (LockStage::Releasing(result), LockAction::Release),
        (LockStage::Releasing(result), LockEvent::ReleaseDone(released)) => match released {
            Err(e) => (LockStage::Finished, LockAction::Finish(Err(ProcessTrackerError::ERedisError(e)))),
            Ok(()) => (LockStage::Finished, LockAction::Finish(result)),
        },
        _ => (stage, LockAction::Finish(Ok(()))),
    }
}

/// One step of a run of the producer's work under its lock: the work runs
/// only once the lock is taken, and the lock is let go after it.
pub fn lock_acquire_release_step(stage: LockStage, event: LockEvent) -> (next: (LockStage, LockAction))
    requires
        lock_event_fits(stage, event),
    ensures
        next == lock_next(stage, event),
{
    match (stage, event) {
        (LockStage::Start, LockEvent::Begin) => (LockStage::Acquiring, LockAction::Acquire),
        (LockStage::Acquiring, LockEvent::AcquireDone(acquired)) => match acquired {
            Err(_) => (
                LockStage::Finished,
                LockAction::Finish(Err(ProcessTrackerError::ERedisError(RedisError::RedisConnectionError))),
            ),
            Ok(true) => (LockStage::Running, LockAction::RunCallback),
            Ok(false) => (LockStage::Finished, LockAction::Finish(Ok(()))),
        },
        (LockStage::Running, LockEvent::CallbackDone(result)) => (LockStage::Releasing(result), LockAction::Release),
        (LockStage::Releasing(result), LockEvent::ReleaseDone(released)) => match released {
            Err(e) => (LockStage::Finished, LockAction::Finish(Err(ProcessTrackerError::ERedisError(e)))),
            Ok(()) => (LockStage::Finished, LockAction::Finish(result)),
        },
        _ => (stage, LockAction::Finish(Ok(()))),
    }
}

/// The stage and the actions after feeding `events` to a locked run from
/// its start, or `None` where an event does not fit its stage.
pub open spec fn lock_trace(events: Seq<LockEvent>) -> Option<(LockStage, Seq<LockAction>)>
    decreases events.len(),
{
    if events.len() == 0 {
        Some((LockStage::Start, Seq::empty()))
    } else {
        match lock_trace(events.drop_last()) {
            Some((stage, actions)) => if lock_event_fits(stage, events.last()) {
                let (next, action) = lock_next(stage, events.last());
                Some((next, actions.push(action)))
            } else {
                None
            },
            None => None,
        }
    }
}

pub open spec fn lock_stage_depth(stage: LockStage) -> int {
    match stage {
        LockStage::Start => 0,
        LockStage::Acquiring => 1,
        LockStage::Running => 2,
        LockStage::Releasing(_) => 3,
        LockStage::Finished => 4,
    }
}

proof fn lemma_lock_trace_depth(events: Seq<LockEvent>)
    ensures
        lock_trace(events) matches Some((stage, actions)) ==> {
            &&& actions.len() == events.len()
            &&& events.len() <= lock_stage_depth(stage)
            &&& !(stage is Finished) ==> events.len() == lock_stage_depth(stage)
        },
    decreases events.len(),
{
    if events.len() > 0 {
        lemma_lock_trace_depth(events.drop_last());
    }
}

/// What any run looks like, step by step.
proof fn lemma_lock_trace_shape(events: Seq<LockEvent>)
    requires
        lock_trace(events) is Some,
    ensures
        ({
            let (stage, actions) = lock_trace(events)->Some_0;
            &&& actions.len() == events.len()
            &&& events.len() <= 4
            &&& events.len() >= 1 ==> events[0] is Begin && actions[0] is Acquire
            &&& events.len() >= 2 ==> events[1] is AcquireDone
            &&& events.len() >= 2 ==> (actions[1] is RunCallback <==> events[1] == LockEvent::AcquireDone(Ok(true)))
            &&& events.len() >= 2 && events[1] == LockEvent::AcquireDone(Ok(false)) ==>
                actions[1] == LockAction::Finish(Ok(())) && stage is Finished && events.len() == 2
            &&& events.len() >= 3 ==> events[1] == LockEvent::AcquireDone(Ok(true))
                && events[2] is CallbackDone && actions[2] is Release
            &&& events.len() >= 4 ==> events[3] is ReleaseDone
            &&& events.len() == 4 ==> stage is Finished
            &&& events.len() == 4 ==> (events[2] matches LockEvent::CallbackDone(work)
                && (events[3] == LockEvent::ReleaseDone(Ok(())) ==> actions[3] == LockAction::Finish(work)))
            &&& actions.len() > 0 && actions.last() is Finish ==> stage is Finished
            &&& stage is Finished ==> actions.len() > 0 && actions.last() is Finish
            &&& !(stage is Finished) ==> events.len() == lock_stage_depth(stage)
            &&& events.len() == 3 ==> (stage matches LockStage::Releasing(work)
                && events[2] == LockEvent::CallbackDone(work))
        }),
    decreases events.len(),
{
    lemma_lock_trace_depth(events);
    if events.len() > 0 {
        let init = events.drop_last();
        lemma_lock_trace_shape(init);
        lemma_lock_trace_depth(init);
        assert forall|i: int| 0 <= i < init.len() implies init[i] == events[i] by {}
    }
}

/// The work runs only after the lock was taken: wherever a run asks for
/// the work, the store had just reported the lock as taken.
pub proof fn lemma_work_runs_only_under_lock(events: Seq<LockEvent>, k: int)
    requires
        lock_trace(events) matches Some((_, actions))
            && 0 <= k < actions.len() && actions[k] is RunCallback,
    ensures
        k == 1,
        events[0] is Begin,
        events[1] == LockEvent::AcquireDone(Ok(true)),
{
    lemma_lock_trace_shape(events);
}

/// A run that did its work and finished asked to let the lock go before
/// finishing, and finished with the work's result unless letting go failed.
pub proof fn lemma_lock_is_released_after_work(events: Seq<LockEvent>)
    requires
        lock_trace(events) matches Some((stage, _)) && stage is Finished,
        events.contains(LockEvent::AcquireDone(Ok(true))),
    ensures
        events.len() == 4,
        lock_trace(events) matches Some((_, actions)) && actions[1] is RunCallback && actions[2] is Release,
        events[2] matches LockEvent::CallbackDone(work)
            && (events[3] == LockEvent::ReleaseDone(Ok(())) ==> lock_trace(events)->Some_0.1[3]
                == LockAction::Finish(work)),
{
    lemma_lock_trace_shape(events);
    let j = choose|j: int| 0 <= j < events.len() && events[j] == LockEvent::AcquireDone(Ok(true));
    assert(events[j] == LockEvent::AcquireDone(Ok(true)));
}

/// When the lock is not taken, the work does not run and the run succeeds.
pub proof fn lemma_no_lock_no_work(events: Seq<LockEvent>)
    requires
        lock_trace(events) is Some,
        events.len() >= 2,
        events[1] == LockEvent::AcquireDone(Ok(false)),
    ensures
        events.len() == 2,
        lock_trace(events) matches Some((stage, actions))
            && stage is Finished && actions[1] == LockAction::Finish(Ok(())),
{
    lemma_lock_trace_shape(events);
}

/// Every complete locked run and what it does: a store failure while
/// taking the lock ends the run in a connection error, whatever the store
/// reported; a lock held elsewhere ends it in success without work; a
/// taken lock runs the work, lets the lock go, and ends in the work's
/// result, or in the store's error where letting go failed.
pub proof fn lemma_locked_run_outcomes(
    store_error: RedisError,
    work: Result<(), ProcessTrackerError>,
    release_error: RedisError,
)
    ensures
        lock_trace(seq![LockEvent::Begin, LockEvent::AcquireDone(Err(store_error))]) == Some((
            LockStage::Finished,
            seq![
                LockAction::Acquire,
                LockAction::Finish(Err(ProcessTrackerError::ERedisError(RedisError::RedisConnectionError))),
            ],
        )),
        lock_trace(seq![LockEvent::Begin, LockEvent::AcquireDone(Ok(false))]) == Some((
            LockStage::Finished,
            seq![LockAction::Acquire, LockAction::Finish(Ok(()))],
        )),
        lock_trace(seq![
            LockEvent::Begin, LockEvent::AcquireDone(Ok(true)), LockEvent::CallbackDone(work),
            LockEvent::ReleaseDone(Ok(())),
        ]) == Some((
            LockStage::Finished,
            seq![LockAction::Acquire, LockAction::RunCallback, LockAction::Release, LockAction::Finish(work)],
        )),
        lock_trace(seq![
            LockEvent::Begin, LockEvent::AcquireDone(Ok(true)), LockEvent::CallbackDone(work),
            LockEvent::ReleaseDone(Err(release_error)),
        ]) == Some((
            LockStage::Finished,
            seq![
                LockAction::Acquire, LockAction::RunCallback, LockAction::Release,
                LockAction::Finish(Err(ProcessTrackerError::ERedisError(release_error))),
            ],
        )),
{
    let e0: Seq<LockEvent> = Seq::empty();
    let e1 = seq![LockEvent::Begin];
    let err2 = seq![LockEvent::Begin, LockEvent::AcquireDone(Err(store_error))];
    let no2 = seq![LockEvent::Begin, LockEvent::AcquireDone(Ok(false))];
    let yes2 = seq![LockEvent::Begin, LockEvent::AcquireDone(Ok(true))];
    let w3 = seq![LockEvent::Begin, LockEvent::AcquireDone(Ok(true)), LockEvent::CallbackDone(work)];
    let ok4 = seq![LockEvent::Begin, LockEvent::AcquireDone(Ok(true)), LockEvent::CallbackDone(work), LockEvent::ReleaseDone(Ok(()))];
    let bad4 = seq![
        LockEvent::Begin, LockEvent::AcquireDone(Ok(true)), LockEvent::CallbackDone(work),
        LockEvent::ReleaseDone(Err(release_error)),
    ];
    assert(e1.drop_last() =~= e0);
    assert(err2.drop_last() =~= e1);
    assert(no2.drop_last() =~= e1);
    assert(yes2.drop_last() =~= e1);
    assert(w3.drop_last() =~= yes2);
    assert(ok4.drop_last() =~= w3);
    assert(bad4.drop_last() =~= w3);
    assert(lock_trace(e0) == Some((LockStage::Start, Seq::<LockAction>::empty())));
    assert(lock_trace(e1).unwrap().1 =~= seq![LockAction::Acquire]);
    assert(lock_trace(err2).unwrap().1 =~= seq![
        LockAction::Acquire,
        LockAction::Finish(Err(ProcessTrackerError::ERedisError(RedisError::RedisConnectionError)))]);
    assert(lock_trace(no2).unwrap().1 =~= seq![LockAction::Acquire, LockAction::Finish(Ok(()))]);
    assert(lock_trace(yes2).unwrap().1 =~= seq![LockAction::Acquire, LockAction::RunCallback]);
    assert(lock_trace(w3).unwrap().1 =~= seq![LockAction::Acquire, LockAction::RunCallback, LockAction::Release]);
    assert(lock_trace(ok4).unwrap().1 =~= seq![
        LockAction::Acquire, LockAction::RunCallback, LockAction::Release, LockAction::Finish(work)]);
    assert(lock_trace(bad4).unwrap().1 =~= seq![
        LockAction::Acquire, LockAction::RunCallback, LockAction::Release,
        LockAction::Finish(Err(ProcessTrackerError::ERedisError(release_error)))]);
}

/// A run ends in success without doing the work only where the lock was
/// held elsewhere: a store failure never passes for success.
pub proof fn lemma_success_without_work_means_lock_held(events: Seq<LockEvent>)
    requires
        lock_trace(events) matches Some((_, actions))
            && actions.len() > 0 && actions.last() == LockAction::Finish(Ok(()))
            && !actions.contains(LockAction::RunCallback),
    ensures
        events.len() == 2,
        events[1] == LockEvent::AcquireDone(Ok(false)),
{
    lemma_lock_trace_shape(events);
    let actions = lock_trace(events).unwrap().1;
    if events.len() >= 3 {
        assert(actions.contains(LockAction::RunCallback)) by {
            assert(actions[1] is RunCallback);
            assert(actions[1] == LockAction::RunCallback);
        }
    }
    if events.len() == 2 {
        let init = events.drop_last();
        lemma_lock_trace_shape(init);
        assert(init =~= seq![events[0]]);
        let e0 = init.drop_last();
        assert(e0 =~= Seq::<LockEvent>::empty());
        match events[1] {
            LockEvent::AcquireDone(Ok(true)) => {
                assert(actions[1] == LockAction::RunCallback);
            },
            _ => {},
        }
    }
}

} // verus!
