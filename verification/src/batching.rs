//! Process-tracker entries and the batches in which the producer hands
//! them to consumers.
use vstd::prelude::*;
use crate::ids::{is_v4_uuid_text, new_batch_id};
use crate::timestamp::{now, valid_datetime};

verus! {

/// Lifecycle of a process-tracker entry.
#[derive(Clone, Copy, Debug, PartialEq, Eq, Hash, Structural)]
pub enum ProcessTrackerStatus {
    ProcessStarted,
    New,
    Pending,
    Processing,
    Finish,
}

/// A scheduled task. Times are nanoseconds since the epoch (see `timestamp`).
pub struct ProcessTracker {
    pub id: String,
    pub name: Option<String>,
    pub tag: Vec<String>,
    pub runner: Option<String>,
    pub retry_count: i32,
    pub schedule_time: Option<i128>,
    pub rule: String,
    pub tracking_data: serde_json::Value,
    pub business_status: String,
    pub status: ProcessTrackerStatus,
    pub event: Vec<String>,
    pub created_at: i128,
    pub updated_at: i128,
}

/// A change to stored tasks.
pub enum ProcessTrackerUpdate {
    StatusUpdate { status: ProcessTrackerStatus, business_status: Option<String> },
}

/// The change that marks tasks as being processed, leaving their business
/// status as it is.
pub fn processing_status_update() -> (update: ProcessTrackerUpdate)
    ensures
        update matches ProcessTrackerUpdate::StatusUpdate { status, business_status }
            && status == ProcessTrackerStatus::Processing && business_status is None,
{
    ProcessTrackerUpdate::StatusUpdate { status: ProcessTrackerStatus::Processing, business_status: None }
}

/// Settings of the producer side of the scheduler.
pub struct ProducerSettings {
    pub upper_fetch_limit: i64,
    pub lower_fetch_limit: i64,
    pub lock_key: String,
    pub lock_ttl: i64,
    pub batch_size: usize,
}

/// Settings of the consumer side of the scheduler.
pub struct ConsumerSettings {
    pub disabled: bool,
    pub consumer_group: String,
}

/// Scheduler settings.
pub struct SchedulerSettings {
    pub stream: String,
    pub producer: ProducerSettings,
    pub consumer: ConsumerSettings,
    pub loop_interval: u64,
    pub graceful_shutdown_interval: u64,
}

/// A batch of tasks as it travels through the stream.
pub struct ProcessTrackerBatch {
    pub id: String,
    pub group_name: String,
    pub stream_name: String,
    pub connection_name: String,
    pub created_time: i128,
    pub rule: String,
    pub trackers: Vec<ProcessTracker>,
}

/// `s` cut into consecutive pieces of `size` items, the last piece holding
/// what remains, as `slice::chunks` cuts it.
pub open spec fn chunks_of<T>(s: Seq<T>, size: nat) -> Seq<Seq<T>>
    decreases s.len(),
{
    if s.len() == 0 || size == 0 {
        Seq::empty()
    } else if s.len() <= size {
        seq![s]
    } else {
        seq![s.take(size as int)] + chunks_of(s.skip(size as int), size)
    }
}

/// Batching loses, repeats and reorders nothing: the pieces, joined in
/// order, give back the sequence that was cut.
pub proof fn lemma_chunks_flatten<T>(s: Seq<T>, size: nat)
    requires
        size > 0,
    ensures
        chunks_of(s, size).flatten() == s,
    decreases s.len(),
{
    if s.len() == 0 {
    } else if s.len() <= size {
        assert(chunks_of(s, size).drop_first() =~= Seq::<Seq<T>>::empty());
        assert(Seq::<Seq<T>>::empty().flatten() =~= Seq::<T>::empty());
        assert(chunks_of(s, size).flatten() =~= s + Seq::<T>::empty());
    } else {
        let rest = s.skip(size as int);
        lemma_chunks_flatten(rest, size);
        assert(chunks_of(s, size).drop_first() =~= chunks_of(rest, size));
        assert(s.take(size as int) + rest =~= s);
    }
}

/// Every piece holds at least one and at most `size` items, and every piece
/// but the last holds exactly `size`.
pub proof fn lemma_chunk_sizes<T>(s: Seq<T>, size: nat)
    requires
        size > 0,
    ensures
        forall|i: int| 0 <= i < chunks_of(s, size).len() ==>
            0 < #[trigger] chunks_of(s, size)[i].len() <= size,
        forall|i: int| 0 <= i < chunks_of(s, size).len() - 1 ==>
            #[trigger] chunks_of(s, size)[i].len() == size,
    decreases s.len(),
{
    if s.len() > size {
        let rest = s.skip(size as int);
        lemma_chunk_sizes(rest, size);
        assert forall|i: int| 0 < i < chunks_of(s, size).len() implies
            #[trigger] chunks_of(s, size)[i] == chunks_of(rest, size)[i - 1] by {}
    }
}

/// The number of pieces is the number of items divided by `size`, rounded up.
pub proof fn lemma_chunk_count<T>(s: Seq<T>, size: nat)
    requires
        size > 0,
    ensures
        chunks_of(s, size).len() == (s.len() + size - 1) / (size as int),
    decreases s.len(),
{
    if s.len() == 0 {
        assert((size - 1) / (size as int) == 0) by (nonlinear_arith)
            requires size > 0;
    } else if s.len() <= size {
        assert((s.len() + size - 1) / (size as int) == 1) by (nonlinear_arith)
            requires size > 0, 0 < s.len() <= size;
    } else {
        let rest = s.skip(size as int);
        lemma_chunk_count(rest, size);
        vstd::arithmetic::div_mod::lemma_div_plus_one((rest.len() + size - 1) as int, size as int);
    }
}

/// The tasks of each batch, in order.
pub open spec fn batch_trackers(batches: Seq<ProcessTrackerBatch>) -> Seq<Seq<ProcessTracker>> {
    batches.map_values(|b: ProcessTrackerBatch| b.trackers@)
}

/// The fields that every batch of one division shares.
pub open spec fn batch_header(
    b: ProcessTrackerBatch,
    batch_id: Seq<char>,
    conf: SchedulerSettings,
    created_time: i128,
) -> bool {
    &&& b.id@ == batch_id
    &&& b.group_name@ == conf.consumer.consumer_group@
    &&& b.stream_name@ == conf.stream@
    &&& b.connection_name@ == Seq::<char>::empty()
    &&& b.created_time == created_time
    &&& b.rule@ == Seq::<char>::empty()
}

/// `batches` is `tasks` cut into batches of `size`, all under the id
/// `batch_id`, created at `created_time`, for the group and stream of `conf`.
pub open spec fn is_division(
    batches: Seq<ProcessTrackerBatch>,
    tasks: Seq<ProcessTracker>,
    size: nat,
    batch_id: Seq<char>,
    created_time: i128,
    conf: SchedulerSettings,
) -> bool {
    &&& batch_trackers(batches) == chunks_of(tasks, size)
    &&& forall|i: int| 0 <= i < batches.len() ==>
        batch_header(#[trigger] batches[i], batch_id, conf, created_time)
}

/// What a batch holds, its strings taken by their text.
pub open spec fn batch_view(b: ProcessTrackerBatch)
    -> (Seq<char>, Seq<char>, Seq<char>, Seq<char>, i128, Seq<char>, Seq<ProcessTracker>) {
    (b.id@, b.group_name@, b.stream_name@, b.connection_name@, b.created_time, b.rule@, b.trackers@)
}

/// A division is determined by the tasks, the batch size, the batch id,
/// the creation time and the settings: so `divide` gives what
/// `divide_into_batches` gives with the producer's batch size, at the clock
/// reading and under the batch id that `divide` drew.
pub proof fn lemma_division_is_determined(
    a: Seq<ProcessTrackerBatch>,
    b: Seq<ProcessTrackerBatch>,
    tasks: Seq<ProcessTracker>,
    size: nat,
    batch_id: Seq<char>,
    created_time: i128,
    conf: SchedulerSettings,
)
    requires
        is_division(a, tasks, size, batch_id, created_time, conf),
        is_division(b, tasks, size, batch_id, created_time, conf),
    ensures
        a.map_values(|x: ProcessTrackerBatch| batch_view(x)) == b.map_values(|x: ProcessTrackerBatch| batch_view(x)),
{
    assert(batch_trackers(a).len() == batch_trackers(b).len());
    assert forall|i: int| 0 <= i < a.len() implies
        #[trigger] batch_view(a[i]) == batch_view(b[i]) by {
        assert(batch_trackers(a)[i] == batch_trackers(b)[i]);
        assert(batch_header(a[i], batch_id, conf, created_time));
        assert(batch_header(b[i], batch_id, conf, created_time));
    }
    assert(a.map_values(|x: ProcessTrackerBatch| batch_view(x)) =~= b.map_values(|x: ProcessTrackerBatch| batch_view(x)));
}

/// Cuts `tasks` into batches of `batch_size`, all carrying the id `batch_id`,
/// the consumer group and stream of `conf`, and `batch_creation_time`.
pub fn batches_with_id(
    batch_id: &String,
    batch_size: usize,
    tasks: Vec<ProcessTracker>,
    batch_creation_time: i128,
    conf: &SchedulerSettings,
) -> (batches: Vec<ProcessTrackerBatch>)
    requires
        batch_size > 0,
    ensures
        is_division(batches@, tasks@, batch_size as nat, batch_id@, batch_creation_time, *conf),
{
    let mut rest = tasks;
    let mut batches: Vec<ProcessTrackerBatch> = Vec::new();
    while rest.len() > 0
        invariant
            batch_size > 0,
            batch_trackers(batches@) + chunks_of(rest@, batch_size as nat)
                == chunks_of(tasks@, batch_size as nat),
            forall|i: int| 0 <= i < batches@.len() ==>
                batch_header(#[trigger] batches@[i], batch_id@, *conf, batch_creation_time),
        decreases rest.len(),
    {
        let take: usize = if rest.len() < batch_size { rest.len() } else { batch_size };
        let ghost before = rest@;
        let tail = rest.split_off(take);
        let chunk = rest;
        rest = tail;
        proof {
            if before.len() <= batch_size {
                assert(chunk@ =~= before);
                assert(rest@ =~= Seq::<ProcessTracker>::empty());
            }
            assert(chunks_of(before, batch_size as nat)
                =~= seq![chunk@] + chunks_of(rest@, batch_size as nat));
        }
        let batch = ProcessTrackerBatch {
            id: batch_id.clone(),
            group_name: conf.consumer.consumer_group.clone(),
            stream_name: conf.stream.clone(),
            connection_name: String::new(),
            created_time: batch_creation_time,
            rule: String::new(),
            trackers: chunk,
        };
        let ghost old_batches = batches@;
        batches.push(batch);
        proof {
            assert(batch_trackers(batches@) =~= batch_trackers(old_batches).push(batch.trackers@));
            assert(batch_trackers(batches@) + chunks_of(rest@, batch_size as nat)
                =~= batch_trackers(old_batches) + chunks_of(before, batch_size as nat));
        }
    }
    assert(batch_trackers(batches@) + chunks_of(rest@, batch_size as nat) =~= batch_trackers(batches@));
    batches
}

/// Cuts `tasks` into batches of `batch_size` under one fresh random batch id.
pub fn divide_into_batches(
    batch_size: usize,
    tasks: Vec<ProcessTracker>,
    batch_creation_time: i128,
    conf: &SchedulerSettings,
) -> (batches: Vec<ProcessTrackerBatch>)
    requires
        batch_size > 0,
    ensures
        exists|batch_id: Seq<char>| #[trigger] is_v4_uuid_text(batch_id)
            && is_division(batches@, tasks@, batch_size as nat, batch_id, batch_creation_time, *conf),
{
    let batch_id = new_batch_id();
    batches_with_id(&batch_id, batch_size, tasks, batch_creation_time, conf)
}

/// Cuts `tasks` into batches of the producer's batch size, stamped with the
/// current time.
pub fn divide(tasks: Vec<ProcessTracker>, conf: &SchedulerSettings) -> (batches: Vec<ProcessTrackerBatch>)
    requires
        conf.producer.batch_size > 0,
    ensures
        exists|batch_id: Seq<char>, created_time: i128|
            #![trigger is_v4_uuid_text(batch_id), valid_datetime(created_time as int)]
            is_v4_uuid_text(batch_id) && valid_datetime(created_time as int)
            && is_division(batches@, tasks@, conf.producer.batch_size as nat, batch_id, created_time, *conf),
{
    let created_time = now();
    divide_into_batches(conf.producer.batch_size, tasks, created_time, conf)
}

/// How long after its scheduled time a task was picked up, in nanoseconds,
/// with the runner it belongs to; only for a task that has both a schedule
/// time and a runner.
pub fn pickup_schedule_delta(pickup_time: i128, task: &ProcessTracker) -> (sample: Option<(i128, String)>)
    requires
        valid_datetime(pickup_time as int),
        task.schedule_time matches Some(s) ==> valid_datetime(s as int),
    ensures
        match (task.schedule_time, task.runner) {
            (Some(s), Some(runner)) => sample matches Some((delta, r))
                && delta == pickup_time - s && r@ == runner@,
            _ => sample is None,
        },
{
    match (&task.schedule_time, &task.runner) {
        (Some(s), Some(runner)) => Some((pickup_time - *s, runner.clone())),
        _ => None,
    }
}

} // verus!
