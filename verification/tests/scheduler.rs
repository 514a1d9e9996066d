use router_scheduler::batching::{
    batches_with_id, divide, divide_into_batches, pickup_schedule_delta, processing_status_update,
    ConsumerSettings, ProcessTracker, ProcessTrackerStatus, ProcessTrackerUpdate, ProducerSettings,
    SchedulerSettings,
};
use router_scheduler::decimal::i64_to_decimal;
use router_scheduler::errors::{ErrorStack, ProcessTrackerError, RedisError};
use router_scheduler::ids::{get_process_tracker_id, new_batch_id};
use router_scheduler::producer_lock::{
    lock_acquire_release_step, producer_lock_request, LockAction, LockEvent, LockStage,
};
use router_scheduler::retry_schedule::{
    delay_fits_check, get_delay, get_pm_schedule_time, get_pm_schedule_time_checked,
    get_schedule_time, get_schedule_time_checked, schedule_fits_check, ConnectorPTMapping,
    PaymentMethod, PaymentMethodsPTMapping, RetryMapping,
};
use router_scheduler::stream_append::{
    batch_append_target, tracker_ids, update_status_and_append_step, AppendAction, AppendEvent,
    AppendStage, RedisEntryId, SchedulerFlow,
};
use router_scheduler::stream_fetch::{
    batch_read_request, collect_stream_entries, get_batches_step, BatchFetch, FetchAction,
    FetchEvent,
};
use router_scheduler::timestamp::{
    get_time_from_delta, saturating_add_seconds, time_after_delta, MAX_DATETIME_NANOS,
    MIN_DATETIME_NANOS,
};

fn tracker(id: &str) -> ProcessTracker {
    ProcessTracker {
        id: id.to_string(),
        name: Some("PAYMENTS_SYNC".to_string()),
        tag: vec!["PAYMENT".to_string()],
        runner: Some("PAYMENTS_SYNC_WORKFLOW".to_string()),
        retry_count: 0,
        schedule_time: Some(1_000_000_000),
        rule: String::new(),
        tracking_data: serde_json::Value::Null,
        business_status: "Pending".to_string(),
        status: ProcessTrackerStatus::New,
        event: vec![],
        created_at: 0,
        updated_at: 0,
    }
}

fn settings(batch_size: usize) -> SchedulerSettings {
    SchedulerSettings {
        stream: "SCHEDULER_STREAM".to_string(),
        producer: ProducerSettings {
            upper_fetch_limit: 0,
            lower_fetch_limit: 1800,
            lock_key: "PRODUCER_LOCKING_KEY".to_string(),
            lock_ttl: 160,
            batch_size,
        },
        consumer: ConsumerSettings {
            disabled: false,
            consumer_group: "SCHEDULER_GROUP".to_string(),
        },
        loop_interval: 5000,
        graceful_shutdown_interval: 60000,
    }
}

fn mapping(start_after: i32, count: Vec<i32>, frequency: Vec<i32>) -> RetryMapping {
    RetryMapping { start_after, frequency, count }
}

fn is_v4_uuid(s: &str) -> bool {
    let b = s.as_bytes();
    b.len() == 36
        && b.iter().enumerate().all(|(i, c)| {
            if [8, 13, 18, 23].contains(&i) {
                *c == b'-'
            } else {
                c.is_ascii_digit() || (b'a'..=b'f').contains(c)
            }
        })
        && b[14] == b'4'
        && [b'8', b'9', b'a', b'b'].contains(&b[19])
}

#[test]
fn decimal_text_of_integers() {
    assert_eq!(i64_to_decimal(0), "0");
    assert_eq!(i64_to_decimal(7), "7");
    assert_eq!(i64_to_decimal(12345), "12345");
    assert_eq!(i64_to_decimal(-90), "-90");
    assert_eq!(i64_to_decimal(i64::MAX), "9223372036854775807");
    assert_eq!(i64_to_decimal(i64::MIN), "-9223372036854775808");
}

#[test]
fn delay_walks_the_buckets() {
    let count = vec![2, 3];
    let frequency = vec![10, 20];
    assert_eq!(get_delay(1, &count, &frequency), Some(10));
    assert_eq!(get_delay(2, &count, &frequency), Some(10));
    assert_eq!(get_delay(3, &count, &frequency), Some(20));
    assert_eq!(get_delay(5, &count, &frequency), Some(20));
    assert_eq!(get_delay(6, &count, &frequency), None);
    assert_eq!(get_delay(100, &count, &frequency), None);
    assert_eq!(get_delay(-4, &count, &frequency), Some(10));
}

#[test]
fn delay_reads_pairs_up_to_the_shorter_list() {
    assert_eq!(get_delay(3, &vec![1, 1, 1], &vec![5, 6]), None);
    assert_eq!(get_delay(2, &vec![1, 1, 1], &vec![5, 6]), Some(6));
    assert_eq!(get_delay(1, &vec![], &vec![5]), None);
}

#[test]
fn schedule_time_of_first_retry_is_start_after() {
    let m = ConnectorPTMapping {
        default_mapping: mapping(60, vec![1], vec![300]),
        custom_merchant_mapping: vec![],
        max_retries_count: 5,
    };
    assert_eq!(get_schedule_time(m, "merchant", 0), Some(60));
}

#[test]
fn schedule_time_prefers_the_merchants_own_schedule() {
    let m = || ConnectorPTMapping {
        default_mapping: mapping(60, vec![2], vec![300]),
        custom_merchant_mapping: vec![
            ("acme".to_string(), mapping(10, vec![1, 1], vec![30, 90])),
            ("other".to_string(), mapping(20, vec![5], vec![45])),
        ],
        max_retries_count: 5,
    };
    assert_eq!(get_schedule_time(m(), "acme", 0), Some(10));
    assert_eq!(get_schedule_time(m(), "acme", 2), Some(90));
    assert_eq!(get_schedule_time(m(), "acme", 3), None);
    assert_eq!(get_schedule_time(m(), "nobody", 0), Some(60));
    assert_eq!(get_schedule_time(m(), "nobody", 2), Some(300));
    assert_eq!(get_schedule_time(m(), "nobody", 3), None);
}

#[test]
fn schedule_time_later_entry_of_a_merchant_wins() {
    let m = ConnectorPTMapping {
        default_mapping: mapping(60, vec![2], vec![300]),
        custom_merchant_mapping: vec![
            ("acme".to_string(), mapping(10, vec![1], vec![30])),
            ("acme".to_string(), mapping(15, vec![1], vec![35])),
        ],
        max_retries_count: 5,
    };
    assert_eq!(get_schedule_time(m, "acme", 1), Some(35));
}

#[test]
fn pm_schedule_time_uses_the_payment_methods_schedule() {
    let m = || PaymentMethodsPTMapping {
        default_mapping: mapping(60, vec![2], vec![300]),
        custom_pm_mapping: vec![(PaymentMethod::Crypto, mapping(5, vec![3], vec![7]))],
        max_retries_count: 5,
    };
    assert_eq!(get_pm_schedule_time(m(), &PaymentMethod::Crypto, 0), Some(5));
    assert_eq!(get_pm_schedule_time(m(), &PaymentMethod::Crypto, 3), Some(7));
    assert_eq!(get_pm_schedule_time(m(), &PaymentMethod::Card, 1), Some(300));
    assert_eq!(get_pm_schedule_time(m(), &PaymentMethod::Card, 3), None);
}

#[test]
fn process_tracker_id_joins_its_parts() {
    assert_eq!(
        get_process_tracker_id("PAYMENTS_SYNC_WORKFLOW", "PAYMENTS_SYNC", "pay_1", "merchant_1"),
        "PAYMENTS_SYNC_WORKFLOW_PAYMENTS_SYNC_pay_1_merchant_1"
    );
    assert_eq!(get_process_tracker_id("", "", "", ""), "___");
}

#[test]
fn batch_id_is_a_random_uuid() {
    let a = new_batch_id();
    let b = new_batch_id();
    assert!(is_v4_uuid(&a));
    assert!(is_v4_uuid(&b));
    assert_ne!(a, b);
}

#[test]
fn batches_cut_tasks_in_order() {
    let tasks: Vec<ProcessTracker> = ["a", "b", "c", "d", "e"].iter().map(|i| tracker(i)).collect();
    let conf = settings(2);
    let batches = batches_with_id(&"batch".to_string(), 2, tasks, 42, &conf);
    assert_eq!(batches.len(), 3);
    let ids: Vec<Vec<String>> = batches
        .iter()
        .map(|b| b.trackers.iter().map(|t| t.id.clone()).collect())
        .collect();
    assert_eq!(ids, vec![vec!["a", "b"], vec!["c", "d"], vec!["e"]]);
    for b in &batches {
        assert_eq!(b.id, "batch");
        assert_eq!(b.group_name, "SCHEDULER_GROUP");
        assert_eq!(b.stream_name, "SCHEDULER_STREAM");
        assert_eq!(b.connection_name, "");
        assert_eq!(b.rule, "");
        assert_eq!(b.created_time, 42);
    }
}

#[test]
fn no_tasks_no_batches() {
    let batches = divide_into_batches(3, vec![], 0, &settings(3));
    assert!(batches.is_empty());
}

#[test]
fn divided_batches_share_one_random_id() {
    let tasks: Vec<ProcessTracker> = (0..7).map(|i| tracker(&i.to_string())).collect();
    let batches = divide(tasks, &settings(3));
    assert_eq!(batches.iter().map(|b| b.trackers.len()).collect::<Vec<_>>(), vec![3, 3, 1]);
    assert!(is_v4_uuid(&batches[0].id));
    assert!(batches.iter().all(|b| b.id == batches[0].id));
    assert!(batches.iter().all(|b| b.created_time == batches[0].created_time));
    assert!(batches[0].created_time > 1_600_000_000 * 1_000_000_000);
}

#[test]
fn pickup_delta_needs_schedule_time_and_runner() {
    let t = tracker("a");
    let sample = pickup_schedule_delta(4_000_000_000, &t).unwrap();
    assert_eq!(sample.0, 3_000_000_000);
    assert_eq!(sample.1, "PAYMENTS_SYNC_WORKFLOW");
    let mut no_runner = tracker("b");
    no_runner.runner = None;
    assert!(pickup_schedule_delta(4_000_000_000, &no_runner).is_none());
    let mut no_time = tracker("c");
    no_time.schedule_time = None;
    assert!(pickup_schedule_delta(4_000_000_000, &no_time).is_none());
}

#[test]
fn time_moves_by_seconds_and_saturates() {
    assert_eq!(saturating_add_seconds(0, 90), 90_000_000_000);
    assert_eq!(saturating_add_seconds(5, -1), 5 - 1_000_000_000);
    assert_eq!(saturating_add_seconds(MAX_DATETIME_NANOS - 1, 1), MAX_DATETIME_NANOS);
    assert_eq!(saturating_add_seconds(MIN_DATETIME_NANOS, i64::MIN), MIN_DATETIME_NANOS);
    assert_eq!(time_after_delta(10, Some(2)), Some(2_000_000_010));
    assert_eq!(time_after_delta(10, None), None);
}

#[test]
fn time_from_delta_is_in_the_future() {
    assert_eq!(get_time_from_delta(None), None);
    let before = time::OffsetDateTime::now_utc().unix_timestamp_nanos();
    let t = get_time_from_delta(Some(3600)).unwrap();
    assert!(t >= before + 3600 * 1_000_000_000);
    assert!(t < before + 3700 * 1_000_000_000);
}

fn outcome(action: AppendAction) -> Option<Result<(), ErrorStack>> {
    match action {
        AppendAction::Finish(r) => Some(r),
        _ => None,
    }
}

#[test]
fn producer_hand_over_succeeds() {
    let flow = SchedulerFlow::Producer;
    let (s, a) = update_status_and_append_step(flow, AppendStage::Start, AppendEvent::Begin);
    assert!(matches!(a, AppendAction::UpdateStatusToProcessing));
    let (s, a) = update_status_and_append_step(flow, s, AppendEvent::StatusDone(true));
    assert!(matches!(a, AppendAction::AppendToStream));
    let (s, a) = update_status_and_append_step(flow, s, AppendEvent::AppendDone(true));
    assert_eq!(s, AppendStage::Finished);
    assert_eq!(outcome(a), Some(Ok(())));
}

#[test]
fn cleaner_reinitialises_and_consumer_is_refused() {
    let (_, a) = update_status_and_append_step(SchedulerFlow::Cleaner, AppendStage::Start, AppendEvent::Begin);
    assert!(matches!(a, AppendAction::ReinitializeLimbo));
    let (s, a) = update_status_and_append_step(SchedulerFlow::Consumer, AppendStage::Start, AppendEvent::Begin);
    assert_eq!(s, AppendStage::Finished);
    assert_eq!(
        outcome(a),
        Some(Err(ErrorStack { context: ProcessTrackerError::UnexpectedFlow, extended: None }))
    );
}

#[test]
fn failed_status_update_stops_the_hand_over() {
    let (s, a) = update_status_and_append_step(SchedulerFlow::Producer, AppendStage::StatusPending, AppendEvent::StatusDone(false));
    assert_eq!(s, AppendStage::Finished);
    assert_eq!(
        outcome(a),
        Some(Err(ErrorStack { context: ProcessTrackerError::ProcessUpdateFailed, extended: None }))
    );
    let (_, a) = update_status_and_append_step(
        SchedulerFlow::Producer,
        AppendStage::AppendPending,
        AppendEvent::FieldsFailed(ProcessTrackerError::SerializationFailed),
    );
    assert_eq!(
        outcome(a),
        Some(Err(ErrorStack { context: ProcessTrackerError::SerializationFailed, extended: None }))
    );
}

#[test]
fn failed_append_is_reverted() {
    let flow = SchedulerFlow::Producer;
    let (s, a) = update_status_and_append_step(flow, AppendStage::AppendPending, AppendEvent::AppendDone(false));
    assert_eq!(s, AppendStage::RevertPending);
    assert!(matches!(a, AppendAction::RevertStatus));
    let (_, a) = update_status_and_append_step(flow, s, AppendEvent::RevertDone(true));
    assert_eq!(
        outcome(a),
        Some(Err(ErrorStack { context: ProcessTrackerError::BatchInsertionFailed, extended: None }))
    );
    let (_, a) = update_status_and_append_step(flow, s, AppendEvent::RevertDone(false));
    assert_eq!(
        outcome(a),
        Some(Err(ErrorStack {
            context: ProcessTrackerError::BatchInsertionFailed,
            extended: Some(ProcessTrackerError::ProcessUpdateFailed),
        }))
    );
}

#[test]
fn tracker_ids_in_order() {
    let ids = tracker_ids(&vec![tracker("x"), tracker("y")]);
    assert_eq!(ids, vec!["x", "y"]);
}

fn batch_of(id: &str) -> router_scheduler::batching::ProcessTrackerBatch {
    batches_with_id(&id.to_string(), 5, vec![tracker(id)], 0, &settings(5)).remove(0)
}

#[test]
fn stream_entries_collected_in_order() {
    let streams = vec![
        vec![("1-0".to_string(), Ok(batch_of("a"))), ("2-0".to_string(), Ok(batch_of("b")))],
        vec![("3-0".to_string(), Ok(batch_of("c")))],
    ];
    let (batches, ids) = collect_stream_entries(streams).unwrap();
    assert_eq!(ids, vec!["1-0", "2-0", "3-0"]);
    assert_eq!(batches.iter().map(|b| b.id.clone()).collect::<Vec<_>>(), vec!["a", "b", "c"]);
}

#[test]
fn stream_entries_stop_at_first_decode_error() {
    let streams = vec![
        vec![("1-0".to_string(), Ok(batch_of("a")))],
        vec![
            ("2-0".to_string(), Err(ProcessTrackerError::DeserializationFailed)),
            ("3-0".to_string(), Err(ProcessTrackerError::SerializationFailed)),
        ],
    ];
    assert_eq!(
        collect_stream_entries(streams).err(),
        Some(ProcessTrackerError::DeserializationFailed)
    );
}

#[test]
fn batches_are_acknowledged_then_deleted_then_returned() {
    let (s, a) = get_batches_step(BatchFetch::Start, FetchEvent::Begin);
    assert!(matches!(a, FetchAction::ReadStream));
    let read = vec![vec![("7-0".to_string(), Ok(batch_of("a")))]];
    let (s, a) = get_batches_step(s, FetchEvent::ReadDone(Ok(read)));
    match a {
        FetchAction::Acknowledge(ids) => assert_eq!(ids, vec!["7-0"]),
        _ => panic!("expected an acknowledgement"),
    }
    let (s, a) = get_batches_step(s, FetchEvent::AcknowledgeDone(true));
    match a {
        FetchAction::Delete(ids) => assert_eq!(ids, vec!["7-0"]),
        _ => panic!("expected a deletion"),
    }
    let (s, a) = get_batches_step(s, FetchEvent::DeleteDone(true));
    assert!(matches!(s, BatchFetch::Finished));
    match a {
        FetchAction::Finish(Ok(batches)) => {
            assert_eq!(batches.len(), 1);
            assert_eq!(batches[0].id, "a");
        }
        _ => panic!("expected the batches"),
    }
}

#[test]
fn batch_fetch_errors() {
    let (_, a) = get_batches_step(BatchFetch::Reading, FetchEvent::ReadDone(Err(RedisError::StreamReadFailed)));
    assert!(matches!(a, FetchAction::Finish(Err(ProcessTrackerError::BatchNotFound))));
    let ack = BatchFetch::Acknowledging { batches: vec![], entry_ids: vec!["1-0".to_string()] };
    let (_, a) = get_batches_step(ack, FetchEvent::AcknowledgeDone(false));
    assert!(matches!(a, FetchAction::Finish(Err(ProcessTrackerError::BatchUpdateFailed))));
    let del = BatchFetch::Deleting { batches: vec![], entry_ids: vec!["1-0".to_string()] };
    let (_, a) = get_batches_step(del, FetchEvent::DeleteDone(false));
    assert!(matches!(a, FetchAction::Finish(Err(ProcessTrackerError::BatchDeleteFailed))));
    let read = vec![vec![("1-0".to_string(), Err(ProcessTrackerError::DeserializationFailed))]];
    let (_, a) = get_batches_step(BatchFetch::Reading, FetchEvent::ReadDone(Ok(read)));
    assert!(matches!(a, FetchAction::Finish(Err(ProcessTrackerError::DeserializationFailed))));
}

#[test]
fn producer_lock_entry() {
    let r = producer_lock_request(&settings(1));
    assert_eq!(r.tag, "PRODUCER_LOCK");
    assert_eq!(r.key, "PRODUCER_LOCKING_KEY");
    assert_eq!(r.value, "LOCKED");
    assert_eq!(r.ttl, 160);
}

#[test]
fn work_runs_under_the_lock_and_the_lock_is_released() {
    let (s, a) = lock_acquire_release_step(LockStage::Start, LockEvent::Begin);
    assert!(matches!(a, LockAction::Acquire));
    let (s, a) = lock_acquire_release_step(s, LockEvent::AcquireDone(Ok(true)));
    assert!(matches!(a, LockAction::RunCallback));
    let (s, a) = lock_acquire_release_step(s, LockEvent::CallbackDone(Err(ProcessTrackerError::ProcessFetchingFailed)));
    assert!(matches!(a, LockAction::Release));
    let (s, a) = lock_acquire_release_step(s, LockEvent::ReleaseDone(Ok(())));
    assert!(matches!(s, LockStage::Finished));
    assert!(matches!(a, LockAction::Finish(Err(ProcessTrackerError::ProcessFetchingFailed))));
}

#[test]
fn lock_not_taken_or_store_failing() {
    let (_, a) = lock_acquire_release_step(LockStage::Acquiring, LockEvent::AcquireDone(Ok(false)));
    assert!(matches!(a, LockAction::Finish(Ok(()))));
    let (_, a) = lock_acquire_release_step(LockStage::Acquiring, LockEvent::AcquireDone(Err(RedisError::SetNxFailed)));
    assert!(matches!(
        a,
        LockAction::Finish(Err(ProcessTrackerError::ERedisError(RedisError::RedisConnectionError)))
    ));
    let (_, a) = lock_acquire_release_step(LockStage::Releasing(Ok(())), LockEvent::ReleaseDone(Err(RedisError::DeleteFailed)));
    assert!(matches!(
        a,
        LockAction::Finish(Err(ProcessTrackerError::ERedisError(RedisError::DeleteFailed)))
    ));
}

#[test]
fn overflowing_walks_are_detected() {
    assert!(delay_fits_check(5, &vec![2, 3], &vec![10, 20]));
    assert!(!delay_fits_check(i32::MIN, &vec![1], &vec![10]));
    assert!(!delay_fits_check(1, &vec![-1, i32::MIN], &vec![10, 20]));
    assert!(delay_fits_check(i32::MIN, &vec![], &vec![]));
    let m = mapping(60, vec![1], vec![300]);
    assert!(schedule_fits_check(&m, 0));
    assert!(schedule_fits_check(&m, 2));
    assert!(!schedule_fits_check(&m, i32::MIN));
}

#[test]
fn checked_schedule_times() {
    let m = || ConnectorPTMapping {
        default_mapping: mapping(60, vec![2], vec![300]),
        custom_merchant_mapping: vec![("acme".to_string(), mapping(10, vec![1, 1], vec![30, 90]))],
        max_retries_count: 5,
    };
    assert_eq!(get_schedule_time_checked(m(), "acme", 2), Some(Some(90)));
    assert_eq!(get_schedule_time_checked(m(), "acme", 3), Some(None));
    assert_eq!(get_schedule_time_checked(m(), "nobody", 0), Some(Some(60)));
    assert_eq!(get_schedule_time_checked(m(), "nobody", i32::MIN), None);
    let pm = || PaymentMethodsPTMapping {
        default_mapping: mapping(60, vec![2], vec![300]),
        custom_pm_mapping: vec![(PaymentMethod::Wallet, mapping(5, vec![3], vec![7]))],
        max_retries_count: 5,
    };
    assert_eq!(get_pm_schedule_time_checked(pm(), &PaymentMethod::Wallet, 1), Some(Some(7)));
    assert_eq!(get_pm_schedule_time_checked(pm(), &PaymentMethod::Wallet, i32::MIN), None);
}

#[test]
fn merchant_and_payment_method_schedules_agree() {
    let cm = || ConnectorPTMapping {
        default_mapping: mapping(60, vec![2, 4], vec![300, 900]),
        custom_merchant_mapping: vec![],
        max_retries_count: 5,
    };
    let pmm = || PaymentMethodsPTMapping {
        default_mapping: mapping(1, vec![1], vec![1]),
        custom_pm_mapping: vec![(PaymentMethod::Card, mapping(60, vec![2, 4], vec![300, 900]))],
        max_retries_count: 5,
    };
    for r in 0..8 {
        assert_eq!(get_schedule_time(cm(), "m", r), get_pm_schedule_time(pmm(), &PaymentMethod::Card, r));
    }
}

#[test]
fn read_request_takes_one_undelivered_entry() {
    let r = batch_read_request("SCHEDULER_STREAM", "SCHEDULER_GROUP", "consumer_1");
    assert_eq!(r.stream_name, "SCHEDULER_STREAM");
    assert_eq!(r.entry_id, RedisEntryId::UndeliveredEntryID);
    assert_eq!(r.count, Some(1));
    assert_eq!(r.block, None);
    assert_eq!(r.group, Some(("SCHEDULER_GROUP".to_string(), "consumer_1".to_string())));
}

#[test]
fn append_goes_to_a_new_entry_of_the_batch_stream() {
    let t = batch_append_target(&batch_of("a"));
    assert_eq!(t.stream_name, "SCHEDULER_STREAM");
    assert_eq!(t.entry_id, RedisEntryId::AutoGeneratedID);
}

#[test]
fn processing_update_keeps_business_status() {
    match processing_status_update() {
        ProcessTrackerUpdate::StatusUpdate { status, business_status } => {
            assert_eq!(status, ProcessTrackerStatus::Processing);
            assert_eq!(business_status, None);
        }
    }
}

#[test]
fn divide_matches_divide_into_batches() {
    let tasks = || (0..5).map(|i| tracker(&i.to_string())).collect::<Vec<_>>();
    let a = divide(tasks(), &settings(2));
    let b = batches_with_id(&a[0].id, 2, tasks(), a[0].created_time, &settings(2));
    assert_eq!(a.len(), b.len());
    for (x, y) in a.iter().zip(b.iter()) {
        assert_eq!(x.id, y.id);
        assert_eq!(x.group_name, y.group_name);
        assert_eq!(x.stream_name, y.stream_name);
        assert_eq!(x.created_time, y.created_time);
        let xi: Vec<_> = x.trackers.iter().map(|t| t.id.clone()).collect();
        let yi: Vec<_> = y.trackers.iter().map(|t| t.id.clone()).collect();
        assert_eq!(xi, yi);
    }
}
