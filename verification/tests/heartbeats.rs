use worker_client::client::{ConnectionInfo, WorkerClientBag};
use worker_client::heartbeat::{
    elapsed_between, update_slots, HeartbeatMap, PbDuration, SlotsInfo, Timestamp,
    WorkerHeartbeat, WorkerHostInfo, WorkerSlotsInfo,
};
use worker_client::respond::TaskQueueType;
use worker_client::versioning::WorkerVersioningStrategy;

fn connection() -> ConnectionInfo {
    ConnectionInfo {
        identity: "me".to_string(),
        capabilities: None,
        client_name: "sdk".to_string(),
        client_version: "1.2.3".to_string(),
        worker_grouping_key: u128::MAX,
        worker_control_task_queue_enabled: false,
    }
}

fn client() -> WorkerClientBag {
    WorkerClientBag::new(
        "namespace".to_string(),
        WorkerVersioningStrategy::Unversioned { build_id: String::new() },
        16,
    )
}

fn slots(processed: i32, failed: i32) -> Option<WorkerSlotsInfo> {
    Some(WorkerSlotsInfo {
        total_processed_tasks: processed,
        total_failed_tasks: failed,
        last_interval_processed_tasks: -5,
        last_interval_failure_tasks: -6,
        other_fields: vec![1, 2],
    })
}

fn heartbeat(key: &str, workflow: Option<WorkerSlotsInfo>) -> WorkerHeartbeat {
    WorkerHeartbeat {
        worker_instance_key: key.to_string(),
        worker_identity: String::new(),
        host_info: Some(WorkerHostInfo {
            worker_grouping_key: String::new(),
            other_fields: vec![3],
        }),
        sdk_name: String::new(),
        sdk_version: String::new(),
        heartbeat_time: None,
        elapsed_since_last_heartbeat: None,
        workflow_task_slots_info: workflow,
        activity_task_slots_info: slots(1, 1),
        nexus_task_slots_info: None,
        local_activity_slots_info: slots(0, 0),
        other_fields: vec![9],
    }
}

fn at(seconds: i64, nanos: i32) -> Timestamp {
    Timestamp { seconds, nanos }
}

#[test]
fn client_fields_are_filled_in() {
    let mut workers = HeartbeatMap::new();
    let mut beat = heartbeat("w", slots(10, 2));
    client().set_heartbeat_client_fields(&connection(), at(100, 7), &mut workers, &mut beat);
    assert_eq!(beat.worker_identity, "me");
    assert_eq!(beat.sdk_name, "sdk");
    assert_eq!(beat.sdk_version, "1.2.3");
    let host = beat.host_info.as_ref().unwrap();
    assert_eq!(host.worker_grouping_key, "ffffffff-ffff-ffff-ffff-ffffffffffff");
    assert_eq!(host.other_fields, vec![3]);
    assert_eq!(beat.heartbeat_time, Some(at(100, 7)));
    assert_eq!(beat.elapsed_since_last_heartbeat, None);
    let workflow = beat.workflow_task_slots_info.as_ref().unwrap();
    assert_eq!(workflow.last_interval_processed_tasks, 10);
    assert_eq!(workflow.last_interval_failure_tasks, 2);
    assert_eq!(workflow.other_fields, vec![1, 2]);
    assert_eq!(beat.nexus_task_slots_info, None);
    assert_eq!(beat.other_fields, vec![9]);
    assert_eq!(beat.worker_instance_key, "w");
}

#[test]
fn heartbeats_without_a_host_stay_without_one() {
    let mut workers = HeartbeatMap::new();
    let mut beat = heartbeat("w", None);
    beat.host_info = None;
    client().set_heartbeat_client_fields(&connection(), at(0, 0), &mut workers, &mut beat);
    assert_eq!(beat.host_info, None);
}

#[test]
fn intervals_count_from_the_previous_heartbeat_of_the_worker() {
    let mut workers = HeartbeatMap::new();
    let bag = client();
    let mut first = heartbeat("w", slots(10, 2));
    bag.set_heartbeat_client_fields(&connection(), at(100, 900_000_000), &mut workers, &mut first);
    let mut other = heartbeat("other", slots(1000, 0));
    bag.set_heartbeat_client_fields(&connection(), at(101, 0), &mut workers, &mut other);
    assert_eq!(other.elapsed_since_last_heartbeat, None);
    let mut unreported = heartbeat("w", None);
    bag.set_heartbeat_client_fields(&connection(), at(102, 0), &mut workers, &mut unreported);
    assert_eq!(
        unreported.elapsed_since_last_heartbeat,
        Some(PbDuration { seconds: 1, nanos: 100_000_000 })
    );
    let mut last = heartbeat("w", slots(17, 2));
    bag.set_heartbeat_client_fields(&connection(), at(105, 5), &mut workers, &mut last);
    assert_eq!(last.elapsed_since_last_heartbeat, Some(PbDuration { seconds: 3, nanos: 5 }));
    let workflow = last.workflow_task_slots_info.unwrap();
    assert_eq!(workflow.last_interval_processed_tasks, 7);
    assert_eq!(workflow.last_interval_failure_tasks, 0);
    let activity = last.activity_task_slots_info.unwrap();
    assert_eq!(activity.last_interval_processed_tasks, 0);

    let data = workers.get(&"w".to_string());
    assert_eq!(data.last_heartbeat_time, Some(at(105, 5)));
    assert_eq!(data.workflow_task_slots_info.total_processed_tasks, 17);
    let data = workers.get(&"other".to_string());
    assert_eq!(data.workflow_task_slots_info.total_processed_tasks, 1000);
    assert_eq!(workers.get(&"unknown".to_string()).last_heartbeat_time, None);
}

#[test]
fn a_clock_that_goes_back_gives_no_time() {
    assert_eq!(elapsed_between(at(10, 1), at(10, 0)), PbDuration { seconds: 0, nanos: 0 });
    assert_eq!(elapsed_between(at(10, 0), at(-10, 0)), PbDuration { seconds: 0, nanos: 0 });
    assert_eq!(
        elapsed_between(at(-2, 999_999_999), at(1, 0)),
        PbDuration { seconds: 2, nanos: 1 }
    );
}

#[test]
fn totals_out_of_range_are_not_accepted() {
    let mut workers = HeartbeatMap::new();
    let mut low = heartbeat("w", slots(-2, 0));
    assert!(workers.accepts(&low));
    client().set_heartbeat_client_fields(&connection(), at(0, 0), &mut workers, &mut low);
    assert!(!workers.accepts(&heartbeat("w", slots(i32::MAX, 0))));
    assert!(workers.accepts(&heartbeat("w", slots(i32::MAX - 2, 0))));
    assert!(workers.accepts(&heartbeat("v", slots(i32::MAX, 0))));
}

#[test]
fn slots_are_updated_in_place() {
    let mut last = SlotsInfo::default();
    let mut info = slots(4, 3);
    update_slots(&mut info, &mut last);
    assert_eq!(info.as_ref().unwrap().last_interval_processed_tasks, 4);
    assert_eq!(last, SlotsInfo { total_processed_tasks: 4, total_failed_tasks: 3 });
    let mut none = None;
    update_slots(&mut none, &mut last);
    assert_eq!(none, None);
    assert_eq!(last, SlotsInfo { total_processed_tasks: 4, total_failed_tasks: 3 });
    let mut info = slots(6, 3);
    update_slots(&mut info, &mut last);
    assert_eq!(info.as_ref().unwrap().last_interval_processed_tasks, 2);
    assert_eq!(info.as_ref().unwrap().last_interval_failure_tasks, 0);
}

#[test]
fn shutdown_carries_the_last_heartbeat_and_is_not_retried() {
    let mut workers = HeartbeatMap::new();
    let mut first = heartbeat("w", slots(10, 2));
    client().set_heartbeat_client_fields(&connection(), at(100, 0), &mut workers, &mut first);
    let call = client().shutdown_worker(
        &connection(),
        at(103, 0),
        &mut workers,
        "sticky".to_string(),
        "q".to_string(),
        vec![TaskQueueType::Workflow, TaskQueueType::Nexus, TaskQueueType::Unspecified],
        Some(heartbeat("w", slots(12, 3))),
    );
    assert!(!call.retried);
    assert_eq!(call.message.reason, "graceful shutdown");
    assert_eq!(call.message.sticky_task_queue, "sticky");
    assert_eq!(call.message.task_queue, "q");
    assert_eq!(
        call.message.task_queue_types,
        vec![TaskQueueType::Workflow, TaskQueueType::Nexus, TaskQueueType::Unspecified]
    );
    assert_eq!(call.message.worker_instance_key, "00000000-0000-0000-0000-000000000010");
    let last = call.message.worker_heartbeat.unwrap();
    assert_eq!(last.elapsed_since_last_heartbeat, Some(PbDuration { seconds: 3, nanos: 0 }));
    assert_eq!(last.workflow_task_slots_info.unwrap().last_interval_failure_tasks, 1);

    let silent = client().shutdown_worker(
        &connection(),
        at(200, 0),
        &mut workers,
        String::new(),
        String::new(),
        vec![],
        None,
    );
    assert_eq!(silent.message.worker_heartbeat, None);
    assert_eq!(workers.get(&"w".to_string()).last_heartbeat_time, Some(at(103, 0)));
}

#[test]
fn intervals_add_up_to_the_totals() {
    let mut workers = HeartbeatMap::new();
    let reports = [slots(3, 0), None, slots(3, 1), slots(20, 1), None, slots(21, 6)];
    let mut processed = 0;
    let mut failed = 0;
    for (second, report) in reports.into_iter().enumerate() {
        let mut beat = heartbeat("w", report);
        let time = at(second as i64, 0);
        client().set_heartbeat_client_fields(&connection(), time, &mut workers, &mut beat);
        if let Some(info) = beat.workflow_task_slots_info {
            processed += info.last_interval_processed_tasks;
            failed += info.last_interval_failure_tasks;
        }
    }
    assert_eq!((processed, failed), (21, 6));
}
