use std::time::Duration;
use uuid::Uuid;
use worker_client::client::{Capabilities, ConnectionInfo, WorkerClientBag};
use worker_client::poll::{
    PollActivityOptions, PollNexusOptions, PollOptions, PollWorkflowOptions, TaskQueueKind,
};
use worker_client::versioning::{
    WorkerDeploymentOptions, WorkerDeploymentVersion, WorkerVersioningMode,
    WorkerVersioningStrategy,
};

fn connection(build_ids: bool) -> ConnectionInfo {
    ConnectionInfo {
        identity: "me".to_string(),
        capabilities: Some(Capabilities { build_id_based_versioning: build_ids }),
        client_name: "sdk".to_string(),
        client_version: "1.2.3".to_string(),
        worker_grouping_key: 0xa1a2a3a4b1b2c1c2d1d2d3d4d5d6d7d8,
        worker_control_task_queue_enabled: false,
    }
}

fn options(queue: &str) -> PollOptions<fn(i32) -> bool> {
    PollOptions { task_queue: queue.to_string(), no_retry: None, timeout_override: None }
}

fn deployment(use_worker_versioning: bool) -> WorkerVersioningStrategy {
    WorkerVersioningStrategy::WorkerDeploymentBased(WorkerDeploymentOptions {
        version: WorkerDeploymentVersion {
            deployment_name: "deployment".to_string(),
            build_id: "deployment-build".to_string(),
        },
        use_worker_versioning,
        default_versioning_behavior: None,
    })
}

fn legacy() -> WorkerVersioningStrategy {
    WorkerVersioningStrategy::LegacyBuildIdBased { build_id: "legacy-build".to_string() }
}

fn bag(strategy: WorkerVersioningStrategy) -> WorkerClientBag {
    WorkerClientBag::new("namespace".to_string(), strategy, 1)
}

fn queue_name(namespace: &str, key: &str) -> String {
    format!("control/{namespace}/{key}")
}

#[test]
fn worker_command_nexus_polls_omit_versioning_metadata() {
    let strategies = [("deployment", deployment(true)), ("legacy", legacy())];
    for (strategy_name, strategy) in strategies {
        let client =
            WorkerClientBag::new("namespace".to_string(), strategy, Uuid::new_v4().as_u128());
        let normal_poll = client
            .poll_nexus_task(
                &connection(true),
                options("application-queue"),
                PollNexusOptions { worker_commands_queue: false },
            )
            .message;
        let worker_command_poll = client
            .poll_nexus_task(
                &connection(true),
                options("worker-command-queue"),
                PollNexusOptions { worker_commands_queue: true },
            )
            .message;

        assert_eq!(
            normal_poll.task_queue.as_ref().unwrap().kind,
            TaskQueueKind::Normal,
            "{strategy_name}",
        );
        assert!(
            normal_poll
                .worker_version_capabilities
                .as_ref()
                .is_some_and(|capabilities| capabilities.use_versioning)
                || normal_poll.deployment_options.as_ref().is_some_and(|options| {
                    options.worker_versioning_mode == WorkerVersioningMode::Versioned
                }),
            "{strategy_name}",
        );
        assert_eq!(
            worker_command_poll.task_queue.as_ref().unwrap().kind,
            TaskQueueKind::WorkerCommands,
            "{strategy_name}",
        );
        assert!(worker_command_poll.worker_version_capabilities.is_none(), "{strategy_name}");
        assert!(worker_command_poll.deployment_options.is_none(), "{strategy_name}");
    }
}

#[test]
fn workflow_polls_prefer_the_sticky_queue() {
    let client = bag(legacy());
    let normal = client.poll_workflow_task(
        &connection(false),
        options("q"),
        PollWorkflowOptions { sticky_queue_name: None },
        &queue_name,
    );
    let queue = normal.message.task_queue.unwrap();
    assert_eq!((queue.name.as_str(), queue.kind, queue.normal_name.as_str()), (
        "q",
        TaskQueueKind::Normal,
        "",
    ));
    let sticky = client.poll_workflow_task(
        &connection(false),
        options("q"),
        PollWorkflowOptions { sticky_queue_name: Some("sticky".to_string()) },
        &queue_name,
    );
    let queue = sticky.message.task_queue.unwrap();
    assert_eq!((queue.name.as_str(), queue.kind, queue.normal_name.as_str()), (
        "sticky",
        TaskQueueKind::Sticky,
        "q",
    ));
}

#[test]
fn polls_carry_their_options() {
    let client = bag(legacy());
    let mut poll = options("q");
    poll.no_retry = Some(|code| code == 4);
    poll.timeout_override = Some(Duration::from_millis(1500));
    let call = client.poll_nexus_task(&connection(false), poll, PollNexusOptions::default());
    assert!(call.is_worker_task_long_poll);
    assert!(call.no_retry.is_some_and(|matches| matches(4) && !matches(5)));
    assert_eq!(call.timeout, Some(Duration::from_millis(1500)));
    assert_eq!(call.message.task_queue.unwrap().kind, TaskQueueKind::Normal);
}

#[test]
fn activity_polls_pass_their_rate_on() {
    let client = bag(legacy());
    let limited = client.poll_activity_task(
        &connection(false),
        options("q"),
        PollActivityOptions { max_tasks_per_sec: Some(2.5f64) },
        &queue_name,
    );
    assert_eq!(limited.message.task_queue_metadata.unwrap().max_tasks_per_second, Some(2.5));
    let unlimited = client.poll_activity_task(
        &connection(false),
        options("q"),
        PollActivityOptions::<f64> { max_tasks_per_sec: None },
        &queue_name,
    );
    assert!(unlimited.message.task_queue_metadata.is_none());
    assert_eq!(unlimited.message.task_queue.unwrap().name, "q");
    assert_eq!(unlimited.message.namespace, "namespace");
    assert_eq!(unlimited.message.identity, "me");
}

#[test]
fn control_queue_is_named_only_where_enabled() {
    let client = bag(legacy());
    let mut to = connection(false);
    assert_eq!(client.worker_control_task_queue(&to, &queue_name), "");
    to.worker_control_task_queue_enabled = true;
    assert_eq!(
        client.worker_control_task_queue(&to, &queue_name),
        "control/namespace/a1a2a3a4-b1b2-c1c2-d1d2-d3d4d5d6d7d8"
    );
    let call = client.poll_workflow_task(
        &to,
        options("q"),
        PollWorkflowOptions { sticky_queue_name: None },
        &queue_name,
    );
    assert_eq!(
        call.message.worker_control_task_queue,
        "control/namespace/a1a2a3a4-b1b2-c1c2-d1d2-d3d4d5d6d7d8"
    );
    assert_eq!(call.message.worker_instance_key, "00000000-0000-0000-0000-000000000001");
}

#[test]
fn build_id_is_a_stamp_or_a_checksum() {
    let client = bag(legacy());
    let stamp = client.worker_version_stamp(&connection(true)).unwrap();
    assert_eq!((stamp.build_id.as_str(), stamp.use_versioning), ("legacy-build", true));
    assert_eq!(client.binary_checksum(&connection(true)), "");
    assert_eq!(client.worker_version_stamp(&connection(false)), None);
    assert_eq!(client.binary_checksum(&connection(false)), "legacy-build");

    let mut unknown = connection(true);
    unknown.capabilities = None;
    assert_eq!(client.worker_version_stamp(&unknown), None);
    assert_eq!(client.worker_version_capabilities(&unknown), None);
    assert_eq!(client.binary_checksum(&unknown), "legacy-build");
    assert!(!client.default_capabilities(&unknown).build_id_based_versioning);

    let capabilities = client.worker_version_capabilities(&connection(true)).unwrap();
    assert_eq!(capabilities.build_id, "legacy-build");
    assert!(capabilities.use_versioning);
    assert_eq!(capabilities.deployment_series_name, "");
}

#[test]
fn deployment_options_follow_the_strategy() {
    assert_eq!(bag(legacy()).deployment_options(), None);
    let unversioned = WorkerVersioningStrategy::Unversioned { build_id: "u".to_string() };
    assert_eq!(bag(unversioned.clone()).deployment_options(), None);
    assert!(!bag(unversioned).worker_version_stamp(&connection(true)).unwrap().use_versioning);
    let versioned = bag(deployment(true)).deployment_options().unwrap();
    assert_eq!(versioned.deployment_name, "deployment");
    assert_eq!(versioned.build_id, "deployment-build");
    assert_eq!(versioned.worker_versioning_mode, WorkerVersioningMode::Versioned);
    let named = bag(deployment(false)).deployment_options().unwrap();
    assert_eq!(named.worker_versioning_mode, WorkerVersioningMode::Unversioned);
    let stamp = bag(deployment(true)).worker_version_stamp(&connection(true)).unwrap();
    assert_eq!((stamp.build_id.as_str(), stamp.use_versioning), ("deployment-build", false));
}

#[test]
fn different_keys_have_different_texts() {
    let text = |key: u128| {
        WorkerClientBag::new("namespace".to_string(), legacy(), key)
            .poll_nexus_task(&connection(false), options("q"), PollNexusOptions::default())
            .message
            .worker_instance_key
    };
    let mut texts: Vec<String> = (0..128).map(|bit| text(1u128 << bit)).collect();
    texts.push(text(0));
    assert_eq!(texts[4], "00000000-0000-0000-0000-000000000010");
    assert_eq!(texts[127], "80000000-0000-0000-0000-000000000000");
    texts.sort();
    texts.dedup();
    assert_eq!(texts.len(), 129);
}
