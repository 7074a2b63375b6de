use worker_client::client::{Capabilities, ConnectionInfo, WorkerClientBag};
use worker_client::message::{
    Failure, HandlerError, NexusResponse, Payloads, QueryResult, QueryResultType, TaskToken,
};
use worker_client::respond::{
    LegacyQueryResult, NexusTaskFailure, WorkflowCompletionFailure, WorkflowTaskFailedCause,
};
use worker_client::versioning::WorkerVersioningStrategy;

fn connection() -> ConnectionInfo {
    ConnectionInfo {
        identity: "me".to_string(),
        capabilities: Some(Capabilities { build_id_based_versioning: true }),
        client_name: "sdk".to_string(),
        client_version: "1.2.3".to_string(),
        worker_grouping_key: 0,
        worker_control_task_queue_enabled: false,
    }
}

fn client() -> WorkerClientBag {
    WorkerClientBag::new(
        "namespace".to_string(),
        WorkerVersioningStrategy::LegacyBuildIdBased { build_id: "b".to_string() },
        0,
    )
}

fn token() -> TaskToken {
    TaskToken(vec![1, 2, 3])
}

#[test]
fn activity_tasks_end_with_their_outcome() {
    let payloads = Payloads { encoded: vec![4] };
    let done = client().complete_activity_task(&connection(), token(), Some(payloads.clone()));
    assert_eq!(done.task_token, vec![1, 2, 3]);
    assert_eq!(done.result, Some(payloads.clone()));
    assert_eq!(done.worker_version.unwrap().build_id, "b");
    assert_eq!((done.namespace.as_str(), done.identity.as_str()), ("namespace", "me"));
    assert_eq!(done.deployment, None);

    let canceled = client().cancel_activity_task(&connection(), token(), None);
    assert_eq!(canceled.details, None);
    assert_eq!(canceled.task_token, vec![1, 2, 3]);

    let failure = Failure { encoded: vec![5] };
    let failed = client().fail_activity_task(&connection(), token(), Some(failure.clone()));
    assert_eq!(failed.failure, Some(failure));
    assert_eq!(failed.last_heartbeat_details, None);

    let beat = client().record_activity_heartbeat(&connection(), token(), Some(payloads.clone()));
    assert_eq!(beat.details, Some(payloads));
    assert_eq!(beat.resource_id, "");
}

#[test]
fn workflow_tasks_fail_with_their_cause() {
    let cause = WorkflowTaskFailedCause { number: 24 };
    let failed = client().fail_workflow_task(&connection(), token(), cause, None);
    assert_eq!(failed.cause, cause);
    assert_eq!(failed.failure, None);
    assert_eq!(failed.binary_checksum, "");
    assert!(failed.worker_version.unwrap().use_versioning);
    assert!(failed.messages.is_empty());
}

#[test]
fn nexus_tasks_fail_in_one_of_two_ways() {
    let error = HandlerError { encoded: vec![1] };
    let failure = Failure { encoded: vec![2] };
    let old = client().fail_nexus_task(
        &connection(),
        token(),
        NexusTaskFailure::Legacy(error.clone()),
    );
    assert_eq!((old.error, old.failure), (Some(error), None));
    let new = client().fail_nexus_task(
        &connection(),
        token(),
        NexusTaskFailure::Temporal(failure.clone()),
    );
    assert_eq!((new.error, new.failure), (None, Some(failure)));
    let response = NexusResponse { encoded: vec![3] };
    let done = client().complete_nexus_task(&connection(), token(), response.clone());
    assert_eq!(done.response, Some(response));
    assert_eq!(done.task_token, vec![1, 2, 3]);
}

fn is_cause(number: i32) -> bool {
    (0..40).contains(&number)
}

#[test]
fn unknown_causes_are_reported_as_unspecified() {
    let describe = |failed: WorkflowCompletionFailure| QueryResult {
        query_id: "legacy".to_string(),
        completed_type: QueryResultType::Failed,
        answer: None,
        error_message: format!("{}", failed.force_cause),
    };
    for (received, reported) in [(39, 39), (40, 0), (-1, 0), (0, 0)] {
        let failed = WorkflowCompletionFailure { failure: None, force_cause: received };
        assert_eq!(failed.force_cause(&is_cause), WorkflowTaskFailedCause { number: reported });
        let response = client().respond_legacy_query(
            token(),
            LegacyQueryResult::Failed(failed),
            &describe,
            &is_cause,
        );
        assert_eq!(response.cause, WorkflowTaskFailedCause { number: reported });
        assert_eq!(response.error_message, format!("{received}"));
        assert_eq!(response.failure, None);
    }
}

#[test]
fn legacy_queries_are_answered() {
    let result = QueryResult {
        query_id: "legacy".to_string(),
        completed_type: QueryResultType::Answered,
        answer: Some(Payloads { encoded: vec![6] }),
        error_message: String::new(),
    };
    let unused = |_: WorkflowCompletionFailure| -> QueryResult { unreachable!() };
    let answered = client().respond_legacy_query(
        token(),
        LegacyQueryResult::Succeeded(result),
        &unused,
        &is_cause,
    );
    assert_eq!(answered.completed_type, QueryResultType::Answered);
    assert_eq!(answered.query_result, Some(Payloads { encoded: vec![6] }));
    assert_eq!(answered.failure, None);
    assert_eq!(answered.cause, WorkflowTaskFailedCause { number: 0 });
}

#[test]
fn legacy_query_failures_are_reported_twice() {
    let describe = |failed: WorkflowCompletionFailure| QueryResult {
        query_id: "legacy".to_string(),
        completed_type: QueryResultType::Failed,
        answer: None,
        error_message: format!("{:?}", failed.failure.unwrap().encoded),
    };
    let failed = WorkflowCompletionFailure {
        failure: Some(Failure { encoded: vec![7, 8] }),
        force_cause: 12,
    };
    let response = client().respond_legacy_query(
        token(),
        LegacyQueryResult::Failed(failed),
        &describe,
        &is_cause,
    );
    assert_eq!(response.completed_type, QueryResultType::Failed);
    assert_eq!(response.error_message, "[7, 8]");
    assert_eq!(response.failure, Some(Failure { encoded: vec![7, 8] }));
    assert_eq!(response.cause, WorkflowTaskFailedCause { number: 12 });
    assert_eq!(response.namespace, "namespace");
}

#[test]
fn histories_are_asked_for_by_run() {
    let last = client().get_workflow_execution_history("wf".to_string(), None, vec![]);
    let execution = last.execution.unwrap();
    assert_eq!((execution.workflow_id.as_str(), execution.run_id.as_str()), ("wf", ""));
    let page = client().get_workflow_execution_history(
        "wf".to_string(),
        Some("run".to_string()),
        vec![1],
    );
    assert_eq!(page.execution.unwrap().run_id, "run");
    assert_eq!(page.next_page_token, vec![1]);
    assert_eq!(client().describe_namespace().namespace, "namespace");
}

#[test]
fn worker_heartbeats_are_recorded_in_a_given_namespace() {
    let request = client().record_worker_heartbeat(&connection(), "elsewhere".to_string(), vec![]);
    assert_eq!(request.namespace, "elsewhere");
    assert_eq!(request.identity, "me");
    assert!(request.worker_heartbeat.is_empty());
}

#[test]
fn client_answers_for_itself() {
    let bag = client();
    assert_eq!(bag.namespace(), "namespace");
    assert_eq!(bag.identity(&connection()), "me");
    assert_eq!(bag.worker_instance_key(), 0);
    assert_eq!(bag.worker_grouping_key(&connection()), 0);
    assert!(!bag.is_mock());
    assert_eq!(
        bag.sdk_name_and_version(&connection()),
        ("sdk".to_string(), "1.2.3".to_string())
    );
    assert_eq!(bag.capabilities(&connection()), connection().capabilities);
}
