//! What holds of every request that ends or reports on a task, or concerns the worker itself.
use crate::client::{ConnectionInfo, WorkerClientBag};
use crate::client_laws::completion_is_sent_whole;
use crate::heartbeat::{remembered, HeartbeatMap, Timestamp, WorkerHeartbeat};
use crate::message::{
    Failure, NexusResponse, Payloads, QueryResult, RespondWorkflowTaskCompletedRequest, TaskToken,
};
use crate::pagination_laws::{all_commands, several_pages_only_when_split};
use crate::query_laws::{every_result_is_that_of_a_response, last_response_to_a_query_is_sent};
use crate::respond::{
    completion_pages, DescribeNamespaceRequest, GetWorkflowExecutionHistoryRequest,
    LegacyQueryResult, NexusTaskFailure, RecordActivityTaskHeartbeatRequest,
    RecordWorkerHeartbeatRequest, RespondActivityTaskCanceledRequest,
    RespondActivityTaskCompletedRequest, RespondActivityTaskFailedRequest,
    RespondNexusTaskCompletedRequest, RespondNexusTaskFailedRequest,
    RespondQueryTaskCompletedRequest, RespondWorkflowTaskFailedRequest, ShutdownCall,
    TaskQueueType, WorkflowCompletionFailure, WorkflowTaskCompletion, WorkflowTaskFailedCause,
};
use crate::send::{CompletionSender, SendPhase, SendStep};
use crate::uuid_text::uuid_text;
use crate::wire::{bytes_len, string_len, varint_len};
use vstd::prelude::*;

verus! {

/// The page that ends a completion carries its two wishes for further tasks, each as what it is, and
/// no page before it carries either.
pub proof fn last_page_asks_for_further_tasks<R, F: Fn(&str, &str) -> String>(
    client: WorkerClientBag,
    connection: ConnectionInfo,
    completion: WorkflowTaskCompletion,
    queue_name: F,
    started: (CompletionSender, SendStep<R>),
    i: int,
)
    requires
        call_ensures(
            WorkerClientBag::complete_workflow_task::<R, F>,
            (&client, &connection, completion, &queue_name),
            started,
        ),
        0 <= i < started.0.pages@.len(),
    ensures
        started.0.pages@.last().return_new_workflow_task == completion.return_new_workflow_task,
        started.0.pages@.last().force_create_new_workflow_task
            == completion.force_create_new_workflow_task,
        i < started.0.pages@.len() - 1 ==> !started.0.pages@[i].return_new_workflow_task
            && !started.0.pages@[i].force_create_new_workflow_task,
{
}

/// The pages that are sent of a completion share its token, the client's namespace and its identity.
/// They are numbered from zero, exactly the last is not intermediate, and their commands are those
/// of the completion in their order.
pub proof fn sent_pages_keep_the_commands<R, F: Fn(&str, &str) -> String>(
    client: WorkerClientBag,
    connection: ConnectionInfo,
    completion: WorkflowTaskCompletion,
    queue_name: F,
    started: (CompletionSender, SendStep<R>),
    i: int,
)
    requires
        call_ensures(
            WorkerClientBag::complete_workflow_task::<R, F>,
            (&client, &connection, completion, &queue_name),
            started,
        ),
        started.0.pages@.len() <= i32::MAX,
        0 <= i < started.0.pages@.len(),
    ensures
        started.0.pages@[i].task_token@ == completion.task_token.0@,
        started.0.pages@[i].namespace@ == client.namespace@,
        started.0.pages@[i].identity@ == connection.identity@,
        started.0.pages@[i].page_number == i,
        started.0.pages@[i].intermediate_page == (i < started.0.pages@.len() - 1),
        all_commands(started.0.pages@).flatten() == completion.commands@,
{
    let request = choose|request: RespondWorkflowTaskCompletedRequest|
        {
            &&& #[trigger] client.is_completion_request(
                connection,
                completion,
                queue_name,
                request,
            )
            &&& completion_pages(request, completion.pagination_enabled, started.0.pages@)
        };
    completion_is_sent_whole(
        client,
        connection,
        completion,
        queue_name,
        request,
        started.0.pages@,
        i,
    );
}

/// The page that ends a completion carries everything of it but its commands, and what the client
/// says of itself.
pub proof fn last_page_carries_the_completion<R, F: Fn(&str, &str) -> String>(
    client: WorkerClientBag,
    connection: ConnectionInfo,
    completion: WorkflowTaskCompletion,
    queue_name: F,
    started: (CompletionSender, SendStep<R>),
)
    requires
        call_ensures(
            WorkerClientBag::complete_workflow_task::<R, F>,
            (&client, &connection, completion, &queue_name),
            started,
        ),
    ensures
        started.0.pages@.len() >= 1,
        started.0.pages@.last().messages@ == completion.messages@,
        started.0.pages@.last().sticky_attributes == completion.sticky_attributes,
        started.0.pages@.last().sdk_metadata == Some(completion.sdk_metadata),
        started.0.pages@.last().metering_metadata == Some(completion.metering_metadata),
        started.0.pages@.last().versioning_behavior == completion.versioning_behavior,
        started.0.pages@.last().capabilities is Some,
        started.0.pages@.last().capabilities->0.discard_speculative_workflow_task_with_events,
        started.0.pages@.last().deployment is None,
        started.0.pages@.last().resource_id@ == Seq::<char>::empty(),
        started.0.pages@.last().binary_checksum@ == client.spec_binary_checksum(connection),
        started.0.pages@.last().worker_instance_key@ == uuid_text(client.worker_instance_key),
        client.is_version_stamp(connection, started.0.pages@.last().worker_version_stamp),
        client.is_deployment_options(started.0.pages@.last().deployment_options),
        client.is_control_task_queue(
            connection,
            queue_name,
            started.0.pages@.last().worker_control_task_queue,
        ),
{
}

/// The page that ends a completion has a result for every query that was responded to, that of the
/// last response to it.
pub proof fn last_page_answers_every_query<R, F: Fn(&str, &str) -> String>(
    client: WorkerClientBag,
    connection: ConnectionInfo,
    completion: WorkflowTaskCompletion,
    queue_name: F,
    started: (CompletionSender, SendStep<R>),
    i: int,
)
    requires
        call_ensures(
            WorkerClientBag::complete_workflow_task::<R, F>,
            (&client, &connection, completion, &queue_name),
            started,
        ),
        0 <= i < completion.query_responses@.len(),
        forall|j: int|
            #![trigger completion.query_responses@[j]]
            i < j < completion.query_responses@.len() ==> completion.query_responses@[j].query_id@
                != completion.query_responses@[i].query_id@,
    ensures
        exists|k: int|
            #![trigger started.0.pages@.last().query_results.entries@[k]]
            {
                let entries = started.0.pages@.last().query_results.entries@;
                let response = completion.query_responses@[i];
                &&& 0 <= k < entries.len()
                &&& entries[k].0@ == response.query_id@
                &&& entries[k].1.result_type == response.completed_type
                &&& entries[k].1.answer == response.answer
                &&& entries[k].1.error_message == response.error_message
                &&& entries[k].1.failure is None
            },
{
    last_response_to_a_query_is_sent(
        completion.query_responses@,
        started.0.pages@.last().query_results,
        i,
    );
}

/// The page that ends a completion has no result but for queries that were responded to, and no query
/// has two.
pub proof fn last_page_answers_no_other_query<R, F: Fn(&str, &str) -> String>(
    client: WorkerClientBag,
    connection: ConnectionInfo,
    completion: WorkflowTaskCompletion,
    queue_name: F,
    started: (CompletionSender, SendStep<R>),
    k: int,
)
    requires
        call_ensures(
            WorkerClientBag::complete_workflow_task::<R, F>,
            (&client, &connection, completion, &queue_name),
            started,
        ),
        0 <= k < started.0.pages@.last().query_results.entries@.len(),
    ensures
        exists|i: int|
            #![trigger completion.query_responses@[i]]
            0 <= i < completion.query_responses@.len() && completion.query_responses@[i].query_id@
                == started.0.pages@.last().query_results.entries@[k].0@,
        forall|other: int|
            #![trigger started.0.pages@.last().query_results.entries@[other]]
            0 <= other < started.0.pages@.last().query_results.entries@.len() && other != k
                ==> started.0.pages@.last().query_results.entries@[other].0@
                != started.0.pages@.last().query_results.entries@[k].0@,
{
    every_result_is_that_of_a_response(
        completion.query_responses@,
        started.0.pages@.last().query_results,
        k,
    );
}

/// Completions are split only where the namespace permits it. There, a completion is split that has
/// commands and is larger than three mebibytes, unless one of its commands leaves no room for the
/// routing fields of a page.
pub proof fn completions_are_split_where_permitted<R, F: Fn(&str, &str) -> String>(
    client: WorkerClientBag,
    connection: ConnectionInfo,
    completion: WorkflowTaskCompletion,
    queue_name: F,
    started: (CompletionSender, SendStep<R>),
)
    requires
        call_ensures(
            WorkerClientBag::complete_workflow_task::<R, F>,
            (&client, &connection, completion, &queue_name),
            started,
        ),
    ensures
        !completion.pagination_enabled ==> started.0.pages@.len() == 1,
        !completion.pagination_enabled ==> started.0.pages@[0].commands@ == completion.commands@,
        completion.pagination_enabled ==> exists|request: RespondWorkflowTaskCompletedRequest|
            {
                &&& #[trigger] client.is_completion_request(
                    connection,
                    completion,
                    queue_name,
                    request,
                )
                &&& started.0.pages@.len() > 1 <==> {
                    &&& request.encoded_size() > 3 * 1024 * 1024
                    &&& completion.commands@.len() > 0
                    &&& forall|i: int|
                        #![trigger completion.commands@[i]]
                        0 <= i < completion.commands@.len() ==> bytes_len(
                            1,
                            completion.task_token.0@,
                        ) + string_len(3, connection.identity@) + string_len(9, client.namespace@)
                            + 3 + completion.commands@[i].encoded@.len() + 6 <= 3 * 1024 * 1024
                }
            },
{
    if completion.pagination_enabled {
        let request = choose|request: RespondWorkflowTaskCompletedRequest|
            {
                &&& #[trigger] client.is_completion_request(
                    connection,
                    completion,
                    queue_name,
                    request,
                )
                &&& completion_pages(request, completion.pagination_enabled, started.0.pages@)
            };
        reveal_with_fuel(varint_len, 2);
        several_pages_only_when_split(request, 3 * 1024 * 1024, started.0.pages@);
    }
}

/// A completion is first sent by its only page, or by all of its intermediate pages at once.
pub proof fn completion_starts_with_its_pages<R, F: Fn(&str, &str) -> String>(
    client: WorkerClientBag,
    connection: ConnectionInfo,
    completion: WorkflowTaskCompletion,
    queue_name: F,
    started: (CompletionSender, SendStep<R>),
)
    requires
        call_ensures(
            WorkerClientBag::complete_workflow_task::<R, F>,
            (&client, &connection, completion, &queue_name),
            started,
        ),
    ensures
        started.0.state.resends == 0,
        started.0.pages@.len() == 1 ==> started.1 is SendOnly && started.0.state.phase is Only,
        started.0.pages@.len() > 1 ==> started.1 is SendIntermediate && started.0.state.phase == (
        SendPhase::Intermediate { outstanding: (started.0.pages@.len() - 1) as usize }),
{
}

/// The response to a legacy query is for the task that the query came with, in the client's
/// namespace.
pub proof fn query_response_is_for_its_task<
    F: Fn(WorkflowCompletionFailure) -> QueryResult,
    G: Fn(i32) -> bool,
>(
    client: WorkerClientBag,
    task_token: TaskToken,
    query_result: LegacyQueryResult,
    legacy_query_failure: F,
    is_cause: G,
    request: RespondQueryTaskCompletedRequest,
)
    requires
        call_ensures(
            WorkerClientBag::respond_legacy_query::<F, G>,
            (&client, task_token, query_result, &legacy_query_failure, &is_cause),
            request,
        ),
    ensures
        request.task_token@ == task_token.0@,
        request.namespace@ == client.namespace@,
        request.poller_group_id@ == Seq::<char>::empty(),
{
}

/// Responses to queries that came with different task tokens have different task tokens, whatever
/// their results, and responses to one have the same.
pub proof fn query_responses_tell_tasks_apart<
    F: Fn(WorkflowCompletionFailure) -> QueryResult,
    G: Fn(i32) -> bool,
>(
    client: WorkerClientBag,
    a_token: TaskToken,
    b_token: TaskToken,
    a_result: LegacyQueryResult,
    b_result: LegacyQueryResult,
    legacy_query_failure: F,
    is_cause: G,
    a: RespondQueryTaskCompletedRequest,
    b: RespondQueryTaskCompletedRequest,
)
    requires
        call_ensures(
            WorkerClientBag::respond_legacy_query::<F, G>,
            (&client, a_token, a_result, &legacy_query_failure, &is_cause),
            a,
        ),
        call_ensures(
            WorkerClientBag::respond_legacy_query::<F, G>,
            (&client, b_token, b_result, &legacy_query_failure, &is_cause),
            b,
        ),
    ensures
        a.task_token@ == b.task_token@ <==> a_token.0@ == b_token.0@,
{
}

/// The response to a legacy query that succeeded carries the type, the answer and the error message
/// of its result, no failure and an unspecified cause.
pub proof fn successful_query_is_answered<
    F: Fn(WorkflowCompletionFailure) -> QueryResult,
    G: Fn(i32) -> bool,
>(
    client: WorkerClientBag,
    task_token: TaskToken,
    result: QueryResult,
    legacy_query_failure: F,
    is_cause: G,
    request: RespondQueryTaskCompletedRequest,
)
    requires
        call_ensures(
            WorkerClientBag::respond_legacy_query::<F, G>,
            (
                &client,
                task_token,
                LegacyQueryResult::Succeeded(result),
                &legacy_query_failure,
                &is_cause,
            ),
            request,
        ),
    ensures
        request.completed_type == result.completed_type,
        request.query_result == result.answer,
        request.error_message@ == result.error_message@,
        request.failure is None,
        request.cause.number == 0,
{
}

/// The response to a legacy query that failed carries a result that is made of the failure, the
/// failure itself, and its cause where that is known.
pub proof fn failed_query_is_reported<
    F: Fn(WorkflowCompletionFailure) -> QueryResult,
    G: Fn(i32) -> bool,
>(
    client: WorkerClientBag,
    task_token: TaskToken,
    failed: WorkflowCompletionFailure,
    legacy_query_failure: F,
    is_cause: G,
    request: RespondQueryTaskCompletedRequest,
)
    requires
        call_ensures(
            WorkerClientBag::respond_legacy_query::<F, G>,
            (
                &client,
                task_token,
                LegacyQueryResult::Failed(failed),
                &legacy_query_failure,
                &is_cause,
            ),
            request,
        ),
    ensures
        exists|result: QueryResult|
            {
                &&& #[trigger] call_ensures(legacy_query_failure, (failed,), result)
                &&& request.completed_type == result.completed_type
                &&& request.query_result == result.answer
                &&& request.error_message@ == result.error_message@
            },
        request.failure is Some <==> failed.failure is Some,
        request.failure matches Some(failure) ==> failure.encoded@ == failed.failure->0.encoded@,
        (forall|known: bool| call_ensures(is_cause, (failed.force_cause,), known) ==> known)
            ==> request.cause.number == failed.force_cause,
        (forall|known: bool| call_ensures(is_cause, (failed.force_cause,), known) ==> !known)
            ==> request.cause.number == 0,
        request.cause.number == failed.force_cause || request.cause.number == 0,
{
}

/// A cause is reported as it was received where its number is known, and as unspecified otherwise.
pub proof fn known_causes_are_reported<G: Fn(i32) -> bool>(
    failure: WorkflowCompletionFailure,
    is_cause: G,
    cause: WorkflowTaskFailedCause,
)
    requires
        call_ensures(WorkflowCompletionFailure::force_cause::<G>, (&failure, &is_cause), cause),
    ensures
        (forall|known: bool| call_ensures(is_cause, (failure.force_cause,), known) ==> known)
            ==> cause.number == failure.force_cause,
        (forall|known: bool| call_ensures(is_cause, (failure.force_cause,), known) ==> !known)
            ==> cause.number == 0,
        cause.number == failure.force_cause || cause.number == 0,
{
}

/// However an activity task ends, the request is for its task and from the client, tells the same of
/// the worker's build, and carries how the task ended.
pub proof fn activity_requests_are_for_their_task(
    client: WorkerClientBag,
    connection: ConnectionInfo,
    task_token: TaskToken,
    payloads: Option<Payloads>,
    failure: Option<Failure>,
    completed: RespondActivityTaskCompletedRequest,
    canceled: RespondActivityTaskCanceledRequest,
    failed: RespondActivityTaskFailedRequest,
    heartbeat: RecordActivityTaskHeartbeatRequest,
)
    requires
        call_ensures(
            WorkerClientBag::complete_activity_task,
            (&client, &connection, task_token, payloads),
            completed,
        ),
        call_ensures(
            WorkerClientBag::cancel_activity_task,
            (&client, &connection, task_token, payloads),
            canceled,
        ),
        call_ensures(
            WorkerClientBag::fail_activity_task,
            (&client, &connection, task_token, failure),
            failed,
        ),
        call_ensures(
            WorkerClientBag::record_activity_heartbeat,
            (&client, &connection, task_token, payloads),
            heartbeat,
        ),
    ensures
        completed.task_token@ == task_token.0@,
        canceled.task_token@ == task_token.0@,
        failed.task_token@ == task_token.0@,
        heartbeat.task_token@ == task_token.0@,
        completed.result == payloads,
        canceled.details == payloads,
        heartbeat.details == payloads,
        failed.failure == failure,
        failed.last_heartbeat_details is None,
        completed.namespace@ == client.namespace@,
        canceled.namespace@ == client.namespace@,
        failed.namespace@ == client.namespace@,
        heartbeat.namespace@ == client.namespace@,
        completed.identity@ == connection.identity@,
        canceled.identity@ == connection.identity@,
        failed.identity@ == connection.identity@,
        heartbeat.identity@ == connection.identity@,
        client.is_version_stamp(connection, completed.worker_version),
        client.is_version_stamp(connection, canceled.worker_version),
        client.is_version_stamp(connection, failed.worker_version),
        client.is_deployment_options(completed.deployment_options),
        client.is_deployment_options(canceled.deployment_options),
        client.is_deployment_options(failed.deployment_options),
        completed.deployment is None,
        canceled.deployment is None,
        failed.deployment is None,
        completed.resource_id@ == Seq::<char>::empty(),
        canceled.resource_id@ == Seq::<char>::empty(),
        failed.resource_id@ == Seq::<char>::empty(),
        heartbeat.resource_id@ == Seq::<char>::empty(),
{
}

/// The failure of a workflow task is for its task and from the client, with the cause and the failure
/// that it was given, and tells of the worker's build.
pub proof fn workflow_failure_is_for_its_task(
    client: WorkerClientBag,
    connection: ConnectionInfo,
    task_token: TaskToken,
    cause: WorkflowTaskFailedCause,
    failure: Option<Failure>,
    request: RespondWorkflowTaskFailedRequest,
)
    requires
        call_ensures(
            WorkerClientBag::fail_workflow_task,
            (&client, &connection, task_token, cause, failure),
            request,
        ),
    ensures
        request.task_token@ == task_token.0@,
        request.cause.number == cause.number,
        request.failure == failure,
        request.namespace@ == client.namespace@,
        request.identity@ == connection.identity@,
        request.binary_checksum@ == client.spec_binary_checksum(connection),
        client.is_version_stamp(connection, request.worker_version),
        client.is_deployment_options(request.deployment_options),
        request.deployment is None,
        request.messages@.len() == 0,
        request.resource_id@ == Seq::<char>::empty(),
{
}

/// The end of a Nexus task is for its task and from the client. A failure is reported either as a
/// handler error or as a failure, whichever it was given as.
pub proof fn nexus_requests_are_for_their_task(
    client: WorkerClientBag,
    connection: ConnectionInfo,
    task_token: TaskToken,
    response: NexusResponse,
    error: NexusTaskFailure,
    completed: RespondNexusTaskCompletedRequest,
    failed: RespondNexusTaskFailedRequest,
)
    requires
        call_ensures(
            WorkerClientBag::complete_nexus_task,
            (&client, &connection, task_token, response),
            completed,
        ),
        call_ensures(
            WorkerClientBag::fail_nexus_task,
            (&client, &connection, task_token, error),
            failed,
        ),
    ensures
        completed.task_token@ == task_token.0@,
        failed.task_token@ == task_token.0@,
        completed.namespace@ == client.namespace@,
        failed.namespace@ == client.namespace@,
        completed.identity@ == connection.identity@,
        failed.identity@ == connection.identity@,
        completed.response == Some(response),
        error matches NexusTaskFailure::Legacy(handler_error) ==> failed.error == Some(
            handler_error,
        ) && failed.failure is None,
        error matches NexusTaskFailure::Temporal(failure) ==> failed.failure == Some(failure)
            && failed.error is None,
        completed.poller_group_id@ == Seq::<char>::empty(),
        failed.poller_group_id@ == Seq::<char>::empty(),
{
}

/// A page of history is asked for of the workflow, the run and the place that are named, in the
/// client's namespace. Where no run is named, the request names none.
pub proof fn history_is_that_of_the_workflow(
    client: WorkerClientBag,
    workflow_id: String,
    run_id: Option<String>,
    page_token: Vec<u8>,
    request: GetWorkflowExecutionHistoryRequest,
)
    requires
        call_ensures(
            WorkerClientBag::get_workflow_execution_history,
            (&client, workflow_id, run_id, page_token),
            request,
        ),
    ensures
        request.namespace@ == client.namespace@,
        request.next_page_token@ == page_token@,
        request.execution is Some,
        request.execution->0.workflow_id@ == workflow_id@,
        run_id matches Some(run_id) ==> request.execution->0.run_id@ == run_id@,
        run_id is None ==> request.execution->0.run_id@ == Seq::<char>::empty(),
{
}

/// A client names itself the same way whether it is asked or makes a request. Heartbeats are recorded
/// as they are handed over, in the namespace that is named for them.
pub proof fn client_names_itself_the_same_way(
    client: WorkerClientBag,
    connection: ConnectionInfo,
    namespace: String,
    identity: String,
    key: u128,
    description: DescribeNamespaceRequest,
    other_namespace: String,
    heartbeats: Vec<WorkerHeartbeat>,
    record: RecordWorkerHeartbeatRequest,
)
    requires
        call_ensures(WorkerClientBag::namespace, (&client,), namespace),
        call_ensures(WorkerClientBag::identity, (&client, &connection), identity),
        call_ensures(WorkerClientBag::worker_instance_key, (&client,), key),
        call_ensures(WorkerClientBag::describe_namespace, (&client,), description),
        call_ensures(
            WorkerClientBag::record_worker_heartbeat,
            (&client, &connection, other_namespace, heartbeats),
            record,
        ),
    ensures
        description.namespace@ == namespace@,
        namespace@ == client.namespace@,
        record.identity@ == identity@,
        identity@ == connection.identity@,
        key == client.worker_instance_key,
        record.namespace@ == other_namespace@,
        record.worker_heartbeat@ == heartbeats@,
        record.resource_id@ == Seq::<char>::empty(),
{
}

/// A worker is shut down gracefully, once, by its client, with the queues that it polled and with its
/// last heartbeat if there is one.
pub proof fn shutdown_is_of_the_worker(
    client: WorkerClientBag,
    connection: ConnectionInfo,
    now: Timestamp,
    workers: &mut HeartbeatMap,
    sticky_task_queue: String,
    task_queue: String,
    task_queue_types: Vec<TaskQueueType>,
    final_heartbeat: Option<WorkerHeartbeat>,
    call: ShutdownCall,
)
    requires
        call_ensures(
            WorkerClientBag::shutdown_worker,
            (
                &client,
                &connection,
                now,
                workers,
                sticky_task_queue,
                task_queue,
                task_queue_types,
                final_heartbeat,
            ),
            call,
        ),
    ensures
        !call.retried,
        call.message.reason@ == "graceful shutdown"@,
        call.message.namespace@ == client.namespace@,
        call.message.identity@ == connection.identity@,
        call.message.worker_instance_key@ == uuid_text(client.worker_instance_key),
        call.message.sticky_task_queue@ == sticky_task_queue@,
        call.message.task_queue@ == task_queue@,
        call.message.task_queue_types@ == task_queue_types@,
        final_heartbeat is None ==> call.message.worker_heartbeat is None && final(workers)@ == old(
            workers,
        )@,
        final_heartbeat matches Some(before) ==> {
            &&& call.message.worker_heartbeat is Some
            &&& call.message.worker_heartbeat->0.heartbeat_time == Some(now)
            &&& call.message.worker_heartbeat->0.worker_identity@ == connection.identity@
            &&& call.message.worker_heartbeat->0.worker_instance_key@ == before.worker_instance_key@
            &&& call.message.worker_heartbeat->0.other_fields@ == before.other_fields@
            &&& final(workers)@.contains_key(before.worker_instance_key@)
            &&& final(workers)@[before.worker_instance_key@].last_heartbeat_time == Some(now)
            &&& WorkerClientBag::is_filled_in(
                connection,
                remembered(old(workers)@, before.worker_instance_key@),
                now,
                before,
                call.message.worker_heartbeat->0,
            )
            &&& final(workers)@ == old(workers)@.insert(
                before.worker_instance_key@,
                remembered(old(workers)@, before.worker_instance_key@).after(before, now),
            )
        },
{
}

} // verus!
