//! Requests that end or report on tasks, and those that concern the worker itself.
use crate::client::{ConnectionInfo, WorkerClientBag};
use crate::heartbeat::{remembered, HeartbeatMap, Timestamp, WorkerHeartbeat};
use crate::message::{
    Command, CompletionCapabilities, Deployment, DeploymentOptions, Failure, HandlerError,
    MeteringMetadata, NexusResponse, Payloads, ProtocolMessage, QueryResult, QueryResultType,
    QueryResults, RespondWorkflowTaskCompletedRequest, StickyExecutionAttributes, TaskToken,
    WorkerVersionStamp, WorkflowTaskCompletedMetadata,
};
use crate::pagination::{are_pages, paginate_wft_completion, MAX_WFT_COMPLETION_PAGE_SIZE};
use crate::query::collected;
use crate::send::{CompletionSender, SendState, SendStep};
use crate::uuid_text::{uuid_text, uuid_to_string};
use crate::versioning::VersioningBehavior;
use vstd::prelude::*;

verus! {

/// A completion of a workflow task that the client finishes filling out.
#[derive(Clone, Debug, PartialEq, Eq)]
pub struct WorkflowTaskCompletion {
    /// The task token that polling for the task returned.
    pub task_token: TaskToken,
    /// New commands for the server, such as starting a timer.
    pub commands: Vec<Command>,
    /// Protocol messages for the server.
    pub messages: Vec<ProtocolMessage>,
    /// If set, the next task is queued on the sticky queue with these attributes.
    pub sticky_attributes: Option<StickyExecutionAttributes>,
    /// Responses to the queries of the workflow task.
    pub query_responses: Vec<QueryResult>,
    /// Whether the response should hold a new workflow task if there is one.
    pub return_new_workflow_task: bool,
    /// Whether a new workflow task is created after this completion in any case.
    pub force_create_new_workflow_task: bool,
    /// Metadata of the SDK.
    pub sdk_metadata: WorkflowTaskCompletedMetadata,
    /// Metering data.
    pub metering_metadata: MeteringMetadata,
    /// The versioning behavior of the workflow, if any.
    pub versioning_behavior: VersioningBehavior,
    /// Whether the namespace permits splitting this completion into pages when it would exceed the
    /// size of a request.
    pub pagination_enabled: bool,
}

/// Why a workflow task failed, as the number that stands for the cause on the wire. Zero is an
/// unspecified cause.
#[derive(Clone, Copy, Debug, PartialEq, Eq, Structural)]
pub struct WorkflowTaskFailedCause {
    pub number: i32,
}

/// The failure of a workflow task or of a query.
#[derive(Clone, Debug, PartialEq, Eq)]
pub struct WorkflowCompletionFailure {
    pub failure: Option<Failure>,
    /// The number of the cause as it was received, which need not be that of any cause.
    pub force_cause: i32,
}

impl WorkflowCompletionFailure {
    /// Whether `cause` is the cause that is reported: the one that was received, where `is_cause`
    /// knows its number, and otherwise an unspecified cause.
    pub open spec fn is_force_cause<G: Fn(i32) -> bool>(
        self,
        is_cause: G,
        cause: WorkflowTaskFailedCause,
    ) -> bool {
        exists|known: bool|
            {
                &&& #[trigger] call_ensures(is_cause, (self.force_cause,), known)
                &&& cause.number == if known {
                    self.force_cause
                } else {
                    0
                }
            }
    }

    /// The cause that is reported. `is_cause` tells which numbers stand for a cause; any other is
    /// read as an unspecified cause.
    pub fn force_cause<G: Fn(i32) -> bool>(&self, is_cause: &G) -> (cause: WorkflowTaskFailedCause)
        requires
            forall|number: i32| #[trigger] call_requires(*is_cause, (number,)),
        ensures
            self.is_force_cause(*is_cause, cause),
    {
        let known = is_cause(self.force_cause);
        if known {
            WorkflowTaskFailedCause { number: self.force_cause }
        } else {
            WorkflowTaskFailedCause { number: 0 }
        }
    }
}

/// The result of a legacy query.
#[derive(Clone, Debug, PartialEq, Eq)]
pub enum LegacyQueryResult {
    /// The query handler returned a result successfully.
    Succeeded(QueryResult),
    /// The query handler failed.
    Failed(WorkflowCompletionFailure),
}

/// The failure of a Nexus task.
#[derive(Clone, Debug, PartialEq, Eq)]
pub enum NexusTaskFailure {
    /// For a server that knows handler errors only.
    Legacy(HandlerError),
    /// For a server that knows failures.
    Temporal(Failure),
}

/// The kinds of tasks that a task queue holds.
#[derive(Clone, Copy, Debug, PartialEq, Eq, Structural)]
pub enum TaskQueueType {
    Unspecified,
    Workflow,
    Activity,
    Nexus,
}

/// The completion of an activity task.
#[derive(Clone, Debug, PartialEq, Eq)]
pub struct RespondActivityTaskCompletedRequest {
    pub task_token: Vec<u8>,
    pub result: Option<Payloads>,
    pub identity: String,
    pub namespace: String,
    pub worker_version: Option<WorkerVersionStamp>,
    pub deployment: Option<Deployment>,
    pub deployment_options: Option<DeploymentOptions>,
    pub resource_id: String,
}

/// The completion of a Nexus task.
#[derive(Clone, Debug, PartialEq, Eq)]
pub struct RespondNexusTaskCompletedRequest {
    pub namespace: String,
    pub identity: String,
    pub task_token: Vec<u8>,
    pub response: Option<NexusResponse>,
    pub poller_group_id: String,
}

/// A heartbeat of an activity.
#[derive(Clone, Debug, PartialEq, Eq)]
pub struct RecordActivityTaskHeartbeatRequest {
    pub task_token: Vec<u8>,
    pub details: Option<Payloads>,
    pub identity: String,
    pub namespace: String,
    pub resource_id: String,
}

/// The end of an activity task that was canceled.
#[derive(Clone, Debug, PartialEq, Eq)]
pub struct RespondActivityTaskCanceledRequest {
    pub task_token: Vec<u8>,
    pub details: Option<Payloads>,
    pub identity: String,
    pub namespace: String,
    pub worker_version: Option<WorkerVersionStamp>,
    pub deployment: Option<Deployment>,
    pub deployment_options: Option<DeploymentOptions>,
    pub resource_id: String,
}

/// The failure of an activity task.
#[derive(Clone, Debug, PartialEq, Eq)]
pub struct RespondActivityTaskFailedRequest {
    pub task_token: Vec<u8>,
    pub failure: Option<Failure>,
    pub identity: String,
    pub namespace: String,
    pub last_heartbeat_details: Option<Payloads>,
    pub worker_version: Option<WorkerVersionStamp>,
    pub deployment: Option<Deployment>,
    pub deployment_options: Option<DeploymentOptions>,
    pub resource_id: String,
}

/// The failure of a workflow task.
#[derive(Clone, Debug, PartialEq, Eq)]
pub struct RespondWorkflowTaskFailedRequest {
    pub task_token: Vec<u8>,
    pub cause: WorkflowTaskFailedCause,
    pub failure: Option<Failure>,
    pub identity: String,
    pub binary_checksum: String,
    pub namespace: String,
    pub messages: Vec<ProtocolMessage>,
    pub worker_version: Option<WorkerVersionStamp>,
    pub deployment: Option<Deployment>,
    pub deployment_options: Option<DeploymentOptions>,
    pub resource_id: String,
}

/// The failure of a Nexus task.
#[derive(Clone, Debug, PartialEq, Eq)]
pub struct RespondNexusTaskFailedRequest {
    pub namespace: String,
    pub identity: String,
    pub task_token: Vec<u8>,
    pub failure: Option<Failure>,
    pub error: Option<HandlerError>,
    pub poller_group_id: String,
}

/// A run of a workflow; its last run where the run's id is empty.
#[derive(Clone, Debug, PartialEq, Eq)]
pub struct WorkflowExecution {
    pub workflow_id: String,
    pub run_id: String,
}

/// A request for a workflow's history. The fields that it does not name keep their defaults.
#[derive(Clone, Debug, PartialEq, Eq)]
pub struct GetWorkflowExecutionHistoryRequest {
    pub namespace: String,
    pub execution: Option<WorkflowExecution>,
    pub next_page_token: Vec<u8>,
}

/// The response to a legacy query.
#[derive(Clone, Debug, PartialEq, Eq)]
pub struct RespondQueryTaskCompletedRequest {
    pub task_token: Vec<u8>,
    pub completed_type: QueryResultType,
    pub query_result: Option<Payloads>,
    pub error_message: String,
    pub namespace: String,
    pub failure: Option<Failure>,
    pub cause: WorkflowTaskFailedCause,
    pub poller_group_id: String,
}

/// A request for the description of a namespace. The fields that it does not name keep their
/// defaults.
#[derive(Clone, Debug, PartialEq, Eq)]
pub struct DescribeNamespaceRequest {
    pub namespace: String,
}

/// A request to shut a worker down.
#[derive(Clone, Debug, PartialEq, Eq)]
pub struct ShutdownWorkerRequest {
    pub namespace: String,
    pub identity: String,
    pub sticky_task_queue: String,
    pub reason: String,
    pub worker_heartbeat: Option<WorkerHeartbeat>,
    pub worker_instance_key: String,
    pub task_queue: String,
    pub task_queue_types: Vec<TaskQueueType>,
}

/// A request to shut a worker down, and how to make it.
#[derive(Clone, Debug, PartialEq, Eq)]
pub struct ShutdownCall {
    pub message: ShutdownWorkerRequest,
    /// Whether the call is retried when it fails.
    pub retried: bool,
}

/// Heartbeats of workers.
#[derive(Clone, Debug, PartialEq, Eq)]
pub struct RecordWorkerHeartbeatRequest {
    pub namespace: String,
    pub identity: String,
    pub worker_heartbeat: Vec<WorkerHeartbeat>,
    pub resource_id: String,
}

/// Whether `pages` are what is sent of `request`: its pages where pagination is permitted, and
/// otherwise the request as it is.
pub open spec fn completion_pages(
    request: RespondWorkflowTaskCompletedRequest,
    pagination_enabled: bool,
    pages: Seq<RespondWorkflowTaskCompletedRequest>,
) -> bool {
    if pagination_enabled {
        are_pages(request, MAX_WFT_COMPLETION_PAGE_SIZE as nat, pages)
    } else {
        pages == seq![request]
    }
}

impl WorkerClientBag {
    /// Whether `request` is the request that completes a workflow task with `completion`.
    pub open spec fn is_completion_request<F: Fn(&str, &str) -> String>(
        self,
        connection: ConnectionInfo,
        completion: WorkflowTaskCompletion,
        queue_name: F,
        request: RespondWorkflowTaskCompletedRequest,
    ) -> bool {
        &&& request.task_token == completion.task_token.0
        &&& request.commands == completion.commands
        &&& request.messages == completion.messages
        &&& request.identity@ == connection.identity@
        &&& request.sticky_attributes == completion.sticky_attributes
        &&& request.return_new_workflow_task == completion.return_new_workflow_task
        &&& request.force_create_new_workflow_task == completion.force_create_new_workflow_task
        &&& self.is_version_stamp(connection, request.worker_version_stamp)
        &&& request.binary_checksum@ == self.spec_binary_checksum(connection)
        &&& request.query_results.wf()
        &&& request.query_results@ == collected(completion.query_responses@)
        &&& request.namespace@ == self.namespace@
        &&& request.sdk_metadata == Some(completion.sdk_metadata)
        &&& request.metering_metadata == Some(completion.metering_metadata)
        &&& request.capabilities == Some(
            CompletionCapabilities { discard_speculative_workflow_task_with_events: true },
        )
        &&& request.deployment is None
        &&& request.versioning_behavior == completion.versioning_behavior
        &&& self.is_deployment_options(request.deployment_options)
        &&& request.worker_instance_key@ == uuid_text(self.worker_instance_key)
        &&& self.is_control_task_queue(connection, queue_name, request.worker_control_task_queue)
        &&& request.resource_id@.len() == 0
        &&& request.page_number == 0
        &&& !request.intermediate_page
    }

    /// The request that completes a workflow task with `completion`, as one page.
    pub fn completion_request<F: Fn(&str, &str) -> String>(
        &self,
        connection: &ConnectionInfo,
        completion: WorkflowTaskCompletion,
        queue_name: &F,
    ) -> (request: RespondWorkflowTaskCompletedRequest)
        requires
            forall|namespace: &str, key: &str| #[trigger]
                call_requires(*queue_name, (namespace, key)),
        ensures
            self.is_completion_request(*connection, completion, *queue_name, request),
            request.return_new_workflow_task == completion.return_new_workflow_task,
            request.force_create_new_workflow_task == completion.force_create_new_workflow_task,
    {
        RespondWorkflowTaskCompletedRequest {
            task_token: completion.task_token.0,
            commands: completion.commands,
            messages: completion.messages,
            identity: self.identity(connection),
            sticky_attributes: completion.sticky_attributes,
            return_new_workflow_task: completion.return_new_workflow_task,
            force_create_new_workflow_task: completion.force_create_new_workflow_task,
            worker_version_stamp: self.worker_version_stamp(connection),
            binary_checksum: self.binary_checksum(connection),
            query_results: QueryResults::collect(completion.query_responses),
            namespace: self.namespace.clone(),
            sdk_metadata: Some(completion.sdk_metadata),
            metering_metadata: Some(completion.metering_metadata),
            capabilities: Some(
                CompletionCapabilities { discard_speculative_workflow_task_with_events: true },
            ),
            // No longer used, and never set.
            deployment: None,
            versioning_behavior: completion.versioning_behavior,
            deployment_options: self.deployment_options(),
            worker_instance_key: uuid_to_string(self.worker_instance_key),
            worker_control_task_queue: self.worker_control_task_queue(connection, queue_name),
            resource_id: String::new(),
            page_number: 0,
            intermediate_page: false,
        }
    }

    /// Completes a workflow task. Where the namespace permits it and the completion is too large for
    /// one request, it is split into pages that share one task token. Otherwise one request is sent,
    /// and the server rejects it when it is too large.
    pub fn complete_workflow_task<R, F: Fn(&str, &str) -> String>(
        &self,
        connection: &ConnectionInfo,
        completion: WorkflowTaskCompletion,
        queue_name: &F,
    ) -> (started: (CompletionSender, SendStep<R>))
        requires
            forall|namespace: &str, key: &str| #[trigger]
                call_requires(*queue_name, (namespace, key)),
        ensures
            exists|request: RespondWorkflowTaskCompletedRequest|
                {
                    &&& #[trigger] self.is_completion_request(
                        *connection,
                        completion,
                        *queue_name,
                        request,
                    )
                    &&& completion_pages(request, completion.pagination_enabled, started.0.pages@)
                },
            started.0.wf(),
            started.0.state == SendState::initial(started.0.pages@.len()),
            started.1 == if started.0.pages@.len() == 1 {
                SendStep::<R>::SendOnly
            } else {
                SendStep::<R>::SendIntermediate
            },
    {
        let pagination_enabled = completion.pagination_enabled;
        let request = self.completion_request(connection, completion, queue_name);
        let pages = if pagination_enabled {
            paginate_wft_completion(request, MAX_WFT_COMPLETION_PAGE_SIZE)
        } else {
            let pages = vec![request];
            assert(pages@ =~= seq![request]);
            pages
        };
        CompletionSender::new(pages)
    }

    /// Completes an activity task with its result.
    pub fn complete_activity_task(
        &self,
        connection: &ConnectionInfo,
        task_token: TaskToken,
        result: Option<Payloads>,
    ) -> (request: RespondActivityTaskCompletedRequest)
        ensures
            request.task_token == task_token.0,
            request.result == result,
            request.identity@ == connection.identity@,
            request.namespace@ == self.namespace@,
            self.is_version_stamp(*connection, request.worker_version),
            request.deployment is None,
            self.is_deployment_options(request.deployment_options),
            request.resource_id@.len() == 0,
    {
        RespondActivityTaskCompletedRequest {
            task_token: task_token.0,
            result,
            identity: self.identity(connection),
            namespace: self.namespace.clone(),
            worker_version: self.worker_version_stamp(connection),
            // No longer used, and never set.
            deployment: None,
            deployment_options: self.deployment_options(),
            resource_id: String::new(),
        }
    }

    /// Completes a Nexus task with its response.
    pub fn complete_nexus_task(
        &self,
        connection: &ConnectionInfo,
        task_token: TaskToken,
        response: NexusResponse,
    ) -> (request: RespondNexusTaskCompletedRequest)
        ensures
            request.namespace@ == self.namespace@,
            request.identity@ == connection.identity@,
            request.task_token == task_token.0,
            request.response == Some(response),
            request.poller_group_id@.len() == 0,
    {
        RespondNexusTaskCompletedRequest {
            namespace: self.namespace.clone(),
            identity: self.identity(connection),
            task_token: task_token.0,
            response: Some(response),
            poller_group_id: String::new(),
        }
    }

    /// Records a heartbeat of an activity.
    pub fn record_activity_heartbeat(
        &self,
        connection: &ConnectionInfo,
        task_token: TaskToken,
        details: Option<Payloads>,
    ) -> (request: RecordActivityTaskHeartbeatRequest)
        ensures
            request.task_token == task_token.0,
            request.details == details,
            request.identity@ == connection.identity@,
            request.namespace@ == self.namespace@,
            request.resource_id@.len() == 0,
    {
        RecordActivityTaskHeartbeatRequest {
            task_token: task_token.0,
            details,
            identity: self.identity(connection),
            namespace: self.namespace.clone(),
            resource_id: String::new(),
        }
    }

    /// Ends an activity task as canceled.
    pub fn cancel_activity_task(
        &self,
        connection: &ConnectionInfo,
        task_token: TaskToken,
        details: Option<Payloads>,
    ) -> (request: RespondActivityTaskCanceledRequest)
        ensures
            request.task_token == task_token.0,
            request.details == details,
            request.identity@ == connection.identity@,
            request.namespace@ == self.namespace@,
            self.is_version_stamp(*connection, request.worker_version),
            request.deployment is None,
            self.is_deployment_options(request.deployment_options),
            request.resource_id@.len() == 0,
    {
        RespondActivityTaskCanceledRequest {
            task_token: task_token.0,
            details,
            identity: self.identity(connection),
            namespace: self.namespace.clone(),
            worker_version: self.worker_version_stamp(connection),
            // No longer used, and never set.
            deployment: None,
            deployment_options: self.deployment_options(),
            resource_id: String::new(),
        }
    }

    /// Fails an activity task.
    pub fn fail_activity_task(
        &self,
        connection: &ConnectionInfo,
        task_token: TaskToken,
        failure: Option<Failure>,
    ) -> (request: RespondActivityTaskFailedRequest)
        ensures
            request.task_token == task_token.0,
            request.failure == failure,
            request.identity@ == connection.identity@,
            request.namespace@ == self.namespace@,
            request.last_heartbeat_details is None,
            self.is_version_stamp(*connection, request.worker_version),
            request.deployment is None,
            self.is_deployment_options(request.deployment_options),
            request.resource_id@.len() == 0,
    {
        RespondActivityTaskFailedRequest {
            task_token: task_token.0,
            failure,
            identity: self.identity(connection),
            namespace: self.namespace.clone(),
            last_heartbeat_details: None,
            worker_version: self.worker_version_stamp(connection),
            // No longer used, and never set.
            deployment: None,
            deployment_options: self.deployment_options(),
            resource_id: String::new(),
        }
    }

    /// Fails a workflow task.
    pub fn fail_workflow_task(
        &self,
        connection: &ConnectionInfo,
        task_token: TaskToken,
        cause: WorkflowTaskFailedCause,
        failure: Option<Failure>,
    ) -> (request: RespondWorkflowTaskFailedRequest)
        ensures
            request.task_token == task_token.0,
            request.cause == cause,
            request.failure == failure,
            request.identity@ == connection.identity@,
            request.binary_checksum@ == self.spec_binary_checksum(*connection),
            request.namespace@ == self.namespace@,
            request.messages@.len() == 0,
            self.is_version_stamp(*connection, request.worker_version),
            request.deployment is None,
            self.is_deployment_options(request.deployment_options),
            request.resource_id@.len() == 0,
    {
        RespondWorkflowTaskFailedRequest {
            task_token: task_token.0,
            cause,
            failure,
            identity: self.identity(connection),
            binary_checksum: self.binary_checksum(connection),
            namespace: self.namespace.clone(),
            messages: Vec::new(),
            worker_version: self.worker_version_stamp(connection),
            // No longer used, and never set.
            deployment: None,
            deployment_options: self.deployment_options(),
            resource_id: String::new(),
        }
    }

    /// Fails a Nexus task, with a handler error or with a failure.
    pub fn fail_nexus_task(
        &self,
        connection: &ConnectionInfo,
        task_token: TaskToken,
        error: NexusTaskFailure,
    ) -> (request: RespondNexusTaskFailedRequest)
        ensures
            request.namespace@ == self.namespace@,
            request.identity@ == connection.identity@,
            request.task_token == task_token.0,
            (request.error, request.failure) == match error {
                NexusTaskFailure::Legacy(handler_error) => (Some(handler_error), None::<Failure>),
                NexusTaskFailure::Temporal(failure) => (None::<HandlerError>, Some(failure)),
            },
            request.poller_group_id@.len() == 0,
    {
        let (error, failure) = match error {
            NexusTaskFailure::Legacy(handler_error) => (Some(handler_error), None),
            NexusTaskFailure::Temporal(failure) => (None, Some(failure)),
        };
        RespondNexusTaskFailedRequest {
            namespace: self.namespace.clone(),
            identity: self.identity(connection),
            task_token: task_token.0,
            failure,
            error,
            poller_group_id: String::new(),
        }
    }

    /// Asks for a page of a workflow's history, of its last run where no run is named.
    pub fn get_workflow_execution_history(
        &self,
        workflow_id: String,
        run_id: Option<String>,
        page_token: Vec<u8>,
    ) -> (request: GetWorkflowExecutionHistoryRequest)
        ensures
            request.namespace@ == self.namespace@,
            request.execution matches Some(execution) && {
                &&& execution.workflow_id == workflow_id
                &&& match run_id {
                    Some(run_id) => execution.run_id == run_id,
                    None => execution.run_id@.len() == 0,
                }
            },
            request.next_page_token == page_token,
    {
        let run_id = match run_id {
            Some(run_id) => run_id,
            None => String::new(),
        };
        GetWorkflowExecutionHistoryRequest {
            namespace: self.namespace.clone(),
            execution: Some(WorkflowExecution { workflow_id, run_id }),
            next_page_token: page_token,
        }
    }

    /// Whether `request` responds to a legacy query with `result` and `cause`.
    pub open spec fn is_query_response(
        self,
        task_token: TaskToken,
        result: QueryResult,
        failure: Option<Failure>,
        cause: WorkflowTaskFailedCause,
        request: RespondQueryTaskCompletedRequest,
    ) -> bool {
        &&& request.task_token == task_token.0
        &&& request.completed_type == result.completed_type
        &&& request.query_result == result.answer
        &&& request.error_message == result.error_message
        &&& request.namespace@ == self.namespace@
        &&& match (failure, request.failure) {
            (Some(failure), Some(sent)) => failure.encoded@ == sent.encoded@,
            (None, None) => true,
            _ => false,
        }
        &&& request.cause == cause
        &&& request.poller_group_id@.len() == 0
    }

    /// Responds to a legacy query. A failure is reported as such, and also as the query result that
    /// `legacy_query_failure` makes of it. `is_cause` tells which numbers stand for a cause of
    /// failure.
    pub fn respond_legacy_query<
        F: Fn(WorkflowCompletionFailure) -> QueryResult,
        G: Fn(i32) -> bool,
    >(
        &self,
        task_token: TaskToken,
        query_result: LegacyQueryResult,
        legacy_query_failure: &F,
        is_cause: &G,
    ) -> (request: RespondQueryTaskCompletedRequest)
        requires
            forall|number: i32| #[trigger] call_requires(*is_cause, (number,)),
            forall|failure: WorkflowCompletionFailure| #[trigger]
                call_requires(*legacy_query_failure, (failure,)),
        ensures
            request.task_token == task_token.0,
            request.namespace@ == self.namespace@,
            query_result is Succeeded ==> self.is_query_response(
                task_token,
                query_result->Succeeded_0,
                None,
                WorkflowTaskFailedCause { number: 0 },
                request,
            ),
            query_result is Failed ==> {
                &&& query_result->Failed_0.is_force_cause(*is_cause, request.cause)
                &&& exists|result: QueryResult|
                    {
                        &&& #[trigger] call_ensures(
                            *legacy_query_failure,
                            (query_result->Failed_0,),
                            result,
                        )
                        &&& self.is_query_response(
                            task_token,
                            result,
                            query_result->Failed_0.failure,
                            request.cause,
                            request,
                        )
                    }
            },
    {
        let mut failure: Option<Failure> = None;
        let (query_result, cause) = match query_result {
            LegacyQueryResult::Succeeded(result) => (result, WorkflowTaskFailedCause { number: 0 }),
            LegacyQueryResult::Failed(failed) => {
                let cause = failed.force_cause(is_cause);
                failure = match &failed.failure {
                    Some(failure) => {
                        let encoded = failure.encoded.clone();
                        assert(encoded@ =~= failure.encoded@);
                        Some(Failure { encoded })
                    },
                    None => None,
                };
                (legacy_query_failure(failed), cause)
            },
        };
        let (_, completed_type, answer, error_message) = query_result.into_components();
        RespondQueryTaskCompletedRequest {
            task_token: task_token.0,
            completed_type,
            query_result: answer,
            error_message,
            namespace: self.namespace.clone(),
            failure,
            cause,
            poller_group_id: String::new(),
        }
    }

    /// Asks for the description of the namespace.
    pub fn describe_namespace(&self) -> (request: DescribeNamespaceRequest)
        ensures
            request.namespace@ == self.namespace@,
    {
        DescribeNamespaceRequest { namespace: self.namespace.clone() }
    }

    /// Shuts the worker down, with its last heartbeat. The call is not retried.
    pub fn shutdown_worker(
        &self,
        connection: &ConnectionInfo,
        now: Timestamp,
        workers: &mut HeartbeatMap,
        sticky_task_queue: String,
        task_queue: String,
        task_queue_types: Vec<TaskQueueType>,
        final_heartbeat: Option<WorkerHeartbeat>,
    ) -> (call: ShutdownCall)
        requires
            final_heartbeat matches Some(heartbeat) ==> remembered(
                old(workers)@,
                heartbeat.worker_instance_key@,
            ).in_range(heartbeat),
        ensures
            !call.retried,
            call.message.namespace@ == self.namespace@,
            call.message.identity@ == connection.identity@,
            call.message.sticky_task_queue == sticky_task_queue,
            call.message.reason@ == "graceful shutdown"@,
            match (final_heartbeat, call.message.worker_heartbeat) {
                (Some(before), Some(after)) => {
                    let last = remembered(old(workers)@, before.worker_instance_key@);
                    &&& Self::is_filled_in(*connection, last, now, before, after)
                    &&& final(workers)@ == old(workers)@.insert(
                        before.worker_instance_key@,
                        last.after(before, now),
                    )
                },
                (None, None) => final(workers)@ == old(workers)@,
                _ => false,
            },
            call.message.worker_instance_key@ == uuid_text(self.worker_instance_key),
            call.message.task_queue == task_queue,
            call.message.task_queue_types == task_queue_types,
    {
        let worker_heartbeat = match final_heartbeat {
            Some(heartbeat) => {
                let mut heartbeat = heartbeat;
                self.set_heartbeat_client_fields(connection, now, workers, &mut heartbeat);
                Some(heartbeat)
            },
            None => None,
        };
        let message = ShutdownWorkerRequest {
            namespace: self.namespace.clone(),
            identity: self.identity(connection),
            sticky_task_queue,
            reason: "graceful shutdown".to_string(),
            worker_heartbeat,
            worker_instance_key: uuid_to_string(self.worker_instance_key),
            task_queue,
            task_queue_types,
        };
        ShutdownCall { message, retried: false }
    }

    /// Records heartbeats of workers, in a namespace that need not be the client's own.
    pub fn record_worker_heartbeat(
        &self,
        connection: &ConnectionInfo,
        namespace: String,
        worker_heartbeat: Vec<WorkerHeartbeat>,
    ) -> (request: RecordWorkerHeartbeatRequest)
        ensures
            request.namespace == namespace,
            request.identity@ == connection.identity@,
            request.worker_heartbeat == worker_heartbeat,
            request.resource_id@.len() == 0,
    {
        RecordWorkerHeartbeatRequest {
            namespace,
            identity: self.identity(connection),
            worker_heartbeat,
            resource_id: String::new(),
        }
    }
}

} // verus!
