//! Requests for tasks.
use crate::client::{ConnectionInfo, WorkerClientBag};
use crate::heartbeat::WorkerHeartbeat;
use crate::message::{DeploymentOptions, WorkerVersionCapabilities};
use crate::uuid_text::{uuid_text, uuid_to_string};
use std::time::Duration;
use vstd::prelude::*;

verus! {

/// Options shared by workflow, activity and Nexus polls. `N` tells for which statuses a poll is not
/// retried.
#[derive(Clone, Debug)]
pub struct PollOptions<N> {
    /// The name of the task queue to poll.
    pub task_queue: String,
    /// Prevents retrying on some statuses.
    pub no_retry: Option<N>,
    /// Overrides the default timeout of a poll.
    pub timeout_override: Option<Duration>,
}

/// Options of workflow task polls.
#[derive(Clone, Debug, PartialEq, Eq)]
pub struct PollWorkflowOptions {
    /// The sticky queue to poll, if any.
    pub sticky_queue_name: Option<String>,
}

/// Options of activity task polls. `R` is a rate, in tasks per second.
#[derive(Clone, Debug)]
pub struct PollActivityOptions<R> {
    /// The rate limit, if any.
    pub max_tasks_per_sec: Option<R>,
}

/// Options of Nexus task polls.
#[derive(Clone, Copy, Debug, PartialEq, Eq, Structural)]
pub struct PollNexusOptions {
    /// Whether to poll the control queue of the process, on which the server sends commands to
    /// workers.
    pub worker_commands_queue: bool,
}

impl Default for PollNexusOptions {
    fn default() -> (options: Self)
        ensures
            !options.worker_commands_queue,
    {
        PollNexusOptions { worker_commands_queue: false }
    }
}

/// The kinds of task queues.
#[derive(Clone, Copy, Debug, PartialEq, Eq, Structural)]
pub enum TaskQueueKind {
    Unspecified,
    Normal,
    Sticky,
    WorkerCommands,
}

/// A task queue.
#[derive(Clone, Debug, PartialEq, Eq)]
pub struct TaskQueue {
    pub name: String,
    pub kind: TaskQueueKind,
    /// The normal queue that a sticky one belongs to; otherwise empty.
    pub normal_name: String,
}

/// A poll for a workflow task.
#[derive(Clone, Debug, PartialEq, Eq)]
pub struct PollWorkflowTaskQueueRequest {
    pub namespace: String,
    pub task_queue: Option<TaskQueue>,
    pub identity: String,
    pub binary_checksum: String,
    pub worker_version_capabilities: Option<WorkerVersionCapabilities>,
    pub deployment_options: Option<DeploymentOptions>,
    pub worker_instance_key: String,
    pub worker_control_task_queue: String,
    pub poller_group_id: String,
}

/// What the poller asks of a task queue.
#[derive(Clone, Debug)]
pub struct TaskQueueMetadata<R> {
    pub max_tasks_per_second: Option<R>,
}

/// A poll for an activity task.
#[derive(Clone, Debug)]
pub struct PollActivityTaskQueueRequest<R> {
    pub namespace: String,
    pub task_queue: Option<TaskQueue>,
    pub identity: String,
    pub task_queue_metadata: Option<TaskQueueMetadata<R>>,
    pub worker_version_capabilities: Option<WorkerVersionCapabilities>,
    pub deployment_options: Option<DeploymentOptions>,
    pub worker_instance_key: String,
    pub worker_control_task_queue: String,
    pub poller_group_id: String,
}

/// A poll for a Nexus task.
#[derive(Clone, Debug, PartialEq, Eq)]
pub struct PollNexusTaskQueueRequest {
    pub namespace: String,
    pub task_queue: Option<TaskQueue>,
    pub identity: String,
    pub worker_version_capabilities: Option<WorkerVersionCapabilities>,
    pub deployment_options: Option<DeploymentOptions>,
    pub worker_heartbeat: Vec<WorkerHeartbeat>,
    pub worker_instance_key: String,
    pub poller_group_id: String,
}

/// A poll and how to make it.
#[derive(Clone, Debug)]
pub struct PollCall<M, N> {
    pub message: M,
    /// The call is a worker's long poll.
    pub is_worker_task_long_poll: bool,
    /// Prevents retrying on some statuses.
    pub no_retry: Option<N>,
    /// The timeout, where it is not the default.
    pub timeout: Option<Duration>,
}

impl<M, N> PollCall<M, N> {
    /// Whether the call is made as `options` ask.
    pub open spec fn follows(self, options: PollOptions<N>) -> bool {
        &&& self.is_worker_task_long_poll
        &&& self.no_retry == options.no_retry
        &&& self.timeout == options.timeout_override
    }
}

/// Whether `queue` is a queue of the given kind, which has no normal queue.
pub open spec fn is_plain_queue(
    queue: Option<TaskQueue>,
    name: Seq<char>,
    kind: TaskQueueKind,
) -> bool {
    &&& queue matches Some(queue)
    &&& queue.name@ == name
    &&& queue.kind == kind
    &&& queue.normal_name@.len() == 0
}

impl WorkerClientBag {
    /// A poll for a workflow task, on the sticky queue where there is one and otherwise on the normal
    /// queue.
    pub fn poll_workflow_task<N, F: Fn(&str, &str) -> String>(
        &self,
        connection: &ConnectionInfo,
        poll_options: PollOptions<N>,
        wf_options: PollWorkflowOptions,
        queue_name: &F,
    ) -> (call: PollCall<PollWorkflowTaskQueueRequest, N>)
        requires
            forall|namespace: &str, key: &str| #[trigger]
                call_requires(*queue_name, (namespace, key)),
        ensures
            call.follows(poll_options),
            call.message.namespace@ == self.namespace@,
            match wf_options.sticky_queue_name {
                Some(sticky) => call.message.task_queue == Some(
                    TaskQueue {
                        name: sticky,
                        kind: TaskQueueKind::Sticky,
                        normal_name: poll_options.task_queue,
                    },
                ),
                None => is_plain_queue(
                    call.message.task_queue,
                    poll_options.task_queue@,
                    TaskQueueKind::Normal,
                ),
            },
            call.message.identity@ == connection.identity@,
            call.message.binary_checksum@ == self.spec_binary_checksum(*connection),
            self.is_version_capabilities(*connection, call.message.worker_version_capabilities),
            self.is_deployment_options(call.message.deployment_options),
            call.message.worker_instance_key@ == uuid_text(self.worker_instance_key),
            self.is_control_task_queue(
                *connection,
                *queue_name,
                call.message.worker_control_task_queue,
            ),
            call.message.poller_group_id@.len() == 0,
    {
        let task_queue = match wf_options.sticky_queue_name {
            Some(sticky) => TaskQueue {
                name: sticky,
                kind: TaskQueueKind::Sticky,
                normal_name: poll_options.task_queue,
            },
            None => TaskQueue {
                name: poll_options.task_queue,
                kind: TaskQueueKind::Normal,
                normal_name: String::new(),
            },
        };
        let message = PollWorkflowTaskQueueRequest {
            namespace: self.namespace.clone(),
            task_queue: Some(task_queue),
            identity: self.identity(connection),
            binary_checksum: self.binary_checksum(connection),
            worker_version_capabilities: self.worker_version_capabilities(connection),
            deployment_options: self.deployment_options(),
            worker_instance_key: uuid_to_string(self.worker_instance_key),
            worker_control_task_queue: self.worker_control_task_queue(connection, queue_name),
            poller_group_id: String::new(),
        };
        PollCall {
            message,
            is_worker_task_long_poll: true,
            no_retry: poll_options.no_retry,
            timeout: poll_options.timeout_override,
        }
    }

    /// A poll for an activity task.
    pub fn poll_activity_task<N, R, F: Fn(&str, &str) -> String>(
        &self,
        connection: &ConnectionInfo,
        poll_options: PollOptions<N>,
        act_options: PollActivityOptions<R>,
        queue_name: &F,
    ) -> (call: PollCall<PollActivityTaskQueueRequest<R>, N>)
        requires
            forall|namespace: &str, key: &str| #[trigger]
                call_requires(*queue_name, (namespace, key)),
        ensures
            call.follows(poll_options),
            call.message.namespace@ == self.namespace@,
            is_plain_queue(
                call.message.task_queue,
                poll_options.task_queue@,
                TaskQueueKind::Normal,
            ),
            call.message.task_queue matches Some(queue) && queue.name@ == poll_options.task_queue@,
            call.message.identity@ == connection.identity@,
            call.message.task_queue_metadata == match act_options.max_tasks_per_sec {
                Some(rate) => Some(TaskQueueMetadata { max_tasks_per_second: Some(rate) }),
                None => None,
            },
            self.is_version_capabilities(*connection, call.message.worker_version_capabilities),
            self.is_deployment_options(call.message.deployment_options),
            call.message.worker_instance_key@ == uuid_text(self.worker_instance_key),
            self.is_control_task_queue(
                *connection,
                *queue_name,
                call.message.worker_control_task_queue,
            ),
            call.message.poller_group_id@.len() == 0,
    {
        let task_queue_metadata = match act_options.max_tasks_per_sec {
            Some(rate) => Some(TaskQueueMetadata { max_tasks_per_second: Some(rate) }),
            None => None,
        };
        let message = PollActivityTaskQueueRequest {
            namespace: self.namespace.clone(),
            task_queue: Some(
                TaskQueue {
                    name: poll_options.task_queue,
                    kind: TaskQueueKind::Normal,
                    normal_name: String::new(),
                },
            ),
            identity: self.identity(connection),
            task_queue_metadata,
            worker_version_capabilities: self.worker_version_capabilities(connection),
            deployment_options: self.deployment_options(),
            worker_instance_key: uuid_to_string(self.worker_instance_key),
            worker_control_task_queue: self.worker_control_task_queue(connection, queue_name),
            poller_group_id: String::new(),
        };
        PollCall {
            message,
            is_worker_task_long_poll: true,
            no_retry: poll_options.no_retry,
            timeout: poll_options.timeout_override,
        }
    }

    /// A poll for a Nexus task. A poll of the control queue carries no versioning metadata, even for
    /// a versioned worker, because control queues do not support versioning.
    pub fn poll_nexus_task<N>(
        &self,
        connection: &ConnectionInfo,
        poll_options: PollOptions<N>,
        nexus_options: PollNexusOptions,
    ) -> (call: PollCall<PollNexusTaskQueueRequest, N>)
        ensures
            call.follows(poll_options),
            call.message.namespace@ == self.namespace@,
            is_plain_queue(
                call.message.task_queue,
                poll_options.task_queue@,
                if nexus_options.worker_commands_queue {
                    TaskQueueKind::WorkerCommands
                } else {
                    TaskQueueKind::Normal
                },
            ),
            call.message.task_queue matches Some(queue) && queue.name@ == poll_options.task_queue@,
            call.message.identity@ == connection.identity@,
            if nexus_options.worker_commands_queue {
                &&& call.message.worker_version_capabilities is None
                &&& call.message.deployment_options is None
            } else {
                &&& self.is_version_capabilities(
                    *connection,
                    call.message.worker_version_capabilities,
                )
                &&& self.is_deployment_options(call.message.deployment_options)
            },
            call.message.worker_heartbeat@.len() == 0,
            call.message.worker_instance_key@ == uuid_text(self.worker_instance_key),
            call.message.poller_group_id@.len() == 0,
    {
        let (kind, worker_version_capabilities, deployment_options) =
            if nexus_options.worker_commands_queue {
            (TaskQueueKind::WorkerCommands, None, None)
        } else {
            (
                TaskQueueKind::Normal,
                self.worker_version_capabilities(connection),
                self.deployment_options(),
            )
        };
        let message = PollNexusTaskQueueRequest {
            namespace: self.namespace.clone(),
            task_queue: Some(
                TaskQueue { name: poll_options.task_queue, kind, normal_name: String::new() },
            ),
            identity: self.identity(connection),
            worker_version_capabilities,
            deployment_options,
            worker_heartbeat: Vec::new(),
            worker_instance_key: uuid_to_string(self.worker_instance_key),
            poller_group_id: String::new(),
        };
        PollCall {
            message,
            is_worker_task_long_poll: true,
            no_retry: poll_options.no_retry,
            timeout: poll_options.timeout_override,
        }
    }
}

} // verus!
