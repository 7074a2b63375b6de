//! What holds of every poll.
use crate::client::{ConnectionInfo, WorkerClientBag};
use crate::poll::{
    PollActivityOptions, PollActivityTaskQueueRequest, PollCall, PollNexusOptions,
    PollNexusTaskQueueRequest, PollOptions, PollWorkflowOptions, PollWorkflowTaskQueueRequest,
};
use crate::uuid_text::{texts_tell_keys_apart, uuid_text};
use vstd::prelude::*;

verus! {

/// A Nexus poll is for the queue that its options name, whether that is a control queue or not. The
/// queue is marked as what it is, and belongs to no other.
pub proof fn nexus_poll_names_its_queue<N>(
    client: WorkerClientBag,
    connection: ConnectionInfo,
    poll_options: PollOptions<N>,
    nexus_options: PollNexusOptions,
    call: PollCall<PollNexusTaskQueueRequest, N>,
)
    requires
        call_ensures(
            WorkerClientBag::poll_nexus_task::<N>,
            (&client, &connection, poll_options, nexus_options),
            call,
        ),
    ensures
        call.message.task_queue is Some,
        call.message.task_queue->0.name@ == poll_options.task_queue@,
        call.message.task_queue->0.normal_name@ == Seq::<char>::empty(),
        nexus_options.worker_commands_queue ==> call.message.task_queue->0.kind is WorkerCommands,
        !nexus_options.worker_commands_queue ==> call.message.task_queue->0.kind is Normal,
{
}

/// By default, a Nexus poll is for a normal queue.
pub proof fn default_nexus_poll_is_of_a_normal_queue<N>(
    client: WorkerClientBag,
    connection: ConnectionInfo,
    poll_options: PollOptions<N>,
    nexus_options: PollNexusOptions,
    call: PollCall<PollNexusTaskQueueRequest, N>,
)
    requires
        call_ensures(<PollNexusOptions as Default>::default, (), nexus_options),
        call_ensures(
            WorkerClientBag::poll_nexus_task::<N>,
            (&client, &connection, poll_options, nexus_options),
            call,
        ),
    ensures
        call.message.task_queue->0.kind is Normal,
        call.message.task_queue->0.name@ == poll_options.task_queue@,
{
}

/// Nexus polls of different queues name different queues, and polls of one queue the same, whoever
/// makes them.
pub proof fn nexus_polls_tell_queues_apart<N, M>(
    a: WorkerClientBag,
    a_connection: ConnectionInfo,
    a_options: PollOptions<N>,
    a_nexus: PollNexusOptions,
    a_call: PollCall<PollNexusTaskQueueRequest, N>,
    b: WorkerClientBag,
    b_connection: ConnectionInfo,
    b_options: PollOptions<M>,
    b_nexus: PollNexusOptions,
    b_call: PollCall<PollNexusTaskQueueRequest, M>,
)
    requires
        call_ensures(
            WorkerClientBag::poll_nexus_task::<N>,
            (&a, &a_connection, a_options, a_nexus),
            a_call,
        ),
        call_ensures(
            WorkerClientBag::poll_nexus_task::<M>,
            (&b, &b_connection, b_options, b_nexus),
            b_call,
        ),
    ensures
        a_options.task_queue@ == b_options.task_queue@ <==> a_call.message.task_queue->0.name@
            == b_call.message.task_queue->0.name@,
        a_nexus.worker_commands_queue == b_nexus.worker_commands_queue
            <==> a_call.message.task_queue->0.kind == b_call.message.task_queue->0.kind,
{
}

/// A Nexus poll comes from the client's worker. It tells of the worker's versions like other polls,
/// but on a control queue it tells of none, and it carries no heartbeats.
pub proof fn nexus_poll_is_by_the_worker<N>(
    client: WorkerClientBag,
    connection: ConnectionInfo,
    poll_options: PollOptions<N>,
    nexus_options: PollNexusOptions,
    call: PollCall<PollNexusTaskQueueRequest, N>,
)
    requires
        call_ensures(
            WorkerClientBag::poll_nexus_task::<N>,
            (&client, &connection, poll_options, nexus_options),
            call,
        ),
    ensures
        call.message.namespace@ == client.namespace@,
        call.message.identity@ == connection.identity@,
        call.message.worker_instance_key@ == uuid_text(client.worker_instance_key),
        call.message.worker_heartbeat@.len() == 0,
        call.message.poller_group_id@ == Seq::<char>::empty(),
        nexus_options.worker_commands_queue ==> call.message.worker_version_capabilities is None,
        nexus_options.worker_commands_queue ==> call.message.deployment_options is None,
        !nexus_options.worker_commands_queue ==> client.is_version_capabilities(
            connection,
            call.message.worker_version_capabilities,
        ),
        !nexus_options.worker_commands_queue ==> client.is_deployment_options(
            call.message.deployment_options,
        ),
        call.is_worker_task_long_poll,
        call.no_retry == poll_options.no_retry,
        call.timeout == poll_options.timeout_override,
{
}

/// A workflow poll without a sticky queue is for the normal queue that its options name. With one, it
/// is for that sticky queue, as one that belongs to the normal queue that its options name.
pub proof fn workflow_poll_names_its_queue<N, F: Fn(&str, &str) -> String>(
    client: WorkerClientBag,
    connection: ConnectionInfo,
    poll_options: PollOptions<N>,
    wf_options: PollWorkflowOptions,
    queue_name: F,
    call: PollCall<PollWorkflowTaskQueueRequest, N>,
)
    requires
        call_ensures(
            WorkerClientBag::poll_workflow_task::<N, F>,
            (&client, &connection, poll_options, wf_options, &queue_name),
            call,
        ),
    ensures
        call.message.task_queue is Some,
        wf_options.sticky_queue_name is None ==> {
            &&& call.message.task_queue->0.name@ == poll_options.task_queue@
            &&& call.message.task_queue->0.kind is Normal
            &&& call.message.task_queue->0.normal_name@ == Seq::<char>::empty()
        },
        wf_options.sticky_queue_name matches Some(sticky) ==> {
            &&& call.message.task_queue->0.name@ == sticky@
            &&& call.message.task_queue->0.kind is Sticky
            &&& call.message.task_queue->0.normal_name@ == poll_options.task_queue@
        },
{
}

/// Workflow polls for different normal queues name different normal queues, whether they go to a
/// sticky queue or not.
pub proof fn workflow_polls_tell_queues_apart<N, F: Fn(&str, &str) -> String>(
    client: WorkerClientBag,
    connection: ConnectionInfo,
    queue_name: F,
    a_options: PollOptions<N>,
    b_options: PollOptions<N>,
    wf_options: PollWorkflowOptions,
    a_call: PollCall<PollWorkflowTaskQueueRequest, N>,
    b_call: PollCall<PollWorkflowTaskQueueRequest, N>,
)
    requires
        call_ensures(
            WorkerClientBag::poll_workflow_task::<N, F>,
            (&client, &connection, a_options, wf_options, &queue_name),
            a_call,
        ),
        call_ensures(
            WorkerClientBag::poll_workflow_task::<N, F>,
            (&client, &connection, b_options, wf_options, &queue_name),
            b_call,
        ),
        a_options.task_queue@ != b_options.task_queue@,
    ensures
        wf_options.sticky_queue_name is None ==> a_call.message.task_queue->0.name@
            != b_call.message.task_queue->0.name@,
        wf_options.sticky_queue_name is Some ==> a_call.message.task_queue->0.normal_name@
            != b_call.message.task_queue->0.normal_name@,
{
}

/// A workflow poll comes from the client's worker, and tells of its versions and its control queue.
pub proof fn workflow_poll_is_by_the_worker<N, F: Fn(&str, &str) -> String>(
    client: WorkerClientBag,
    connection: ConnectionInfo,
    poll_options: PollOptions<N>,
    wf_options: PollWorkflowOptions,
    queue_name: F,
    call: PollCall<PollWorkflowTaskQueueRequest, N>,
)
    requires
        call_ensures(
            WorkerClientBag::poll_workflow_task::<N, F>,
            (&client, &connection, poll_options, wf_options, &queue_name),
            call,
        ),
    ensures
        call.message.namespace@ == client.namespace@,
        call.message.identity@ == connection.identity@,
        call.message.binary_checksum@ == client.spec_binary_checksum(connection),
        client.is_version_capabilities(connection, call.message.worker_version_capabilities),
        client.is_deployment_options(call.message.deployment_options),
        call.message.worker_instance_key@ == uuid_text(client.worker_instance_key),
        client.is_control_task_queue(
            connection,
            queue_name,
            call.message.worker_control_task_queue,
        ),
        call.message.poller_group_id@ == Seq::<char>::empty(),
        call.is_worker_task_long_poll,
        call.no_retry == poll_options.no_retry,
        call.timeout == poll_options.timeout_override,
{
}

/// An activity poll is for the normal queue that its options name, and asks for the rate that they
/// give, if they give one.
pub proof fn activity_poll_names_its_queue<N, R, F: Fn(&str, &str) -> String>(
    client: WorkerClientBag,
    connection: ConnectionInfo,
    poll_options: PollOptions<N>,
    act_options: PollActivityOptions<R>,
    queue_name: F,
    call: PollCall<PollActivityTaskQueueRequest<R>, N>,
)
    requires
        call_ensures(
            WorkerClientBag::poll_activity_task::<N, R, F>,
            (&client, &connection, poll_options, act_options, &queue_name),
            call,
        ),
    ensures
        call.message.task_queue is Some,
        call.message.task_queue->0.name@ == poll_options.task_queue@,
        call.message.task_queue->0.kind is Normal,
        call.message.task_queue->0.normal_name@ == Seq::<char>::empty(),
        call.message.task_queue_metadata is Some <==> act_options.max_tasks_per_sec is Some,
        call.message.task_queue_metadata matches Some(metadata) ==> metadata.max_tasks_per_second
            == act_options.max_tasks_per_sec,
{
}

/// An activity poll comes from the client's worker, and tells of its versions and its control queue.
pub proof fn activity_poll_is_by_the_worker<N, R, F: Fn(&str, &str) -> String>(
    client: WorkerClientBag,
    connection: ConnectionInfo,
    poll_options: PollOptions<N>,
    act_options: PollActivityOptions<R>,
    queue_name: F,
    call: PollCall<PollActivityTaskQueueRequest<R>, N>,
)
    requires
        call_ensures(
            WorkerClientBag::poll_activity_task::<N, R, F>,
            (&client, &connection, poll_options, act_options, &queue_name),
            call,
        ),
    ensures
        call.message.namespace@ == client.namespace@,
        call.message.identity@ == connection.identity@,
        client.is_version_capabilities(connection, call.message.worker_version_capabilities),
        client.is_deployment_options(call.message.deployment_options),
        call.message.worker_instance_key@ == uuid_text(client.worker_instance_key),
        client.is_control_task_queue(
            connection,
            queue_name,
            call.message.worker_control_task_queue,
        ),
        call.message.poller_group_id@ == Seq::<char>::empty(),
        call.is_worker_task_long_poll,
        call.no_retry == poll_options.no_retry,
        call.timeout == poll_options.timeout_override,
{
}

/// One worker is the same to the server in all of its polls, and two workers differ in them.
pub proof fn polls_tell_workers_apart<N, M, F: Fn(&str, &str) -> String>(
    a: WorkerClientBag,
    a_connection: ConnectionInfo,
    a_options: PollOptions<N>,
    wf_options: PollWorkflowOptions,
    queue_name: F,
    a_call: PollCall<PollWorkflowTaskQueueRequest, N>,
    b: WorkerClientBag,
    b_connection: ConnectionInfo,
    b_options: PollOptions<M>,
    nexus_options: PollNexusOptions,
    b_call: PollCall<PollNexusTaskQueueRequest, M>,
)
    requires
        call_ensures(
            WorkerClientBag::poll_workflow_task::<N, F>,
            (&a, &a_connection, a_options, wf_options, &queue_name),
            a_call,
        ),
        call_ensures(
            WorkerClientBag::poll_nexus_task::<M>,
            (&b, &b_connection, b_options, nexus_options),
            b_call,
        ),
    ensures
        a_call.message.worker_instance_key@ == b_call.message.worker_instance_key@
            <==> a.worker_instance_key == b.worker_instance_key,
{
    if a_call.message.worker_instance_key@ == b_call.message.worker_instance_key@ {
        texts_tell_keys_apart(a.worker_instance_key, b.worker_instance_key);
    }
}

} // verus!
