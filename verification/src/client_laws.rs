//! What holds of the requests of every worker.
use crate::client::{Capabilities, ConnectionInfo, WorkerClientBag};
use crate::message::{
    DeploymentOptions, QueryResultType, RespondWorkflowTaskCompletedRequest,
    WorkerVersionCapabilities, WorkerVersionStamp,
};
use crate::pagination::MAX_WFT_COMPLETION_PAGE_SIZE;
use crate::pagination_laws::{
    all_commands, metadata_stays_on_last_page, pages_are_numbered, pages_keep_commands,
    pages_share_routing,
};
use crate::respond::{completion_pages, WorkflowTaskCompletion};
use crate::uuid_text::{texts_tell_keys_apart, uuid_text};
use crate::versioning::{VersioningBehavior, WorkerVersioningMode, WorkerVersioningStrategy};
use vstd::prelude::*;

verus! {

/// A worker's build id goes to the server by one way: in the version stamp, for a server that
/// versions workers by build id, and otherwise in the binary checksum.
pub proof fn build_id_travels_one_way(
    client: WorkerClientBag,
    connection: ConnectionInfo,
    stamp: Option<WorkerVersionStamp>,
)
    requires
        client.is_version_stamp(connection, stamp),
    ensures
        stamp matches Some(stamp) ==> stamp.build_id@
            == client.worker_versioning_strategy.spec_build_id() && client.spec_binary_checksum(
            connection,
        ).len() == 0,
        stamp is None ==> client.spec_binary_checksum(connection)
            == client.worker_versioning_strategy.spec_build_id(),
{
}

/// A worker that is versioned says so whenever it polls, in the way of its strategy. A server that
/// does not version workers by build id is not told of a legacy strategy.
pub proof fn versioned_workers_announce_themselves(
    client: WorkerClientBag,
    connection: ConnectionInfo,
    capabilities: Option<WorkerVersionCapabilities>,
    options: Option<DeploymentOptions>,
)
    requires
        client.is_version_capabilities(connection, capabilities),
        client.is_deployment_options(options),
    ensures
        client.worker_versioning_strategy is LegacyBuildIdBased
            && connection.versions_by_build_id() <==> (capabilities matches Some(capabilities)
            && capabilities.use_versioning),
        (client.worker_versioning_strategy matches WorkerVersioningStrategy::WorkerDeploymentBased(
            deployment,
        ) && deployment.use_worker_versioning) <==> (options matches Some(options)
            && options.worker_versioning_mode == WorkerVersioningMode::Versioned),
        options is Some <==> client.worker_versioning_strategy is WorkerDeploymentBased,
{
}

/// The pages of a completion share its task token, the client's namespace and its identity. They are
/// numbered from zero, and exactly the last is not intermediate. Their commands, page after page, are
/// those of the completion, and everything else is on the last page.
pub proof fn completion_is_sent_whole<F: Fn(&str, &str) -> String>(
    client: WorkerClientBag,
    connection: ConnectionInfo,
    completion: WorkflowTaskCompletion,
    queue_name: F,
    request: RespondWorkflowTaskCompletedRequest,
    pages: Seq<RespondWorkflowTaskCompletedRequest>,
    i: int,
)
    requires
        client.is_completion_request(connection, completion, queue_name, request),
        completion_pages(request, completion.pagination_enabled, pages),
        pages.len() <= i32::MAX,
        0 <= i < pages.len(),
    ensures
        pages[i].task_token@ == completion.task_token.0@,
        pages[i].namespace@ == client.namespace@,
        pages[i].identity@ == connection.identity@,
        pages[i].page_number == i,
        pages[i].intermediate_page == (i < pages.len() - 1),
        all_commands(pages).flatten() == completion.commands@,
        pages.last().messages == completion.messages,
        pages.last().sdk_metadata == Some(completion.sdk_metadata),
        pages.last().metering_metadata == Some(completion.metering_metadata),
        pages.last().sticky_attributes == completion.sticky_attributes,
        pages.last().query_results == request.query_results,
        pages.last().return_new_workflow_task == completion.return_new_workflow_task,
        pages.last().force_create_new_workflow_task == completion.force_create_new_workflow_task,
        pages.last().versioning_behavior == completion.versioning_behavior,
        i < pages.len() - 1 ==> pages[i].messages@.len() == 0,
{
    let max = MAX_WFT_COMPLETION_PAGE_SIZE as nat;
    if completion.pagination_enabled {
        pages_share_routing(request, max, pages, i);
        pages_are_numbered(request, max, pages, i);
        pages_keep_commands(request, max, pages);
        metadata_stays_on_last_page(request, max, pages, i);
        metadata_stays_on_last_page(request, max, pages, pages.len() - 1);
    } else {
        assert(all_commands(pages) =~= seq![completion.commands@]);
        seq![completion.commands@].lemma_flatten_one_element();
    }
}

/// The build id of a worker is the one that its strategy names, in whichever way.
pub proof fn build_id_is_that_of_the_strategy(strategy: WorkerVersioningStrategy, id: &String)
    requires
        call_ensures(WorkerVersioningStrategy::build_id, (&strategy,), id),
    ensures
        strategy matches WorkerVersioningStrategy::Unversioned { build_id } ==> id@ == build_id@,
        strategy matches WorkerVersioningStrategy::WorkerDeploymentBased(options) ==> id@
            == options.version.build_id@,
        strategy matches WorkerVersioningStrategy::LegacyBuildIdBased { build_id } ==> id@
            == build_id@,
        strategy.spec_build_id() == id@,
{
}

/// Only the legacy strategy versions a whole worker by its build id.
pub proof fn only_the_legacy_strategy_is_build_id_based(
    strategy: WorkerVersioningStrategy,
    b: bool,
)
    requires
        call_ensures(WorkerVersioningStrategy::uses_build_id_based, (&strategy,), b),
    ensures
        strategy is LegacyBuildIdBased ==> b,
        strategy is Unversioned ==> !b,
        strategy is WorkerDeploymentBased ==> !b,
{
}

/// A client is what it was made of, and otherwise goes by its connection.
pub proof fn client_is_what_it_was_made_of(
    namespace: String,
    strategy: WorkerVersioningStrategy,
    key: u128,
    client: WorkerClientBag,
    connection: ConnectionInfo,
    given_namespace: String,
    given_key: u128,
    identity: String,
    capabilities: Option<Capabilities>,
    sdk: (String, String),
    grouping_key: u128,
    is_mock: bool,
)
    requires
        call_ensures(WorkerClientBag::new, (namespace, strategy, key), client),
        call_ensures(WorkerClientBag::namespace, (&client,), given_namespace),
        call_ensures(WorkerClientBag::worker_instance_key, (&client,), given_key),
        call_ensures(WorkerClientBag::identity, (&client, &connection), identity),
        call_ensures(WorkerClientBag::capabilities, (&client, &connection), capabilities),
        call_ensures(WorkerClientBag::sdk_name_and_version, (&client, &connection), sdk),
        call_ensures(WorkerClientBag::worker_grouping_key, (&client, &connection), grouping_key),
        call_ensures(WorkerClientBag::is_mock, (&client,), is_mock),
    ensures
        client.worker_versioning_strategy == strategy,
        given_namespace@ == namespace@,
        given_key == key,
        identity@ == connection.identity@,
        capabilities == connection.capabilities,
        sdk.0@ == connection.client_name@,
        sdk.1@ == connection.client_version@,
        grouping_key == connection.worker_grouping_key,
        !is_mock,
{
}

/// As long as the server's capabilities are not known, it counts as one that does not version workers
/// by build id.
pub proof fn unknown_capabilities_are_none(
    client: WorkerClientBag,
    connection: ConnectionInfo,
    capabilities: Capabilities,
)
    requires
        call_ensures(WorkerClientBag::default_capabilities, (&client, &connection), capabilities),
    ensures
        connection.capabilities is None ==> !capabilities.build_id_based_versioning,
        connection.capabilities matches Some(known) ==> capabilities == known,
        connection.versions_by_build_id() == capabilities.build_id_based_versioning,
{
}

/// The binary checksum is the worker's build id, and is empty for a server that is known to version
/// workers by build id.
pub proof fn binary_checksum_is_build_id(
    client: WorkerClientBag,
    connection: ConnectionInfo,
    checksum: String,
)
    requires
        call_ensures(WorkerClientBag::binary_checksum, (&client, &connection), checksum),
    ensures
        connection.capabilities matches Some(known) && known.build_id_based_versioning
            ==> checksum@ == Seq::<char>::empty(),
        !(connection.capabilities matches Some(known) && known.build_id_based_versioning)
            ==> checksum@ == match client.worker_versioning_strategy {
            WorkerVersioningStrategy::Unversioned { build_id } => build_id@,
            WorkerVersioningStrategy::WorkerDeploymentBased(options) => options.version.build_id@,
            WorkerVersioningStrategy::LegacyBuildIdBased { build_id } => build_id@,
        },
        client.spec_binary_checksum(connection) == checksum@,
{
}

/// A server that is known to version workers by build id, and no other, gets a stamp with the
/// worker's build id. The stamp asks for versioning exactly where the strategy is the legacy one.
pub proof fn version_stamp_tells_the_build(
    client: WorkerClientBag,
    connection: ConnectionInfo,
    stamp: Option<WorkerVersionStamp>,
)
    requires
        client.is_version_stamp(connection, stamp),
    ensures
        stamp is Some <==> (connection.capabilities matches Some(known)
            && known.build_id_based_versioning),
        stamp matches Some(stamp) ==> {
            &&& stamp.use_versioning <==> client.worker_versioning_strategy is LegacyBuildIdBased
            &&& stamp.build_id@ == match client.worker_versioning_strategy {
                WorkerVersioningStrategy::Unversioned { build_id } => build_id@,
                WorkerVersioningStrategy::WorkerDeploymentBased(options) => options.version.build_id@,
                WorkerVersioningStrategy::LegacyBuildIdBased { build_id } => build_id@,
            }
        },
{
}

/// A poll tells a server of the worker's build as the stamp of a completion does: to the same
/// servers, the same build id, and with versioning for the same strategies.
pub proof fn polls_and_completions_tell_the_same_build(
    client: WorkerClientBag,
    connection: ConnectionInfo,
    capabilities: Option<WorkerVersionCapabilities>,
    stamp: Option<WorkerVersionStamp>,
)
    requires
        client.is_version_capabilities(connection, capabilities),
        client.is_version_stamp(connection, stamp),
    ensures
        capabilities is Some <==> stamp is Some,
        capabilities is Some <==> (connection.capabilities matches Some(known)
            && known.build_id_based_versioning),
        capabilities matches Some(capabilities) ==> {
            &&& capabilities.build_id@ == stamp->0.build_id@
            &&& capabilities.use_versioning == stamp->0.use_versioning
            &&& capabilities.deployment_series_name@ == Seq::<char>::empty()
        },
{
}

/// The deployment options of a worker name the deployment, the build and the mode of its strategy. A
/// worker whose strategy is not deployment-based has none.
pub proof fn deployment_options_are_those_of_the_strategy(
    client: WorkerClientBag,
    options: Option<DeploymentOptions>,
)
    requires
        client.is_deployment_options(options),
    ensures
        client.worker_versioning_strategy matches WorkerVersioningStrategy::WorkerDeploymentBased(
            deployment,
        ) ==> {
            &&& options is Some
            &&& options->0.deployment_name@ == deployment.version.deployment_name@
            &&& options->0.build_id@ == deployment.version.build_id@
            &&& deployment.use_worker_versioning ==> options->0.worker_versioning_mode is Versioned
            &&& !deployment.use_worker_versioning
                ==> options->0.worker_versioning_mode is Unversioned
        },
        !(client.worker_versioning_strategy is WorkerDeploymentBased) ==> options is None,
{
}

/// What the functions on their own return is what the requests carry.
pub proof fn versioning_data_is_what_requests_carry(
    client: WorkerClientBag,
    connection: ConnectionInfo,
    stamp: Option<WorkerVersionStamp>,
    capabilities: Option<WorkerVersionCapabilities>,
    options: Option<DeploymentOptions>,
)
    requires
        call_ensures(WorkerClientBag::worker_version_stamp, (&client, &connection), stamp),
        call_ensures(
            WorkerClientBag::worker_version_capabilities,
            (&client, &connection),
            capabilities,
        ),
        call_ensures(WorkerClientBag::deployment_options, (&client,), options),
    ensures
        client.is_version_stamp(connection, stamp),
        client.is_version_capabilities(connection, capabilities),
        client.is_deployment_options(options),
        (stamp is Some && options is Some) ==> stamp->0.build_id@ == options->0.build_id@,
{
}

/// The control task queue is one that the naming function gives for the client's namespace and the
/// text of the key that the workers on the connection share. Where there is none, its name is empty.
pub proof fn control_task_queue_is_that_of_the_connection<F: Fn(&str, &str) -> String>(
    client: WorkerClientBag,
    connection: ConnectionInfo,
    queue_name: F,
    queue: String,
)
    requires
        client.is_control_task_queue(connection, queue_name, queue),
    ensures
        !connection.worker_control_task_queue_enabled ==> queue@ == Seq::<char>::empty(),
        connection.worker_control_task_queue_enabled ==> exists|namespace: &str, key: &str|
            {
                &&& #[trigger] call_ensures(queue_name, (namespace, key), queue)
                &&& namespace@ == client.namespace@
                &&& key@ == uuid_text(connection.worker_grouping_key)
            },
{
}

/// Two workers share a control task queue only where they share the namespace and the connection's
/// key, as long as the naming function gives different names to different arguments.
pub proof fn control_task_queues_are_apart<F: Fn(&str, &str) -> String>(
    a: WorkerClientBag,
    a_connection: ConnectionInfo,
    b: WorkerClientBag,
    b_connection: ConnectionInfo,
    queue_name: F,
    a_queue: String,
    b_queue: String,
)
    requires
        a.is_control_task_queue(a_connection, queue_name, a_queue),
        b.is_control_task_queue(b_connection, queue_name, b_queue),
        a_connection.worker_control_task_queue_enabled,
        b_connection.worker_control_task_queue_enabled,
        forall|n: &str, k: &str, q: String, m: &str, l: &str, r: String|
            #![trigger call_ensures(queue_name, (n, k), q), call_ensures(queue_name, (m, l), r)]
            call_ensures(queue_name, (n, k), q) && call_ensures(queue_name, (m, l), r) && q@ == r@
                ==> n@ == m@ && k@ == l@,
        a_queue@ == b_queue@,
    ensures
        a.namespace@ == b.namespace@,
        a_connection.worker_grouping_key == b_connection.worker_grouping_key,
{
    let (n, k) = choose|namespace: &str, key: &str|
        {
            &&& namespace@ == a.namespace@
            &&& key@ == uuid_text(a_connection.worker_grouping_key)
            &&& #[trigger] call_ensures(queue_name, (namespace, key), a_queue)
        };
    let (m, l) = choose|namespace: &str, key: &str|
        {
            &&& namespace@ == b.namespace@
            &&& key@ == uuid_text(b_connection.worker_grouping_key)
            &&& #[trigger] call_ensures(queue_name, (namespace, key), b_queue)
        };
    assert(call_ensures(queue_name, (n, k), a_queue));
    assert(call_ensures(queue_name, (m, l), b_queue));
    texts_tell_keys_apart(a_connection.worker_grouping_key, b_connection.worker_grouping_key);
}

/// The numbers that stand for enumeration values on the wire.
pub proof fn wire_numbers(
    result_type: QueryResultType,
    behavior: VersioningBehavior,
    mode: WorkerVersioningMode,
    type_number: i32,
    behavior_number: i32,
    mode_number: i32,
)
    requires
        call_ensures(QueryResultType::number, (result_type,), type_number),
        call_ensures(VersioningBehavior::number, (behavior,), behavior_number),
        call_ensures(WorkerVersioningMode::number, (mode,), mode_number),
    ensures
        result_type is Unspecified <==> type_number == 0,
        result_type is Answered <==> type_number == 1,
        result_type is Failed <==> type_number == 2,
        behavior is Unspecified <==> behavior_number == 0,
        behavior is Pinned <==> behavior_number == 1,
        behavior is AutoUpgrade <==> behavior_number == 2,
        mode is Unspecified <==> mode_number == 0,
        mode is Unversioned <==> mode_number == 1,
        mode is Versioned <==> mode_number == 2,
{
}

} // verus!
