//! A worker's client: what every request takes from the worker and from its connection.
use crate::heartbeat::{
    duration_of, elapsed_between, nanos_between, remembered, update_slots, with_intervals,
    ClientHeartbeatData, HeartbeatMap, Timestamp, WorkerHeartbeat, WorkerHostInfo,
};
use crate::message::{DeploymentOptions, WorkerVersionCapabilities, WorkerVersionStamp};
use crate::uuid_text::{uuid_text, uuid_to_string};
use crate::versioning::{WorkerVersioningMode, WorkerVersioningStrategy};
use vstd::prelude::*;

verus! {

/// What the server can do, as far as requests depend on it.
#[derive(Clone, Copy, Debug, PartialEq, Eq, Structural)]
pub struct Capabilities {
    /// The server versions workers by their build id.
    pub build_id_based_versioning: bool,
}

impl Default for Capabilities {
    fn default() -> (capabilities: Self)
        ensures
            !capabilities.build_id_based_versioning,
    {
        Capabilities { build_id_based_versioning: false }
    }
}

/// What a worker's connection to the server knows at the moment a request is made. The connection
/// may be replaced between two requests.
#[derive(Clone, Debug, PartialEq, Eq)]
pub struct ConnectionInfo {
    /// The identity under which the client appears.
    pub identity: String,
    /// The server's capabilities, once they are known.
    pub capabilities: Option<Capabilities>,
    /// The name of the SDK.
    pub client_name: String,
    /// The version of the SDK.
    pub client_version: String,
    /// The key that the workers on this connection share.
    pub worker_grouping_key: u128,
    /// Whether the workers of the client's namespace have a control task queue.
    pub worker_control_task_queue_enabled: bool,
}

impl ConnectionInfo {
    /// Whether the server is known to version workers by their build id.
    pub open spec fn versions_by_build_id(self) -> bool {
        match self.capabilities {
            Some(capabilities) => capabilities.build_id_based_versioning,
            None => false,
        }
    }
}

/// Everything but the connection that a worker needs to make requests.
#[derive(Clone, Debug, PartialEq, Eq)]
pub struct WorkerClientBag {
    pub namespace: String,
    pub worker_versioning_strategy: WorkerVersioningStrategy,
    /// Identifies this worker among all others.
    pub worker_instance_key: u128,
}

impl WorkerClientBag {
    /// A client for a worker.
    pub fn new(
        namespace: String,
        worker_versioning_strategy: WorkerVersioningStrategy,
        worker_instance_key: u128,
    ) -> (client: Self)
        ensures
            client.namespace == namespace,
            client.worker_versioning_strategy == worker_versioning_strategy,
            client.worker_instance_key == worker_instance_key,
    {
        WorkerClientBag { namespace, worker_versioning_strategy, worker_instance_key }
    }

    /// The namespace of the worker.
    pub fn namespace(&self) -> (namespace: String)
        ensures
            namespace@ == self.namespace@,
    {
        self.namespace.clone()
    }

    /// The identity under which the worker appears.
    pub fn identity(&self, connection: &ConnectionInfo) -> (identity: String)
        ensures
            identity@ == connection.identity@,
    {
        connection.identity.clone()
    }

    /// The server's capabilities, if they are known.
    pub fn capabilities(&self, connection: &ConnectionInfo) -> (capabilities: Option<Capabilities>)
        ensures
            capabilities == connection.capabilities,
    {
        connection.capabilities
    }

    /// The server's capabilities; none, as long as they are not known.
    pub fn default_capabilities(&self, connection: &ConnectionInfo) -> (capabilities: Capabilities)
        ensures
            capabilities.build_id_based_versioning == connection.versions_by_build_id(),
    {
        match self.capabilities(connection) {
            Some(capabilities) => capabilities,
            None => Capabilities::default(),
        }
    }

    /// This is no mock.
    pub fn is_mock(&self) -> (b: bool)
        ensures
            !b,
    {
        false
    }

    /// The name and the version of the SDK.
    pub fn sdk_name_and_version(&self, connection: &ConnectionInfo) -> (name_and_version: (
        String,
        String,
    ))
        ensures
            name_and_version.0@ == connection.client_name@,
            name_and_version.1@ == connection.client_version@,
    {
        (connection.client_name.clone(), connection.client_version.clone())
    }

    /// The key that the workers on the connection share.
    pub fn worker_grouping_key(&self, connection: &ConnectionInfo) -> (key: u128)
        ensures
            key == connection.worker_grouping_key,
    {
        connection.worker_grouping_key
    }

    /// The key that identifies this worker.
    pub fn worker_instance_key(&self) -> (key: u128)
        ensures
            key == self.worker_instance_key,
    {
        self.worker_instance_key
    }

    /// The build id, in the field that a server reads that does not version workers by build id.
    pub open spec fn spec_binary_checksum(self, connection: ConnectionInfo) -> Seq<char> {
        if connection.versions_by_build_id() {
            Seq::empty()
        } else {
            self.worker_versioning_strategy.spec_build_id()
        }
    }

    /// The build id, in the field that a server reads that does not version workers by build id.
    pub fn binary_checksum(&self, connection: &ConnectionInfo) -> (checksum: String)
        ensures
            checksum@ == self.spec_binary_checksum(*connection),
    {
        if self.default_capabilities(connection).build_id_based_versioning {
            String::new()
        } else {
            self.worker_versioning_strategy.build_id().clone()
        }
    }

    /// Whether `options` are the deployment options of the worker: those of its strategy, if that is
    /// deployment-based.
    pub open spec fn is_deployment_options(self, options: Option<DeploymentOptions>) -> bool {
        match (self.worker_versioning_strategy, options) {
            (WorkerVersioningStrategy::WorkerDeploymentBased(deployment), Some(options)) => {
                &&& options.deployment_name@ == deployment.version.deployment_name@
                &&& options.build_id@ == deployment.version.build_id@
                &&& options.worker_versioning_mode == if deployment.use_worker_versioning {
                    WorkerVersioningMode::Versioned
                } else {
                    WorkerVersioningMode::Unversioned
                }
            },
            (WorkerVersioningStrategy::WorkerDeploymentBased(_), None) => false,
            (_, options) => options is None,
        }
    }

    /// The deployment options of the worker.
    pub fn deployment_options(&self) -> (options: Option<DeploymentOptions>)
        ensures
            self.is_deployment_options(options),
    {
        match &self.worker_versioning_strategy {
            WorkerVersioningStrategy::WorkerDeploymentBased(deployment) => Some(
                DeploymentOptions {
                    deployment_name: deployment.version.deployment_name.clone(),
                    build_id: deployment.version.build_id.clone(),
                    worker_versioning_mode: if deployment.use_worker_versioning {
                        WorkerVersioningMode::Versioned
                    } else {
                        WorkerVersioningMode::Unversioned
                    },
                },
            ),
            _ => None,
        }
    }

    /// Whether `capabilities` are what a polling worker tells a server of its build: nothing, unless
    /// the server versions workers by build id.
    pub open spec fn is_version_capabilities(
        self,
        connection: ConnectionInfo,
        capabilities: Option<WorkerVersionCapabilities>,
    ) -> bool {
        match capabilities {
            Some(capabilities) => {
                &&& connection.versions_by_build_id()
                &&& capabilities.build_id@ == self.worker_versioning_strategy.spec_build_id()
                &&& capabilities.use_versioning == (self.worker_versioning_strategy
                    is LegacyBuildIdBased)
                &&& capabilities.deployment_series_name@.len() == 0
            },
            None => !connection.versions_by_build_id(),
        }
    }

    /// What a polling worker tells a server of its build.
    pub fn worker_version_capabilities(&self, connection: &ConnectionInfo) -> (capabilities: Option<
        WorkerVersionCapabilities,
    >)
        ensures
            self.is_version_capabilities(*connection, capabilities),
    {
        if self.default_capabilities(connection).build_id_based_versioning {
            Some(
                WorkerVersionCapabilities {
                    build_id: self.worker_versioning_strategy.build_id().clone(),
                    use_versioning: self.worker_versioning_strategy.uses_build_id_based(),
                    // Belongs to a form of versioning that workers never supported.
                    deployment_series_name: String::new(),
                },
            )
        } else {
            None
        }
    }

    /// Whether `stamp` is what a completion tells a server of the worker's build: nothing, unless the
    /// server versions workers by build id.
    pub open spec fn is_version_stamp(
        self,
        connection: ConnectionInfo,
        stamp: Option<WorkerVersionStamp>,
    ) -> bool {
        match stamp {
            Some(stamp) => {
                &&& connection.versions_by_build_id()
                &&& stamp.build_id@ == self.worker_versioning_strategy.spec_build_id()
                &&& stamp.use_versioning == (self.worker_versioning_strategy is LegacyBuildIdBased)
            },
            None => !connection.versions_by_build_id(),
        }
    }

    /// What a completion tells a server of the worker's build.
    pub fn worker_version_stamp(&self, connection: &ConnectionInfo) -> (stamp: Option<
        WorkerVersionStamp,
    >)
        ensures
            self.is_version_stamp(*connection, stamp),
    {
        if self.default_capabilities(connection).build_id_based_versioning {
            Some(
                WorkerVersionStamp {
                    build_id: self.worker_versioning_strategy.build_id().clone(),
                    use_versioning: self.worker_versioning_strategy.uses_build_id_based(),
                },
            )
        } else {
            None
        }
    }

    /// Whether `queue` is the worker's control task queue: where there is one, a name that
    /// `queue_name` gives for the namespace and the text of the grouping key, and otherwise empty.
    pub open spec fn is_control_task_queue<F: Fn(&str, &str) -> String>(
        self,
        connection: ConnectionInfo,
        queue_name: F,
        queue: String,
    ) -> bool {
        if connection.worker_control_task_queue_enabled {
            exists|namespace: &str, key: &str|
                {
                    &&& namespace@ == self.namespace@
                    &&& key@ == uuid_text(connection.worker_grouping_key)
                    &&& #[trigger] call_ensures(queue_name, (namespace, key), queue)
                }
        } else {
            queue@.len() == 0
        }
    }

    /// The worker's control task queue, by the name that `queue_name` gives it; empty where there is
    /// none.
    pub fn worker_control_task_queue<F: Fn(&str, &str) -> String>(
        &self,
        connection: &ConnectionInfo,
        queue_name: &F,
    ) -> (queue: String)
        requires
            forall|namespace: &str, key: &str| #[trigger]
                call_requires(*queue_name, (namespace, key)),
        ensures
            self.is_control_task_queue(*connection, *queue_name, queue),
    {
        if connection.worker_control_task_queue_enabled {
            let key = uuid_to_string(connection.worker_grouping_key);
            let queue = queue_name(self.namespace.as_str(), key.as_str());
            queue
        } else {
            String::new()
        }
    }

    /// Whether `host` is `before` with the key that the workers on the connection share.
    pub open spec fn is_filled_in_host(
        connection: ConnectionInfo,
        before: Option<WorkerHostInfo>,
        host: Option<WorkerHostInfo>,
    ) -> bool {
        match (before, host) {
            (Some(before), Some(host)) => {
                &&& host.worker_grouping_key@ == uuid_text(connection.worker_grouping_key)
                &&& host.other_fields == before.other_fields
            },
            (None, None) => true,
            _ => false,
        }
    }

    /// Whether `after` is the heartbeat `before` with the fields filled in that rely on the client:
    /// who sends it, when, and what happened since the heartbeat that `last` was remembered of.
    pub open spec fn is_filled_in(
        connection: ConnectionInfo,
        last: ClientHeartbeatData,
        now: Timestamp,
        before: WorkerHeartbeat,
        after: WorkerHeartbeat,
    ) -> bool {
        &&& after.worker_instance_key == before.worker_instance_key
        &&& after.worker_identity@ == connection.identity@
        &&& Self::is_filled_in_host(connection, before.host_info, after.host_info)
        &&& after.sdk_name@ == connection.client_name@
        &&& after.sdk_version@ == connection.client_version@
        &&& after.heartbeat_time == Some(now)
        &&& after.elapsed_since_last_heartbeat == match last.last_heartbeat_time {
            Some(time) => Some(duration_of(nanos_between(time, now))),
            None => None,
        }
        &&& after.workflow_task_slots_info == with_intervals(
            before.workflow_task_slots_info,
            last.workflow_task_slots_info,
        )
        &&& after.activity_task_slots_info == with_intervals(
            before.activity_task_slots_info,
            last.activity_task_slots_info,
        )
        &&& after.nexus_task_slots_info == with_intervals(
            before.nexus_task_slots_info,
            last.nexus_task_slots_info,
        )
        &&& after.local_activity_slots_info == with_intervals(
            before.local_activity_slots_info,
            last.local_activity_slots_info,
        )
        &&& after.other_fields == before.other_fields
    }

    /// Fills in the fields of a heartbeat that rely on the client, and remembers the heartbeat as the
    /// last one of its worker.
    pub fn set_heartbeat_client_fields(
        &self,
        connection: &ConnectionInfo,
        now: Timestamp,
        workers: &mut HeartbeatMap,
        heartbeat: &mut WorkerHeartbeat,
    )
        requires
            remembered(old(workers)@, old(heartbeat).worker_instance_key@).in_range(
                *old(heartbeat),
            ),
        ensures
            Self::is_filled_in(
                *connection,
                remembered(old(workers)@, old(heartbeat).worker_instance_key@),
                now,
                *old(heartbeat),
                *final(heartbeat),
            ),
            final(heartbeat).heartbeat_time == Some(now),
            final(workers)@ == old(workers)@.insert(
                old(heartbeat).worker_instance_key@,
                remembered(old(workers)@, old(heartbeat).worker_instance_key@).after(
                    *old(heartbeat),
                    now,
                ),
            ),
    {
        match &mut heartbeat.host_info {
            Some(host_info) => {
                host_info.worker_grouping_key = uuid_to_string(
                    self.worker_grouping_key(connection),
                );
            },
            None => {},
        }
        heartbeat.worker_identity = self.identity(connection);
        let sdk_name_and_version = self.sdk_name_and_version(connection);
        heartbeat.sdk_name = sdk_name_and_version.0;
        heartbeat.sdk_version = sdk_name_and_version.1;
        heartbeat.heartbeat_time = Some(now);
        let mut data = workers.get(&heartbeat.worker_instance_key);
        heartbeat.elapsed_since_last_heartbeat = match data.last_heartbeat_time {
            Some(time) => Some(elapsed_between(time, now)),
            None => None,
        };
        data.last_heartbeat_time = Some(now);
        update_slots(
            &mut heartbeat.workflow_task_slots_info,
            &mut data.workflow_task_slots_info,
        );
        update_slots(
            &mut heartbeat.activity_task_slots_info,
            &mut data.activity_task_slots_info,
        );
        update_slots(&mut heartbeat.nexus_task_slots_info, &mut data.nexus_task_slots_info);
        update_slots(
            &mut heartbeat.local_activity_slots_info,
            &mut data.local_activity_slots_info,
        );
        workers.insert(heartbeat.worker_instance_key.clone(), data);
    }
}

} // verus!
