//! Heartbeats of workers, and what a client remembers from one to the next.
use vstd::hash_map::StringHashMap;
use vstd::prelude::*;

verus! {

/// A point in time: seconds and nanoseconds since the Unix epoch.
#[derive(Clone, Copy, Debug, PartialEq, Eq, Structural)]
pub struct Timestamp {
    pub seconds: i64,
    pub nanos: i32,
}

impl Timestamp {
    /// The point in time as nanoseconds since the Unix epoch.
    pub open spec fn as_nanos(self) -> int {
        self.seconds * 1_000_000_000 + self.nanos
    }
}

/// A span of time.
#[derive(Clone, Copy, Debug, PartialEq, Eq, Structural)]
pub struct PbDuration {
    pub seconds: i64,
    pub nanos: i32,
}

/// The host that a worker runs on.
#[derive(Clone, Debug, PartialEq, Eq)]
pub struct WorkerHostInfo {
    pub worker_grouping_key: String,
    /// The remaining fields, in wire form.
    pub other_fields: Vec<u8>,
}

/// The slots of a worker for one kind of task.
#[derive(Clone, Debug, PartialEq, Eq)]
pub struct WorkerSlotsInfo {
    pub total_processed_tasks: i32,
    pub total_failed_tasks: i32,
    pub last_interval_processed_tasks: i32,
    pub last_interval_failure_tasks: i32,
    /// The remaining fields, in wire form.
    pub other_fields: Vec<u8>,
}

/// What a worker reports of itself from time to time.
#[derive(Clone, Debug, PartialEq, Eq)]
pub struct WorkerHeartbeat {
    pub worker_instance_key: String,
    pub worker_identity: String,
    pub host_info: Option<WorkerHostInfo>,
    pub sdk_name: String,
    pub sdk_version: String,
    pub heartbeat_time: Option<Timestamp>,
    pub elapsed_since_last_heartbeat: Option<PbDuration>,
    pub workflow_task_slots_info: Option<WorkerSlotsInfo>,
    pub activity_task_slots_info: Option<WorkerSlotsInfo>,
    pub nexus_task_slots_info: Option<WorkerSlotsInfo>,
    pub local_activity_slots_info: Option<WorkerSlotsInfo>,
    /// The remaining fields, in wire form.
    pub other_fields: Vec<u8>,
}

/// The totals that were reported last for one kind of task.
#[derive(Clone, Copy, Debug, PartialEq, Eq, Structural)]
pub struct SlotsInfo {
    pub total_processed_tasks: i32,
    pub total_failed_tasks: i32,
}

/// What a client remembers of a worker's last heartbeat.
#[derive(Clone, Copy, Debug, PartialEq, Eq, Structural)]
pub struct ClientHeartbeatData {
    pub last_heartbeat_time: Option<Timestamp>,
    pub workflow_task_slots_info: SlotsInfo,
    pub activity_task_slots_info: SlotsInfo,
    pub nexus_task_slots_info: SlotsInfo,
    pub local_activity_slots_info: SlotsInfo,
}

impl SlotsInfo {
    /// The totals before any report.
    pub open spec fn zero() -> SlotsInfo {
        SlotsInfo { total_processed_tasks: 0, total_failed_tasks: 0 }
    }
}

impl Default for SlotsInfo {
    fn default() -> (info: Self)
        ensures
            info == SlotsInfo::zero(),
    {
        SlotsInfo { total_processed_tasks: 0, total_failed_tasks: 0 }
    }
}

impl ClientHeartbeatData {
    /// What is remembered of a worker that has not sent a heartbeat.
    pub open spec fn unknown() -> ClientHeartbeatData {
        ClientHeartbeatData {
            last_heartbeat_time: None,
            workflow_task_slots_info: SlotsInfo::zero(),
            activity_task_slots_info: SlotsInfo::zero(),
            nexus_task_slots_info: SlotsInfo::zero(),
            local_activity_slots_info: SlotsInfo::zero(),
        }
    }

    /// What is remembered after `heartbeat` at `now`.
    pub open spec fn after(self, heartbeat: WorkerHeartbeat, now: Timestamp) -> ClientHeartbeatData {
        ClientHeartbeatData {
            last_heartbeat_time: Some(now),
            workflow_task_slots_info: recorded(
                heartbeat.workflow_task_slots_info,
                self.workflow_task_slots_info,
            ),
            activity_task_slots_info: recorded(
                heartbeat.activity_task_slots_info,
                self.activity_task_slots_info,
            ),
            nexus_task_slots_info: recorded(
                heartbeat.nexus_task_slots_info,
                self.nexus_task_slots_info,
            ),
            local_activity_slots_info: recorded(
                heartbeat.local_activity_slots_info,
                self.local_activity_slots_info,
            ),
        }
    }

    /// Whether the totals of `heartbeat` differ from those remembered by no more than an `i32` holds.
    pub open spec fn in_range(self, heartbeat: WorkerHeartbeat) -> bool {
        &&& slots_in_range(heartbeat.workflow_task_slots_info, self.workflow_task_slots_info)
        &&& slots_in_range(heartbeat.activity_task_slots_info, self.activity_task_slots_info)
        &&& slots_in_range(heartbeat.nexus_task_slots_info, self.nexus_task_slots_info)
        &&& slots_in_range(heartbeat.local_activity_slots_info, self.local_activity_slots_info)
    }
}

impl Default for ClientHeartbeatData {
    fn default() -> (data: Self)
        ensures
            data == ClientHeartbeatData::unknown(),
    {
        ClientHeartbeatData {
            last_heartbeat_time: None,
            workflow_task_slots_info: SlotsInfo::default(),
            activity_task_slots_info: SlotsInfo::default(),
            nexus_task_slots_info: SlotsInfo::default(),
            local_activity_slots_info: SlotsInfo::default(),
        }
    }
}

/// Whether the totals of `slots` differ from `last` by no more than an `i32` holds.
pub open spec fn slots_in_range(slots: Option<WorkerSlotsInfo>, last: SlotsInfo) -> bool {
    slots matches Some(info) ==> {
        &&& i32::MIN <= info.total_processed_tasks - last.total_processed_tasks <= i32::MAX
        &&& i32::MIN <= info.total_failed_tasks - last.total_failed_tasks <= i32::MAX
    }
}

/// The slots with what was processed and what failed since `last`. Nothing else changes, and slots
/// that are not reported stay so.
pub open spec fn with_intervals(
    slots: Option<WorkerSlotsInfo>,
    last: SlotsInfo,
) -> Option<WorkerSlotsInfo> {
    match slots {
        Some(info) => Some(
            WorkerSlotsInfo {
                last_interval_processed_tasks: (info.total_processed_tasks
                    - last.total_processed_tasks) as i32,
                last_interval_failure_tasks: (info.total_failed_tasks
                    - last.total_failed_tasks) as i32,
                ..info
            },
        ),
        None => None,
    }
}

/// The totals to remember: those of `slots`, or `last` where the slots are not reported.
pub open spec fn recorded(slots: Option<WorkerSlotsInfo>, last: SlotsInfo) -> SlotsInfo {
    match slots {
        Some(info) => SlotsInfo {
            total_processed_tasks: info.total_processed_tasks,
            total_failed_tasks: info.total_failed_tasks,
        },
        None => last,
    }
}

/// Fills in what was processed and what failed since the last heartbeat, and remembers the totals.
pub fn update_slots(
    slots_info: &mut Option<WorkerSlotsInfo>,
    client_heartbeat_data: &mut SlotsInfo,
)
    requires
        slots_in_range(*old(slots_info), *old(client_heartbeat_data)),
    ensures
        *final(slots_info) == with_intervals(*old(slots_info), *old(client_heartbeat_data)),
        *final(client_heartbeat_data) == recorded(*old(slots_info), *old(client_heartbeat_data)),
{
    match slots_info {
        Some(info) => {
            info.last_interval_processed_tasks = info.total_processed_tasks
                - client_heartbeat_data.total_processed_tasks;
            info.last_interval_failure_tasks = info.total_failed_tasks
                - client_heartbeat_data.total_failed_tasks;
            client_heartbeat_data.total_processed_tasks = info.total_processed_tasks;
            client_heartbeat_data.total_failed_tasks = info.total_failed_tasks;
        },
        None => {},
    }
}

/// The nanoseconds from `last` to `now`, or none where the clock went back.
pub open spec fn nanos_between(last: Timestamp, now: Timestamp) -> nat {
    if now.as_nanos() >= last.as_nanos() {
        (now.as_nanos() - last.as_nanos()) as nat
    } else {
        0
    }
}

/// The given number of nanoseconds, as seconds and nanoseconds.
pub open spec fn duration_of(nanos: nat) -> PbDuration {
    PbDuration {
        seconds: (nanos / 1_000_000_000) as u64 as i64,
        nanos: (nanos % 1_000_000_000) as i32,
    }
}

/// The time from `last` to `now`; no time where the clock went back.
pub fn elapsed_between(last: Timestamp, now: Timestamp) -> (elapsed: PbDuration)
    ensures
        elapsed == duration_of(nanos_between(last, now)),
{
    let start: i128 = last.seconds as i128 * 1_000_000_000 + last.nanos as i128;
    let end: i128 = now.seconds as i128 * 1_000_000_000 + now.nanos as i128;
    let nanos: u128 = if end >= start {
        (end - start) as u128
    } else {
        0
    };
    let seconds: u128 = nanos / 1_000_000_000;
    PbDuration { seconds: seconds as u64 as i64, nanos: (nanos % 1_000_000_000) as i32 }
}

/// What a client remembers of each worker, by the worker's instance key.
pub struct HeartbeatMap {
    workers: StringHashMap<ClientHeartbeatData>,
}

impl View for HeartbeatMap {
    type V = Map<Seq<char>, ClientHeartbeatData>;

    closed spec fn view(&self) -> Map<Seq<char>, ClientHeartbeatData> {
        self.workers@
    }
}

/// What `workers` remembers of the worker with the given key.
pub open spec fn remembered(
    workers: Map<Seq<char>, ClientHeartbeatData>,
    key: Seq<char>,
) -> ClientHeartbeatData {
    if workers.contains_key(key) {
        workers[key]
    } else {
        ClientHeartbeatData::unknown()
    }
}

impl HeartbeatMap {
    /// A client that has not sent a heartbeat.
    pub fn new() -> (map: Self)
        ensures
            map@ == Map::<Seq<char>, ClientHeartbeatData>::empty(),
    {
        HeartbeatMap { workers: StringHashMap::new() }
    }

    /// What is remembered of the worker with the given key.
    pub fn get(&self, key: &String) -> (data: ClientHeartbeatData)
        ensures
            data == remembered(self@, key@),
    {
        match self.workers.get(key.as_str()) {
            Some(data) => *data,
            None => ClientHeartbeatData::default(),
        }
    }

    /// Remembers `data` of the worker with the given key.
    pub fn insert(&mut self, key: String, data: ClientHeartbeatData)
        ensures
            final(self)@ == old(self)@.insert(key@, data),
    {
        self.workers.insert(key, data);
    }

    /// Whether the totals of `heartbeat` differ from those remembered of its worker by no more than
    /// an `i32` holds.
    pub fn accepts(&self, heartbeat: &WorkerHeartbeat) -> (b: bool)
        ensures
            b == remembered(self@, heartbeat.worker_instance_key@).in_range(*heartbeat),
    {
        let data = self.get(&heartbeat.worker_instance_key);
        totals_in_range(&heartbeat.workflow_task_slots_info, data.workflow_task_slots_info)
            && totals_in_range(&heartbeat.activity_task_slots_info, data.activity_task_slots_info)
            && totals_in_range(&heartbeat.nexus_task_slots_info, data.nexus_task_slots_info)
            && totals_in_range(&heartbeat.local_activity_slots_info, data.local_activity_slots_info)
    }
}

/// Whether the totals of `slots` differ from `last` by no more than an `i32` holds.
fn totals_in_range(slots: &Option<WorkerSlotsInfo>, last: SlotsInfo) -> (b: bool)
    ensures
        b == slots_in_range(*slots, last),
{
    match slots {
        Some(info) => {
            info.total_processed_tasks.checked_sub(last.total_processed_tasks).is_some()
                && info.total_failed_tasks.checked_sub(last.total_failed_tasks).is_some()
        },
        None => true,
    }
}

} // verus!
