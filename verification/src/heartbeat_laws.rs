//! What holds of the heartbeats of every worker.
use crate::client::{ConnectionInfo, WorkerClientBag};
use crate::heartbeat::{
    duration_of, elapsed_between, nanos_between, recorded, remembered, slots_in_range,
    update_slots, with_intervals, ClientHeartbeatData, HeartbeatMap, PbDuration, SlotsInfo,
    Timestamp, WorkerHeartbeat, WorkerSlotsInfo,
};
use crate::uuid_text::uuid_text;
use vstd::prelude::*;

verus! {

/// The totals that are remembered after successive `reports` of one kind of slots.
pub open spec fn recorded_after(reports: Seq<Option<WorkerSlotsInfo>>) -> SlotsInfo
    decreases reports.len(),
{
    if reports.len() == 0 {
        SlotsInfo::zero()
    } else {
        recorded(reports.last(), recorded_after(reports.drop_last()))
    }
}

/// Whether each of `reports` can be counted on from the ones before it.
pub open spec fn reports_in_range(reports: Seq<Option<WorkerSlotsInfo>>) -> bool
    decreases reports.len(),
{
    reports.len() == 0 || {
        &&& reports_in_range(reports.drop_last())
        &&& slots_in_range(reports.last(), recorded_after(reports.drop_last()))
    }
}

/// The tasks that successive `reports` give as processed, interval by interval.
pub open spec fn processed_in_intervals(reports: Seq<Option<WorkerSlotsInfo>>) -> int
    decreases reports.len(),
{
    if reports.len() == 0 {
        0
    } else {
        processed_in_intervals(reports.drop_last()) + match with_intervals(
            reports.last(),
            recorded_after(reports.drop_last()),
        ) {
            Some(info) => info.last_interval_processed_tasks as int,
            None => 0,
        }
    }
}

/// The tasks that successive `reports` give as failed, interval by interval.
pub open spec fn failed_in_intervals(reports: Seq<Option<WorkerSlotsInfo>>) -> int
    decreases reports.len(),
{
    if reports.len() == 0 {
        0
    } else {
        failed_in_intervals(reports.drop_last()) + match with_intervals(
            reports.last(),
            recorded_after(reports.drop_last()),
        ) {
            Some(info) => info.last_interval_failure_tasks as int,
            None => 0,
        }
    }
}

/// Every task is counted in one interval: over any number of heartbeats, the intervals add up to the
/// totals that were reported last.
pub proof fn intervals_add_up(reports: Seq<Option<WorkerSlotsInfo>>)
    requires
        reports_in_range(reports),
    ensures
        processed_in_intervals(reports) == recorded_after(reports).total_processed_tasks,
        failed_in_intervals(reports) == recorded_after(reports).total_failed_tasks,
    decreases reports.len(),
{
    if reports.len() > 0 {
        intervals_add_up(reports.drop_last());
    }
}

/// The first heartbeat of a worker tells of no time since another, and its intervals are its totals.
pub proof fn first_heartbeat_starts_from_nothing(
    connection: ConnectionInfo,
    now: Timestamp,
    before: WorkerHeartbeat,
    after: WorkerHeartbeat,
)
    requires
        WorkerClientBag::is_filled_in(
            connection,
            ClientHeartbeatData::unknown(),
            now,
            before,
            after,
        ),
    ensures
        after.heartbeat_time == Some(now),
        after.elapsed_since_last_heartbeat is None,
        after.workflow_task_slots_info matches Some(info)
            ==> info.last_interval_processed_tasks == info.total_processed_tasks
            && info.last_interval_failure_tasks == info.total_failed_tasks,
        after.activity_task_slots_info matches Some(info)
            ==> info.last_interval_processed_tasks == info.total_processed_tasks
            && info.last_interval_failure_tasks == info.total_failed_tasks,
        after.nexus_task_slots_info matches Some(info)
            ==> info.last_interval_processed_tasks == info.total_processed_tasks
            && info.last_interval_failure_tasks == info.total_failed_tasks,
        after.local_activity_slots_info matches Some(info)
            ==> info.last_interval_processed_tasks == info.total_processed_tasks
            && info.last_interval_failure_tasks == info.total_failed_tasks,
{
}

/// Whether the intervals of `slots` are what changed since `previous`.
pub open spec fn counts_from(
    previous: Option<WorkerSlotsInfo>,
    slots: Option<WorkerSlotsInfo>,
) -> bool {
    previous is Some && slots is Some ==> {
        &&& slots->0.last_interval_processed_tasks == slots->0.total_processed_tasks
            - previous->0.total_processed_tasks
        &&& slots->0.last_interval_failure_tasks == slots->0.total_failed_tasks
            - previous->0.total_failed_tasks
    }
}

/// A heartbeat that follows another of the same worker tells of the time since that one, and its
/// intervals are what changed since then. What is remembered of another worker in between makes no
/// difference.
pub proof fn heartbeat_counts_from_previous(
    connection: ConnectionInfo,
    workers: Map<Seq<char>, ClientHeartbeatData>,
    previous: WorkerHeartbeat,
    previous_time: Timestamp,
    other: Seq<char>,
    other_data: ClientHeartbeatData,
    before: WorkerHeartbeat,
    now: Timestamp,
    after: WorkerHeartbeat,
)
    requires
        before.worker_instance_key@ == previous.worker_instance_key@,
        other != before.worker_instance_key@,
        ({
            let key = previous.worker_instance_key@;
            let later = workers.insert(
                key,
                remembered(workers, key).after(previous, previous_time),
            ).insert(other, other_data);
            &&& remembered(later, key).in_range(before)
            &&& WorkerClientBag::is_filled_in(
                connection,
                remembered(later, key),
                now,
                before,
                after,
            )
        }),
    ensures
        after.heartbeat_time == Some(now),
        after.elapsed_since_last_heartbeat == Some(duration_of(nanos_between(previous_time, now))),
        counts_from(previous.workflow_task_slots_info, after.workflow_task_slots_info),
        counts_from(previous.activity_task_slots_info, after.activity_task_slots_info),
        counts_from(previous.nexus_task_slots_info, after.nexus_task_slots_info),
        counts_from(previous.local_activity_slots_info, after.local_activity_slots_info),
{
}

/// A heartbeat changes nothing of what is remembered of other workers.
pub proof fn heartbeats_of_workers_are_independent(
    workers: Map<Seq<char>, ClientHeartbeatData>,
    heartbeat: WorkerHeartbeat,
    now: Timestamp,
    other: Seq<char>,
)
    requires
        other != heartbeat.worker_instance_key@,
    ensures
        ({
            let key = heartbeat.worker_instance_key@;
            remembered(
                workers.insert(key, remembered(workers, key).after(heartbeat, now)),
                other,
            ) == remembered(workers, other)
        }),
{
}

/// A time span of fewer than 2^63 seconds is exact, and is zero where the clock went back.
pub proof fn elapsed_time_is_exact(last: Timestamp, now: Timestamp)
    requires
        nanos_between(last, now) / 1_000_000_000 <= i64::MAX,
    ensures
        ({
            let elapsed = duration_of(nanos_between(last, now));
            &&& elapsed.seconds >= 0
            &&& 0 <= elapsed.nanos < 1_000_000_000
            &&& elapsed.seconds * 1_000_000_000 + elapsed.nanos == nanos_between(last, now)
            &&& now.as_nanos() <= last.as_nanos() ==> elapsed.seconds == 0 && elapsed.nanos == 0
        }),
{
}

/// A heartbeat says who sends it and when, whatever is remembered of its worker. What the worker
/// reported stays as it was.
pub proof fn heartbeat_says_who_and_when(
    client: WorkerClientBag,
    connection: ConnectionInfo,
    now: Timestamp,
    workers: &mut HeartbeatMap,
    heartbeat: &mut WorkerHeartbeat,
)
    requires
        call_ensures(
            WorkerClientBag::set_heartbeat_client_fields,
            (&client, &connection, now, workers, heartbeat),
            (),
        ),
    ensures
        final(heartbeat).heartbeat_time == Some(now),
        final(heartbeat).worker_identity@ == connection.identity@,
        final(heartbeat).sdk_name@ == connection.client_name@,
        final(heartbeat).sdk_version@ == connection.client_version@,
        final(heartbeat).worker_instance_key@ == old(heartbeat).worker_instance_key@,
        final(heartbeat).other_fields@ == old(heartbeat).other_fields@,
        final(heartbeat).host_info is Some
            <==> old(heartbeat).host_info is Some,
        final(heartbeat).host_info matches Some(host) ==> {
            &&& host.worker_grouping_key@ == uuid_text(connection.worker_grouping_key)
            &&& host.other_fields@ == old(heartbeat).host_info->0.other_fields@
        },
        final(heartbeat).workflow_task_slots_info is Some
            <==> old(heartbeat).workflow_task_slots_info is Some,
        final(heartbeat).workflow_task_slots_info matches Some(info) ==> {
            let before = old(heartbeat).workflow_task_slots_info->0;
            &&& info.total_processed_tasks == before.total_processed_tasks
            &&& info.total_failed_tasks == before.total_failed_tasks
            &&& info.other_fields@ == before.other_fields@
        },
        final(heartbeat).activity_task_slots_info is Some
            <==> old(heartbeat).activity_task_slots_info is Some,
        final(heartbeat).activity_task_slots_info matches Some(info) ==> {
            let before = old(heartbeat).activity_task_slots_info->0;
            &&& info.total_processed_tasks == before.total_processed_tasks
            &&& info.total_failed_tasks == before.total_failed_tasks
            &&& info.other_fields@ == before.other_fields@
        },
        final(heartbeat).nexus_task_slots_info is Some
            <==> old(heartbeat).nexus_task_slots_info is Some,
        final(heartbeat).nexus_task_slots_info matches Some(info) ==> {
            let before = old(heartbeat).nexus_task_slots_info->0;
            &&& info.total_processed_tasks == before.total_processed_tasks
            &&& info.total_failed_tasks == before.total_failed_tasks
            &&& info.other_fields@ == before.other_fields@
        },
        final(heartbeat).local_activity_slots_info is Some
            <==> old(heartbeat).local_activity_slots_info is Some,
        final(heartbeat).local_activity_slots_info matches Some(info) ==> {
            let before = old(heartbeat).local_activity_slots_info->0;
            &&& info.total_processed_tasks == before.total_processed_tasks
            &&& info.total_failed_tasks == before.total_failed_tasks
            &&& info.other_fields@ == before.other_fields@
        },
{
}

/// After a heartbeat its time and the totals that it reports are remembered of its worker. Totals
/// that it does not report stay as they were, at zero before any report, and nothing changes for
/// other workers.
pub proof fn heartbeat_is_remembered(
    client: WorkerClientBag,
    connection: ConnectionInfo,
    now: Timestamp,
    workers: &mut HeartbeatMap,
    heartbeat: &mut WorkerHeartbeat,
)
    requires
        call_ensures(
            WorkerClientBag::set_heartbeat_client_fields,
            (&client, &connection, now, workers, heartbeat),
            (),
        ),
    ensures
        final(workers)@.contains_key(old(heartbeat).worker_instance_key@),
        final(workers)@[old(heartbeat).worker_instance_key@].last_heartbeat_time == Some(now),
        forall|other: Seq<char>|
            other != old(heartbeat).worker_instance_key@ ==> {
                &&& #[trigger] final(workers)@.contains_key(other) <==> old(workers)@.contains_key(
                    other,
                )
                &&& old(workers)@.contains_key(other) ==> final(workers)@[other] == old(
                    workers,
                )@[other]
            },
        old(heartbeat).workflow_task_slots_info matches Some(info) ==> {
            let data = final(workers)@[old(heartbeat).worker_instance_key@].workflow_task_slots_info;
            &&& data.total_processed_tasks == info.total_processed_tasks
            &&& data.total_failed_tasks == info.total_failed_tasks
        },
        old(heartbeat).activity_task_slots_info matches Some(info) ==> {
            let data = final(workers)@[old(heartbeat).worker_instance_key@].activity_task_slots_info;
            &&& data.total_processed_tasks == info.total_processed_tasks
            &&& data.total_failed_tasks == info.total_failed_tasks
        },
        old(heartbeat).nexus_task_slots_info matches Some(info) ==> {
            let data = final(workers)@[old(heartbeat).worker_instance_key@].nexus_task_slots_info;
            &&& data.total_processed_tasks == info.total_processed_tasks
            &&& data.total_failed_tasks == info.total_failed_tasks
        },
        old(heartbeat).local_activity_slots_info matches Some(info) ==> {
            let data = final(workers)@[old(heartbeat).worker_instance_key@].local_activity_slots_info;
            &&& data.total_processed_tasks == info.total_processed_tasks
            &&& data.total_failed_tasks == info.total_failed_tasks
        },
        old(heartbeat).workflow_task_slots_info is None && old(workers)@.contains_key(
            old(heartbeat).worker_instance_key@,
        ) ==> final(workers)@[old(heartbeat).worker_instance_key@].workflow_task_slots_info == old(
            workers,
        )@[old(heartbeat).worker_instance_key@].workflow_task_slots_info,
        old(heartbeat).workflow_task_slots_info is None && !old(workers)@.contains_key(
            old(heartbeat).worker_instance_key@,
        ) ==> {
            let data = final(workers)@[old(heartbeat).worker_instance_key@].workflow_task_slots_info;
            data.total_processed_tasks == 0 && data.total_failed_tasks == 0
        },
        old(heartbeat).activity_task_slots_info is None && old(workers)@.contains_key(
            old(heartbeat).worker_instance_key@,
        ) ==> final(workers)@[old(heartbeat).worker_instance_key@].activity_task_slots_info == old(
            workers,
        )@[old(heartbeat).worker_instance_key@].activity_task_slots_info,
        old(heartbeat).activity_task_slots_info is None && !old(workers)@.contains_key(
            old(heartbeat).worker_instance_key@,
        ) ==> {
            let data = final(workers)@[old(heartbeat).worker_instance_key@].activity_task_slots_info;
            data.total_processed_tasks == 0 && data.total_failed_tasks == 0
        },
        old(heartbeat).nexus_task_slots_info is None && old(workers)@.contains_key(
            old(heartbeat).worker_instance_key@,
        ) ==> final(workers)@[old(heartbeat).worker_instance_key@].nexus_task_slots_info == old(
            workers,
        )@[old(heartbeat).worker_instance_key@].nexus_task_slots_info,
        old(heartbeat).nexus_task_slots_info is None && !old(workers)@.contains_key(
            old(heartbeat).worker_instance_key@,
        ) ==> {
            let data = final(workers)@[old(heartbeat).worker_instance_key@].nexus_task_slots_info;
            data.total_processed_tasks == 0 && data.total_failed_tasks == 0
        },
        old(heartbeat).local_activity_slots_info is None && old(workers)@.contains_key(
            old(heartbeat).worker_instance_key@,
        ) ==> final(workers)@[old(heartbeat).worker_instance_key@].local_activity_slots_info == old(
            workers,
        )@[old(heartbeat).worker_instance_key@].local_activity_slots_info,
        old(heartbeat).local_activity_slots_info is None && !old(workers)@.contains_key(
            old(heartbeat).worker_instance_key@,
        ) ==> {
            let data = final(workers)@[old(heartbeat).worker_instance_key@].local_activity_slots_info;
            data.total_processed_tasks == 0 && data.total_failed_tasks == 0
        },
{
}

/// The intervals of a heartbeat are what its totals gained on those that are remembered of its
/// worker.
pub proof fn intervals_are_what_totals_gained(
    client: WorkerClientBag,
    connection: ConnectionInfo,
    now: Timestamp,
    workers: &mut HeartbeatMap,
    heartbeat: &mut WorkerHeartbeat,
)
    requires
        call_ensures(
            WorkerClientBag::set_heartbeat_client_fields,
            (&client, &connection, now, workers, heartbeat),
            (),
        ),
        old(workers)@.contains_key(old(heartbeat).worker_instance_key@),
        remembered(old(workers)@, old(heartbeat).worker_instance_key@).in_range(*old(heartbeat)),
    ensures
        final(heartbeat).workflow_task_slots_info matches Some(info) ==> {
            let last = old(workers)@[old(heartbeat).worker_instance_key@].workflow_task_slots_info;
            &&& info.last_interval_processed_tasks == info.total_processed_tasks
                - last.total_processed_tasks
            &&& info.last_interval_failure_tasks == info.total_failed_tasks
                - last.total_failed_tasks
        },
        final(heartbeat).activity_task_slots_info matches Some(info) ==> {
            let last = old(workers)@[old(heartbeat).worker_instance_key@].activity_task_slots_info;
            &&& info.last_interval_processed_tasks == info.total_processed_tasks
                - last.total_processed_tasks
            &&& info.last_interval_failure_tasks == info.total_failed_tasks
                - last.total_failed_tasks
        },
        final(heartbeat).nexus_task_slots_info matches Some(info) ==> {
            let last = old(workers)@[old(heartbeat).worker_instance_key@].nexus_task_slots_info;
            &&& info.last_interval_processed_tasks == info.total_processed_tasks
                - last.total_processed_tasks
            &&& info.last_interval_failure_tasks == info.total_failed_tasks
                - last.total_failed_tasks
        },
        final(heartbeat).local_activity_slots_info matches Some(info) ==> {
            let last = old(workers)@[old(heartbeat).worker_instance_key@].local_activity_slots_info;
            &&& info.last_interval_processed_tasks == info.total_processed_tasks
                - last.total_processed_tasks
            &&& info.last_interval_failure_tasks == info.total_failed_tasks
                - last.total_failed_tasks
        },
{
}

/// Of a worker of which nothing is remembered, the intervals of a heartbeat are its totals, and no
/// time has elapsed.
pub proof fn unknown_worker_starts_from_nothing(
    client: WorkerClientBag,
    connection: ConnectionInfo,
    now: Timestamp,
    workers: &mut HeartbeatMap,
    heartbeat: &mut WorkerHeartbeat,
)
    requires
        call_ensures(
            WorkerClientBag::set_heartbeat_client_fields,
            (&client, &connection, now, workers, heartbeat),
            (),
        ),
        !old(workers)@.contains_key(old(heartbeat).worker_instance_key@),
    ensures
        final(heartbeat).elapsed_since_last_heartbeat is None,
        final(heartbeat).workflow_task_slots_info matches Some(info) ==> {
            &&& info.last_interval_processed_tasks == info.total_processed_tasks
            &&& info.last_interval_failure_tasks == info.total_failed_tasks
        },
        final(heartbeat).activity_task_slots_info matches Some(info) ==> {
            &&& info.last_interval_processed_tasks == info.total_processed_tasks
            &&& info.last_interval_failure_tasks == info.total_failed_tasks
        },
        final(heartbeat).nexus_task_slots_info matches Some(info) ==> {
            &&& info.last_interval_processed_tasks == info.total_processed_tasks
            &&& info.last_interval_failure_tasks == info.total_failed_tasks
        },
        final(heartbeat).local_activity_slots_info matches Some(info) ==> {
            &&& info.last_interval_processed_tasks == info.total_processed_tasks
            &&& info.last_interval_failure_tasks == info.total_failed_tasks
        },
{
}

/// Of two heartbeats of one worker, the later tells of the time from the earlier to itself, as the
/// two heartbeats give their times, and of no time where the clock went back.
pub proof fn successive_heartbeats_tell_the_time_between(
    client: WorkerClientBag,
    connection: ConnectionInfo,
    first_now: Timestamp,
    first_workers: &mut HeartbeatMap,
    first: &mut WorkerHeartbeat,
    second_now: Timestamp,
    second_workers: &mut HeartbeatMap,
    second: &mut WorkerHeartbeat,
)
    requires
        call_ensures(
            WorkerClientBag::set_heartbeat_client_fields,
            (&client, &connection, first_now, first_workers, first),
            (),
        ),
        call_ensures(
            WorkerClientBag::set_heartbeat_client_fields,
            (&client, &connection, second_now, second_workers, second),
            (),
        ),
        old(second).worker_instance_key@ == old(first).worker_instance_key@,
        old(second_workers)@ == final(first_workers)@,
    ensures
        final(first).heartbeat_time is Some,
        final(second).heartbeat_time is Some,
        final(second).elapsed_since_last_heartbeat is Some,
        ({
            let earlier = final(first).heartbeat_time->0;
            let later = final(second).heartbeat_time->0;
            let elapsed = final(second).elapsed_since_last_heartbeat->0;
            let nanos = (later.seconds * 1_000_000_000 + later.nanos) - (earlier.seconds
                * 1_000_000_000 + earlier.nanos);
            &&& 0 <= nanos < 0x8000_0000_0000_0000 * 1_000_000_000 ==> elapsed.seconds
                * 1_000_000_000 + elapsed.nanos == nanos
            &&& nanos < 0 ==> elapsed.seconds == 0 && elapsed.nanos == 0
            &&& 0 <= elapsed.nanos < 1_000_000_000
        }),
{
}

/// Of two heartbeats of one worker, the intervals of the later are what its totals gained on those of
/// the earlier.
pub proof fn successive_heartbeats_count_on(
    client: WorkerClientBag,
    connection: ConnectionInfo,
    first_now: Timestamp,
    first_workers: &mut HeartbeatMap,
    first: &mut WorkerHeartbeat,
    second_now: Timestamp,
    second_workers: &mut HeartbeatMap,
    second: &mut WorkerHeartbeat,
)
    requires
        call_ensures(
            WorkerClientBag::set_heartbeat_client_fields,
            (&client, &connection, first_now, first_workers, first),
            (),
        ),
        call_ensures(
            WorkerClientBag::set_heartbeat_client_fields,
            (&client, &connection, second_now, second_workers, second),
            (),
        ),
        old(second).worker_instance_key@ == old(first).worker_instance_key@,
        old(second_workers)@ == final(first_workers)@,
        remembered(old(second_workers)@, old(second).worker_instance_key@).in_range(*old(second)),
    ensures
        final(first).workflow_task_slots_info is Some
            && final(second).workflow_task_slots_info is Some ==> {
            let earlier = final(first).workflow_task_slots_info->0;
            let later = final(second).workflow_task_slots_info->0;
            &&& later.last_interval_processed_tasks == later.total_processed_tasks
                - earlier.total_processed_tasks
            &&& later.last_interval_failure_tasks == later.total_failed_tasks
                - earlier.total_failed_tasks
        },
        final(first).activity_task_slots_info is Some
            && final(second).activity_task_slots_info is Some ==> {
            let earlier = final(first).activity_task_slots_info->0;
            let later = final(second).activity_task_slots_info->0;
            &&& later.last_interval_processed_tasks == later.total_processed_tasks
                - earlier.total_processed_tasks
            &&& later.last_interval_failure_tasks == later.total_failed_tasks
                - earlier.total_failed_tasks
        },
        final(first).nexus_task_slots_info is Some
            && final(second).nexus_task_slots_info is Some ==> {
            let earlier = final(first).nexus_task_slots_info->0;
            let later = final(second).nexus_task_slots_info->0;
            &&& later.last_interval_processed_tasks == later.total_processed_tasks
                - earlier.total_processed_tasks
            &&& later.last_interval_failure_tasks == later.total_failed_tasks
                - earlier.total_failed_tasks
        },
        final(first).local_activity_slots_info is Some
            && final(second).local_activity_slots_info is Some ==> {
            let earlier = final(first).local_activity_slots_info->0;
            let later = final(second).local_activity_slots_info->0;
            &&& later.last_interval_processed_tasks == later.total_processed_tasks
                - earlier.total_processed_tasks
            &&& later.last_interval_failure_tasks == later.total_failed_tasks
                - earlier.total_failed_tasks
        },
{
}

/// The time between two points is exact, to the nanosecond, as long as it is shorter than 2^63
/// seconds; up to twice that, the seconds are those of two's complement. It is zero where the second
/// point is not after the first.
pub proof fn elapsed_time_is_the_difference(last: Timestamp, now: Timestamp, elapsed: PbDuration)
    requires
        call_ensures(elapsed_between, (last, now), elapsed),
    ensures
        ({
            let nanos = (now.seconds * 1_000_000_000 + now.nanos) - (last.seconds * 1_000_000_000
                + last.nanos);
            &&& 0 <= nanos < 0x8000_0000_0000_0000 * 1_000_000_000 ==> elapsed.seconds
                * 1_000_000_000 + elapsed.nanos == nanos
            &&& 0x8000_0000_0000_0000 * 1_000_000_000 <= nanos < 0x1_0000_0000_0000_0000
                * 1_000_000_000 ==> (elapsed.seconds + 0x1_0000_0000_0000_0000) * 1_000_000_000
                + elapsed.nanos == nanos
            &&& nanos <= 0 ==> elapsed.seconds == 0 && elapsed.nanos == 0
            &&& 0 <= elapsed.nanos < 1_000_000_000
        }),
{
    let seconds = (nanos_between(last, now) / 1_000_000_000) as u64;
    assert(seconds >= 0x8000_0000_0000_0000 ==> (seconds as i64) + 0x1_0000_0000_0000_0000
        == seconds) by (bit_vector);
}

/// Slots get the difference of their totals to the last ones as intervals, and their totals become
/// the last ones. Slots that are not reported change nothing.
pub proof fn slots_count_on(slots: &mut Option<WorkerSlotsInfo>, last: &mut SlotsInfo)
    requires
        call_ensures(update_slots, (slots, last), ()),
        slots_in_range(*old(slots), *old(last)),
    ensures
        (*old(slots)) is None ==> (*final(slots)) is None && *final(last) == *old(last),
        (*old(slots)) matches Some(before) ==> {
            let after = (*final(slots))->0;
            &&& (*final(slots)) is Some
            &&& after.last_interval_processed_tasks + old(last).total_processed_tasks
                == before.total_processed_tasks
            &&& after.last_interval_failure_tasks + old(last).total_failed_tasks
                == before.total_failed_tasks
            &&& after.total_processed_tasks == before.total_processed_tasks
            &&& after.total_failed_tasks == before.total_failed_tasks
            &&& after.other_fields@ == before.other_fields@
            &&& final(last).total_processed_tasks == before.total_processed_tasks
            &&& final(last).total_failed_tasks == before.total_failed_tasks
        },
{
}

/// A heartbeat is accepted exactly where what each of its totals gained on the one that is remembered
/// fits in 32 bits. The first heartbeat of a worker always is.
pub proof fn heartbeats_are_accepted_where_gains_fit(
    workers: HeartbeatMap,
    heartbeat: WorkerHeartbeat,
    accepted: bool,
)
    requires
        call_ensures(HeartbeatMap::accepts, (&workers, &heartbeat), accepted),
    ensures
        !workers@.contains_key(heartbeat.worker_instance_key@) ==> accepted,
        workers@.contains_key(heartbeat.worker_instance_key@) ==> (accepted <==> {
            &&& heartbeat.workflow_task_slots_info matches Some(info) ==> {
                let last = workers@[heartbeat.worker_instance_key@].workflow_task_slots_info;
                &&& -0x8000_0000 <= info.total_processed_tasks - last.total_processed_tasks
                    <= 0x7fff_ffff
                &&& -0x8000_0000 <= info.total_failed_tasks - last.total_failed_tasks <= 0x7fff_ffff
            }
            &&& heartbeat.activity_task_slots_info matches Some(info) ==> {
                let last = workers@[heartbeat.worker_instance_key@].activity_task_slots_info;
                &&& -0x8000_0000 <= info.total_processed_tasks - last.total_processed_tasks
                    <= 0x7fff_ffff
                &&& -0x8000_0000 <= info.total_failed_tasks - last.total_failed_tasks <= 0x7fff_ffff
            }
            &&& heartbeat.nexus_task_slots_info matches Some(info) ==> {
                let last = workers@[heartbeat.worker_instance_key@].nexus_task_slots_info;
                &&& -0x8000_0000 <= info.total_processed_tasks - last.total_processed_tasks
                    <= 0x7fff_ffff
                &&& -0x8000_0000 <= info.total_failed_tasks - last.total_failed_tasks <= 0x7fff_ffff
            }
            &&& heartbeat.local_activity_slots_info matches Some(info) ==> {
                let last = workers@[heartbeat.worker_instance_key@].local_activity_slots_info;
                &&& -0x8000_0000 <= info.total_processed_tasks - last.total_processed_tasks
                    <= 0x7fff_ffff
                &&& -0x8000_0000 <= info.total_failed_tasks - last.total_failed_tasks <= 0x7fff_ffff
            }
        }),
        accepted == remembered(workers@, heartbeat.worker_instance_key@).in_range(heartbeat),
{
}

/// Nothing is remembered at first. What is looked up of a worker is what was remembered of it, or
/// neither a time nor any totals.
pub proof fn lookup_gives_what_was_remembered(
    empty: HeartbeatMap,
    workers: HeartbeatMap,
    key: String,
    data: ClientHeartbeatData,
)
    requires
        call_ensures(HeartbeatMap::new, (), empty),
        call_ensures(HeartbeatMap::get, (&workers, &key), data),
    ensures
        forall|other: Seq<char>| !(#[trigger] empty@.contains_key(other)),
        workers@.contains_key(key@) ==> data == workers@[key@],
        !workers@.contains_key(key@) ==> {
            &&& data.last_heartbeat_time is None
            &&& data.workflow_task_slots_info.total_processed_tasks == 0
            &&& data.workflow_task_slots_info.total_failed_tasks == 0
            &&& data.activity_task_slots_info.total_processed_tasks == 0
            &&& data.activity_task_slots_info.total_failed_tasks == 0
            &&& data.nexus_task_slots_info.total_processed_tasks == 0
            &&& data.nexus_task_slots_info.total_failed_tasks == 0
            &&& data.local_activity_slots_info.total_processed_tasks == 0
            &&& data.local_activity_slots_info.total_failed_tasks == 0
        },
{
}

} // verus!
