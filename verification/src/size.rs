//! The encoded size of a workflow task completion.
use crate::message::{
    Command, CompletionCapabilities, DeploymentOptions, ProtocolMessage, QueryResults,
    RespondWorkflowTaskCompletedRequest, WorkerVersionStamp, WorkflowQueryResult,
};
use crate::wire::{
    add_bool, add_bytes, add_encoded, add_int32, add_message, add_string, bool_len, bytes_len,
    delimited_len, int32_len, message_len, string_len,
};
use vstd::arithmetic::overflow::CheckedUsize;
use vstd::prelude::*;

verus! {

/// The field number of a completion's commands.
pub const COMMANDS_TAG: u32 = 2;

/// The field number of a completion's page number. Field numbers from 16 to 2047 have keys of the
/// same width.
pub const PAGE_NUMBER_TAG: u32 = 21;

/// The field number of the flag that marks an intermediate page.
pub const INTERMEDIATE_PAGE_TAG: u32 = 22;

/// The length of commands as a repeated field of a completion.
pub open spec fn commands_len(commands: Seq<Command>) -> nat
    decreases commands.len(),
{
    if commands.len() == 0 {
        0
    } else {
        commands_len(commands.drop_last()) + delimited_len(
            COMMANDS_TAG,
            commands.last().encoded@.len(),
        )
    }
}

/// The length of protocol messages as a repeated field of a completion.
pub open spec fn messages_len(messages: Seq<ProtocolMessage>) -> nat
    decreases messages.len(),
{
    if messages.len() == 0 {
        0
    } else {
        messages_len(messages.drop_last()) + delimited_len(11, messages.last().encoded@.len())
    }
}

impl WorkflowQueryResult {
    /// The encoded length of the result.
    pub open spec fn encoded_size(self) -> nat {
        int32_len(1, self.result_type.spec_number()) + message_len(
            2,
            match self.answer {
                Some(answer) => Some(answer.encoded@.len()),
                None => None,
            },
        ) + string_len(3, self.error_message@) + message_len(
            4,
            match self.failure {
                Some(failure) => Some(failure.encoded@.len()),
                None => None,
            },
        )
    }

    /// The encoded length of the result.
    fn encoded_len(&self) -> (n: CheckedUsize)
        ensures
            n@ == self.encoded_size(),
    {
        let mut sum = add_int32(CheckedUsize::new(0), 1, self.result_type.number());
        if let Some(answer) = &self.answer {
            sum = add_encoded(sum, 2, &answer.encoded);
        }
        sum = add_string(sum, 3, &self.error_message);
        if let Some(failure) = &self.failure {
            sum = add_encoded(sum, 4, &failure.encoded);
        }
        sum
    }
}

/// The length of one entry of a map field: a message with the key as its first field and the value
/// as its second, each left out where it is empty.
pub open spec fn query_entry_len(entry: (String, WorkflowQueryResult)) -> nat {
    let value = entry.1.encoded_size();
    delimited_len(
        8,
        string_len(1, entry.0@) + if value == 0 {
            0
        } else {
            delimited_len(2, value)
        },
    )
}

/// The length of query results as a map field of a completion.
pub open spec fn query_results_len(entries: Seq<(String, WorkflowQueryResult)>) -> nat
    decreases entries.len(),
{
    if entries.len() == 0 {
        0
    } else {
        query_results_len(entries.drop_last()) + query_entry_len(entries.last())
    }
}

impl WorkerVersionStamp {
    /// The encoded length of the stamp.
    pub open spec fn encoded_size(self) -> nat {
        string_len(1, self.build_id@) + bool_len(3, self.use_versioning)
    }

    /// The encoded length of the stamp.
    fn encoded_len(&self) -> (n: CheckedUsize)
        ensures
            n@ == self.encoded_size(),
    {
        add_bool(add_string(CheckedUsize::new(0), 1, &self.build_id), 3, self.use_versioning)
    }
}

impl DeploymentOptions {
    /// The encoded length of the options.
    pub open spec fn encoded_size(self) -> nat {
        string_len(1, self.deployment_name@) + string_len(2, self.build_id@) + int32_len(
            3,
            self.worker_versioning_mode.spec_number(),
        )
    }

    /// The encoded length of the options.
    fn encoded_len(&self) -> (n: CheckedUsize)
        ensures
            n@ == self.encoded_size(),
    {
        let name = add_string(CheckedUsize::new(0), 1, &self.deployment_name);
        add_int32(add_string(name, 2, &self.build_id), 3, self.worker_versioning_mode.number())
    }
}

impl CompletionCapabilities {
    /// The encoded length of the capabilities.
    pub open spec fn encoded_size(self) -> nat {
        bool_len(1, self.discard_speculative_workflow_task_with_events)
    }
}

impl RespondWorkflowTaskCompletedRequest {
    /// What the fields other than the commands, the page number and the page's kind add to the
    /// encoded length.
    pub open spec fn metadata_size(self) -> nat {
        bytes_len(1, self.task_token@) + string_len(3, self.identity@) + message_len(
            4,
            match self.sticky_attributes {
                Some(attributes) => Some(attributes.encoded@.len()),
                None => None,
            },
        ) + bool_len(5, self.return_new_workflow_task) + bool_len(
            6,
            self.force_create_new_workflow_task,
        ) + string_len(7, self.binary_checksum@) + query_results_len(self.query_results.entries@)
            + string_len(9, self.namespace@) + message_len(
            10,
            match self.worker_version_stamp {
                Some(stamp) => Some(stamp.encoded_size()),
                None => None,
            },
        ) + messages_len(self.messages@) + message_len(
            12,
            match self.sdk_metadata {
                Some(metadata) => Some(metadata.encoded@.len()),
                None => None,
            },
        ) + message_len(
            13,
            match self.metering_metadata {
                Some(metadata) => Some(metadata.encoded@.len()),
                None => None,
            },
        ) + message_len(
            14,
            match self.capabilities {
                Some(capabilities) => Some(capabilities.encoded_size()),
                None => None,
            },
        ) + message_len(
            15,
            match self.deployment {
                Some(deployment) => Some(deployment.encoded@.len()),
                None => None,
            },
        ) + int32_len(16, self.versioning_behavior.spec_number()) + message_len(
            17,
            match self.deployment_options {
                Some(options) => Some(options.encoded_size()),
                None => None,
            },
        ) + string_len(18, self.resource_id@) + string_len(19, self.worker_instance_key@)
            + string_len(20, self.worker_control_task_queue@)
    }

    /// The encoded length of the request.
    pub open spec fn encoded_size(self) -> nat {
        self.metadata_size() + commands_len(self.commands@) + int32_len(
            PAGE_NUMBER_TAG,
            self.page_number,
        ) + bool_len(INTERMEDIATE_PAGE_TAG, self.intermediate_page)
    }

    /// The encoded length of the fields other than the commands, the page number and the page's
    /// kind.
    fn metadata_len(&self) -> (n: CheckedUsize)
        ensures
            n@ == self.metadata_size(),
    {
        let mut sum = add_bytes(CheckedUsize::new(0), 1, &self.task_token);
        sum = add_string(sum, 3, &self.identity);
        if let Some(attributes) = &self.sticky_attributes {
            sum = add_encoded(sum, 4, &attributes.encoded);
        }
        sum = add_bool(sum, 5, self.return_new_workflow_task);
        sum = add_bool(sum, 6, self.force_create_new_workflow_task);
        sum = add_string(sum, 7, &self.binary_checksum);
        sum = add_query_results(sum, &self.query_results);
        sum = add_string(sum, 9, &self.namespace);
        if let Some(stamp) = &self.worker_version_stamp {
            sum = add_message(sum, 10, stamp.encoded_len());
        }
        sum = add_messages(sum, &self.messages);
        if let Some(metadata) = &self.sdk_metadata {
            sum = add_encoded(sum, 12, &metadata.encoded);
        }
        if let Some(metadata) = &self.metering_metadata {
            sum = add_encoded(sum, 13, &metadata.encoded);
        }
        if let Some(capabilities) = &self.capabilities {
            let body = add_bool(
                CheckedUsize::new(0),
                1,
                capabilities.discard_speculative_workflow_task_with_events,
            );
            sum = add_message(sum, 14, body);
        }
        if let Some(deployment) = &self.deployment {
            sum = add_encoded(sum, 15, &deployment.encoded);
        }
        sum = add_int32(sum, 16, self.versioning_behavior.number());
        if let Some(options) = &self.deployment_options {
            sum = add_message(sum, 17, options.encoded_len());
        }
        sum = add_string(sum, 18, &self.resource_id);
        sum = add_string(sum, 19, &self.worker_instance_key);
        add_string(sum, 20, &self.worker_control_task_queue)
    }

    /// The encoded length of the request, whatever its size.
    pub fn checked_encoded_len(&self) -> (n: CheckedUsize)
        ensures
            n@ == self.encoded_size(),
    {
        let metadata = self.metadata_len();
        let commands = add_commands(metadata, &self.commands);
        let number = add_int32(commands, PAGE_NUMBER_TAG, self.page_number);
        add_bool(number, INTERMEDIATE_PAGE_TAG, self.intermediate_page)
    }

    /// The encoded length of the request.
    pub fn encoded_len(&self) -> (n: usize)
        requires
            self.encoded_size() <= usize::MAX,
        ensures
            n == self.encoded_size(),
    {
        self.checked_encoded_len().unwrap()
    }
}

fn add_commands(sum: CheckedUsize, commands: &Vec<Command>) -> (total: CheckedUsize)
    ensures
        total@ == sum@ + commands_len(commands@),
{
    let mut total = CheckedUsize::new(0).add_checked(&sum);
    for i in 0..commands.len()
        invariant
            total@ == sum@ + commands_len(commands@.take(i as int)),
    {
        assert(commands@.take(i + 1).drop_last() =~= commands@.take(i as int));
        total = add_encoded(total, COMMANDS_TAG, &commands[i].encoded);
    }
    assert(commands@.take(commands@.len() as int) =~= commands@);
    total
}

fn add_messages(sum: CheckedUsize, messages: &Vec<ProtocolMessage>) -> (total: CheckedUsize)
    ensures
        total@ == sum@ + messages_len(messages@),
{
    let mut total = CheckedUsize::new(0).add_checked(&sum);
    for i in 0..messages.len()
        invariant
            total@ == sum@ + messages_len(messages@.take(i as int)),
    {
        assert(messages@.take(i + 1).drop_last() =~= messages@.take(i as int));
        total = add_encoded(total, 11, &messages[i].encoded);
    }
    assert(messages@.take(messages@.len() as int) =~= messages@);
    total
}

fn add_query_results(sum: CheckedUsize, results: &QueryResults) -> (total: CheckedUsize)
    ensures
        total@ == sum@ + query_results_len(results.entries@),
{
    let entries = &results.entries;
    let mut total = CheckedUsize::new(0).add_checked(&sum);
    for i in 0..entries.len()
        invariant
            total@ == sum@ + query_results_len(entries@.take(i as int)),
    {
        assert(entries@.take(i + 1).drop_last() =~= entries@.take(i as int));
        let mut entry = add_string(CheckedUsize::new(0), 1, &entries[i].0);
        let value = entries[i].1.encoded_len();
        let empty = match value.to_option() {
            Some(n) => n == 0,
            None => false,
        };
        if !empty {
            entry = add_message(entry, 2, value);
        }
        total = add_message(total, 8, entry);
    }
    assert(entries@.take(entries@.len() as int) =~= entries@);
    total
}

} // verus!
