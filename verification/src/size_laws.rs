//! The wire form of a workflow task completion, and that its encoded size is the length of that form.
use crate::message::{
    Command, CompletionCapabilities, DeploymentOptions, ProtocolMessage, QueryResultType,
    RespondWorkflowTaskCompletedRequest, WorkerVersionStamp, WorkflowQueryResult,
};
use crate::size::{commands_len, messages_len, query_entry_len, query_results_len};
use crate::versioning::{VersioningBehavior, WorkerVersioningMode};
use crate::wire::{
    bool_len, bytes_len, delimited_len, int32_len, key_len, message_len, string_len, varint_len,
};
use vstd::arithmetic::overflow::CheckedUsize;
use vstd::prelude::*;
use vstd::utf8::encode_utf8;

verus! {

/// `value` as a base-128 varint: seven bits to a byte, the lowest first, and the highest bit of a
/// byte set where another follows.
pub open spec fn varint_form(value: nat) -> Seq<u8>
    decreases value,
{
    if value < 128 {
        seq![value as u8]
    } else {
        seq![(128 + value % 128) as u8] + varint_form(value / 128)
    }
}

/// The number that a varint stands for.
pub open spec fn varint_value(bytes: Seq<u8>) -> nat
    decreases bytes.len(),
{
    if bytes.len() == 0 {
        0
    } else if bytes[0] < 128 {
        bytes[0] as nat
    } else {
        (bytes[0] - 128) as nat + 128 * varint_value(bytes.drop_first())
    }
}

/// A varint stands for the number that it was made of, and is as long as it is said to be.
pub proof fn varint_form_is_exact(value: nat)
    ensures
        varint_value(varint_form(value)) == value,
        varint_form(value).len() == varint_len(value),
    decreases value,
{
    if value >= 128 {
        varint_form_is_exact(value / 128);
        assert(varint_form(value).drop_first() =~= varint_form(value / 128));
    }
}

/// The key of field number `tag` with the given wire type.
pub open spec fn key_form(tag: u32, wire_type: nat) -> Seq<u8> {
    varint_form((tag * 8 + wire_type) as nat)
}

/// A length-delimited field.
pub open spec fn delimited_form(tag: u32, body: Seq<u8>) -> Seq<u8> {
    key_form(tag, 2) + varint_form(body.len()) + body
}

/// A `string` field.
pub open spec fn string_form(tag: u32, value: Seq<char>) -> Seq<u8> {
    if value.len() == 0 {
        Seq::empty()
    } else {
        delimited_form(tag, encode_utf8(value))
    }
}

/// A `bytes` field.
pub open spec fn bytes_form(tag: u32, value: Seq<u8>) -> Seq<u8> {
    if value.len() == 0 {
        Seq::empty()
    } else {
        delimited_form(tag, value)
    }
}

/// An `int32` or enumeration field. A negative number is widened to 64 bits.
pub open spec fn int32_form(tag: u32, value: i32) -> Seq<u8> {
    if value == 0 {
        Seq::empty()
    } else if value < 0 {
        key_form(tag, 0) + varint_form((0x1_0000_0000_0000_0000 + value) as nat)
    } else {
        key_form(tag, 0) + varint_form(value as nat)
    }
}

/// A `bool` field.
pub open spec fn bool_form(tag: u32, value: bool) -> Seq<u8> {
    if value {
        key_form(tag, 0) + seq![1u8]
    } else {
        Seq::empty()
    }
}

/// A message field with the given body, if there is one.
pub open spec fn message_form(tag: u32, body: Option<Seq<u8>>) -> Seq<u8> {
    match body {
        Some(body) => delimited_form(tag, body),
        None => Seq::empty(),
    }
}

/// A result of a query.
pub open spec fn query_result_form(result: WorkflowQueryResult) -> Seq<u8> {
    int32_form(
        1,
        match result.result_type {
            QueryResultType::Unspecified => 0,
            QueryResultType::Answered => 1,
            QueryResultType::Failed => 2,
        },
    ) + message_form(
        2,
        match result.answer {
            Some(answer) => Some(answer.encoded@),
            None => None,
        },
    ) + string_form(3, result.error_message@) + message_form(
        4,
        match result.failure {
            Some(failure) => Some(failure.encoded@),
            None => None,
        },
    )
}

/// An entry of the query results: the id and the result, each left out where it is empty.
pub open spec fn query_entry_form(entry: (String, WorkflowQueryResult)) -> Seq<u8> {
    delimited_form(8, string_form(1, entry.0@) + bytes_form(2, query_result_form(entry.1)))
}

/// A version stamp.
pub open spec fn version_stamp_form(stamp: WorkerVersionStamp) -> Seq<u8> {
    string_form(1, stamp.build_id@) + bool_form(3, stamp.use_versioning)
}

/// Deployment options.
pub open spec fn deployment_options_form(options: DeploymentOptions) -> Seq<u8> {
    string_form(1, options.deployment_name@) + string_form(2, options.build_id@) + int32_form(
        3,
        match options.worker_versioning_mode {
            WorkerVersioningMode::Unspecified => 0,
            WorkerVersioningMode::Unversioned => 1,
            WorkerVersioningMode::Versioned => 2,
        },
    )
}

/// What the sender of a completion can handle.
pub open spec fn capabilities_form(capabilities: CompletionCapabilities) -> Seq<u8> {
    bool_form(1, capabilities.discard_speculative_workflow_task_with_events)
}

/// Commands, as a repeated field of a completion.
pub open spec fn commands_form(commands: Seq<Command>) -> Seq<u8> {
    commands.map_values(|command: Command| delimited_form(2, command.encoded@)).flatten()
}

/// Query results, as a map field of a completion.
pub open spec fn query_results_form(entries: Seq<(String, WorkflowQueryResult)>) -> Seq<u8> {
    entries.map_values(
        |entry: (String, WorkflowQueryResult)| query_entry_form(entry),
    ).flatten()
}

/// Protocol messages, as a repeated field of a completion.
pub open spec fn messages_form(messages: Seq<ProtocolMessage>) -> Seq<u8> {
    messages.map_values(
        |message: ProtocolMessage| delimited_form(11, message.encoded@),
    ).flatten()
}

/// The fields of a completion up to its query results.
pub open spec fn first_fields_form(request: RespondWorkflowTaskCompletedRequest) -> Seq<u8> {
    bytes_form(1, request.task_token@) + commands_form(request.commands@) + string_form(
        3,
        request.identity@,
    ) + message_form(
        4,
        match request.sticky_attributes {
            Some(attributes) => Some(attributes.encoded@),
            None => None,
        },
    ) + bool_form(5, request.return_new_workflow_task) + bool_form(
        6,
        request.force_create_new_workflow_task,
    ) + string_form(7, request.binary_checksum@) + query_results_form(
        request.query_results.entries@,
    )
}

/// The fields of a completion from its namespace to its capabilities.
pub open spec fn middle_fields_form(request: RespondWorkflowTaskCompletedRequest) -> Seq<u8> {
    string_form(9, request.namespace@) + message_form(
        10,
        match request.worker_version_stamp {
            Some(stamp) => Some(version_stamp_form(stamp)),
            None => None,
        },
    ) + messages_form(request.messages@) + message_form(
        12,
        match request.sdk_metadata {
            Some(metadata) => Some(metadata.encoded@),
            None => None,
        },
    ) + message_form(
        13,
        match request.metering_metadata {
            Some(metadata) => Some(metadata.encoded@),
            None => None,
        },
    ) + message_form(
        14,
        match request.capabilities {
            Some(capabilities) => Some(capabilities_form(capabilities)),
            None => None,
        },
    )
}

/// The fields of a completion after its capabilities.
pub open spec fn last_fields_form(request: RespondWorkflowTaskCompletedRequest) -> Seq<u8> {
    message_form(
        15,
        match request.deployment {
            Some(deployment) => Some(deployment.encoded@),
            None => None,
        },
    ) + int32_form(
        16,
        match request.versioning_behavior {
            VersioningBehavior::Unspecified => 0,
            VersioningBehavior::Pinned => 1,
            VersioningBehavior::AutoUpgrade => 2,
        },
    ) + message_form(
        17,
        match request.deployment_options {
            Some(options) => Some(deployment_options_form(options)),
            None => None,
        },
    ) + string_form(18, request.resource_id@) + string_form(19, request.worker_instance_key@)
        + string_form(20, request.worker_control_task_queue@) + int32_form(21, request.page_number)
        + bool_form(22, request.intermediate_page)
}

/// A completion, field by field in the order of their numbers.
pub open spec fn completion_form(request: RespondWorkflowTaskCompletedRequest) -> Seq<u8> {
    first_fields_form(request) + middle_fields_form(request) + last_fields_form(request)
}

proof fn lemma_key_form_len(tag: u32, wire_type: nat)
    requires
        wire_type < 8,
    ensures
        key_form(tag, wire_type).len() == key_len(tag),
{
    let a = (tag * 8 + wire_type) as nat;
    let b = (tag * 8) as nat;
    varint_form_is_exact(a);
    if a >= 128 {
        assert(b >= 128);
        assert(a / 128 == b / 128);
    } else {
        assert(b < 128);
    }
}

proof fn lemma_delimited_form_len(tag: u32, body: Seq<u8>)
    ensures
        delimited_form(tag, body).len() == delimited_len(tag, body.len()),
{
    lemma_key_form_len(tag, 2);
    varint_form_is_exact(body.len());
}

proof fn lemma_string_form_len(tag: u32, value: Seq<char>)
    ensures
        string_form(tag, value).len() == string_len(tag, value),
{
    lemma_delimited_form_len(tag, encode_utf8(value));
}

proof fn lemma_bytes_form_len(tag: u32, value: Seq<u8>)
    ensures
        bytes_form(tag, value).len() == bytes_len(tag, value),
{
    lemma_delimited_form_len(tag, value);
}

proof fn lemma_int32_form_len(tag: u32, value: i32)
    ensures
        int32_form(tag, value).len() == int32_len(tag, value),
{
    lemma_key_form_len(tag, 0);
    if value < 0 {
        varint_form_is_exact((0x1_0000_0000_0000_0000 + value) as nat);
    } else {
        varint_form_is_exact(value as nat);
    }
}

proof fn lemma_bool_form_len(tag: u32, value: bool)
    ensures
        bool_form(tag, value).len() == bool_len(tag, value),
{
    lemma_key_form_len(tag, 0);
}

proof fn lemma_message_form_len(tag: u32, body: Option<Seq<u8>>)
    ensures
        message_form(tag, body).len() == message_len(
            tag,
            match body {
                Some(body) => Some(body.len()),
                None => None,
            },
        ),
{
    if let Some(body) = body {
        lemma_delimited_form_len(tag, body);
    }
}

proof fn lemma_commands_form_len(commands: Seq<Command>)
    ensures
        commands_form(commands).len() == commands_len(commands),
    decreases commands.len(),
{
    let forms = commands.map_values(|command: Command| delimited_form(2, command.encoded@));
    if commands.len() == 0 {
        assert(forms =~= Seq::<Seq<u8>>::empty());
    } else {
        let shorter = commands.drop_last();
        lemma_commands_form_len(shorter);
        let last = delimited_form(2, commands.last().encoded@);
        let shorter_forms = shorter.map_values(
            |command: Command| delimited_form(2, command.encoded@),
        );
        assert(forms =~= shorter_forms.push(last));
        shorter_forms.lemma_flatten_push(last);
        lemma_delimited_form_len(2, commands.last().encoded@);
    }
}

proof fn lemma_messages_form_len(messages: Seq<ProtocolMessage>)
    ensures
        messages_form(messages).len() == messages_len(messages),
    decreases messages.len(),
{
    let forms = messages.map_values(
        |message: ProtocolMessage| delimited_form(11, message.encoded@),
    );
    if messages.len() == 0 {
        assert(forms =~= Seq::<Seq<u8>>::empty());
    } else {
        let shorter = messages.drop_last();
        lemma_messages_form_len(shorter);
        let last = delimited_form(11, messages.last().encoded@);
        let shorter_forms = shorter.map_values(
            |message: ProtocolMessage| delimited_form(11, message.encoded@),
        );
        assert(forms =~= shorter_forms.push(last));
        shorter_forms.lemma_flatten_push(last);
        lemma_delimited_form_len(11, messages.last().encoded@);
    }
}

proof fn lemma_query_entry_form_len(entry: (String, WorkflowQueryResult))
    ensures
        query_entry_form(entry).len() == query_entry_len(entry),
{
    let result = entry.1;
    let form = query_result_form(result);
    lemma_int32_form_len(1, result.result_type.spec_number());
    lemma_message_form_len(
        2,
        match result.answer {
            Some(answer) => Some(answer.encoded@),
            None => None,
        },
    );
    lemma_string_form_len(3, result.error_message@);
    lemma_message_form_len(
        4,
        match result.failure {
            Some(failure) => Some(failure.encoded@),
            None => None,
        },
    );
    assert(form.len() == result.encoded_size());
    lemma_string_form_len(1, entry.0@);
    lemma_bytes_form_len(2, form);
    lemma_delimited_form_len(8, string_form(1, entry.0@) + bytes_form(2, form));
}

proof fn lemma_query_results_form_len(entries: Seq<(String, WorkflowQueryResult)>)
    ensures
        query_results_form(entries).len() == query_results_len(entries),
    decreases entries.len(),
{
    let forms = entries.map_values(
        |entry: (String, WorkflowQueryResult)| query_entry_form(entry),
    );
    if entries.len() == 0 {
        assert(forms =~= Seq::<Seq<u8>>::empty());
    } else {
        let shorter = entries.drop_last();
        lemma_query_results_form_len(shorter);
        let last = query_entry_form(entries.last());
        let shorter_forms = shorter.map_values(
            |entry: (String, WorkflowQueryResult)| query_entry_form(entry),
        );
        assert(forms =~= shorter_forms.push(last));
        shorter_forms.lemma_flatten_push(last);
        lemma_query_entry_form_len(entries.last());
    }
}

proof fn lemma_nested_forms_len(request: RespondWorkflowTaskCompletedRequest)
    ensures
        request.worker_version_stamp matches Some(stamp) ==> version_stamp_form(stamp).len()
            == stamp.encoded_size(),
        request.capabilities matches Some(capabilities) ==> capabilities_form(capabilities).len()
            == capabilities.encoded_size(),
        request.deployment_options matches Some(options) ==> deployment_options_form(options).len()
            == options.encoded_size(),
{
    if let Some(stamp) = request.worker_version_stamp {
        lemma_string_form_len(1, stamp.build_id@);
        lemma_bool_form_len(3, stamp.use_versioning);
    }
    if let Some(capabilities) = request.capabilities {
        lemma_bool_form_len(1, capabilities.discard_speculative_workflow_task_with_events);
    }
    if let Some(options) = request.deployment_options {
        lemma_string_form_len(1, options.deployment_name@);
        lemma_string_form_len(2, options.build_id@);
        lemma_int32_form_len(3, options.worker_versioning_mode.spec_number());
    }
}

proof fn lemma_first_fields_form_len(request: RespondWorkflowTaskCompletedRequest)
    ensures
        first_fields_form(request).len() == bytes_len(1, request.task_token@) + commands_len(
            request.commands@,
        ) + string_len(3, request.identity@) + message_len(
            4,
            match request.sticky_attributes {
                Some(attributes) => Some(attributes.encoded@.len()),
                None => None,
            },
        ) + bool_len(5, request.return_new_workflow_task) + bool_len(
            6,
            request.force_create_new_workflow_task,
        ) + string_len(7, request.binary_checksum@) + query_results_len(
            request.query_results.entries@,
        ),
{
    lemma_bytes_form_len(1, request.task_token@);
    lemma_commands_form_len(request.commands@);
    lemma_string_form_len(3, request.identity@);
    lemma_message_form_len(
        4,
        match request.sticky_attributes {
            Some(attributes) => Some(attributes.encoded@),
            None => None,
        },
    );
    lemma_bool_form_len(5, request.return_new_workflow_task);
    lemma_bool_form_len(6, request.force_create_new_workflow_task);
    lemma_string_form_len(7, request.binary_checksum@);
    lemma_query_results_form_len(request.query_results.entries@);
}

proof fn lemma_middle_fields_form_len(request: RespondWorkflowTaskCompletedRequest)
    ensures
        middle_fields_form(request).len() == string_len(9, request.namespace@) + message_len(
            10,
            match request.worker_version_stamp {
                Some(stamp) => Some(stamp.encoded_size()),
                None => None,
            },
        ) + messages_len(request.messages@) + message_len(
            12,
            match request.sdk_metadata {
                Some(metadata) => Some(metadata.encoded@.len()),
                None => None,
            },
        ) + message_len(
            13,
            match request.metering_metadata {
                Some(metadata) => Some(metadata.encoded@.len()),
                None => None,
            },
        ) + message_len(
            14,
            match request.capabilities {
                Some(capabilities) => Some(capabilities.encoded_size()),
                None => None,
            },
        ),
{
    lemma_string_form_len(9, request.namespace@);
    lemma_nested_forms_len(request);
    lemma_message_form_len(
        10,
        match request.worker_version_stamp {
            Some(stamp) => Some(version_stamp_form(stamp)),
            None => None,
        },
    );
    lemma_messages_form_len(request.messages@);
    lemma_message_form_len(
        12,
        match request.sdk_metadata {
            Some(metadata) => Some(metadata.encoded@),
            None => None,
        },
    );
    lemma_message_form_len(
        13,
        match request.metering_metadata {
            Some(metadata) => Some(metadata.encoded@),
            None => None,
        },
    );
    lemma_message_form_len(
        14,
        match request.capabilities {
            Some(capabilities) => Some(capabilities_form(capabilities)),
            None => None,
        },
    );
}

proof fn lemma_last_fields_form_len(request: RespondWorkflowTaskCompletedRequest)
    ensures
        last_fields_form(request).len() == message_len(
            15,
            match request.deployment {
                Some(deployment) => Some(deployment.encoded@.len()),
                None => None,
            },
        ) + int32_len(16, request.versioning_behavior.spec_number()) + message_len(
            17,
            match request.deployment_options {
                Some(options) => Some(options.encoded_size()),
                None => None,
            },
        ) + string_len(18, request.resource_id@) + string_len(19, request.worker_instance_key@)
            + string_len(20, request.worker_control_task_queue@) + int32_len(
            21,
            request.page_number,
        ) + bool_len(22, request.intermediate_page),
{
    lemma_message_form_len(
        15,
        match request.deployment {
            Some(deployment) => Some(deployment.encoded@),
            None => None,
        },
    );
    lemma_int32_form_len(16, request.versioning_behavior.spec_number());
    lemma_nested_forms_len(request);
    lemma_message_form_len(
        17,
        match request.deployment_options {
            Some(options) => Some(deployment_options_form(options)),
            None => None,
        },
    );
    lemma_string_form_len(18, request.resource_id@);
    lemma_string_form_len(19, request.worker_instance_key@);
    lemma_string_form_len(20, request.worker_control_task_queue@);
    lemma_int32_form_len(21, request.page_number);
    lemma_bool_form_len(22, request.intermediate_page);
}

/// The encoded size of a completion, by which it is split, is the length of its wire form.
pub proof fn encoded_size_is_length_of_wire_form(request: RespondWorkflowTaskCompletedRequest)
    ensures
        request.encoded_size() == completion_form(request).len(),
{
    lemma_first_fields_form_len(request);
    lemma_middle_fields_form_len(request);
    lemma_last_fields_form_len(request);
}

/// What is computed as the encoded length of a completion is the length of its wire form.
pub proof fn encoded_len_is_length_of_wire_form(
    request: RespondWorkflowTaskCompletedRequest,
    n: usize,
)
    requires
        call_ensures(RespondWorkflowTaskCompletedRequest::encoded_len, (&request,), n),
    ensures
        n == completion_form(request).len(),
{
    encoded_size_is_length_of_wire_form(request);
}

/// So is what is computed as the encoded length of a completion that a `usize` may be too small for.
pub proof fn checked_encoded_len_is_length_of_wire_form(
    request: RespondWorkflowTaskCompletedRequest,
    n: CheckedUsize,
)
    requires
        call_ensures(RespondWorkflowTaskCompletedRequest::checked_encoded_len, (&request,), n),
    ensures
        n@ == completion_form(request).len(),
{
    encoded_size_is_length_of_wire_form(request);
}

} // verus!
