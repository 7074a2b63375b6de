use prost::encoding::{bool, bytes, hash_map, int32, string};
use worker_client::message::{
    Command, CompletionCapabilities, Deployment, DeploymentOptions, Failure, MeteringMetadata,
    Payloads, ProtocolMessage, QueryResultType, QueryResults, RespondWorkflowTaskCompletedRequest,
    StickyExecutionAttributes, WorkerVersionStamp, WorkflowQueryResult,
    WorkflowTaskCompletedMetadata,
};
use worker_client::pagination::{paginate_wft_completion, MAX_WFT_COMPLETION_PAGE_SIZE};
use worker_client::versioning::{VersioningBehavior, WorkerVersioningMode};

fn field(tag: u32, body: Vec<u8>) -> Vec<u8> {
    let mut out = Vec::new();
    bytes::encode(tag, &body, &mut out);
    out
}

/// A command that completes a workflow with one payload of the given size.
fn command_with_payload(data_size: usize) -> Command {
    let payload = field(2, vec![0u8; data_size]);
    let payloads = field(1, payload);
    let attributes = field(1, payloads);
    Command { encoded: field(4, attributes) }
}

/// A command whose wire form has the given length.
fn command_of_len(len: usize) -> Command {
    Command { encoded: vec![7u8; len] }
}

fn request_with(commands: Vec<Command>) -> RespondWorkflowTaskCompletedRequest {
    RespondWorkflowTaskCompletedRequest {
        task_token: b"task-token".to_vec(),
        commands,
        identity: "identity".to_string(),
        sticky_attributes: None,
        return_new_workflow_task: false,
        force_create_new_workflow_task: false,
        binary_checksum: String::new(),
        query_results: QueryResults::new(),
        namespace: "namespace".to_string(),
        worker_version_stamp: None,
        messages: vec![],
        sdk_metadata: None,
        metering_metadata: None,
        capabilities: None,
        deployment: None,
        versioning_behavior: VersioningBehavior::Unspecified,
        deployment_options: None,
        resource_id: String::new(),
        worker_instance_key: String::new(),
        worker_control_task_queue: String::new(),
        page_number: 0,
        intermediate_page: false,
    }
}

#[test]
fn completion_within_limit_is_a_single_final_page() {
    let request = request_with(vec![command_with_payload(16)]);
    let pages = paginate_wft_completion(request, 4096);
    assert_eq!(pages.len(), 1);
    assert_eq!(pages[0].page_number, 0);
    assert!(!pages[0].intermediate_page);
    assert_eq!(pages[0].commands.len(), 1);
}

#[test]
fn large_completion_splits_commands_across_pages() {
    let max = 1024;
    let command_count = 6;
    let commands: Vec<_> = (0..command_count).map(|_| command_with_payload(400)).collect();
    let request = request_with(commands);
    assert!(request.encoded_len() > max);

    let pages = paginate_wft_completion(request, max);
    assert!(pages.len() >= 2, "expected multiple pages");

    let (intermediate, final_page) = pages.split_at(pages.len() - 1);
    let final_page = &final_page[0];

    // The final page carries no commands, is not intermediate, and its page number equals
    // the count of preceding intermediate pages.
    assert!(!final_page.intermediate_page);
    assert!(final_page.commands.is_empty());
    assert_eq!(final_page.page_number as usize, intermediate.len());
    assert!(final_page.encoded_len() <= max);
    assert_eq!(final_page.task_token, b"task-token");

    let mut total_commands = 0;
    for (idx, page) in intermediate.iter().enumerate() {
        assert!(page.intermediate_page);
        assert_eq!(page.page_number as usize, idx);
        assert_eq!(page.task_token, b"task-token");
        assert!(page.encoded_len() <= max, "intermediate page {idx} over limit");
        total_commands += page.commands.len();
    }
    // Every command is preserved exactly once across the intermediate pages.
    assert_eq!(total_commands, command_count);
}

#[test]
fn single_command_larger_than_a_page_is_not_split() {
    let max = 1024;
    let request = request_with(vec![command_with_payload(4096)]);
    let pages = paginate_wft_completion(request, max);
    // Cannot be split, so it is left as one (oversized) request for the server to reject.
    assert_eq!(pages.len(), 1);
    assert_eq!(pages[0].commands.len(), 1);
    assert!(!pages[0].intermediate_page);
}

#[test]
fn one_oversized_command_among_many_keeps_the_request_whole() {
    let commands = vec![command_of_len(10), command_of_len(2000), command_of_len(10)];
    let request = request_with(commands);
    let pages = paginate_wft_completion(request.clone(), 1024);
    assert_eq!(pages, vec![request]);
}

#[test]
fn commands_stay_in_order_and_are_packed_greedily() {
    // Token 12, identity 10, namespace 11 and the page's flag 3 bytes: 36 in all.
    let commands: Vec<_> = [20, 30, 25, 40, 1].iter().map(|n| command_of_len(*n)).collect();
    let mut request = request_with(commands.clone());
    request.messages = vec![ProtocolMessage { encoded: vec![1; 200] }];
    let pages = paginate_wft_completion(request, 36 + 26 + 36);
    let sizes: Vec<Vec<usize>> = pages
        .iter()
        .map(|page| page.commands.iter().map(|c| c.encoded.len()).collect())
        .collect();
    assert_eq!(sizes, vec![vec![20, 30], vec![25], vec![40, 1], vec![]]);
    let sent: Vec<Command> = pages.iter().flat_map(|page| page.commands.clone()).collect();
    assert_eq!(sent, commands);
    let numbers: Vec<i32> = pages.iter().map(|page| page.page_number).collect();
    assert_eq!(numbers, vec![0, 1, 2, 3]);
}

#[test]
fn a_page_is_full_at_the_limit_and_not_before() {
    let commands = vec![command_of_len(10), command_of_len(10)];
    let mut request = request_with(commands);
    request.messages = vec![ProtocolMessage { encoded: vec![1; 200] }];
    let together = paginate_wft_completion(request.clone(), 36 + 16 + 16);
    assert_eq!(together.len(), 2);
    assert_eq!(together[0].commands.len(), 2);
    let apart = paginate_wft_completion(request, 36 + 16 + 16 - 1);
    assert_eq!(apart.len(), 3);
    assert_eq!(apart[0].commands.len(), 1);
    assert_eq!(apart[1].commands.len(), 1);
}

#[test]
fn metadata_stays_on_the_final_page() {
    let mut request = request_with((0..4).map(|_| command_of_len(100)).collect());
    request.messages = vec![ProtocolMessage { encoded: vec![1, 2, 3] }];
    request.sdk_metadata = Some(WorkflowTaskCompletedMetadata { encoded: vec![4] });
    request.binary_checksum = "checksum".to_string();
    request.return_new_workflow_task = true;
    let pages = paginate_wft_completion(request.clone(), 200);
    assert!(pages.len() > 2);
    for page in &pages[..pages.len() - 1] {
        assert!(page.messages.is_empty());
        assert_eq!(page.sdk_metadata, None);
        assert_eq!(page.binary_checksum, "");
        assert!(!page.return_new_workflow_task);
        assert_eq!(page.identity, "identity");
        assert_eq!(page.namespace, "namespace");
    }
    let mut expected = request;
    expected.commands = vec![];
    expected.page_number = pages.len() as i32 - 1;
    assert_eq!(pages[pages.len() - 1], expected);
}

#[test]
fn large_metadata_without_commands_is_one_page() {
    let mut request = request_with(vec![]);
    request.messages = vec![ProtocolMessage { encoded: vec![1; 500] }];
    let pages = paginate_wft_completion(request.clone(), 100);
    assert_eq!(pages, vec![request]);
}

#[test]
fn page_number_is_not_part_of_the_packing() {
    // Each command fills a page to the byte that packing counts; its length takes two bytes, so three
    // of the six bytes for framing remain, which is what the number of the second page takes up.
    let max = 1024;
    let len = max - 36 - 6;
    let pages = paginate_wft_completion(
        request_with(vec![command_of_len(len), command_of_len(len)]),
        max,
    );
    assert_eq!(pages.len(), 3);
    assert_eq!(pages[0].encoded_len(), max - 3);
    assert_eq!(pages[1].encoded_len(), max);
}

#[test]
fn a_later_page_can_exceed_the_target_by_its_number() {
    // A body of two mebibytes or more has a length of four bytes: one byte of framing remains.
    let max = MAX_WFT_COMPLETION_PAGE_SIZE;
    let len = max - 36 - 6;
    let pages = paginate_wft_completion(
        request_with(vec![command_of_len(len), command_of_len(len)]),
        max,
    );
    assert_eq!(pages.len(), 3);
    assert_eq!(pages[0].encoded_len(), max - 1);
    assert_eq!(pages[1].encoded_len(), max + 2);
    assert!(pages[1].encoded_len() < 4 * 1024 * 1024);
}

#[test]
fn encoded_len_is_the_length_of_the_encoding() {
    let mut results = QueryResults::new();
    results.insert(
        "q1".to_string(),
        WorkflowQueryResult {
            result_type: QueryResultType::Answered,
            answer: Some(Payloads { encoded: vec![9; 300] }),
            error_message: String::new(),
            failure: None,
        },
    );
    results.insert(
        "".to_string(),
        WorkflowQueryResult {
            result_type: QueryResultType::Unspecified,
            answer: None,
            error_message: String::new(),
            failure: None,
        },
    );
    results.insert(
        "q3".to_string(),
        WorkflowQueryResult {
            result_type: QueryResultType::Failed,
            answer: None,
            error_message: "h\u{e9}las".to_string(),
            failure: Some(Failure { encoded: vec![] }),
        },
    );
    let mut request = request_with(vec![command_of_len(0), command_of_len(127), command_of_len(128)]);
    request.sticky_attributes = Some(StickyExecutionAttributes { encoded: vec![1, 2] });
    request.return_new_workflow_task = true;
    request.force_create_new_workflow_task = true;
    request.binary_checksum = "build-\u{1f600}".to_string();
    request.query_results = results;
    request.worker_version_stamp =
        Some(WorkerVersionStamp { build_id: "b".to_string(), use_versioning: true });
    request.messages = vec![
        ProtocolMessage { encoded: vec![5; 20_000] },
        ProtocolMessage { encoded: vec![] },
    ];
    request.sdk_metadata = Some(WorkflowTaskCompletedMetadata { encoded: vec![] });
    request.metering_metadata = Some(MeteringMetadata { encoded: vec![3] });
    request.capabilities =
        Some(CompletionCapabilities { discard_speculative_workflow_task_with_events: true });
    request.deployment = Some(Deployment { encoded: vec![8; 3] });
    request.versioning_behavior = VersioningBehavior::AutoUpgrade;
    request.deployment_options = Some(DeploymentOptions {
        deployment_name: "d".to_string(),
        build_id: String::new(),
        worker_versioning_mode: WorkerVersioningMode::Versioned,
    });
    request.resource_id = "r".to_string();
    request.worker_instance_key = "key".to_string();
    request.worker_control_task_queue = "queue".to_string();
    request.page_number = -1;
    request.intermediate_page = true;

    let mut out = Vec::new();
    bytes::encode(1, &request.task_token, &mut out);
    for command in &request.commands {
        bytes::encode(2, &command.encoded, &mut out);
    }
    string::encode(3, &request.identity, &mut out);
    bytes::encode(4, &vec![1u8, 2], &mut out);
    bool::encode(5, &true, &mut out);
    bool::encode(6, &true, &mut out);
    string::encode(7, &request.binary_checksum, &mut out);
    let mut q1 = Vec::new();
    int32::encode(1, &1, &mut q1);
    bytes::encode(2, &vec![9u8; 300], &mut q1);
    let mut q3 = Vec::new();
    int32::encode(1, &2, &mut q3);
    string::encode(3, &"h\u{e9}las".to_string(), &mut q3);
    bytes::encode(4, &Vec::<u8>::new(), &mut q3);
    let mut map = std::collections::HashMap::new();
    map.insert("q1".to_string(), q1);
    map.insert("".to_string(), Vec::new());
    map.insert("q3".to_string(), q3);
    hash_map::encode(
        string::encode,
        string::encoded_len,
        bytes::encode,
        bytes::encoded_len,
        8,
        &map,
        &mut out,
    );
    string::encode(9, &request.namespace, &mut out);
    let mut stamp = Vec::new();
    string::encode(1, &"b".to_string(), &mut stamp);
    bool::encode(3, &true, &mut stamp);
    bytes::encode(10, &stamp, &mut out);
    for message in &request.messages {
        bytes::encode(11, &message.encoded, &mut out);
    }
    bytes::encode(12, &Vec::<u8>::new(), &mut out);
    bytes::encode(13, &vec![3u8], &mut out);
    let mut capabilities = Vec::new();
    bool::encode(1, &true, &mut capabilities);
    bytes::encode(14, &capabilities, &mut out);
    bytes::encode(15, &vec![8u8; 3], &mut out);
    int32::encode(16, &2, &mut out);
    let mut options = Vec::new();
    string::encode(1, &"d".to_string(), &mut options);
    int32::encode(3, &2, &mut options);
    bytes::encode(17, &options, &mut out);
    string::encode(18, &request.resource_id, &mut out);
    string::encode(19, &request.worker_instance_key, &mut out);
    string::encode(20, &request.worker_control_task_queue, &mut out);
    int32::encode(21, &-1, &mut out);
    bool::encode(22, &true, &mut out);

    assert_eq!(request.encoded_len(), out.len());
}

#[test]
fn encoded_len_of_a_small_request() {
    // Token 2 + 10, identity 2 + 8, namespace 2 + 9.
    assert_eq!(request_with(vec![]).encoded_len(), 33);
    assert_eq!(request_with(vec![command_of_len(5)]).encoded_len(), 40);
}

#[test]
fn paginating_twice_gives_the_same_pages() {
    let request = request_with((1..40).map(|n| command_of_len(n * 7)).collect());
    assert_eq!(
        paginate_wft_completion(request.clone(), 400),
        paginate_wft_completion(request, 400)
    );
}

#[test]
fn packing_needs_no_more_pages_than_another_cut() {
    // Cut after every second command, each page fits: five pages. Packing needs no more.
    let commands: Vec<_> =
        [10, 60, 50, 20, 30, 40, 60, 10, 5, 5].iter().map(|n| command_of_len(*n)).collect();
    let max = 36 + 82;
    for pair in commands.chunks(2) {
        assert!(36 + pair.iter().map(|c| c.encoded.len() + 6).sum::<usize>() <= max);
    }
    let pages = paginate_wft_completion(request_with(commands), max);
    assert_eq!(pages.len() - 1, 5);
}
