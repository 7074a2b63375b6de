use prost::Message;
use uuid::Uuid;
use worker_client::client::{Capabilities, ConnectionInfo, WorkerClientBag};
use worker_client::message::{
    Command, MeteringMetadata, Payloads, QueryResult, QueryResultType,
    RespondWorkflowTaskCompletedRequest, TaskToken, WorkflowTaskCompletedMetadata,
};
use worker_client::respond::WorkflowTaskCompletion;
use worker_client::send::{
    CompletionSender, SendPhase, SendStep, MAX_WFT_COMPLETION_PAGE_RESENDS,
};
use worker_client::status::Status;
use worker_client::versioning::{VersioningBehavior, WorkerVersioningStrategy};

fn field(tag: u32, body: Vec<u8>) -> Vec<u8> {
    let mut out = Vec::new();
    prost::encoding::bytes::encode(tag, &body, &mut out);
    out
}

fn command_with_payload(data_size: usize) -> Command {
    let payload = field(2, vec![0u8; data_size]);
    Command { encoded: field(4, field(1, field(1, payload))) }
}

fn queue_name(namespace: &str, key: &str) -> String {
    format!("{namespace}|{key}")
}

fn connection() -> ConnectionInfo {
    ConnectionInfo {
        identity: "identity".to_string(),
        capabilities: Some(Capabilities::default()),
        client_name: "sdk".to_string(),
        client_version: "1.2.3".to_string(),
        worker_grouping_key: 5,
        worker_control_task_queue_enabled: true,
    }
}

fn client() -> WorkerClientBag {
    WorkerClientBag::new(
        "namespace".to_string(),
        WorkerVersioningStrategy::LegacyBuildIdBased { build_id: "test-build".to_string() },
        Uuid::new_v4().as_u128(),
    )
}

fn completion(commands: Vec<Command>) -> WorkflowTaskCompletion {
    WorkflowTaskCompletion {
        task_token: TaskToken(b"shared-token".to_vec()),
        commands,
        messages: vec![],
        sticky_attributes: None,
        query_responses: vec![],
        return_new_workflow_task: false,
        force_create_new_workflow_task: false,
        sdk_metadata: WorkflowTaskCompletedMetadata { encoded: vec![] },
        metering_metadata: MeteringMetadata { encoded: vec![] },
        versioning_behavior: VersioningBehavior::Unspecified,
        pagination_enabled: true,
    }
}

fn lost() -> Status {
    let rpc_status = tonic_types::Status {
        code: 10,
        message: "buffered pages lost".to_string(),
        details: vec![prost_types::Any {
            type_url: "type.googleapis.com/temporal.api.errordetails.v1.\
                       WorkflowTaskCompletionBufferLostFailure"
                .to_string(),
            value: vec![],
        }],
    };
    Status {
        code: 10,
        message: "buffered pages lost".to_string(),
        details: rpc_status.encode_to_vec(),
    }
}

fn refused() -> Status {
    Status { code: 3, message: "boom".to_string(), details: vec![] }
}

/// Sends pages to a server that answers each of them as `serve` says, page by page, and returns what
/// the server saw, the outcome, and the number of pages that were abandoned.
fn drive<F>(
    started: (CompletionSender, SendStep<u32>),
    mut serve: F,
) -> (Vec<RespondWorkflowTaskCompletedRequest>, Result<u32, Status>, usize)
where
    F: FnMut(&RespondWorkflowTaskCompletedRequest) -> Result<u32, Status>,
{
    let (mut sender, mut step) = started;
    let mut seen = Vec::new();
    let mut in_flight: Vec<RespondWorkflowTaskCompletedRequest> = Vec::new();
    let mut abandoned = 0;
    loop {
        match step {
            SendStep::SendOnly | SendStep::SendFinal => {
                assert!(in_flight.is_empty());
                in_flight.push(sender.final_page().clone());
            }
            SendStep::SendIntermediate => {
                abandoned += in_flight.len();
                in_flight = sender.intermediate_pages().to_vec();
                in_flight.reverse();
            }
            SendStep::Await => {}
            SendStep::Finish(outcome) => {
                abandoned += in_flight.len();
                return (seen, outcome, abandoned);
            }
        }
        let page = in_flight.pop().unwrap();
        let answer = serve(&page);
        seen.push(page);
        step = sender.on_answer(answer);
    }
}

#[test]
fn paginated_completion_sends_ordered_pages_sharing_a_token() {
    // Roughly 4 MiB of commands forces splitting under the ~3 MiB page target.
    let commands: Vec<_> = (0..8).map(|_| command_with_payload(512 * 1024)).collect();
    let started = client().complete_workflow_task(&connection(), completion(commands), &queue_name);
    let (sent, outcome, abandoned) = drive(started, |page| Ok(page.page_number as u32));
    assert_eq!(outcome, Ok(sent.len() as u32 - 1));
    assert_eq!(abandoned, 0);

    assert!(sent.len() >= 2, "expected multiple pages, got {}", sent.len());
    // Every page shares the one task token.
    assert!(sent.iter().all(|r| r.task_token == b"shared-token"));
    // Exactly one final page, numbered after all the intermediate ones.
    let finals: Vec<_> = sent.iter().filter(|r| !r.intermediate_page).collect();
    assert_eq!(finals.len(), 1);
    assert_eq!(finals[0].page_number as usize, sent.len() - 1);
    assert!(finals[0].commands.is_empty());
    // Intermediate pages carry sequential page numbers 0..N-1.
    let mut intermediate_numbers: Vec<_> =
        sent.iter().filter(|r| r.intermediate_page).map(|r| r.page_number).collect();
    intermediate_numbers.sort_unstable();
    assert_eq!(intermediate_numbers, (0..(sent.len() as i32 - 1)).collect::<Vec<_>>());
}

#[test]
fn failed_page_cancels_other_inflight_pages() {
    // Page 0 fails at once; the answers to all others never come. The sending ends all the same.
    let commands: Vec<_> = (0..8).map(|_| command_with_payload(512 * 1024)).collect();
    let started = client().complete_workflow_task(&connection(), completion(commands), &queue_name);
    let (sent, outcome, abandoned) = drive(started, |page| {
        if page.intermediate_page && page.page_number == 0 {
            Err(refused())
        } else {
            unreachable!("a cancelled page must not resume")
        }
    });
    assert_eq!(sent.len(), 1);
    assert!(abandoned >= 1);
    assert!(outcome.is_err(), "the failed page should surface as an error");
    assert_eq!(outcome, Err(refused()));
}

fn three_pages() -> (CompletionSender, SendStep<u32>) {
    let commands = (0..3).map(|_| command_with_payload(2 * 1024 * 1024)).collect();
    let started = client().complete_workflow_task(&connection(), completion(commands), &queue_name);
    assert_eq!(started.0.pages.len(), 4);
    assert_eq!(started.1, SendStep::SendIntermediate);
    started
}

#[test]
fn lost_pages_are_sent_again_from_the_first() {
    let mut losses = 0;
    let (sent, outcome, abandoned) = drive(three_pages(), |page| {
        if page.page_number == 1 && losses < 2 {
            losses += 1;
            Err(lost())
        } else {
            Ok(7)
        }
    });
    assert_eq!(outcome, Ok(7));
    let numbers: Vec<i32> = sent.iter().map(|page| page.page_number).collect();
    assert_eq!(numbers, vec![0, 1, 0, 1, 0, 1, 2, 3]);
    assert_eq!(abandoned, 2);
}

#[test]
fn pages_lost_at_the_final_page_are_sent_again() {
    let mut losses = 0;
    let (sent, outcome, _) = drive(three_pages(), |page| {
        if !page.intermediate_page && losses < 1 {
            losses += 1;
            Err(lost())
        } else {
            Ok(7)
        }
    });
    assert_eq!(outcome, Ok(7));
    let numbers: Vec<i32> = sent.iter().map(|page| page.page_number).collect();
    assert_eq!(numbers, vec![0, 1, 2, 3, 0, 1, 2, 3]);
}

#[test]
fn sending_gives_up_after_too_many_losses() {
    let (sent, outcome, _) = drive(three_pages(), |page| {
        if page.intermediate_page {
            Ok(1)
        } else {
            Err(lost())
        }
    });
    assert_eq!(outcome, Err(lost()));
    assert_eq!(MAX_WFT_COMPLETION_PAGE_RESENDS, 3);
    assert_eq!(sent.len(), (1 + MAX_WFT_COMPLETION_PAGE_RESENDS) * 4);
}

#[test]
fn a_single_request_is_not_sent_again() {
    let started = client().complete_workflow_task(
        &connection(),
        completion(vec![command_with_payload(10)]),
        &queue_name,
    );
    assert_eq!(started.1, SendStep::SendOnly);
    assert_eq!(started.0.state.phase, SendPhase::Only);
    assert!(started.0.intermediate_pages().is_empty());
    let (sent, outcome, _) = drive(started, |_| Err(lost()));
    assert_eq!(sent.len(), 1);
    assert_eq!(outcome, Err(lost()));
}

#[test]
fn losses_count_only_when_the_status_says_so() {
    let (mut sender, _) = three_pages();
    assert_eq!(sender.on_failed::<u32>(refused(), true), SendStep::SendIntermediate);
    assert_eq!(sender.state.resends, 1);
    assert_eq!(sender.on_acknowledged(1u32), SendStep::Await);
    assert_eq!(sender.on_acknowledged(1u32), SendStep::Await);
    assert_eq!(sender.on_acknowledged(1u32), SendStep::SendFinal);
    assert_eq!(sender.on_failed::<u32>(lost(), false), SendStep::Finish(Err(lost())));
    assert_eq!(sender.state.phase, SendPhase::Finished);
}

#[test]
fn without_pagination_an_oversized_completion_is_one_request() {
    let mut whole = completion((0..8).map(|_| command_with_payload(512 * 1024)).collect());
    whole.pagination_enabled = false;
    let (sender, step): (_, SendStep<u32>) =
        client().complete_workflow_task(&connection(), whole.clone(), &queue_name);
    assert_eq!(step, SendStep::SendOnly);
    assert_eq!(sender.pages.len(), 1);
    assert_eq!(sender.final_page().commands, whole.commands);
    assert_eq!(sender.final_page().page_number, 0);
}

#[test]
fn completion_request_is_filled_out() {
    let mut done = completion(vec![]);
    let answer = |id: &str, text: &str| QueryResult {
        query_id: id.to_string(),
        completed_type: QueryResultType::Failed,
        answer: None,
        error_message: text.to_string(),
    };
    done.query_responses = vec![
        answer("a", "first"),
        QueryResult {
            query_id: "b".to_string(),
            completed_type: QueryResultType::Answered,
            answer: Some(Payloads { encoded: vec![1] }),
            error_message: String::new(),
        },
        answer("a", "second"),
    ];
    done.versioning_behavior = VersioningBehavior::Pinned;
    let bag = WorkerClientBag::new(
        "namespace".to_string(),
        WorkerVersioningStrategy::Unversioned { build_id: "id-1".to_string() },
        0x67e55044_10b1_426f_9247_bb680e5fe0c8,
    );
    let request = bag.completion_request(&connection(), done, &queue_name);
    assert_eq!(request.query_results.entries.len(), 2);
    assert_eq!(request.query_results.entries[0].0, "a");
    assert_eq!(request.query_results.entries[0].1.error_message, "second");
    assert_eq!(request.query_results.entries[1].1.answer, Some(Payloads { encoded: vec![1] }));
    assert_eq!(request.query_results.entries[1].1.failure, None);
    assert_eq!(request.worker_instance_key, "67e55044-10b1-426f-9247-bb680e5fe0c8");
    assert_eq!(
        request.worker_control_task_queue,
        "namespace|00000000-0000-0000-0000-000000000005"
    );
    assert_eq!(request.binary_checksum, "id-1");
    assert_eq!(request.worker_version_stamp, None);
    assert_eq!(request.deployment_options, None);
    assert_eq!(request.versioning_behavior, VersioningBehavior::Pinned);
    assert!(request.capabilities.unwrap().discard_speculative_workflow_task_with_events);
    assert_eq!(request.identity, "identity");
}
