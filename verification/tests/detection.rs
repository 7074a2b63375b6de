use prost::Message;
use worker_client::status::{
    has_buffer_lost_type, is_workflow_task_completion_buffer_lost, Status,
};

fn as_status(status: &tonic::Status) -> Status {
    Status {
        code: status.code() as i32,
        message: status.message().to_string(),
        details: status.details().to_vec(),
    }
}

fn with_detail_types(types: &[&str]) -> Status {
    let rpc_status = tonic_types::Status {
        code: tonic::Code::Aborted as i32,
        message: "buffered pages lost".to_string(),
        details: types
            .iter()
            .map(|t| prost_types::Any { type_url: t.to_string(), value: vec![] })
            .collect(),
    };
    as_status(&tonic::Status::with_details(
        tonic::Code::Aborted,
        "buffered pages lost",
        rpc_status.encode_to_vec().into(),
    ))
}

#[test]
fn detects_buffer_lost_failure_detail() {
    let detail = prost_types::Any {
        type_url: "type.googleapis.com/temporal.api.errordetails.v1.\
                    WorkflowTaskCompletionBufferLostFailure"
            .to_string(),
        value: vec![],
    };
    let rpc_status = tonic_types::Status {
        code: tonic::Code::Aborted as i32,
        message: "buffered pages lost".to_string(),
        details: vec![detail],
    };
    let status = tonic::Status::with_details(
        tonic::Code::Aborted,
        "buffered pages lost",
        rpc_status.encode_to_vec().into(),
    );
    assert!(is_workflow_task_completion_buffer_lost(&as_status(&status)));

    let unrelated = tonic::Status::new(tonic::Code::Internal, "boom");
    assert!(!is_workflow_task_completion_buffer_lost(&as_status(&unrelated)));
}

#[test]
fn any_of_several_details_counts() {
    let status = with_detail_types(&[
        "type.googleapis.com/temporal.api.errordetails.v1.NotFoundFailure",
        "type.googleapis.com/other.WorkflowTaskCompletionBufferLostFailure",
    ]);
    assert!(is_workflow_task_completion_buffer_lost(&status));
}

#[test]
fn other_types_do_not_count() {
    for other in [
        "type.googleapis.com/WorkflowTaskCompletionBufferLostFailure",
        "temporal.WorkflowTaskCompletionBufferLostFailure2",
        "temporal.workflowtaskcompletionbufferlostfailure",
        "",
    ] {
        assert!(!is_workflow_task_completion_buffer_lost(&with_detail_types(&[other])), "{other}");
    }
}

#[test]
fn undecodable_details_do_not_count() {
    let mut status = with_detail_types(&["temporal.WorkflowTaskCompletionBufferLostFailure"]);
    assert!(is_workflow_task_completion_buffer_lost(&status));
    status.details.pop();
    assert!(!is_workflow_task_completion_buffer_lost(&status));
}

#[test]
fn type_is_matched_by_its_end() {
    assert!(!has_buffer_lost_type(&vec![]));
    assert!(has_buffer_lost_type(&vec![".WorkflowTaskCompletionBufferLostFailure".to_string()]));
    assert!(!has_buffer_lost_type(&vec!["WorkflowTaskCompletionBufferLostFailure".to_string()]));
    assert!(has_buffer_lost_type(&vec![
        "a".to_string(),
        "\u{e9}.WorkflowTaskCompletionBufferLostFailure".to_string(),
        "b".to_string(),
    ]));
}
