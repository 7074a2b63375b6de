//! The messages that a worker exchanges with the server.
//!
//! A message that this library only hands on is held in wire form, as the bytes that encode it.
use crate::versioning::{VersioningBehavior, WorkerVersioningMode};
use vstd::prelude::*;

verus! {

/// Identifies a task to the server.
#[derive(Clone, Debug, PartialEq, Eq)]
pub struct TaskToken(pub Vec<u8>);

/// A command that a workflow issues, in wire form.
#[derive(Clone, Debug, PartialEq, Eq)]
pub struct Command {
    pub encoded: Vec<u8>,
}

/// A message of a workflow's protocol with the server, in wire form.
#[derive(Clone, Debug, PartialEq, Eq)]
pub struct ProtocolMessage {
    pub encoded: Vec<u8>,
}

/// A list of payloads, in wire form.
#[derive(Clone, Debug, PartialEq, Eq)]
pub struct Payloads {
    pub encoded: Vec<u8>,
}

/// A failure, in wire form.
#[derive(Clone, Debug, PartialEq, Eq)]
pub struct Failure {
    pub encoded: Vec<u8>,
}

/// Attributes of the sticky queue on which the next task is queued, in wire form.
#[derive(Clone, Debug, PartialEq, Eq)]
pub struct StickyExecutionAttributes {
    pub encoded: Vec<u8>,
}

/// Metadata that an SDK attaches to a completion, in wire form.
#[derive(Clone, Debug, PartialEq, Eq)]
pub struct WorkflowTaskCompletedMetadata {
    pub encoded: Vec<u8>,
}

/// Metering data of a completion, in wire form.
#[derive(Clone, Debug, PartialEq, Eq)]
pub struct MeteringMetadata {
    pub encoded: Vec<u8>,
}

/// The deployment field that a completion no longer sets, in wire form.
#[derive(Clone, Debug, PartialEq, Eq)]
pub struct Deployment {
    pub encoded: Vec<u8>,
}

/// The response of a Nexus handler, in wire form.
#[derive(Clone, Debug, PartialEq, Eq)]
pub struct NexusResponse {
    pub encoded: Vec<u8>,
}

/// An error of a Nexus handler, in wire form.
#[derive(Clone, Debug, PartialEq, Eq)]
pub struct HandlerError {
    pub encoded: Vec<u8>,
}

/// How a query ended.
#[derive(Clone, Copy, Debug, PartialEq, Eq, Structural)]
pub enum QueryResultType {
    Unspecified,
    Answered,
    Failed,
}

impl QueryResultType {
    /// The number that stands for the type on the wire.
    pub open spec fn spec_number(self) -> i32 {
        match self {
            QueryResultType::Unspecified => 0,
            QueryResultType::Answered => 1,
            QueryResultType::Failed => 2,
        }
    }

    /// The number that stands for the type on the wire.
    pub fn number(self) -> (n: i32)
        ensures
            n == self.spec_number(),
    {
        match self {
            QueryResultType::Unspecified => 0,
            QueryResultType::Answered => 1,
            QueryResultType::Failed => 2,
        }
    }
}

/// The answer to a query, or the message of its failure.
#[derive(Clone, Debug, PartialEq, Eq)]
pub struct QueryResult {
    pub query_id: String,
    pub completed_type: QueryResultType,
    pub answer: Option<Payloads>,
    pub error_message: String,
}

impl QueryResult {
    /// The parts of the result: its query's id, its type, its answer and its error message.
    pub fn into_components(self) -> (parts: (String, QueryResultType, Option<Payloads>, String))
        ensures
            parts == (self.query_id, self.completed_type, self.answer, self.error_message),
    {
        (self.query_id, self.completed_type, self.answer, self.error_message)
    }
}

/// The result of a query as a completion carries it.
#[derive(Clone, Debug, PartialEq, Eq)]
pub struct WorkflowQueryResult {
    pub result_type: QueryResultType,
    pub answer: Option<Payloads>,
    pub error_message: String,
    pub failure: Option<Failure>,
}

/// The build of a worker, for a server that versions workers by build id.
#[derive(Clone, Debug, PartialEq, Eq)]
pub struct WorkerVersionStamp {
    pub build_id: String,
    pub use_versioning: bool,
}

/// The build of a polling worker, for a server that versions workers by build id.
#[derive(Clone, Debug, PartialEq, Eq)]
pub struct WorkerVersionCapabilities {
    pub build_id: String,
    pub use_versioning: bool,
    pub deployment_series_name: String,
}

/// The deployment that a worker belongs to.
#[derive(Clone, Debug, PartialEq, Eq)]
pub struct DeploymentOptions {
    pub deployment_name: String,
    pub build_id: String,
    pub worker_versioning_mode: WorkerVersioningMode,
}

/// What the sender of a completion can handle.
#[derive(Clone, Copy, Debug, PartialEq, Eq, Structural)]
pub struct CompletionCapabilities {
    pub discard_speculative_workflow_task_with_events: bool,
}

/// Results of queries by the id of their query, no id twice.
#[derive(Clone, Debug, PartialEq, Eq)]
pub struct QueryResults {
    pub entries: Vec<(String, WorkflowQueryResult)>,
}

/// The completion of a workflow task, or one page of it.
#[derive(Clone, Debug, PartialEq, Eq)]
pub struct RespondWorkflowTaskCompletedRequest {
    pub task_token: Vec<u8>,
    pub commands: Vec<Command>,
    pub identity: String,
    pub sticky_attributes: Option<StickyExecutionAttributes>,
    pub return_new_workflow_task: bool,
    pub force_create_new_workflow_task: bool,
    pub binary_checksum: String,
    pub query_results: QueryResults,
    pub namespace: String,
    pub worker_version_stamp: Option<WorkerVersionStamp>,
    pub messages: Vec<ProtocolMessage>,
    pub sdk_metadata: Option<WorkflowTaskCompletedMetadata>,
    pub metering_metadata: Option<MeteringMetadata>,
    pub capabilities: Option<CompletionCapabilities>,
    pub deployment: Option<Deployment>,
    pub versioning_behavior: VersioningBehavior,
    pub deployment_options: Option<DeploymentOptions>,
    pub resource_id: String,
    pub worker_instance_key: String,
    pub worker_control_task_queue: String,
    pub page_number: i32,
    pub intermediate_page: bool,
}

} // verus!
