//! The request logic of a workflow worker's client: what each request to the server holds, how a
//! completion that is too large is split into pages and sent, and what a client remembers of the
//! heartbeats of its workers.
pub mod client;
pub mod client_laws;
pub mod heartbeat;
pub mod heartbeat_laws;
pub mod message;
pub mod pagination;
pub mod pagination_laws;
pub mod poll;
pub mod poll_laws;
pub mod query;
pub mod query_laws;
pub mod respond;
pub mod respond_laws;
pub mod send;
pub mod send_laws;
pub mod size;
pub mod size_laws;
pub mod status;
pub mod status_laws;
pub mod uuid_text;
pub mod versioning;
pub mod wire;
