//! The status with which the server refuses a request.
use prost::Message;
use vstd::prelude::*;

verus! {

/// The status of a failed call.
#[derive(Clone, Debug, PartialEq, Eq)]
pub struct Status {
    pub code: i32,
    pub message: String,
    /// A `google.rpc.Status` in wire form, which may carry details.
    pub details: Vec<u8>,
}

/// The type URLs of the details of the `google.rpc.Status` that `encoded` is the wire form of, or
/// `None` where it is no such form.
pub uninterp spec fn rpc_status_detail_types(encoded: Seq<u8>) -> Option<Seq<Seq<char>>>;

/// What the type URL of the detail ends in that tells of lost pages.
pub open spec fn buffer_lost_suffix() -> Seq<char> {
    ".WorkflowTaskCompletionBufferLostFailure"@
}

/// Whether one of the details tells that the server lost the pages that it had buffered.
pub open spec fn names_buffer_lost(types: Seq<Seq<char>>) -> bool {
    exists|i: int| 0 <= i < types.len() && buffer_lost_suffix().is_suffix_of(#[trigger] types[i])
}

/// Whether a status with the given details tells that the server lost the pages of a completion that
/// it had buffered.
pub open spec fn is_buffer_lost(details: Seq<u8>) -> bool {
    match rpc_status_detail_types(details) {
        Some(types) => names_buffer_lost(types),
        None => false,
    }
}

/// `prost::Message::decode` of a `google.rpc.Status`, as `tonic_types` generates that message: the
/// type URL of each of its details, in their order, or `None` where decoding fails. Which types a
/// given wire form holds is not stated.
#[verifier::external_body]
fn decode_detail_types(encoded: &Vec<u8>) -> (types: Option<Vec<String>>)
    ensures
        types.deep_view() == rpc_status_detail_types(encoded@),
{
    match tonic_types::Status::decode(encoded.as_slice()) {
        Ok(status) => Some(status.details.into_iter().map(|detail| detail.type_url).collect()),
        Err(_) => None,
    }
}

/// `str::ends_with` with a string as its pattern: whether `text` ends in `suffix`.
#[verifier::external_body]
fn ends_with(text: &str, suffix: &str) -> (b: bool)
    ensures
        b == suffix@.is_suffix_of(text@),
{
    text.ends_with(suffix)
}

/// Returns true if one of the details' types is that of lost pages. The package of the type is not
/// looked at, and its message is empty, so there is nothing in it to decode.
pub fn has_buffer_lost_type(types: &Vec<String>) -> (b: bool)
    ensures
        b == names_buffer_lost(types.deep_view()),
{
    let ghost all = types.deep_view();
    for i in 0..types.len()
        invariant
            all == types.deep_view(),
            forall|k: int| 0 <= k < i ==> !buffer_lost_suffix().is_suffix_of(#[trigger] all[k]),
    {
        assert(all[i as int] == types@[i as int]@);
        if ends_with(types[i].as_str(), ".WorkflowTaskCompletionBufferLostFailure") {
            return true;
        }
    }
    false
}

/// Returns true if `status` carries a detail by which the server tells that it dropped the buffered
/// pages of a completion, and that they must be sent again from the first. The detail is recognised
/// by its type.
pub fn is_workflow_task_completion_buffer_lost(status: &Status) -> (b: bool)
    ensures
        b == is_buffer_lost(status.details@),
{
    match decode_detail_types(&status.details) {
        Some(types) => has_buffer_lost_type(&types),
        None => false,
    }
}

} // verus!
