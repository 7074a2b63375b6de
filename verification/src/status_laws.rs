//! What holds of every status by which the server may tell of lost pages.
use crate::status::{
    buffer_lost_suffix, has_buffer_lost_type, is_workflow_task_completion_buffer_lost,
    rpc_status_detail_types, Status,
};
use vstd::prelude::*;

verus! {

/// A detail tells of lost pages by the name of its type, whatever package comes before the name, and
/// wherever it stands among other details.
pub proof fn lost_pages_are_recognised_in_any_package(
    types: Vec<String>,
    b: bool,
    i: int,
    package: Seq<char>,
)
    requires
        call_ensures(has_buffer_lost_type, (&types,), b),
        0 <= i < types@.len(),
        types@[i]@ == package + ".WorkflowTaskCompletionBufferLostFailure"@,
    ensures
        b,
{
    let suffix = ".WorkflowTaskCompletionBufferLostFailure"@;
    assert(types.deep_view()[i] == types@[i]@);
    assert(types@[i]@.subrange(
        types@[i]@.len() - suffix.len(),
        types@[i]@.len() as int,
    ) =~= suffix);
    assert(suffix.is_suffix_of(types.deep_view()[i]));
}

/// Where pages count as lost, the type of a detail is some package and then that name.
pub proof fn only_that_name_tells_of_lost_pages(types: Vec<String>, b: bool)
    requires
        call_ensures(has_buffer_lost_type, (&types,), b),
    ensures
        b ==> exists|i: int, package: Seq<char>|
            #![trigger types@[i], package.len()]
            0 <= i < types@.len() && types@[i]@ == package
                + ".WorkflowTaskCompletionBufferLostFailure"@,
{
    let suffix = ".WorkflowTaskCompletionBufferLostFailure"@;
    if b {
        let i = choose|i: int|
            0 <= i < types.deep_view().len() && buffer_lost_suffix().is_suffix_of(
                #[trigger] types.deep_view()[i],
            );
        let text = types@[i]@;
        assert(types.deep_view()[i] == text);
        let package = text.take(text.len() - suffix.len());
        assert(text =~= package + suffix);
        assert(package.len() == text.len() - suffix.len());
    }
}

/// More details never make lost pages go unrecognised, and no details tell of none.
pub proof fn more_details_tell_no_less(
    fewer: Vec<String>,
    more: Vec<String>,
    fewer_lost: bool,
    more_lost: bool,
)
    requires
        call_ensures(has_buffer_lost_type, (&fewer,), fewer_lost),
        call_ensures(has_buffer_lost_type, (&more,), more_lost),
        forall|i: int|
            #![trigger fewer@[i]]
            0 <= i < fewer@.len() ==> exists|j: int|
                #![trigger more@[j]]
                0 <= j < more@.len() && more@[j]@ == fewer@[i]@,
    ensures
        fewer_lost ==> more_lost,
        fewer@.len() == 0 ==> !fewer_lost,
{
    if fewer_lost {
        let i = choose|i: int|
            0 <= i < fewer.deep_view().len() && buffer_lost_suffix().is_suffix_of(
                #[trigger] fewer.deep_view()[i],
            );
        assert(fewer.deep_view()[i] == fewer@[i]@);
        let j = choose|j: int|
            #![trigger more@[j]]
            0 <= j < more@.len() && more@[j]@ == fewer@[i]@;
        assert(more.deep_view()[j] == more@[j]@);
        assert(buffer_lost_suffix().is_suffix_of(more.deep_view()[j]));
    }
}

/// A status tells of lost pages exactly where its details are the wire form of a status one of whose
/// details has a type of that name. Its code and its message make no difference.
pub proof fn details_alone_tell_of_lost_pages(status: Status, b: bool)
    requires
        call_ensures(is_workflow_task_completion_buffer_lost, (&status,), b),
    ensures
        b <==> rpc_status_detail_types(status.details@) is Some && exists|i: int|
            {
                &&& 0 <= i < rpc_status_detail_types(status.details@)->0.len()
                &&& ".WorkflowTaskCompletionBufferLostFailure"@.is_suffix_of(
                    #[trigger] rpc_status_detail_types(status.details@)->0[i],
                )
            },
{
}

/// Two statuses with the same details tell the same of lost pages.
pub proof fn same_details_tell_the_same(a: Status, b: Status, a_lost: bool, b_lost: bool)
    requires
        call_ensures(is_workflow_task_completion_buffer_lost, (&a,), a_lost),
        call_ensures(is_workflow_task_completion_buffer_lost, (&b,), b_lost),
        a.details@ == b.details@,
    ensures
        a_lost == b_lost,
{
}

} // verus!
