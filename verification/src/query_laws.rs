//! What holds of the query results of every workflow task completion.
use crate::message::{QueryResult, QueryResults, WorkflowQueryResult};
use crate::query::{collected, every_query_has_a_result, no_id_twice, results_by_id};
use vstd::prelude::*;

verus! {

/// Where no id occurs twice, the result of an id is that of its entry.
proof fn lemma_entry_is_result(entries: Seq<(String, WorkflowQueryResult)>, k: int)
    requires
        no_id_twice(entries),
        0 <= k < entries.len(),
    ensures
        results_by_id(entries).contains_key(entries[k].0@),
        results_by_id(entries)[entries[k].0@] == entries[k].1,
    decreases entries.len(),
{
    if k < entries.len() - 1 {
        let shorter = entries.drop_last();
        assert(no_id_twice(shorter)) by {
            assert forall|i: int, j: int|
                #![trigger shorter[i], shorter[j]]
                0 <= i < j < shorter.len() implies shorter[i].0@ != shorter[j].0@ by {
                assert(entries[i].0@ != entries[j].0@);
            }
        }
        lemma_entry_is_result(shorter, k);
        assert(entries[k].0@ != entries[entries.len() - 1].0@);
    }
}

/// A result is that of an entry.
proof fn lemma_result_has_entry(
    entries: Seq<(String, WorkflowQueryResult)>,
    id: Seq<char>,
) -> (k: int)
    requires
        results_by_id(entries).contains_key(id),
    ensures
        0 <= k < entries.len(),
        entries[k].0@ == id,
        entries[k].1 == results_by_id(entries)[id],
    decreases entries.len(),
{
    if entries.last().0@ == id {
        entries.len() - 1
    } else {
        lemma_result_has_entry(entries.drop_last(), id)
    }
}

/// Of the responses to one query, the last counts.
proof fn lemma_last_response_counts(responses: Seq<QueryResult>, i: int)
    requires
        0 <= i < responses.len(),
        forall|j: int|
            #![trigger responses[j]]
            i < j < responses.len() ==> responses[j].query_id@ != responses[i].query_id@,
    ensures
        ({
            let result = collected(responses)[responses[i].query_id@];
            &&& collected(responses).contains_key(responses[i].query_id@)
            &&& result.result_type == responses[i].completed_type
            &&& result.answer == responses[i].answer
            &&& result.error_message == responses[i].error_message
            &&& result.failure is None
        }),
    decreases responses.len(),
{
    if i < responses.len() - 1 {
        let shorter = responses.drop_last();
        assert forall|j: int| #![trigger shorter[j]] i < j < shorter.len() implies shorter[
            j
        ].query_id@ != shorter[i].query_id@ by {
            assert(responses[j].query_id@ != responses[i].query_id@);
        }
        lemma_last_response_counts(shorter, i);
        assert(responses[responses.len() - 1].query_id@ != responses[i].query_id@);
    }
}

/// The last of `responses` with the given id.
proof fn lemma_last_response(responses: Seq<QueryResult>, id: Seq<char>, k: int) -> (i: int)
    requires
        0 <= k < responses.len(),
        responses[k].query_id@ == id,
    ensures
        0 <= i < responses.len(),
        responses[i].query_id@ == id,
        forall|j: int|
            #![trigger responses[j]]
            i < j < responses.len() ==> responses[j].query_id@ != id,
    decreases responses.len() - k,
{
    if exists|j: int|
        #![trigger responses[j]]
        k < j < responses.len() && responses[j].query_id@ == id {
        let j = choose|j: int|
            #![trigger responses[j]]
            k < j < responses.len() && responses[j].query_id@ == id;
        lemma_last_response(responses, id, j)
    } else {
        k
    }
}

/// A completion carries the type, the answer and the error message of the last response to a query
/// under the query's id, and no failure.
pub proof fn last_response_to_a_query_is_sent(
    responses: Seq<QueryResult>,
    results: QueryResults,
    i: int,
)
    requires
        results.wf(),
        results@ == collected(responses),
        0 <= i < responses.len(),
        forall|j: int|
            #![trigger responses[j]]
            i < j < responses.len() ==> responses[j].query_id@ != responses[i].query_id@,
    ensures
        exists|k: int|
            #![trigger results.entries@[k]]
            {
                &&& 0 <= k < results.entries@.len()
                &&& results.entries@[k].0@ == responses[i].query_id@
                &&& results.entries@[k].1.result_type == responses[i].completed_type
                &&& results.entries@[k].1.answer == responses[i].answer
                &&& results.entries@[k].1.error_message == responses[i].error_message
                &&& results.entries@[k].1.failure is None
            },
{
    lemma_last_response_counts(responses, i);
    let k = lemma_result_has_entry(results.entries@, responses[i].query_id@);
    assert(results.entries@[k].0@ == responses[i].query_id@);
}

/// Every result that a completion carries is that of a response, the last to its query. No query has
/// two results.
pub proof fn every_result_is_that_of_a_response(
    responses: Seq<QueryResult>,
    results: QueryResults,
    k: int,
)
    requires
        results.wf(),
        results@ == collected(responses),
        0 <= k < results.entries@.len(),
    ensures
        exists|i: int|
            #![trigger responses[i]]
            {
                &&& 0 <= i < responses.len()
                &&& responses[i].query_id@ == results.entries@[k].0@
                &&& responses[i].completed_type == results.entries@[k].1.result_type
                &&& responses[i].answer == results.entries@[k].1.answer
                &&& responses[i].error_message == results.entries@[k].1.error_message
                &&& forall|j: int|
                    #![trigger responses[j]]
                    i < j < responses.len() ==> responses[j].query_id@ != results.entries@[k].0@
            },
        results.entries@[k].1.failure is None,
        forall|other: int|
            #![trigger results.entries@[other]]
            0 <= other < results.entries@.len() && other != k ==> results.entries@[other].0@
                != results.entries@[k].0@,
{
    let id = results.entries@[k].0@;
    lemma_entry_is_result(results.entries@, k);
    every_query_has_a_result(responses, id);
    let some = choose|i: int|
        0 <= i < responses.len() && (#[trigger] responses[i]).query_id@ == id;
    let i = lemma_last_response(responses, id, some);
    lemma_last_response_counts(responses, i);
    assert(responses[i].query_id@ == id);
}

/// Collecting the responses to queries gives such results.
pub proof fn collecting_keeps_the_last_responses(
    responses: Vec<QueryResult>,
    results: QueryResults,
    i: int,
    k: int,
)
    requires
        call_ensures(QueryResults::collect, (responses,), results),
        0 <= i < responses@.len(),
        0 <= k < results.entries@.len(),
        results.entries@[k].0@ == responses@[i].query_id@,
        forall|j: int|
            #![trigger responses@[j]]
            i < j < responses@.len() ==> responses@[j].query_id@ != responses@[i].query_id@,
    ensures
        results.entries@[k].1.result_type == responses@[i].completed_type,
        results.entries@[k].1.answer == responses@[i].answer,
        results.entries@[k].1.error_message == responses@[i].error_message,
        results.entries@[k].1.failure is None,
{
    lemma_last_response_counts(responses@, i);
    lemma_entry_is_result(results.entries@, k);
}

} // verus!
