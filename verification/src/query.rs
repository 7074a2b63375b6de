//! The query results of a workflow task completion.
use crate::message::{QueryResult, QueryResults, WorkflowQueryResult};
use vstd::prelude::*;

verus! {

/// The results in `entries` by the id of their query; of two with the same id, the later one.
pub open spec fn results_by_id(entries: Seq<(String, WorkflowQueryResult)>) -> Map<
    Seq<char>,
    WorkflowQueryResult,
>
    decreases entries.len(),
{
    if entries.len() == 0 {
        Map::empty()
    } else {
        results_by_id(entries.drop_last()).insert(entries.last().0@, entries.last().1)
    }
}

/// The result of a query as a completion carries it. The failure field is not used.
pub open spec fn as_workflow_result(response: QueryResult) -> WorkflowQueryResult {
    WorkflowQueryResult {
        result_type: response.completed_type,
        answer: response.answer,
        error_message: response.error_message,
        failure: None,
    }
}

/// The results of `responses` by the id of their query; of two with the same id, the later one.
pub open spec fn collected(responses: Seq<QueryResult>) -> Map<Seq<char>, WorkflowQueryResult>
    decreases responses.len(),
{
    if responses.len() == 0 {
        Map::empty()
    } else {
        collected(responses.drop_last()).insert(
            responses.last().query_id@,
            as_workflow_result(responses.last()),
        )
    }
}

impl View for QueryResults {
    type V = Map<Seq<char>, WorkflowQueryResult>;

    open spec fn view(&self) -> Map<Seq<char>, WorkflowQueryResult> {
        results_by_id(self.entries@)
    }
}

proof fn lemma_results_by_id_update(
    entries: Seq<(String, WorkflowQueryResult)>,
    i: int,
    entry: (String, WorkflowQueryResult),
)
    requires
        0 <= i < entries.len(),
        entries[i].0@ == entry.0@,
        no_id_twice(entries),
    ensures
        results_by_id(entries.update(i, entry)) == results_by_id(entries).insert(
            entry.0@,
            entry.1,
        ),
    decreases entries.len(),
{
    let updated = entries.update(i, entry);
    let shorter = entries.drop_last();
    if i == entries.len() - 1 {
        assert(updated.drop_last() =~= shorter);
    } else {
        assert(updated.drop_last() =~= shorter.update(i, entry));
        lemma_results_by_id_update(shorter, i, entry);
        assert(entries.last().0@ != entry.0@);
    }
    assert(results_by_id(updated) =~= results_by_id(entries).insert(entry.0@, entry.1));
}

/// Whether no two of `entries` have the same id.
pub open spec fn no_id_twice(entries: Seq<(String, WorkflowQueryResult)>) -> bool {
    forall|i: int, j: int|
        #![trigger entries[i], entries[j]]
        0 <= i < j < entries.len() ==> entries[i].0@ != entries[j].0@
}

impl QueryResults {
    /// No id occurs twice.
    pub open spec fn wf(self) -> bool {
        no_id_twice(self.entries@)
    }

    /// No results.
    pub fn new() -> (results: Self)
        ensures
            results.wf(),
            results@ == Map::<Seq<char>, WorkflowQueryResult>::empty(),
            results.entries@.len() == 0,
    {
        QueryResults { entries: Vec::new() }
    }

    /// Adds the result of a query, in place of an earlier result of the same query.
    pub fn insert(&mut self, id: String, result: WorkflowQueryResult)
        requires
            old(self).wf(),
        ensures
            final(self).wf(),
            final(self)@ == old(self)@.insert(id@, result),
    {
        let count = self.entries.len();
        for i in 0..count
            invariant
                count == self.entries@.len(),
                self.wf(),
                *self == *old(self),
                forall|k: int| 0 <= k < i ==> (#[trigger] self.entries@[k]).0@ != id@,
        {
            if self.entries[i].0 == id {
                proof {
                    lemma_results_by_id_update(self.entries@, i as int, (id, result));
                }
                self.entries.set(i, (id, result));
                return;
            }
        }
        self.entries.push((id, result));
        assert(self.entries@.drop_last() =~= old(self).entries@);
    }

    /// The results of `responses` by the id of their query.
    pub fn collect(responses: Vec<QueryResult>) -> (results: Self)
        ensures
            results.wf(),
            results@ == collected(responses@),
    {
        let ghost all = responses@;
        let mut results = QueryResults::new();
        for response in it: responses.into_iter()
            invariant
                it.seq() == all,
                results.wf(),
                results@ == collected(all.take(it.index() as int)),
        {
            let ghost n = it.index() as int;
            assert(all.take(n + 1).drop_last() =~= all.take(n));
            let (id, completed_type, answer, error_message) = response.into_components();
            results.insert(
                id,
                WorkflowQueryResult {
                    result_type: completed_type,
                    answer,
                    error_message,
                    failure: None,
                },
            );
        }
        assert(all.take(all.len() as int) =~= all);
        results
    }
}

/// A completion has a result for exactly the queries that were responded to.
pub proof fn every_query_has_a_result(responses: Seq<QueryResult>, id: Seq<char>)
    ensures
        collected(responses).contains_key(id) <==> exists|i: int|
            0 <= i < responses.len() && (#[trigger] responses[i]).query_id@ == id,
    decreases responses.len(),
{
    if responses.len() > 0 {
        let shorter = responses.drop_last();
        every_query_has_a_result(shorter, id);
        if exists|i: int| 0 <= i < shorter.len() && (#[trigger] shorter[i]).query_id@ == id {
            let i = choose|i: int| 0 <= i < shorter.len() && (#[trigger] shorter[i]).query_id@ == id;
            assert(responses[i].query_id@ == id);
        }
        if exists|i: int| 0 <= i < responses.len() && (#[trigger] responses[i]).query_id@ == id {
            let i = choose|i: int|
                0 <= i < responses.len() && (#[trigger] responses[i]).query_id@ == id;
            if i < shorter.len() {
                assert(shorter[i].query_id@ == id);
            }
        }
        assert(responses[responses.len() - 1] == responses.last());
    }
}

} // verus!
