//! What holds of the sending of every workflow task completion.
use crate::message::RespondWorkflowTaskCompletedRequest;
use crate::send::{
    CompletionSender, SendPhase, SendState, SendStep, MAX_WFT_COMPLETION_PAGE_RESENDS,
};
use crate::status::{rpc_status_detail_types, Status};
use vstd::prelude::*;

verus! {

/// The server's answer to a page.
pub enum Answer {
    /// The page was acknowledged.
    Acknowledged,
    /// The page failed, and the pages that the server had buffered are lost.
    Lost,
    /// The page failed for another reason.
    Refused,
}

impl SendState {
    /// The state after an answer.
    pub open spec fn after(self, answer: Answer, pages: nat) -> SendState {
        match answer {
            Answer::Acknowledged => self.after_acknowledged(),
            Answer::Lost => self.after_failed(true, pages),
            Answer::Refused => self.after_failed(false, pages),
        }
    }
}

/// The state of a completion of the given number of pages after `answers`.
pub open spec fn after_all(pages: nat, answers: Seq<Answer>) -> SendState
    decreases answers.len(),
{
    if answers.len() == 0 {
        SendState::initial(pages)
    } else {
        after_all(pages, answers.drop_last()).after(answers.last(), pages)
    }
}

/// Whether `answers` can be given while a completion of the given number of pages is sent: each of
/// them comes before the sending has finished.
pub open spec fn is_run(pages: nat, answers: Seq<Answer>) -> bool {
    &&& 1 <= pages <= usize::MAX
    &&& forall|i: int|
        0 <= i < answers.len() ==> !(#[trigger] after_all(pages, answers.take(i)).phase is Finished)
}

/// How many times the intermediate pages have been sent from the first.
pub open spec fn rounds(pages: nat, answers: Seq<Answer>) -> nat
    decreases answers.len(),
{
    if answers.len() == 0 {
        1
    } else {
        let before = after_all(pages, answers.drop_last());
        let lost = answers.last() is Lost;
        rounds(pages, answers.drop_last()) + if !(answers.last() is Acknowledged)
            && before.resends_on(lost) {
            1nat
        } else {
            0
        }
    }
}

/// How many answers may still come.
spec fn answers_left(state: SendState, pages: nat) -> int {
    let later = (MAX_WFT_COMPLETION_PAGE_RESENDS - state.resends) * pages;
    match state.phase {
        SendPhase::Only => 1,
        SendPhase::Intermediate { outstanding } => later + outstanding + 1,
        SendPhase::Final => later + 1,
        SendPhase::Finished => 0,
    }
}

proof fn lemma_run_prefix(pages: nat, answers: Seq<Answer>)
    requires
        is_run(pages, answers),
        answers.len() > 0,
    ensures
        is_run(pages, answers.drop_last()),
        !(after_all(pages, answers.drop_last()).phase is Finished),
{
    let shorter = answers.drop_last();
    assert forall|i: int| 0 <= i < shorter.len() implies !(#[trigger] after_all(
        pages,
        shorter.take(i),
    ).phase is Finished) by {
        assert(shorter.take(i) =~= answers.take(i));
    }
    assert(answers.take(answers.len() - 1) =~= shorter);
}

/// Every state that is reached can occur, and each answer leaves fewer to come.
proof fn lemma_answer_counts(state: SendState, answer: Answer, pages: nat)
    requires
        state.wf(pages),
        !(state.phase is Finished),
    ensures
        state.after(answer, pages).wf(pages),
        answers_left(state.after(answer, pages), pages) < answers_left(state, pages),
        answers_left(state.after(answer, pages), pages) >= 0,
{
    let next = state.after(answer, pages);
    let left = MAX_WFT_COMPLETION_PAGE_RESENDS - state.resends;
    assert(left * pages >= 0) by (nonlinear_arith)
        requires
            left >= 0,
    ;
    if next.resends != state.resends {
        assert(left * pages == (left - 1) * pages + pages) by (nonlinear_arith);
        assert((left - 1) * pages >= 0) by (nonlinear_arith)
            requires
                left - 1 >= 0,
        ;
    }
}

/// Every state that is reached is one that can occur, and the pages are sent at most once more than
/// they may be sent again.
pub proof fn rounds_are_bounded(pages: nat, answers: Seq<Answer>)
    requires
        is_run(pages, answers),
    ensures
        after_all(pages, answers).wf(pages),
        rounds(pages, answers) == 1 + after_all(pages, answers).resends,
        rounds(pages, answers) <= 1 + MAX_WFT_COMPLETION_PAGE_RESENDS,
    decreases answers.len(),
{
    if answers.len() > 0 {
        lemma_run_prefix(pages, answers);
        rounds_are_bounded(pages, answers.drop_last());
        lemma_answer_counts(after_all(pages, answers.drop_last()), answers.last(), pages);
    }
}

/// Sending ends, whatever the server answers: after at most one answer for each page of each round.
/// A completion of one page has one answer.
pub proof fn sending_ends(pages: nat, answers: Seq<Answer>)
    requires
        is_run(pages, answers),
    ensures
        answers.len() <= (1 + MAX_WFT_COMPLETION_PAGE_RESENDS) * pages,
        pages == 1 ==> answers.len() <= 1,
{
    lemma_answers_left(pages, answers);
    assert((MAX_WFT_COMPLETION_PAGE_RESENDS - 0) * pages + pages == (1
        + MAX_WFT_COMPLETION_PAGE_RESENDS) * pages) by (nonlinear_arith);
}

proof fn lemma_answers_left(pages: nat, answers: Seq<Answer>)
    requires
        is_run(pages, answers),
    ensures
        answers.len() + answers_left(after_all(pages, answers), pages) <= answers_left(
            SendState::initial(pages),
            pages,
        ),
        answers_left(after_all(pages, answers), pages) >= 0,
    decreases answers.len(),
{
    if answers.len() > 0 {
        lemma_run_prefix(pages, answers);
        lemma_answers_left(pages, answers.drop_last());
        rounds_are_bounded(pages, answers.drop_last());
        lemma_answer_counts(after_all(pages, answers.drop_last()), answers.last(), pages);
    } else {
        let left = MAX_WFT_COMPLETION_PAGE_RESENDS as int;
        assert(left * pages >= 0) by (nonlinear_arith)
            requires
                left >= 0,
        ;
    }
}

/// Whether the last `count` of `answers` are acknowledgements.
pub open spec fn ends_acknowledged(answers: Seq<Answer>, count: int) -> bool {
    &&& 0 <= count <= answers.len()
    &&& forall|i: int|
        answers.len() - count <= i < answers.len() ==> #[trigger] answers[i] is Acknowledged
}

/// The pages of a round that are not outstanding are acknowledged. So the final page is sent only
/// once all intermediate pages of its own round are.
pub proof fn final_page_follows_acknowledged_pages(pages: nat, answers: Seq<Answer>)
    requires
        is_run(pages, answers),
    ensures
        after_all(pages, answers).phase matches SendPhase::Intermediate { outstanding }
            ==> ends_acknowledged(answers, pages - 1 - outstanding),
        after_all(pages, answers).phase is Final ==> ends_acknowledged(answers, pages - 1),
    decreases answers.len(),
{
    if answers.len() > 0 {
        let shorter = answers.drop_last();
        lemma_run_prefix(pages, answers);
        final_page_follows_acknowledged_pages(pages, shorter);
        rounds_are_bounded(pages, shorter);
        assert forall|i: int| 0 <= i < shorter.len() implies #[trigger] answers[i] == shorter[i] by {
        }
    }
}

/// A completion succeeds only once every page of one round is acknowledged, the final page last.
pub proof fn success_needs_every_page(pages: nat, answers: Seq<Answer>)
    requires
        is_run(pages, answers),
        answers.len() > 0,
        after_all(pages, answers).phase is Finished,
        answers.last() is Acknowledged,
    ensures
        ends_acknowledged(answers, pages as int),
{
    let shorter = answers.drop_last();
    lemma_run_prefix(pages, answers);
    final_page_follows_acknowledged_pages(pages, shorter);
    rounds_are_bounded(pages, shorter);
    assert forall|i: int| 0 <= i < shorter.len() implies #[trigger] answers[i] == shorter[i] by {
    }
}

/// A failed page ends the sending at once, however many others are in flight, unless the server lost
/// the pages and they may be sent again.
pub proof fn failure_ends_sending(pages: nat, answers: Seq<Answer>)
    requires
        is_run(pages, answers),
        answers.len() > 0,
        !(answers.last() is Acknowledged),
    ensures
        after_all(pages, answers).phase is Finished <==> {
            ||| answers.last() is Refused
            ||| pages == 1
            ||| rounds(pages, answers.drop_last()) == 1 + MAX_WFT_COMPLETION_PAGE_RESENDS
        },
{
    lemma_run_prefix(pages, answers);
    rounds_are_bounded(pages, answers.drop_last());
}

/// How many of `answers` tell of lost pages.
pub open spec fn losses(answers: Seq<Answer>) -> nat
    decreases answers.len(),
{
    if answers.len() == 0 {
        0
    } else if answers.last() is Lost {
        losses(answers.drop_last()) + 1
    } else {
        losses(answers.drop_last())
    }
}

/// How many of `answers` are acknowledgements that no failure follows.
pub open spec fn trailing_acknowledgements(answers: Seq<Answer>) -> nat
    decreases answers.len(),
{
    if answers.len() == 0 || !(answers.last() is Acknowledged) {
        0
    } else {
        trailing_acknowledgements(answers.drop_last()) + 1
    }
}

/// The answers alone tell how far the sending is. It is over once a page is refused, once all pages
/// of a round are acknowledged, once pages are lost for the fourth time, or once the only page fails.
/// Until then the acknowledgements since the last loss are for the intermediate pages, and the final
/// page is due when they cover all of them.
pub proof fn answers_tell_how_far_sending_is(pages: nat, answers: Seq<Answer>)
    requires
        is_run(pages, answers),
    ensures
        after_all(pages, answers).phase is Finished <==> answers.len() > 0 && {
            ||| answers.last() is Refused
            ||| answers.last() is Lost && (pages == 1 || losses(answers) > 3)
            ||| answers.last() is Acknowledged && trailing_acknowledgements(answers) == pages
        },
        !(after_all(pages, answers).phase is Finished) ==> {
            let acknowledged = trailing_acknowledgements(answers);
            &&& after_all(pages, answers).resends == losses(answers)
            &&& losses(answers) <= 3
            &&& acknowledged < pages
            &&& after_all(pages, answers).phase is Only <==> pages == 1
            &&& after_all(pages, answers).phase is Final <==> pages > 1 && acknowledged == pages - 1
            &&& acknowledged < pages - 1 ==> after_all(pages, answers).phase == (
            SendPhase::Intermediate { outstanding: (pages - 1 - acknowledged) as usize })
        },
    decreases answers.len(),
{
    if answers.len() > 0 {
        let shorter = answers.drop_last();
        lemma_run_prefix(pages, answers);
        rounds_are_bounded(pages, shorter);
        answers_tell_how_far_sending_is(pages, shorter);
    }
}

/// A server that acknowledges every page gets each page once: sending is over with the answer to the
/// last page, and not before.
pub proof fn acknowledged_pages_are_sent_once(pages: nat, answers: Seq<Answer>)
    requires
        1 <= pages <= usize::MAX,
        answers.len() <= pages,
        forall|i: int| 0 <= i < answers.len() ==> #[trigger] answers[i] is Acknowledged,
    ensures
        is_run(pages, answers),
        after_all(pages, answers).phase is Finished <==> answers.len() == pages,
        after_all(pages, answers).phase is Final <==> pages > 1 && answers.len() == pages - 1,
        after_all(pages, answers).resends == 0,
    decreases answers.len(),
{
    if answers.len() > 0 {
        let shorter = answers.drop_last();
        assert forall|i: int| 0 <= i < shorter.len() implies #[trigger] shorter[
            i
        ] is Acknowledged by {
            assert(answers[i] is Acknowledged);
        }
        acknowledged_pages_are_sent_once(pages, shorter);
        assert(answers[answers.len() - 1] is Acknowledged);
        assert forall|i: int| 0 <= i < answers.len() implies !(#[trigger] after_all(
            pages,
            answers.take(i),
        ).phase is Finished) by {
            if i < shorter.len() {
                assert(answers.take(i) =~= shorter.take(i));
            } else {
                assert(answers.take(i) =~= shorter);
            }
        }
        lemma_trailing_acknowledgements(answers);
        answers_tell_how_far_sending_is(pages, answers);
        lemma_trailing_acknowledgements(shorter);
        answers_tell_how_far_sending_is(pages, shorter);
    }
}

proof fn lemma_trailing_acknowledgements(answers: Seq<Answer>)
    requires
        forall|i: int| 0 <= i < answers.len() ==> #[trigger] answers[i] is Acknowledged,
    ensures
        trailing_acknowledgements(answers) == answers.len(),
        losses(answers) == 0,
    decreases answers.len(),
{
    if answers.len() > 0 {
        let shorter = answers.drop_last();
        assert forall|i: int| 0 <= i < shorter.len() implies #[trigger] shorter[
            i
        ] is Acknowledged by {
            assert(answers[i] is Acknowledged);
        }
        assert(answers[answers.len() - 1] is Acknowledged);
        lemma_trailing_acknowledgements(shorter);
    }
}

/// Sending starts with the only page, or with all intermediate pages, and nothing has been sent
/// before.
pub proof fn sending_starts_with_the_first_pages<R>(
    pages: Vec<RespondWorkflowTaskCompletedRequest>,
    started: (CompletionSender, SendStep<R>),
)
    requires
        call_ensures(CompletionSender::new::<R>, (pages,), started),
        pages@.len() >= 1,
    ensures
        started.0.pages@ == pages@,
        started.0.state.resends == 0,
        pages@.len() == 1 ==> started.1 is SendOnly && started.0.state.phase is Only,
        pages@.len() > 1 ==> started.1 is SendIntermediate && started.0.state.phase == (
        SendPhase::Intermediate { outstanding: (pages@.len() - 1) as usize }),
{
}

/// The page that is sent alone or last is the last of the pages, and all others are sent before it.
pub proof fn every_page_is_sent(
    sender: CompletionSender,
    before: &[RespondWorkflowTaskCompletedRequest],
    last: &RespondWorkflowTaskCompletedRequest,
)
    requires
        sender.pages@.len() >= 1,
        call_ensures(CompletionSender::intermediate_pages, (&sender,), before),
        call_ensures(CompletionSender::final_page, (&sender,), last),
    ensures
        before@.push(*last) == sender.pages@,
{
    assert(before@.push(*last) =~= sender.pages@);
}

/// An acknowledged page is one less to wait for. The final page is sent with the last acknowledgement
/// of the others, and the response to it, or to the only page, is the outcome.
pub proof fn acknowledgement_brings_sending_forward<R>(
    sender: &mut CompletionSender,
    response: R,
    step: SendStep<R>,
)
    requires
        call_ensures(CompletionSender::on_answer::<R>, (sender, Ok(response)), step),
    ensures
        final(sender).pages@ == old(sender).pages@,
        final(sender).state.resends == old(sender).state.resends,
        old(sender).state.phase matches SendPhase::Intermediate { outstanding } ==> {
            &&& outstanding > 1 ==> step is Await && final(sender).state.phase == (
            SendPhase::Intermediate { outstanding: (outstanding - 1) as usize })
            &&& outstanding <= 1 ==> step is SendFinal && final(sender).state.phase is Final
        },
        old(sender).state.phase is Only || old(sender).state.phase is Final ==> step
            == SendStep::Finish(Ok(response)) && final(sender).state.phase is Finished,
{
}

/// A failed page makes all intermediate pages be sent again, and waited for, where the status tells
/// of lost pages, the completion was split, and they have been sent again fewer than three times.
/// Otherwise its status is the outcome.
pub proof fn failure_resends_or_ends<R>(
    sender: &mut CompletionSender,
    status: Status,
    step: SendStep<R>,
)
    requires
        call_ensures(CompletionSender::on_answer::<R>, (sender, Err(status)), step),
    ensures
        final(sender).pages@ == old(sender).pages@,
        ({
            let lost = rpc_status_detail_types(status.details@) is Some && exists|i: int|
                {
                    let types = rpc_status_detail_types(status.details@)->0;
                    &&& 0 <= i < types.len()
                    &&& ".WorkflowTaskCompletionBufferLostFailure"@.is_suffix_of(
                        #[trigger] rpc_status_detail_types(status.details@)->0[i],
                    )
                };
            if lost && !(old(sender).state.phase is Only) && old(sender).state.resends < 3 {
                &&& step is SendIntermediate
                &&& final(sender).state.phase == (SendPhase::Intermediate {
                    outstanding: (old(sender).pages@.len() - 1) as usize,
                })
                &&& final(sender).state.resends == old(sender).state.resends + 1
            } else {
                &&& step == SendStep::<R>::Finish(Err(status))
                &&& final(sender).state.phase is Finished
                &&& final(sender).state.resends == old(sender).state.resends
            }
        }),
{
}

/// What the two kinds of answers do on their own is what they do together.
pub proof fn answers_are_told_apart<R>(
    acknowledged: &mut CompletionSender,
    response: R,
    acknowledged_step: SendStep<R>,
    failed: &mut CompletionSender,
    status: Status,
    buffer_lost: bool,
    failed_step: SendStep<R>,
)
    requires
        call_ensures(
            CompletionSender::on_acknowledged::<R>,
            (acknowledged, response),
            acknowledged_step,
        ),
        call_ensures(CompletionSender::on_failed::<R>, (failed, status, buffer_lost), failed_step),
    ensures
        acknowledged_step is Finish <==> !(old(acknowledged).state.phase is Intermediate),
        acknowledged_step is Finish <==> final(acknowledged).state.phase is Finished,
        acknowledged_step is SendFinal <==> final(acknowledged).state.phase is Final,
        acknowledged_step matches SendStep::Finish(outcome) ==> outcome == Ok::<R, Status>(response),
        final(acknowledged).pages@ == old(acknowledged).pages@,
        failed_step is SendIntermediate <==> buffer_lost && !(old(failed).state.phase is Only)
            && old(failed).state.resends < 3,
        !(failed_step is SendIntermediate) ==> failed_step == SendStep::<R>::Finish(Err(status)),
        failed_step is Finish <==> final(failed).state.phase is Finished,
        final(failed).pages@ == old(failed).pages@,
{
}

} // verus!
