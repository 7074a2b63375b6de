//! Sending the pages of a workflow task completion.
//!
//! The decisions stand here: what is sent next, given how the server answered. Whoever holds the
//! connection sends what a [`SendStep`] asks for and hands back each answer.
use crate::message::RespondWorkflowTaskCompletedRequest;
use crate::status::{is_buffer_lost, is_workflow_task_completion_buffer_lost, Status};
use vstd::prelude::*;

verus! {

/// How many times all pages are sent again from the first after the server reports that it lost the
/// buffered pages of a completion, before giving up.
pub const MAX_WFT_COMPLETION_PAGE_RESENDS: usize = 3;

/// What remains to be answered.
#[derive(Clone, Copy, Debug, PartialEq, Eq, Structural)]
pub enum SendPhase {
    /// The only page of a completion that was not split.
    Only,
    /// This many of the intermediate pages.
    Intermediate { outstanding: usize },
    /// The final page, all others being acknowledged.
    Final,
    /// Nothing: the outcome is known.
    Finished,
}

/// How far the sending of a completion is.
#[derive(Clone, Copy, Debug, PartialEq, Eq, Structural)]
pub struct SendState {
    pub phase: SendPhase,
    /// How many times the pages have been sent again.
    pub resends: usize,
}

/// What to do next.
#[derive(Debug, PartialEq, Eq)]
pub enum SendStep<R> {
    /// Send the only page.
    SendOnly,
    /// Abandon every page that is in flight, and send all intermediate pages, in any order or at
    /// once.
    SendIntermediate,
    /// Wait for the answers to the pages in flight.
    Await,
    /// Send the final page.
    SendFinal,
    /// Abandon every page that is in flight. This is the outcome.
    Finish(Result<R, Status>),
}

impl SendState {
    /// The state in which a completion of the given number of pages is first sent.
    pub open spec fn initial(pages: nat) -> SendState {
        SendState {
            phase: if pages == 1 {
                SendPhase::Only
            } else {
                SendPhase::Intermediate { outstanding: (pages - 1) as usize }
            },
            resends: 0,
        }
    }

    /// Whether the state can occur with the given number of pages.
    pub open spec fn wf(self, pages: nat) -> bool {
        &&& 1 <= pages <= usize::MAX
        &&& self.resends <= MAX_WFT_COMPLETION_PAGE_RESENDS
        &&& match self.phase {
            SendPhase::Only => pages == 1 && self.resends == 0,
            SendPhase::Intermediate { outstanding } => 1 <= outstanding < pages,
            SendPhase::Final => pages > 1,
            SendPhase::Finished => true,
        }
    }

    /// The state after a page is acknowledged.
    pub open spec fn after_acknowledged(self) -> SendState {
        SendState {
            phase: match self.phase {
                SendPhase::Intermediate { outstanding } => if outstanding > 1 {
                    SendPhase::Intermediate { outstanding: (outstanding - 1) as usize }
                } else {
                    SendPhase::Final
                },
                _ => SendPhase::Finished,
            },
            resends: self.resends,
        }
    }

    /// Whether a failure makes all pages be sent again: they were lost, there is more than one, and
    /// they have not been sent again too often.
    pub open spec fn resends_on(self, buffer_lost: bool) -> bool {
        buffer_lost && !(self.phase is Only) && self.resends < MAX_WFT_COMPLETION_PAGE_RESENDS
    }

    /// The state after a page fails.
    pub open spec fn after_failed(self, buffer_lost: bool, pages: nat) -> SendState {
        if self.resends_on(buffer_lost) {
            SendState {
                phase: SendPhase::Intermediate { outstanding: (pages - 1) as usize },
                resends: (self.resends + 1) as usize,
            }
        } else {
            SendState { phase: SendPhase::Finished, resends: self.resends }
        }
    }
}

/// The sending of one completion.
pub struct CompletionSender {
    pub pages: Vec<RespondWorkflowTaskCompletedRequest>,
    pub state: SendState,
}

impl CompletionSender {
    /// Whether the sender is in a state that can occur.
    pub open spec fn wf(self) -> bool {
        self.state.wf(self.pages@.len())
    }

    /// Starts sending the pages of a completion.
    pub fn new<R>(pages: Vec<RespondWorkflowTaskCompletedRequest>) -> (started: (Self, SendStep<R>))
        requires
            pages@.len() >= 1,
        ensures
            started.0.wf(),
            started.0.pages == pages,
            started.0.state == SendState::initial(pages@.len()),
            started.1 == if pages@.len() == 1 {
                SendStep::<R>::SendOnly
            } else {
                SendStep::<R>::SendIntermediate
            },
    {
        let count = pages.len();
        if count == 1 {
            let state = SendState { phase: SendPhase::Only, resends: 0 };
            (CompletionSender { pages, state }, SendStep::SendOnly)
        } else {
            let phase = SendPhase::Intermediate { outstanding: count - 1 };
            (
                CompletionSender { pages, state: SendState { phase, resends: 0 } },
                SendStep::SendIntermediate,
            )
        }
    }

    /// The pages that precede the final one; none for a completion that was not split.
    pub fn intermediate_pages(&self) -> (pages: &[RespondWorkflowTaskCompletedRequest])
        requires
            self.wf(),
        ensures
            pages@ == self.pages@.drop_last(),
    {
        vstd::slice::slice_subrange(self.pages.as_slice(), 0, self.pages.len() - 1)
    }

    /// The page that is sent last, or alone.
    pub fn final_page(&self) -> (page: &RespondWorkflowTaskCompletedRequest)
        requires
            self.wf(),
        ensures
            *page == self.pages@.last(),
    {
        &self.pages[self.pages.len() - 1]
    }

    /// Takes note that the server acknowledged a page with `response`.
    pub fn on_acknowledged<R>(&mut self, response: R) -> (step: SendStep<R>)
        requires
            old(self).wf(),
            !(old(self).state.phase is Finished),
        ensures
            final(self).wf(),
            final(self).pages == old(self).pages,
            final(self).state == old(self).state.after_acknowledged(),
            step == match old(self).state.phase {
                SendPhase::Intermediate { outstanding } => if outstanding > 1 {
                    SendStep::Await
                } else {
                    SendStep::SendFinal
                },
                _ => SendStep::Finish(Ok(response)),
            },
    {
        match self.state.phase {
            SendPhase::Intermediate { outstanding } => {
                if outstanding > 1 {
                    self.state.phase = SendPhase::Intermediate { outstanding: outstanding - 1 };
                    SendStep::Await
                } else {
                    self.state.phase = SendPhase::Final;
                    SendStep::SendFinal
                }
            },
            _ => {
                self.state.phase = SendPhase::Finished;
                SendStep::Finish(Ok(response))
            },
        }
    }

    /// Takes note that a page failed with `status`, which tells of lost pages or not.
    pub fn on_failed<R>(&mut self, status: Status, buffer_lost: bool) -> (step: SendStep<R>)
        requires
            old(self).wf(),
            !(old(self).state.phase is Finished),
        ensures
            final(self).wf(),
            final(self).pages == old(self).pages,
            final(self).state == old(self).state.after_failed(
                buffer_lost,
                old(self).pages@.len(),
            ),
            step == if old(self).state.resends_on(buffer_lost) {
                SendStep::<R>::SendIntermediate
            } else {
                SendStep::<R>::Finish(Err(status))
            },
    {
        let only = match self.state.phase {
            SendPhase::Only => true,
            _ => false,
        };
        if buffer_lost && !only && self.state.resends < MAX_WFT_COMPLETION_PAGE_RESENDS {
            self.state.phase = SendPhase::Intermediate { outstanding: self.pages.len() - 1 };
            self.state.resends = self.state.resends + 1;
            SendStep::SendIntermediate
        } else {
            self.state.phase = SendPhase::Finished;
            SendStep::Finish(Err(status))
        }
    }

    /// Takes note of the server's answer to a page.
    pub fn on_answer<R>(&mut self, answer: Result<R, Status>) -> (step: SendStep<R>)
        requires
            old(self).wf(),
            !(old(self).state.phase is Finished),
        ensures
            final(self).wf(),
            final(self).pages == old(self).pages,
            final(self).state == match answer {
                Ok(_) => old(self).state.after_acknowledged(),
                Err(status) => old(self).state.after_failed(
                    is_buffer_lost(status.details@),
                    old(self).pages@.len(),
                ),
            },
            step == match answer {
                Ok(response) => match old(self).state.phase {
                    SendPhase::Intermediate { outstanding } => if outstanding > 1 {
                        SendStep::Await
                    } else {
                        SendStep::SendFinal
                    },
                    _ => SendStep::Finish(Ok(response)),
                },
                Err(status) => if old(self).state.resends_on(is_buffer_lost(status.details@)) {
                    SendStep::SendIntermediate
                } else {
                    SendStep::Finish(Err(status))
                },
            },
    {
        match answer {
            Ok(response) => self.on_acknowledged(response),
            Err(status) => {
                let buffer_lost = is_workflow_task_completion_buffer_lost(&status);
                self.on_failed(status, buffer_lost)
            },
        }
    }
}

} // verus!
