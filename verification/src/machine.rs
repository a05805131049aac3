//! The interactive loop as a state machine: states, events, the transition
//! function, and the action the surrounding binary performs in each state.
//! The binary only prompts, searches and renders; which of those happens
//! next, and with which index, is decided here.

use vstd::prelude::*;
use crate::text;

verus! {

/// The states of one search/select/render cycle.
#[derive(Clone, Copy, PartialEq, Eq, Structural, Debug)]
pub enum LoopState {
    /// Waiting for a card name at the query prompt.
    AwaitingQuery,
    /// The search request is in flight.
    Searching,
    /// The search found nothing; the cycle restarts without a continue
    /// prompt.
    NoResults,
    /// The search returned `count` cards, not yet listed.
    HasResults { count: usize },
    /// The candidate list is on screen; waiting for an index.
    AwaitingSelection { count: usize },
    /// The card at `index` is being displayed.
    Rendering { count: usize, index: usize },
    /// Waiting for the continue answer.
    AwaitingContinue,
    /// The session is over.
    Terminated,
}

/// What the outside world reports back to the machine.
pub enum LoopEvent {
    /// A query line was read at the query prompt.
    QuerySubmitted,
    /// The search finished and decoded to `count` cards; a failed or empty
    /// search reports zero.
    SearchCompleted { count: usize },
    /// A transient state moves on; nothing was read.
    Proceed,
    /// The selection line read at the selection prompt.
    SelectionSubmitted { input: Vec<u8> },
    /// The chosen card has been displayed.
    RenderFinished,
    /// The line read at the continue prompt.
    ContinueAnswered { input: Vec<u8> },
}

/// What the binary does while the machine sits in a state.
#[derive(Clone, Copy, PartialEq, Eq, Structural, Debug)]
pub enum Action {
    /// Print the query prompt and read a line.
    PromptQuery,
    /// Issue the search request.
    RunSearch,
    /// Report that nothing was found.
    ReportNoResults,
    /// Print the candidate list.
    ShowCandidates,
    /// Print the selection prompt and read a line.
    PromptSelection,
    /// Print the details and artwork of the card at `index`.
    RenderCard { index: usize },
    /// Print the continue prompt and read a line.
    PromptContinue,
    /// Leave the loop.
    Exit,
}

/// The transition function.  Any event that does not belong to the current
/// state leaves the state unchanged.
pub open spec fn spec_step(s: LoopState, e: LoopEvent) -> LoopState {
    match (s, e) {
        (LoopState::AwaitingQuery, LoopEvent::QuerySubmitted) => LoopState::Searching,
        (LoopState::Searching, LoopEvent::SearchCompleted { count }) => if count == 0 {
            LoopState::NoResults
        } else {
            LoopState::HasResults { count }
        },
        (LoopState::NoResults, LoopEvent::Proceed) => LoopState::AwaitingQuery,
        (LoopState::HasResults { count }, LoopEvent::Proceed) => LoopState::AwaitingSelection {
            count,
        },
        (
            LoopState::AwaitingSelection { count },
            LoopEvent::SelectionSubmitted { input },
        ) => LoopState::Rendering {
            count,
            index: text::spec_selection(input@, count as int) as usize,
        },
        (LoopState::Rendering { .. }, LoopEvent::RenderFinished) => LoopState::AwaitingContinue,
        (LoopState::AwaitingContinue, LoopEvent::ContinueAnswered { input }) => if text::spec_continue(
            input@,
        ) {
            LoopState::AwaitingQuery
        } else {
            LoopState::Terminated
        },
        _ => s,
    }
}

/// The action each state asks of the binary.
pub open spec fn spec_action(s: LoopState) -> Action {
    match s {
        LoopState::AwaitingQuery => Action::PromptQuery,
        LoopState::Searching => Action::RunSearch,
        LoopState::NoResults => Action::ReportNoResults,
        LoopState::HasResults { .. } => Action::ShowCandidates,
        LoopState::AwaitingSelection { .. } => Action::PromptSelection,
        LoopState::Rendering { index, .. } => Action::RenderCard { index },
        LoopState::AwaitingContinue => Action::PromptContinue,
        LoopState::Terminated => Action::Exit,
    }
}

/// A state the machine can actually be in: result counts are positive once
/// results exist, and a rendered index lies inside its result list.
pub open spec fn state_wf(s: LoopState) -> bool {
    match s {
        LoopState::HasResults { count } => count > 0,
        LoopState::AwaitingSelection { count } => count > 0,
        LoopState::Rendering { count, index } => count > 0 && index < count,
        _ => true,
    }
}

/// Take one step of the interactive loop.
pub fn step(s: &LoopState, e: &LoopEvent) -> (r: LoopState)
    ensures
        r == spec_step(*s, *e),
        state_wf(*s) ==> state_wf(r),
{
    match (s, e) {
        (LoopState::AwaitingQuery, LoopEvent::QuerySubmitted) => LoopState::Searching,
        (LoopState::Searching, LoopEvent::SearchCompleted { count }) => {
            if *count == 0 {
                LoopState::NoResults
            } else {
                LoopState::HasResults { count: *count }
            }
        },
        (LoopState::NoResults, LoopEvent::Proceed) => LoopState::AwaitingQuery,
        (LoopState::HasResults { count }, LoopEvent::Proceed) => LoopState::AwaitingSelection {
            count: *count,
        },
        (LoopState::AwaitingSelection { count }, LoopEvent::SelectionSubmitted { input }) => {
            let index = text::selection_index(input.as_slice(), *count);
            LoopState::Rendering { count: *count, index }
        },
        (LoopState::Rendering { .. }, LoopEvent::RenderFinished) => LoopState::AwaitingContinue,
        (LoopState::AwaitingContinue, LoopEvent::ContinueAnswered { input }) => {
            if text::wants_continue(input.as_slice()) {
                LoopState::AwaitingQuery
            } else {
                LoopState::Terminated
            }
        },
        _ => *s,
    }
}

/// What the current state asks the binary to do.
pub fn action_of(s: &LoopState) -> (r: Action)
    ensures
        r == spec_action(*s),
{
    match s {
        LoopState::AwaitingQuery => Action::PromptQuery,
        LoopState::Searching => Action::RunSearch,
        LoopState::NoResults => Action::ReportNoResults,
        LoopState::HasResults { .. } => Action::ShowCandidates,
        LoopState::AwaitingSelection { .. } => Action::PromptSelection,
        LoopState::Rendering { index, .. } => Action::RenderCard { index: *index },
        LoopState::AwaitingContinue => Action::PromptContinue,
        LoopState::Terminated => Action::Exit,
    }
}

/// The session ends exactly when the continue answer, once trimmed, is
/// neither the single letter "y" nor "Y"; any of those two letters alone
/// starts another cycle.
pub proof fn lemma_termination(input: Vec<u8>)
    ensures
        spec_step(LoopState::AwaitingContinue, LoopEvent::ContinueAnswered { input })
            == LoopState::Terminated <==> !(text::spec_trim(input@) == seq![121u8]
            || text::spec_trim(input@) == seq![89u8]),
{
}

/// The terminal state is reached only through the continue prompt, and
/// only by an answer that is not one of the two letters; no other event
/// ends the session.
pub proof fn lemma_termination_only_at_continue(s: LoopState, e: LoopEvent)
    ensures
        spec_step(s, e) is Terminated ==> (s is Terminated || (s is AwaitingContinue && (
        e matches LoopEvent::ContinueAnswered { input } && !text::spec_continue(input@)))),
{
}

/// A search that returns zero cards goes back to the query prompt through
/// the no-results report: the selection prompt is never reached, and no
/// continue prompt intervenes.
pub proof fn lemma_empty_search_skips_selection()
    ensures
        spec_step(LoopState::Searching, LoopEvent::SearchCompleted { count: 0 })
            == LoopState::NoResults,
        spec_action(LoopState::NoResults) != Action::PromptSelection,
        spec_action(LoopState::NoResults) != Action::PromptContinue,
        spec_step(LoopState::NoResults, LoopEvent::Proceed) == LoopState::AwaitingQuery,
{
}

/// The selection prompt is only ever reached through a result list, and a
/// non-empty result list only comes out of a search that returned at least
/// one card.
pub proof fn lemma_selection_needs_results(s: LoopState, e: LoopEvent)
    ensures
        spec_step(s, e) is AwaitingSelection ==> (s is AwaitingSelection || s is HasResults),
        spec_step(s, e) matches LoopState::HasResults { count } ==> (s is HasResults || (
        e matches LoopEvent::SearchCompleted { count: c } && c == count && count > 0)),
{
}

} // verus!
