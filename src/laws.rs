//! Properties of the controller that span several of its operations.
use vstd::prelude::*;
use crate::prompt::cleaned;
use crate::provider::{
    answer_text, cleared, event_due, finished, outcome_of, refreshed, visible, ChatMessage,
    ProviderView, RefreshOutcome,
};

verus! {

/// An answer that is empty once cleaned publishes nothing: the state,
/// and so the suggestion shown in every buffer, stays as it was.
pub proof fn empty_answer_changes_nothing(
    s: ProviderView,
    generation: u64,
    buffer_id: u64,
    ext: Option<Seq<char>>,
    content: String,
    shown_in: u64,
)
    requires
        cleaned(content@).len() == 0,
    ensures
        finished(s, generation, buffer_id, ext, Ok(ChatMessage::Assistant { content })) == s,
        visible(
            finished(s, generation, buffer_id, ext, Ok(ChatMessage::Assistant { content })),
            shown_in,
        ) == visible(s, shown_in),
{
}

/// Once a suggestion has been published for one buffer, it is shown in
/// that buffer and in no other.
pub proof fn published_only_for_its_buffer(
    s: ProviderView,
    generation: u64,
    buffer_id: u64,
    ext: Option<Seq<char>>,
    response: Result<ChatMessage, String>,
    other: u64,
)
    requires
        outcome_of(s, generation, response) == RefreshOutcome::Published,
        other != buffer_id,
    ensures
        visible(finished(s, generation, buffer_id, ext, response), other) is None,
        visible(finished(s, generation, buffer_id, ext, response), buffer_id) == answer_text(
            response,
        ),
{
}

/// Accepting with no suggestion produces no event and leaves the state as
/// it was.
pub proof fn accept_without_suggestion(s: ProviderView)
    requires
        s.completion is None,
    ensures
        !event_due(s, true),
        cleared(s) == s,
{
}

/// Discarding a suggestion clears it; it produces an event only when asked
/// to report, and then exactly one where telemetry is present.
pub proof fn discard_reports_only_when_asked(s: ProviderView)
    requires
        s.completion is Some,
    ensures
        cleared(s).completion is None,
        !event_due(s, false),
        event_due(s, true) == s.reports,
{
}

/// Of two refreshes started one after the other, the first can no longer
/// publish: its answer, whatever it is and whenever it lands, leaves every
/// state that carries the second one's token unchanged, including the state
/// after the second one's answer was taken.
pub proof fn superseded_refresh_never_publishes(
    s: ProviderView,
    first_buffer: u64,
    first_ext: Option<Seq<char>>,
    first_response: Result<ChatMessage, String>,
    second_buffer: u64,
    second_ext: Option<Seq<char>>,
    second_response: Result<ChatMessage, String>,
)
    ensures
        ({
            let first = refreshed(s);
            let second = refreshed(first);
            let after_second = finished(
                second,
                second.generation,
                second_buffer,
                second_ext,
                second_response,
            );
            &&& first.generation != second.generation
            &&& outcome_of(second, first.generation, first_response)
                == RefreshOutcome::Superseded
            &&& finished(second, first.generation, first_buffer, first_ext, first_response)
                == second
            &&& outcome_of(after_second, first.generation, first_response)
                == RefreshOutcome::Superseded
            &&& finished(after_second, first.generation, first_buffer, first_ext, first_response)
                == after_second
            &&& outcome_of(second, second.generation, second_response) != RefreshOutcome::Superseded
        }),
{
}

} // verus!
