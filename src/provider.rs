//! The completion controller: it turns edit events into model requests, keeps
//! at most one suggestion, and reports what the user did with it.
use vstd::prelude::*;
use crate::path::{extension_of, file_extension};
use crate::prompt::{build_prompt, clean_completion, cleaned, prompt_of};

verus! {

/// How long a debounced refresh waits before asking the model, in milliseconds.
pub const OLLAMA_DEBOUNCE_TIMEOUT_MS: u64 = 75;

/// The model that completions are asked of.
pub struct OllamaModel {
    pub name: String,
}

/// A message of the chat protocol, by the role that wrote it.
#[derive(Debug)]
pub enum ChatMessage {
    System { content: String },
    User { content: String },
    Assistant { content: String },
}

/// Which side of a position an anchor sticks to when text is inserted there.
#[derive(Clone, Copy, Debug, PartialEq, Eq, Structural)]
pub enum Bias {
    Left,
    Right,
}

/// A character position in a buffer.
#[derive(Clone, Copy, Debug, PartialEq, Eq, Structural)]
pub struct Anchor {
    pub offset: usize,
    pub bias: Bias,
}

/// Direction of a request to show another candidate.
#[derive(Clone, Copy, Debug, PartialEq, Eq, Structural)]
pub enum Direction {
    Prev,
    Next,
}

/// What the controller reads of a buffer when it is asked to refresh.
pub struct BufferSnapshot {
    /// Stable identity of the buffer.
    pub id: u64,
    pub text: String,
    /// Name of the file behind the buffer, if it has one.
    pub file_name: Option<String>,
}

/// A model request that the host is to carry out: wait first when `debounce`
/// is set, send `prompt` to the model named `model_name` (one user message,
/// no streaming), and hand the answer to `finish_refresh`.
#[derive(Debug)]
pub struct PendingRefresh {
    pub generation: u64,
    pub buffer_id: u64,
    pub file_extension: Option<String>,
    pub model_name: String,
    pub prompt: String,
    pub debounce: bool,
}

/// What became of a refresh once the model had answered.
#[derive(Clone, Copy, Debug, PartialEq, Eq, Structural)]
pub enum RefreshOutcome {
    /// The cleaned answer is now the active suggestion.
    Published,
    /// The answer was empty once cleaned; nothing changed.
    Empty,
    /// A later refresh had started; the answer was dropped.
    Superseded,
    /// The model call failed; nothing changed.
    Failed,
    /// The model answered with something other than assistant text.
    Unexpected,
}

/// A telemetry record of a suggestion that was accepted or rejected.
#[derive(Debug)]
pub struct CompletionEvent {
    pub provider: String,
    pub accepted: bool,
    pub file_extension: Option<String>,
}

/// A piece of text displayed inline, anchored in the buffer.
#[derive(Debug)]
pub enum InlayProposal {
    Suggestion { position: Anchor, text: String },
}

/// What the editor renders for the active suggestion.
#[derive(Debug)]
pub struct CompletionProposal {
    pub inlays: Vec<InlayProposal>,
    pub text: String,
    pub delete_range: Option<(Anchor, Anchor)>,
}

/// The controller. `T` is the telemetry handle that accept and discard
/// events are reported through, where there is one.
pub struct OllamaCompletionProvider<T> {
    buffer_id: Option<u64>,
    current_completion: Option<String>,
    file_extension: Option<String>,
    generation: u64,
    model: OllamaModel,
    telemetry: Option<T>,
}

/// The controller's state as its contracts speak of it.
pub struct ProviderView {
    /// Buffer that the last published suggestion was computed for.
    pub buffer_id: Option<u64>,
    /// The active suggestion.
    pub completion: Option<Seq<char>>,
    /// Extension of the file that the last published suggestion belongs to.
    pub file_extension: Option<Seq<char>>,
    /// Token of the refresh whose answer may still be published.
    pub generation: u64,
    pub model: Seq<char>,
    /// Whether a telemetry handle is present.
    pub reports: bool,
}

pub open spec fn opt_view(o: Option<String>) -> Option<Seq<char>> {
    match o {
        Some(s) => Some(s@),
        None => None,
    }
}

/// The token that follows `g`.
pub open spec fn next_generation(g: u64) -> u64 {
    if g == u64::MAX {
        0
    } else {
        (g + 1) as u64
    }
}

/// The extension recorded for a buffer backed by the file `file_name`.
pub open spec fn extension_tag(file_name: Option<String>) -> Option<Seq<char>> {
    match file_name {
        Some(n) => extension_of(n@),
        None => None,
    }
}

/// The suggestion text that an answer carries, where it is assistant text.
pub open spec fn answer_text(response: Result<ChatMessage, String>) -> Option<Seq<char>> {
    match response {
        Ok(ChatMessage::Assistant { content }) => Some(cleaned(content@)),
        _ => None,
    }
}

/// State `s` once a refresh has started: earlier refreshes are superseded.
pub open spec fn refreshed(s: ProviderView) -> ProviderView {
    ProviderView { generation: next_generation(s.generation), ..s }
}

/// What becomes of the answer `response` to the refresh with token
/// `generation`, taken in state `s`.
pub open spec fn outcome_of(s: ProviderView, generation: u64, response: Result<ChatMessage, String>)
    -> RefreshOutcome {
    if generation != s.generation {
        RefreshOutcome::Superseded
    } else {
        match response {
            Err(_) => RefreshOutcome::Failed,
            Ok(ChatMessage::Assistant { content }) => if cleaned(content@).len() == 0 {
                RefreshOutcome::Empty
            } else {
                RefreshOutcome::Published
            },
            Ok(_) => RefreshOutcome::Unexpected,
        }
    }
}

/// State `s` once it has taken the answer `response` to the refresh with
/// token `generation`, started for buffer `buffer_id` whose file has the
/// extension `ext`.
pub open spec fn finished(
    s: ProviderView,
    generation: u64,
    buffer_id: u64,
    ext: Option<Seq<char>>,
    response: Result<ChatMessage, String>,
) -> ProviderView {
    if outcome_of(s, generation, response) == RefreshOutcome::Published {
        ProviderView {
            buffer_id: Some(buffer_id),
            completion: answer_text(response),
            file_extension: ext,
            ..s
        }
    } else {
        s
    }
}

/// State `s` without its suggestion.
pub open spec fn cleared(s: ProviderView) -> ProviderView {
    ProviderView { completion: None, ..s }
}

/// Whether leaving state `s` by accepting, or by discarding with
/// `should_report` set, produces a telemetry event.
pub open spec fn event_due(s: ProviderView, should_report: bool) -> bool {
    should_report && s.completion is Some && s.reports
}

/// The suggestion that state `s` shows in buffer `buffer_id`.
pub open spec fn visible(s: ProviderView, buffer_id: u64) -> Option<Seq<char>> {
    if s.buffer_id == Some(buffer_id) {
        s.completion
    } else {
        None
    }
}

/// `e` records the provider's name, whether the suggestion was accepted,
/// and the file extension.
pub open spec fn event_is(e: CompletionEvent, accepted: bool, ext: Option<Seq<char>>) -> bool {
    &&& e.provider@ == "ollama"@
    &&& e.accepted == accepted
    &&& opt_view(e.file_extension) == ext
}

/// `p` inserts `text` at `cursor`, biased to the right, and deletes nothing.
pub open spec fn proposal_is(p: CompletionProposal, cursor: Anchor, text: Seq<char>) -> bool {
    &&& p.inlays@.len() == 1
    &&& p.inlays@[0] matches InlayProposal::Suggestion { position, text: t }
        && position == (Anchor { offset: cursor.offset, bias: Bias::Right })
        && t@ == text
    &&& p.text@ == text
    &&& p.delete_range is None
}

fn clone_opt(o: &Option<String>) -> (r: Option<String>)
    ensures
        opt_view(r) == opt_view(*o),
{
    match o {
        Some(s) => Some(s.clone()),
        None => None,
    }
}

impl<T> View for OllamaCompletionProvider<T> {
    type V = ProviderView;

    closed spec fn view(&self) -> ProviderView {
        ProviderView {
            buffer_id: self.buffer_id,
            completion: opt_view(self.current_completion),
            file_extension: opt_view(self.file_extension),
            generation: self.generation,
            model: self.model.name@,
            reports: self.telemetry is Some,
        }
    }
}

impl<T> OllamaCompletionProvider<T> {
    /// A controller for `model`, with no suggestion and no telemetry.
    pub fn new(model: OllamaModel) -> (r: Self)
        ensures
            r@ == (ProviderView {
                buffer_id: None,
                completion: None,
                file_extension: None,
                generation: 0,
                model: model.name@,
                reports: false,
            }),
    {
        OllamaCompletionProvider {
            buffer_id: None,
            current_completion: None,
            file_extension: None,
            generation: 0,
            model,
            telemetry: None,
        }
    }

    /// The same controller, reporting through `telemetry`.
    pub fn with_telemetry(self, telemetry: T) -> (r: Self)
        ensures
            r@ == (ProviderView { reports: true, ..self@ }),
            r.telemetry_handle() == Some(telemetry),
    {
        let mut r = self;
        r.telemetry = Some(telemetry);
        r
    }

    pub closed spec fn telemetry_handle(&self) -> Option<T> {
        self.telemetry
    }

    /// The telemetry handle that events are to be reported through.
    pub fn telemetry(&self) -> (r: Option<&T>)
        ensures
            r matches Some(t) ==> self.telemetry_handle() == Some(*t),
            r is None <==> self.telemetry_handle() is None,
            r is Some <==> self@.reports,
    {
        self.telemetry.as_ref()
    }

    /// The name under which the provider reports telemetry.
    pub fn name() -> (r: &'static str)
        ensures
            r@ == "ollama"@,
    {
        "ollama"
    }

    /// Starts a refresh for `buffer` with the cursor before character
    /// `cursor`. Any refresh started earlier is superseded: its answer will
    /// no longer be published.
    pub fn refresh(&mut self, buffer: &BufferSnapshot, cursor: usize, debounce: bool) -> (r:
        PendingRefresh)
        requires
            cursor <= buffer.text@.len(),
        ensures
            final(self)@ == refreshed(old(self)@),
            r.generation == final(self)@.generation,
            r.buffer_id == buffer.id,
            opt_view(r.file_extension) == extension_tag(buffer.file_name),
            r.model_name@ == old(self)@.model,
            r.prompt@ == prompt_of(buffer.text@, cursor as int),
            r.debounce == debounce,
    {
        let prompt = build_prompt(buffer.text.as_str(), cursor);
        let ext = match &buffer.file_name {
            Some(n) => file_extension(n.as_str()),
            None => None,
        };
        self.generation = if self.generation == u64::MAX {
            0
        } else {
            self.generation + 1
        };
        PendingRefresh {
            generation: self.generation,
            buffer_id: buffer.id,
            file_extension: ext,
            model_name: self.model.name.clone(),
            prompt,
            debounce,
        }
    }

    /// Whether `pending` is the latest refresh, so that its answer may
    /// still be published.
    pub fn is_current(&self, pending: &PendingRefresh) -> (r: bool)
        ensures
            r == (pending.generation == self@.generation),
    {
        pending.generation == self.generation
    }

    /// Takes the model's answer to `pending`. The cleaned assistant text
    /// becomes the active suggestion when `pending` is still the latest
    /// refresh and the text is not empty; otherwise nothing changes.
    pub fn finish_refresh(&mut self, pending: &PendingRefresh, response: Result<ChatMessage, String>)
        -> (r: RefreshOutcome)
        ensures
            r == outcome_of(old(self)@, pending.generation, response),
            final(self)@ == finished(
                old(self)@,
                pending.generation,
                pending.buffer_id,
                opt_view(pending.file_extension),
                response,
            ),
    {
        if pending.generation != self.generation {
            return RefreshOutcome::Superseded;
        }
        let content = match response {
            Err(_) => {
                return RefreshOutcome::Failed;
            },
            Ok(ChatMessage::Assistant { content }) => content,
            Ok(_) => {
                return RefreshOutcome::Unexpected;
            },
        };
        let completion = clean_completion(content.as_str());
        if completion.unicode_len() == 0 {
            return RefreshOutcome::Empty;
        }
        self.current_completion = Some(completion);
        self.buffer_id = Some(pending.buffer_id);
        self.file_extension = clone_opt(&pending.file_extension);
        RefreshOutcome::Published
    }

    /// Asks for another candidate. Only one is ever kept, so nothing happens.
    pub fn cycle(&mut self, buffer_id: u64, cursor: Anchor, direction: Direction)
        ensures
            final(self)@ == old(self)@,
    {
    }

    fn event(&self, accepted: bool) -> (r: CompletionEvent)
        ensures
            event_is(r, accepted, self@.file_extension),
    {
        CompletionEvent {
            provider: String::from_str(Self::name()),
            accepted,
            file_extension: clone_opt(&self.file_extension),
        }
    }

    /// The user took the suggestion. Returns the "accepted" event to report
    /// when there was a suggestion and telemetry is present.
    pub fn accept(&mut self) -> (r: Option<CompletionEvent>)
        ensures
            final(self)@ == cleared(old(self)@),
            r is Some <==> event_due(old(self)@, true),
            r matches Some(e) ==> event_is(e, true, old(self)@.file_extension),
    {
        let event = if self.current_completion.is_some() && self.telemetry.is_some() {
            Some(self.event(true))
        } else {
            None
        };
        self.current_completion = None;
        event
    }

    /// The suggestion is dropped. Returns the "rejected" event to report when
    /// `should_report` is set, there was a suggestion and telemetry is present.
    pub fn discard(&mut self, should_report: bool) -> (r: Option<CompletionEvent>)
        ensures
            final(self)@ == cleared(old(self)@),
            r is Some <==> event_due(old(self)@, should_report),
            r matches Some(e) ==> event_is(e, false, old(self)@.file_extension),
    {
        let event = if should_report && self.current_completion.is_some()
            && self.telemetry.is_some() {
            Some(self.event(false))
        } else {
            None
        };
        self.current_completion = None;
        event
    }

    /// The suggestion to render for buffer `buffer_id` at `cursor`: none when
    /// there is no suggestion or it was computed for another buffer.
    pub fn active_completion_text(&self, buffer_id: u64, cursor: Anchor) -> (r: Option<
        CompletionProposal,
    >)
        ensures
            r is Some <==> visible(self@, buffer_id) is Some,
            r matches Some(p) ==> proposal_is(p, cursor, visible(self@, buffer_id)->0),
    {
        if self.buffer_id != Some(buffer_id) {
            return None;
        }
        match &self.current_completion {
            Some(c) => Some(
                CompletionProposal {
                    inlays: vec![InlayProposal::Suggestion { position: cursor.bias_right(), text: c.clone() }],
                    text: c.clone(),
                    delete_range: None,
                },
            ),
            None => None,
        }
    }
}

impl Anchor {
    /// The same position, sticking to the text inserted after it.
    pub fn bias_right(self) -> (r: Anchor)
        ensures
            r == (Anchor { offset: self.offset, bias: Bias::Right }),
    {
        Anchor { offset: self.offset, bias: Bias::Right }
    }
}

} // verus!
