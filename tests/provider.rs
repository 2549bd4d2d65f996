use ollama_completion::provider::{
    Anchor, Bias, BufferSnapshot, ChatMessage, Direction, InlayProposal, OllamaCompletionProvider,
    OllamaModel, PendingRefresh, RefreshOutcome,
};

fn model() -> OllamaModel {
    OllamaModel { name: "codellama:7b-code".to_string() }
}

fn buffer(id: u64, text: &str, file_name: Option<&str>) -> BufferSnapshot {
    BufferSnapshot {
        id,
        text: text.to_string(),
        file_name: file_name.map(|n| n.to_string()),
    }
}

fn answer(content: &str) -> Result<ChatMessage, String> {
    Ok(ChatMessage::Assistant { content: content.to_string() })
}

fn at(offset: usize) -> Anchor {
    Anchor { offset, bias: Bias::Left }
}

fn with_telemetry() -> OllamaCompletionProvider<String> {
    OllamaCompletionProvider::new(model()).with_telemetry("sink".to_string())
}

fn published(p: &mut OllamaCompletionProvider<String>, id: u64, text: &str) -> PendingRefresh {
    let pending = p.refresh(&buffer(id, "let x = ", Some("lib.rs")), 8, false);
    assert_eq!(p.finish_refresh(&pending, answer(text)), RefreshOutcome::Published);
    pending
}

#[test]
fn provider_name_is_ollama() {
    assert_eq!(OllamaCompletionProvider::<String>::name(), "ollama");
}

#[test]
fn new_provider_shows_nothing() {
    let p: OllamaCompletionProvider<String> = OllamaCompletionProvider::new(model());
    assert!(p.active_completion_text(1, at(0)).is_none());
    assert!(p.telemetry().is_none());
}

#[test]
fn telemetry_handle_is_kept() {
    let p = with_telemetry();
    assert_eq!(p.telemetry(), Some(&"sink".to_string()));
}

#[test]
fn refresh_describes_the_request() {
    let mut p: OllamaCompletionProvider<String> = OllamaCompletionProvider::new(model());
    let pending = p.refresh(&buffer(7, "a = 1\n  b", Some("calc.py")), 6, true);
    assert_eq!(pending.buffer_id, 7);
    assert_eq!(pending.model_name, "codellama:7b-code");
    assert_eq!(pending.prompt, "a = 1<fim_prefix>b<fim_suffix><fim_middle>");
    assert!(pending.debounce);
    assert_eq!(pending.file_extension, Some("py".to_string()));
    assert!(p.is_current(&pending));
}

#[test]
fn refresh_of_buffer_without_file_has_no_extension() {
    let mut p: OllamaCompletionProvider<String> = OllamaCompletionProvider::new(model());
    let pending = p.refresh(&buffer(7, "x", None), 1, false);
    assert_eq!(pending.file_extension, None);
    assert!(!pending.debounce);
}

#[test]
fn published_answer_is_shown_at_the_cursor() {
    let mut p = with_telemetry();
    published(&mut p, 3, "<fim_middle> 42;\n");
    let proposal = p.active_completion_text(3, at(8)).unwrap();
    assert_eq!(proposal.text, "42;");
    assert!(proposal.delete_range.is_none());
    assert_eq!(proposal.inlays.len(), 1);
    match &proposal.inlays[0] {
        InlayProposal::Suggestion { position, text } => {
            assert_eq!(*position, Anchor { offset: 8, bias: Bias::Right });
            assert_eq!(text, "42;");
        }
    }
}

#[test]
fn suggestion_is_not_shown_in_another_buffer() {
    let mut p = with_telemetry();
    published(&mut p, 2, "foo()");
    assert!(p.active_completion_text(1, at(0)).is_none());
    assert!(p.active_completion_text(2, at(0)).is_some());
}

#[test]
fn empty_answer_publishes_nothing() {
    let mut p = with_telemetry();
    let pending = p.refresh(&buffer(1, "x", None), 1, false);
    assert_eq!(p.finish_refresh(&pending, answer(" <fim_suffix>\n ")), RefreshOutcome::Empty);
    assert!(p.active_completion_text(1, at(1)).is_none());
}

#[test]
fn empty_answer_keeps_the_existing_suggestion() {
    let mut p = with_telemetry();
    published(&mut p, 1, "first");
    let pending = p.refresh(&buffer(1, "x", None), 1, false);
    assert_eq!(p.finish_refresh(&pending, answer("")), RefreshOutcome::Empty);
    assert_eq!(p.active_completion_text(1, at(1)).unwrap().text, "first");
}

#[test]
fn failed_call_changes_nothing() {
    let mut p = with_telemetry();
    published(&mut p, 1, "kept");
    let pending = p.refresh(&buffer(1, "x", None), 1, false);
    assert_eq!(
        p.finish_refresh(&pending, Err("connection refused".to_string())),
        RefreshOutcome::Failed
    );
    assert_eq!(p.active_completion_text(1, at(1)).unwrap().text, "kept");
}

#[test]
fn non_assistant_answer_is_unexpected() {
    let mut p = with_telemetry();
    let pending = p.refresh(&buffer(1, "x", None), 1, false);
    let reply = Ok(ChatMessage::User { content: "hello".to_string() });
    assert_eq!(p.finish_refresh(&pending, reply), RefreshOutcome::Unexpected);
    assert!(p.active_completion_text(1, at(1)).is_none());
}

#[test]
fn accept_reports_once_and_clears() {
    let mut p = with_telemetry();
    published(&mut p, 1, "done");
    let event = p.accept().unwrap();
    assert_eq!(event.provider, "ollama");
    assert!(event.accepted);
    assert_eq!(event.file_extension, Some("rs".to_string()));
    assert!(p.active_completion_text(1, at(0)).is_none());
    assert!(p.accept().is_none());
}

#[test]
fn accept_without_suggestion_reports_nothing() {
    let mut p = with_telemetry();
    assert!(p.accept().is_none());
    assert!(p.active_completion_text(1, at(0)).is_none());
}

#[test]
fn accept_without_telemetry_reports_nothing() {
    let mut p: OllamaCompletionProvider<String> = OllamaCompletionProvider::new(model());
    let pending = p.refresh(&buffer(1, "x", None), 1, false);
    assert_eq!(p.finish_refresh(&pending, answer("y")), RefreshOutcome::Published);
    assert!(p.accept().is_none());
    assert!(p.active_completion_text(1, at(0)).is_none());
}

#[test]
fn discard_without_report_clears_silently() {
    let mut p = with_telemetry();
    published(&mut p, 1, "gone");
    assert!(p.discard(false).is_none());
    assert!(p.active_completion_text(1, at(0)).is_none());
}

#[test]
fn discard_with_report_emits_one_rejection() {
    let mut p = with_telemetry();
    published(&mut p, 1, "gone");
    let event = p.discard(true).unwrap();
    assert_eq!(event.provider, "ollama");
    assert!(!event.accepted);
    assert_eq!(event.file_extension, Some("rs".to_string()));
    assert!(p.active_completion_text(1, at(0)).is_none());
    assert!(p.discard(true).is_none());
}

#[test]
fn superseded_refresh_landing_first_is_dropped() {
    let mut p = with_telemetry();
    let first = p.refresh(&buffer(1, "a", None), 1, true);
    let second = p.refresh(&buffer(1, "ab", None), 2, true);
    assert!(!p.is_current(&first));
    assert_eq!(p.finish_refresh(&first, answer("old")), RefreshOutcome::Superseded);
    assert!(p.active_completion_text(1, at(0)).is_none());
    assert_eq!(p.finish_refresh(&second, answer("new")), RefreshOutcome::Published);
    assert_eq!(p.active_completion_text(1, at(0)).unwrap().text, "new");
}

#[test]
fn superseded_refresh_landing_last_does_not_overwrite() {
    let mut p = with_telemetry();
    let first = p.refresh(&buffer(1, "a", None), 1, true);
    let second = p.refresh(&buffer(2, "ab", None), 2, true);
    assert_eq!(p.finish_refresh(&second, answer("new")), RefreshOutcome::Published);
    assert_eq!(p.finish_refresh(&first, answer("old")), RefreshOutcome::Superseded);
    assert_eq!(p.active_completion_text(2, at(0)).unwrap().text, "new");
    assert!(p.active_completion_text(1, at(0)).is_none());
}

#[test]
fn refresh_keeps_the_shown_suggestion_until_an_answer_lands() {
    let mut p = with_telemetry();
    published(&mut p, 1, "shown");
    let _pending = p.refresh(&buffer(1, "x", None), 0, true);
    assert_eq!(p.active_completion_text(1, at(0)).unwrap().text, "shown");
}

#[test]
fn cycle_changes_nothing() {
    let mut p = with_telemetry();
    published(&mut p, 1, "only");
    p.cycle(1, at(0), Direction::Next);
    p.cycle(1, at(0), Direction::Prev);
    assert_eq!(p.active_completion_text(1, at(0)).unwrap().text, "only");
    let mut empty = with_telemetry();
    empty.cycle(1, at(0), Direction::Next);
    assert!(empty.active_completion_text(1, at(0)).is_none());
}
