use notes_bot::task::{select_from_reply, TaskSelector, TaskType};

#[test]
fn marker_text_anywhere_selects_the_task() {
    assert_eq!(select_from_reply("I think [note] fits"), TaskType::Note);
    assert_eq!(select_from_reply("[help] please"), TaskType::Help);
    assert_eq!(select_from_reply("surely [unknown]"), TaskType::Unknown);
}

#[test]
fn unmarked_replies_fall_back_to_unknown() {
    assert_eq!(select_from_reply("no marker at all"), TaskType::Unknown);
    assert_eq!(select_from_reply(""), TaskType::Unknown);
    assert_eq!(select_from_reply("[notes] is no marker"), TaskType::Unknown);
}

#[test]
fn declaration_order_breaks_ties() {
    assert_eq!(select_from_reply("use [help] not [note]"), TaskType::Note);
    assert_eq!(select_from_reply("[unknown] or [help]"), TaskType::Help);
}

#[test]
fn markers_and_descriptions_are_canonical() {
    assert_eq!(TaskType::Note.marker(), "[note]");
    assert_eq!(TaskType::Help.marker(), "[help]");
    assert_eq!(TaskType::Unknown.marker(), "[unknown]");
    assert!(TaskType::Note.description().starts_with("`[note]`: User typed anything"));
    assert!(TaskType::Help.description().starts_with("`[help]`: User directly asked"));
    assert!(TaskType::Unknown.description().starts_with("`[unknown]`: User typed something"));
    assert_eq!(
        TaskType::all(),
        vec![TaskType::Note, TaskType::Help, TaskType::Unknown]
    );
}

#[test]
fn selector_configuration_matches_the_design() {
    let selector = TaskSelector::new("token");
    assert_eq!(selector.base_client.max_tokens, Some(10));
    assert_eq!(selector.base_client.api_key, "token");
    // ten priming turns plus the rendered system prompt
    assert_eq!(selector.base_client.history.len(), 11);
    let prompt = &selector.base_client.history[10].content;
    assert!(prompt.contains("# Tags"));
    assert!(prompt.contains("- `[note]`: User typed anything"));
    assert!(prompt.contains("- `[help]`:"));
    assert!(prompt.contains("- `[unknown]`:"));
    assert!(!prompt.contains("{{tags}}"));
}

#[test]
fn classification_request_ends_with_the_trimmed_text() {
    let selector = TaskSelector::new("token");
    let request = selector.request_for("  How to use this?  ");
    assert_eq!(request.messages.len(), 12);
    assert_eq!(request.messages[11].content, "How to use this?");
    assert_eq!(request.max_tokens, Some(10));
}
