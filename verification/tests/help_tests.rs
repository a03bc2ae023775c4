use notes_bot::help::{persona_roll, truncate_at_end_marker, HelpGenerator};

#[test]
fn truncates_at_the_first_end_marker() {
    assert_eq!(
        truncate_at_end_marker("Sure, use /help.[[END]]extra"),
        "Sure, use /help."
    );
}

#[test]
fn keeps_the_whole_reply_when_the_marker_is_absent() {
    assert_eq!(truncate_at_end_marker("  just an answer  "), "just an answer");
}

#[test]
fn a_reply_that_opens_with_the_marker_truncates_to_nothing() {
    assert_eq!(truncate_at_end_marker("[[END]]all cut"), "");
}

#[test]
fn only_the_first_marker_counts() {
    assert_eq!(truncate_at_end_marker("a[[END]]b[[END]]c"), "a");
}

#[test]
fn the_persona_roll_compares_the_reduced_draw() {
    assert!(!persona_roll(42, 0));
    assert!(!persona_roll(999, 999));
    assert!(persona_roll(999, 1000));
    assert!(persona_roll(2000, 1));
    assert!(!persona_roll(2001, 1));
}

#[test]
fn the_persona_override_starts_disabled() {
    let generator = HelpGenerator::new("token");
    assert_eq!(generator.easter_egg_chance_permille, 0);
    for _ in 0..32 {
        assert!(!generator.choose_persona());
    }
}

#[test]
fn a_full_chance_always_takes_the_persona_override() {
    let generator = HelpGenerator::new("token").with_easter_egg_chance(1000);
    for _ in 0..32 {
        assert!(generator.choose_persona());
    }
}

#[test]
fn a_truncated_answer_never_carries_the_marker() {
    let answer = truncate_at_end_marker("first part[[END]]second[[END]]third");
    assert!(!answer.contains("[[END]]"));
    assert_eq!(answer, "first part");
}

#[test]
fn answerer_configuration_matches_the_design() {
    let generator = HelpGenerator::new("token");
    assert_eq!(generator.base_client.max_tokens, Some(1000));
    assert_eq!(generator.base_client.api_key, "token");
    // eight priming turns plus the system prompt
    assert_eq!(generator.base_client.history.len(), 9);
    let prompt = &generator.base_client.history[8].content;
    assert!(prompt.contains("Add [[END]] to the end of the response."));
    assert!(!prompt.contains("{{easter_egg}}"));
    assert!(!prompt.contains("Patch 4.2.0"));
}

#[test]
fn the_persona_client_substitutes_prompt_history_and_temperature() {
    let generator = HelpGenerator::new("token");
    let persona = generator.persona_client();
    assert_eq!(persona.temperature_milli, 1000);
    assert_eq!(persona.max_tokens, Some(1000));
    assert_eq!(persona.history.len(), 5);
    assert!(persona.history[4].content.contains("Patch 4.2.0"));
}

#[test]
fn the_help_request_ends_with_the_trimmed_question() {
    let generator = HelpGenerator::new("token");
    let request = generator.request_for(" How do I use you? ", false);
    assert_eq!(request.messages.len(), 10);
    assert_eq!(request.messages[9].content, "How do I use you?");

    let persona_request = generator.request_for("hello?", true);
    assert_eq!(persona_request.messages.len(), 6);
    assert_eq!(persona_request.temperature_milli, 1000);
}
