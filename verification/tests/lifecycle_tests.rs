use notes_bot::coordinator::{
    conclude_help, conclude_tags, on_message, route_classification, InitialStep, RouteStep,
    StatusOp, StatusTracker,
};
use notes_bot::help::truncate_at_end_marker;
use notes_bot::llm::LlmError;
use notes_bot::tags::{render_tags_md, TagsGenerator};
use notes_bot::task::{select_from_reply, TaskType};

#[test]
fn a_message_without_text_gets_the_fixed_notice() {
    // the coordinator stops here: no classifier call follows a rejection
    match on_message(None) {
        InitialStep::RejectNonText(notice) => {
            assert_eq!(notice, "I can only process text messages");
        },
        InitialStep::Acknowledge(_) => panic!("text-free input must be rejected"),
    }
}

#[test]
fn a_text_message_is_acknowledged_first() {
    match on_message(Some("Buy milk and eggs")) {
        InitialStep::Acknowledge(status) => {
            assert_eq!(status, "*Processing message\\.\\.\\.* ");
        },
        InitialStep::RejectNonText(_) => panic!("text input must be acknowledged"),
    }
}

#[test]
fn classification_failure_becomes_the_apology() {
    match route_classification(&Err(LlmError::Transport)) {
        RouteStep::Fail(status) => assert_eq!(status, "Something went wrong, sorry\\.\\.\\."),
        _ => panic!("a transport failure must end in the apology"),
    }
    match route_classification(&Err(LlmError::Protocol)) {
        RouteStep::Fail(status) => assert_eq!(status, "Something went wrong, sorry\\.\\.\\."),
        _ => panic!("a protocol failure must end in the apology"),
    }
}

#[test]
fn unknown_intent_short_circuits_to_the_default_reply() {
    match route_classification(&Ok(TaskType::Unknown)) {
        RouteStep::Finish(status) => {
            assert_eq!(
                status,
                "Unexpected input\\. You can send me a note or ask for help \\(for example type /help\\)\\."
            );
        },
        _ => panic!("unknown intent must finish without another model call"),
    }
}

#[test]
fn skipped_edits_are_idempotent() {
    let mut tracker = StatusTracker::new();
    match tracker.plan("*Processing message\\.\\.\\.* ") {
        StatusOp::Send(text) => assert_eq!(text, "*Processing message\\.\\.\\.* "),
        _ => panic!("the first status update must create the message"),
    }
    // same content again: the transport must not be called a second time
    assert!(matches!(tracker.plan("*Processing message\\.\\.\\.* "), StatusOp::Skip));
    match tracker.plan("\\#idea") {
        StatusOp::Edit(text) => assert_eq!(text, "\\#idea"),
        _ => panic!("changed content must be edited in place"),
    }
    assert!(matches!(tracker.plan("\\#idea"), StatusOp::Skip));
}

#[test]
fn an_existing_message_with_equal_rendered_text_is_not_edited() {
    // the transport shows the unescaped text; equal content skips the call
    let mut tracker = StatusTracker::showing("#shopping_list #grocery");
    assert!(matches!(tracker.plan("#shopping\\_list #grocery"), StatusOp::Skip));
}

#[test]
fn note_scenario_runs_to_an_escaped_tag_line() {
    let generator = TagsGenerator::new("token");
    let mut tracker = StatusTracker::new();

    // "Buy milk and eggs" arrives
    let first = on_message(Some("Buy milk and eggs"));
    let ack = match first {
        InitialStep::Acknowledge(status) => status,
        InitialStep::RejectNonText(_) => panic!("text input must be acknowledged"),
    };
    assert!(matches!(tracker.plan(&ack), StatusOp::Send(_)));

    // the classifier's model reply names the note marker
    let intent = select_from_reply("[note]");
    assert_eq!(intent, TaskType::Note);
    let label = match route_classification(&Ok(intent)) {
        RouteStep::GenerateTags(status) => status,
        _ => panic!("a note must go to the tag extractor"),
    };
    assert!(matches!(tracker.plan(&label), StatusOp::Edit(_)));

    // the extractor's model reply is a well-formed tag line
    let outcome = generator.parse_response("#shopping_list #grocery");
    let rendered = render_tags_md(&outcome);
    let status = conclude_tags(&Ok(rendered));
    assert_eq!(status, "#shopping\\_list #grocery");
    match tracker.plan(&status) {
        StatusOp::Edit(text) => assert_eq!(text, "#shopping\\_list #grocery"),
        _ => panic!("the result must replace the progress label"),
    }
}

#[test]
fn help_scenario_runs_to_a_truncated_escaped_answer() {
    let mut tracker = StatusTracker::new();

    let first = on_message(Some("How do I use you?"));
    let ack = match first {
        InitialStep::Acknowledge(status) => status,
        InitialStep::RejectNonText(_) => panic!("text input must be acknowledged"),
    };
    assert!(matches!(tracker.plan(&ack), StatusOp::Send(_)));

    let intent = select_from_reply("[help]");
    assert_eq!(intent, TaskType::Help);
    let label = match route_classification(&Ok(intent)) {
        RouteStep::GenerateHelp(status) => status,
        _ => panic!("a question must go to the help answerer"),
    };
    assert!(matches!(tracker.plan(&label), StatusOp::Edit(_)));

    let answer = truncate_at_end_marker("You can send me notes.[[END]] trailing noise");
    assert_eq!(answer, "You can send me notes.");
    assert!(!answer.is_empty());
    let status = conclude_help(&Ok(answer));
    assert_eq!(status, "You can send me notes\\.");
    assert!(matches!(tracker.plan(&status), StatusOp::Edit(_)));
}

#[test]
fn generator_failure_becomes_the_apology_in_both_branches() {
    assert_eq!(conclude_tags(&Err(LlmError::Transport)), "Something went wrong, sorry\\.\\.\\.");
    assert_eq!(conclude_help(&Err(LlmError::Protocol)), "Something went wrong, sorry\\.\\.\\.");
}

#[test]
fn built_generators_share_temperature_and_seed() {
    let (tags, selector, help) = notes_bot::coordinator::build_generators("token", 500, 42);
    assert_eq!(tags.base_client.api_key, "token");
    assert_eq!(tags.base_client.temperature_milli, 500);
    assert_eq!(tags.base_client.random_seed, Some(42));
    assert_eq!(tags.max_tags_amount, 6);
    assert_eq!(selector.base_client.temperature_milli, 500);
    assert_eq!(selector.base_client.random_seed, Some(42));
    assert_eq!(selector.base_client.max_tokens, Some(10));
    assert_eq!(help.base_client.temperature_milli, 500);
    assert_eq!(help.base_client.random_seed, Some(42));
    assert_eq!(help.easter_egg_chance_permille, 0);
}
