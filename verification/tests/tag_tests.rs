use notes_bot::tags::{calc_mx_tokens, note_message, render_tags_md, Tags, TagsGenerator};

#[test]
fn parses_three_plain_tags_in_order() {
    let tags = Tags::from_str("#a #b #c", 6).expect("well-formed reply");
    assert_eq!(tags.len(), 3);
    assert_eq!(tags.tag_at(0).as_str(), "a");
    assert_eq!(tags.tag_at(1).as_str(), "b");
    assert_eq!(tags.tag_at(2).as_str(), "c");
}

#[test]
fn parses_five_tags_with_digits_and_underscores() {
    let tags = Tags::from_str("#idea #web3 #dark_mode #a1 #z9", 6).expect("well-formed reply");
    assert_eq!(tags.len(), 5);
    assert_eq!(tags.tag_at(0).as_str(), "idea");
    assert_eq!(tags.tag_at(2).as_str(), "dark_mode");
    assert_eq!(tags.tag_at(4).as_str(), "z9");
}

#[test]
fn unescapes_model_escapes_before_splitting() {
    let tags = Tags::from_str("#must\\_watch #movie", 6).expect("escaped reply");
    assert_eq!(tags.len(), 2);
    assert_eq!(tags.tag_at(0).as_str(), "must_watch");
    assert_eq!(tags.tag_at(1).as_str(), "movie");
}

#[test]
fn caps_the_tag_list_at_the_configured_maximum() {
    let capped = Tags::from_str("#a #b #c #d #e #f #g", 6).expect("reply");
    assert_eq!(capped.len(), 6);
    assert_eq!(capped.tag_at(5).as_str(), "f");

    let unlimited = Tags::from_str("#a #b #c #d #e #f #g", 0).expect("reply");
    assert_eq!(unlimited.len(), 7);
}

#[test]
fn rejects_a_reply_without_a_leading_tag_token() {
    assert!(Tags::from_str("here are your tags: #a #b", 6).is_none());
    assert!(Tags::from_str("", 6).is_none());
    assert!(Tags::from_str("#", 6).is_none());
    assert!(Tags::from_str("# spaced", 6).is_none());
}

#[test]
fn drops_trailing_prose_after_a_space_inside_a_piece() {
    let tags = Tags::from_str("#idea is a good tag #game", 6).expect("reply");
    assert_eq!(tags.len(), 2);
    assert_eq!(tags.tag_at(0).as_str(), "idea");
    assert_eq!(tags.tag_at(1).as_str(), "game");
}

#[test]
fn renders_the_escaped_markdown_tag_line() {
    let tags = Tags::from_str("#shopping_list #grocery", 6).expect("reply");
    assert_eq!(tags.to_escaped_md(), "#shopping\\_list #grocery");
}

#[test]
fn a_reply_in_which_no_tag_survives_cleaning_is_rejected() {
    // accepted by the opening-token test (a backslash may open an escape)
    // yet unescaping leaves nothing tag-like
    assert!(Tags::from_str("#\\#", 6).is_none());
    assert!(Tags::from_str("#_ ", 0).is_some());
    assert!(Tags::from_str("## #", 6).is_none());
}

#[test]
fn pieces_with_characters_outside_the_tag_alphabet_are_dropped() {
    assert!(Tags::from_str("#a,b", 6).is_none());
    let tags = Tags::from_str("#good #bad,tag", 6).expect("one well-formed tag survives");
    assert_eq!(tags.len(), 1);
    assert_eq!(tags.tag_at(0).as_str(), "good");
}

#[test]
fn fallback_keeps_the_raw_reply_escaped() {
    let generator = TagsGenerator::new("token");
    let outcome = generator.parse_response("I could not find tags (sorry).");
    let raw = outcome.as_ref().err().expect("fallback path").clone();
    assert_eq!(raw, "I could not find tags (sorry).");
    assert_eq!(
        render_tags_md(&outcome),
        "I could not find tags \\(sorry\\)\\."
    );
}

#[test]
fn successful_extraction_renders_the_tag_line() {
    let generator = TagsGenerator::new("token");
    let outcome = generator.parse_response("#idea #game");
    assert!(outcome.is_ok());
    assert_eq!(render_tags_md(&outcome), "#idea #game");
}

#[test]
fn token_budget_is_ten_per_tag() {
    assert_eq!(calc_mx_tokens(6), 60);
    assert_eq!(calc_mx_tokens(0), 0);
}

#[test]
fn generator_configuration_matches_the_design() {
    let generator = TagsGenerator::new("token");
    assert_eq!(generator.max_tags_amount, 6);
    assert_eq!(generator.base_client.max_tokens, Some(60));
    assert_eq!(generator.base_client.api_key, "token");
    // four priming turns plus the system prompt
    assert_eq!(generator.base_client.history.len(), 5);
    assert!(generator.base_client.history[4].content.contains("notes tags generator"));

    let wider = generator.with_max_tags_amount(10);
    assert_eq!(wider.max_tags_amount, 10);
    assert_eq!(wider.base_client.max_tokens, Some(100));
}

#[test]
fn request_carries_the_trimmed_note_as_the_last_turn() {
    let generator = TagsGenerator::new("token");
    let request = generator.request_for(&note_message("  Buy milk and eggs \n"));
    assert_eq!(request.messages.len(), 6);
    assert_eq!(request.messages[5].content, "Note:\n  Buy milk and eggs");
    assert_eq!(request.max_tokens, Some(60));
}
