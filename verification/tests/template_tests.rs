use notes_bot::template::_parse_prompt;

#[test]
fn test_parse_prompt() {
    let template = "Hello, {{name}}!";
    let values = vec![("name".to_string(), "world".to_string())];
    assert_eq!(_parse_prompt(template, &values), "Hello, world!");
}

#[test]
fn renders_several_bindings() {
    let template = "{{a}} and {{b}} and {{a}}";
    let values = vec![
        ("a".to_string(), "one".to_string()),
        ("b".to_string(), "two".to_string()),
    ];
    assert_eq!(_parse_prompt(template, &values), "one and two and one");
}

#[test]
fn leaves_unbound_names_untouched() {
    let template = "keep {{missing}} as is";
    let values = vec![("present".to_string(), "x".to_string())];
    assert_eq!(_parse_prompt(template, &values), "keep {{missing}} as is");
}
