use notes_bot::markdown::{escape_md, unescape_md};

#[test]
fn escape_leaves_plain_text_alone() {
    assert_eq!(escape_md("Buy milk and eggs"), "Buy milk and eggs");
}

#[test]
fn escape_prefixes_every_reserved_character() {
    assert_eq!(escape_md("a*b_c`d"), "a\\*b\\_c\\`d");
    assert_eq!(escape_md("{}[]()#+-.!|"), "\\{\\}\\[\\]\\(\\)\\#\\+\\-\\.\\!\\|");
    assert_eq!(escape_md("\\"), "\\\\");
}

#[test]
fn unescape_undoes_escape_on_plain_text() {
    let text = "hello world, no reserved characters here";
    assert_eq!(unescape_md(&escape_md(text)), text);
}

#[test]
fn unescape_undoes_escape_on_reserved_text() {
    let text = "a*b_c`d \\ [x](y) #tag + - . ! |";
    assert_eq!(unescape_md(&escape_md(text)), text);
}

#[test]
fn unescape_keeps_unrelated_backslashes() {
    assert_eq!(unescape_md("a\\z"), "a\\z");
    assert_eq!(unescape_md("end\\"), "end\\");
    assert_eq!(unescape_md("\\#ok"), "#ok");
}
