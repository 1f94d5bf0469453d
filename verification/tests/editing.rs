use birocrat::editing::{editor_template, strip_editor_comments};

#[test]
fn template_comments_every_prompt_line() {
    assert_eq!(
        editor_template("Tell us\nabout yourself", "starter text"),
        "#Tell us\n# about yourself\n\nstarter text"
    );
}

#[test]
fn template_with_single_line_prompt() {
    assert_eq!(editor_template("Bio", ""), "#Bio\n\n");
}

#[test]
fn strip_drops_leading_comments_and_trims() {
    assert_eq!(
        strip_editor_comments("#Tell us\n# about yourself\n\n  my story \n"),
        "my story"
    );
}

#[test]
fn strip_keeps_later_hash_lines() {
    assert_eq!(
        strip_editor_comments("#prompt\nfirst\n#still mine\nlast"),
        "first\n#still mine\nlast"
    );
}

#[test]
fn strip_of_only_comments_is_empty() {
    assert_eq!(strip_editor_comments("#one\n#two"), "");
    assert_eq!(strip_editor_comments("#one\n#two\n   \n"), "");
}

#[test]
fn strip_of_untouched_template_returns_starter() {
    let template = editor_template("Describe\nthe bug", "fill me in");
    assert_eq!(strip_editor_comments(&template), "fill me in");
}

#[test]
fn strip_of_empty_input_is_empty() {
    assert_eq!(strip_editor_comments(""), "");
}

#[test]
fn strip_normalizes_crlf_line_endings() {
    assert_eq!(strip_editor_comments("a\r\nb"), "a\nb");
    assert_eq!(
        strip_editor_comments("#prompt\r\nfirst\r\nsecond\r\n"),
        "first\nsecond"
    );
}

#[test]
fn strip_keeps_a_lone_carriage_return() {
    assert_eq!(strip_editor_comments("a\rb"), "a\rb");
}

#[test]
fn strip_trims_unicode_whitespace() {
    assert_eq!(strip_editor_comments("\u{a0}hi\u{3000}"), "hi");
    assert_eq!(strip_editor_comments("\u{2003}only\u{85}\u{2028}"), "only");
}
