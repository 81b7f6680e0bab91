use nvim_updater::text::{chars_of, nth_field, nth_line, strip_prefix_char};

fn sample_texts() -> Vec<&'static str> {
    vec![
        "",
        "\n",
        "\r",
        "\r\n",
        "a",
        "a\n",
        "a\nb",
        "a\nb\n",
        "a\r\nb\r\n",
        "a\n\nb",
        "a\n\n",
        "a\nb\r",
        "a\r\r\nb",
        "\n\n\n",
        "foo\nbar\n\r\nbaz\r",
        "NVIM v0.9.2\nRelease notes v0.9.2 blah\nmore",
        "Nvim \u{e9}t\u{e9}\nz\u{fc}rich v1.0.0\n",
    ]
}

#[test]
fn nth_line_agrees_with_the_lines_of_std() {
    for text in sample_texts() {
        let expected: Vec<&str> = text.lines().collect();
        for n in 0..expected.len() + 2 {
            assert_eq!(nth_line(text, n), expected.get(n).copied(), "line {} of {:?}", n, text);
        }
    }
}

#[test]
fn nth_field_agrees_with_the_split_of_std() {
    let texts = vec!["", " ", "a", "a b", "a  b", " a", "a ", "Release notes v1.2.3 blah", "x\u{e9} y"];
    for text in texts {
        let expected: Vec<&str> = text.split(' ').collect();
        for n in 0..expected.len() + 2 {
            assert_eq!(nth_field(text, ' ', n), expected.get(n).copied(), "field {} of {:?}", n, text);
        }
    }
}

#[test]
fn nth_field_of_an_empty_text_is_one_empty_field() {
    assert_eq!(nth_field("", '.', 0), Some(""));
    assert_eq!(nth_field("", '.', 1), None);
}

#[test]
fn nth_field_between_dots() {
    assert_eq!(nth_field("alpha.1.x", '.', 0), Some("alpha"));
    assert_eq!(nth_field("alpha.1.x", '.', 1), Some("1"));
    assert_eq!(nth_field("alpha.1.x", '.', 2), Some("x"));
    assert_eq!(nth_field("alpha.1.x", '.', 3), None);
}

#[test]
fn nth_line_drops_the_carriage_return_before_a_line_feed_only() {
    assert_eq!(nth_line("one\r\ntwo\r", 0), Some("one"));
    assert_eq!(nth_line("one\r\ntwo\r", 1), Some("two\r"));
    assert_eq!(nth_line("one\r\ntwo\r", 2), None);
}

#[test]
fn nth_line_does_not_count_what_follows_the_last_line_feed_if_empty() {
    assert_eq!(nth_line("one\n", 0), Some("one"));
    assert_eq!(nth_line("one\n", 1), None);
    assert_eq!(nth_line("one\n\n", 1), Some(""));
    assert_eq!(nth_line("", 0), None);
}

#[test]
fn strip_prefix_char_takes_one_character() {
    assert_eq!(strip_prefix_char("v1.2.3", 'v'), Some("1.2.3"));
    assert_eq!(strip_prefix_char("vv", 'v'), Some("v"));
    assert_eq!(strip_prefix_char("v", 'v'), Some(""));
    assert_eq!(strip_prefix_char("1.2.3", 'v'), None);
    assert_eq!(strip_prefix_char("", 'v'), None);
    assert_eq!(strip_prefix_char("V1", 'v'), None);
    assert_eq!(strip_prefix_char("\u{e9}t\u{e9}", '\u{e9}'), Some("t\u{e9}"));
}

#[test]
fn chars_of_gives_every_character() {
    assert_eq!(chars_of(""), Vec::<char>::new());
    assert_eq!(chars_of("a\u{e9}b"), vec!['a', '\u{e9}', 'b']);
}
