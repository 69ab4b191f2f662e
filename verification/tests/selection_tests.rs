use ide_bridge::selection::{lines_of, read_text_from_range, text_in_range, Position, Range};

fn range(l1: u32, c1: u32, l2: u32, c2: u32) -> Range {
    Range { start: Position { line: l1, character: c1 }, end: Position { line: l2, character: c2 } }
}

fn lines(text: &str) -> Vec<String> {
    let chars: Vec<char> = text.chars().collect();
    lines_of(&chars).into_iter().map(|l| l.into_iter().collect()).collect()
}

#[test]
fn lines_are_those_of_std() {
    for text in [
        "",
        "one",
        "one\n",
        "one\ntwo",
        "one\r\ntwo\r\n",
        "\n",
        "\n\n",
        "a\n\nb",
        "trailing cr\r",
        "cr in\rside\nnext",
        "double\r\r\nend",
        "\r\n",
        "é\n😀\n",
    ] {
        let expected: Vec<String> = text.lines().map(|l| l.to_string()).collect();
        assert_eq!(lines(text), expected, "{:?}", text);
    }
}

#[test]
fn single_character_of_an_ascii_line() {
    let text = read_text_from_range("0123456789\n", range(0, 5, 0, 6));
    assert_eq!(text, "5");
}

#[test]
fn selection_within_one_line() {
    let content = "fn main() {\n    let x = 1;\n}\n";
    assert_eq!(read_text_from_range(content, range(1, 4, 1, 9)), "let x");
    assert_eq!(read_text_from_range(content, range(0, 0, 0, 11)), "fn main() {");
    assert_eq!(read_text_from_range(content, range(0, 3, 0, 3)), "");
}

#[test]
fn selection_counts_utf16_units() {
    let content = "a😀bé中c";
    assert_eq!(read_text_from_range(content, range(0, 1, 0, 3)), "😀");
    assert_eq!(read_text_from_range(content, range(0, 3, 0, 6)), "bé中");
    assert_eq!(read_text_from_range(content, range(0, 2, 0, 4)), "😀b");
}

#[test]
fn selection_over_several_lines() {
    let content = "first line\nsecond\nthird line\nfourth";
    assert_eq!(read_text_from_range(content, range(0, 6, 2, 5)), "line\nsecond\nthird");
    assert_eq!(read_text_from_range(content, range(1, 0, 2, 0)), "second\n");
    assert_eq!(read_text_from_range(content, range(2, 6, 3, 6)), "line\nfourth");
}

#[test]
fn selection_outside_the_text_is_empty() {
    let content = "one\ntwo";
    assert_eq!(read_text_from_range(content, range(5, 0, 5, 1)), "");
    assert_eq!(read_text_from_range(content, range(0, 1, 0, 9)), "");
    assert_eq!(read_text_from_range(content, range(0, 9, 0, 1)), "");
    assert_eq!(read_text_from_range(content, range(0, 2, 0, 1)), "");
}

#[test]
fn selection_that_ends_before_it_starts_is_empty() {
    assert_eq!(read_text_from_range("one\ntwo\nthree", range(2, 0, 0, 1)), "");
}

#[test]
fn selection_that_runs_past_the_text_stops_at_its_end() {
    let content = "one\ntwo";
    assert_eq!(read_text_from_range(content, range(0, 1, 7, 2)), "ne\ntwo\n");
    assert_eq!(read_text_from_range(content, range(1, 1, u32::MAX, 0)), "wo\n");
}

#[test]
fn bad_start_column_gives_nothing_of_the_first_line() {
    let content = "one\ntwo\nthree";
    assert_eq!(read_text_from_range(content, range(0, 9, 2, 2)), "\ntwo\nth");
    assert_eq!(read_text_from_range(content, range(0, 1, 2, 9)), "ne\ntwo\n");
}

#[test]
fn carriage_returns_are_not_selected() {
    let content = "one\r\ntwo\r\n";
    assert_eq!(read_text_from_range(content, range(0, 0, 1, 3)), "one\ntwo");
    assert_eq!(read_text_from_range(content, range(0, 3, 0, 4)), "");
}

#[test]
fn text_in_range_works_on_given_lines() {
    let lines: Vec<Vec<char>> = vec!["alpha".chars().collect(), "beta".chars().collect()];
    assert_eq!(text_in_range(&lines, range(0, 2, 1, 2)), "pha\nbe");
}
