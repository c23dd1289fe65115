use rustyvim::document::{Document, Row};
use rustyvim::editor::{Editor, Position, Size};
use rustyvim::status::StatusMessage;
use rustyvim::text::{dec_chars, spaces};

fn cv(s: &str) -> Vec<char> {
    s.chars().collect()
}

fn doc_of(lines: &[&str], name: Option<&str>) -> Document {
    let mut rows: Vec<Row> = Vec::new();
    for line in lines {
        rows.push(Row::new(cv(line)));
    }
    Document::new(rows, name.map(cv))
}

fn editor_of(width: usize, height: usize, lines: &[&str], name: Option<&str>) -> Editor {
    Editor::new(
        Size { width, height },
        doc_of(lines, name),
        StatusMessage::from(cv("Ctrl-Q to quit"), 0),
    )
}

#[test]
fn render_clips_to_the_requested_columns() {
    let row = Row::new(cv("hello"));
    assert_eq!(row.render(1, 3), cv("el"));
}

#[test]
fn render_clamps_the_end_to_the_row_length() {
    let row = Row::new(cv("hello"));
    assert_eq!(row.render(3, 100), cv("lo"));
}

#[test]
fn render_past_the_row_end_is_empty() {
    let row = Row::new(cv("hello"));
    assert_eq!(row.render(10, 20), cv(""));
    assert_eq!(row.render(5, 9), cv(""));
}

#[test]
fn render_with_reversed_bounds_is_empty() {
    let row = Row::new(cv("hello"));
    assert_eq!(row.render(3, 2), cv(""));
}

#[test]
fn draw_row_applies_offset_and_width() {
    let mut ed = editor_of(4, 24, &[], None);
    ed.offset = Position { x: 2, y: 0 };
    let row = Row::new(cv("abcdefgh"));
    assert_eq!(ed.draw_row(&row), cv("cdef"));
}

#[test]
fn welcome_banner_is_centered_on_an_empty_document() {
    // Scenario: empty document on an 80x24 terminal. The banner sits
    // at row 24 / 3 = 8; every other content row is a placeholder.
    let ed = editor_of(80, 24, &[], None);
    let lines = ed.draw_rows();
    assert_eq!(lines.len(), 24);
    let banner = "RustyVim -- version 0.1.0";
    let padding = (80 - banner.len()) / 2;
    let mut expected: Vec<char> = vec!['~'];
    expected.extend(spaces(padding - 1));
    expected.extend(cv(banner));
    assert_eq!(lines[8], expected);
    for (i, line) in lines.iter().enumerate() {
        if i != 8 {
            assert_eq!(line, &cv("~"));
        }
    }
}

#[test]
fn welcome_banner_is_clipped_on_a_narrow_terminal() {
    let ed = editor_of(10, 24, &[], None);
    let lines = ed.draw_rows();
    assert_eq!(lines[8], cv("~RustyVim "));
}

#[test]
fn no_banner_appears_when_the_document_has_rows() {
    let ed = editor_of(80, 24, &["text"], None);
    let lines = ed.draw_rows();
    assert_eq!(lines[0], cv("text"));
    assert_eq!(lines[8], cv("~"));
}

#[test]
fn frame_rows_follow_the_vertical_offset() {
    let mut ed = editor_of(80, 3, &["one", "two", "three", "four"], None);
    ed.offset = Position { x: 0, y: 2 };
    let lines = ed.draw_rows();
    assert_eq!(lines.len(), 3);
    assert_eq!(lines[0], cv("three"));
    assert_eq!(lines[1], cv("four"));
    assert_eq!(lines[2], cv("~"));
}

#[test]
fn status_bar_joins_name_and_line_indicator_with_fill() {
    let ed = editor_of(40, 24, &["a", "b", "c", "d", "e"], Some("test.txt"));
    let left = "test.txt - 5 lines";
    let right = "1/5";
    let mut expected = String::from(left);
    expected.push_str(&" ".repeat(40 - left.len() - right.len()));
    expected.push_str(right);
    assert_eq!(ed.draw_status_bar(), cv(&expected));
}

#[test]
fn status_bar_shows_a_placeholder_without_a_file_name() {
    let ed = editor_of(30, 24, &[], None);
    let mut expected = String::from("[No Name] - 0 lines");
    expected.push_str(&" ".repeat(30 - 19 - 3));
    expected.push_str("1/0");
    assert_eq!(ed.draw_status_bar(), cv(&expected));
}

#[test]
fn status_bar_truncates_a_long_file_name_to_twenty() {
    let ed = editor_of(60, 24, &["a"], Some("a_very_long_file_name_indeed.txt"));
    let shown: String = "a_very_long_file_name_indeed.txt".chars().take(20).collect();
    let line = ed.draw_status_bar();
    let prefix: Vec<char> = line.iter().take(20).cloned().collect();
    assert_eq!(prefix, cv(&shown));
}

#[test]
fn status_bar_reports_the_one_based_cursor_line() {
    let mut ed = editor_of(40, 24, &["a", "b", "c"], None);
    ed.cursor_position = Position { x: 0, y: 2 };
    let line: String = ed.draw_status_bar().into_iter().collect();
    assert!(line.ends_with("3/3"));
}

#[test]
fn status_bar_is_clipped_to_a_narrow_terminal() {
    let ed = editor_of(10, 24, &[], Some("notes.txt"));
    let line = ed.draw_status_bar();
    assert_eq!(line.len(), 10);
    assert_eq!(line, cv("notes.txt "));
}

#[test]
fn decimal_formatting_is_exact() {
    assert_eq!(dec_chars(0), cv("0"));
    assert_eq!(dec_chars(5), cv("5"));
    assert_eq!(dec_chars(123), cv("123"));
    assert_eq!(dec_chars(1000), cv("1000"));
}

#[test]
fn spaces_builds_a_run_of_blanks() {
    assert_eq!(spaces(0), cv(""));
    assert_eq!(spaces(3), cv("   "));
}
