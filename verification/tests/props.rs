use werds::count::{words_in_line, WordyFile};
use werds::report::{render_summary, usize_to_string};
use werds::resolve::{display_name, format_error, ResolveError};

fn scan(name: &str, text_lines: &Vec<String>) -> WordyFile {
    let mut wfile = WordyFile::new(String::from(name));
    wfile.process_buf_reader(text_lines);
    wfile
}

#[test]
fn running_twice_gives_identical_output() {
    let text = vec![String::from("one two"), String::from(""), String::from("three")];
    let first = render_summary(&vec![scan("notes.txt", &text)], false);
    let second = render_summary(&vec![scan("notes.txt", &text)], false);
    assert_eq!(first, second);
    let first_lines = render_summary(&vec![scan("notes.txt", &text)], true);
    let second_lines = render_summary(&vec![scan("notes.txt", &text)], true);
    assert_eq!(first_lines, second_lines);
}

#[test]
fn words_at_least_nonblank_lines_examples() {
    let text = vec![String::from("a b"), String::from("  "), String::from("c")];
    let wfile = scan("x", &text);
    // two non-blank lines, three words
    assert!(wfile.word_count >= 2);
    let all_nonblank = vec![String::from("a"), String::from("b c"), String::from("d")];
    let wfile = scan("x", &all_nonblank);
    assert!(wfile.word_count >= wfile.line_count);
}

#[test]
fn consecutive_spaces_keep_empty_pieces() {
    assert_eq!(words_in_line(String::from("a  b")), 3);
    assert_eq!(words_in_line(String::from(" a")), 2);
}

#[test]
fn whitespace_only_lines_hold_no_words() {
    assert_eq!(words_in_line(String::from("   ")), 0);
    assert_eq!(words_in_line(String::from("\t \t")), 0);
    assert_eq!(words_in_line(String::from("\u{00A0}\u{2003}")), 0);
}

#[test]
fn tabs_do_not_separate_words() {
    assert_eq!(words_in_line(String::from("a\tb")), 1);
}

#[test]
fn decimal_rendering_is_exact() {
    assert_eq!(usize_to_string(0), "0");
    assert_eq!(usize_to_string(7), "7");
    assert_eq!(usize_to_string(10), "10");
    assert_eq!(usize_to_string(204), "204");
    assert_eq!(usize_to_string(usize::MAX), usize::MAX.to_string());
}

#[test]
fn display_name_maps_only_the_stdin_token() {
    assert_eq!(display_name("-"), "stdin");
    assert_eq!(display_name("--"), "--");
    assert_eq!(display_name("notes.txt"), "notes.txt");
}

#[test]
fn empty_source_counts_zero() {
    let empty: Vec<String> = vec![];
    let sources = vec![scan("empty.txt", &empty)];
    let wfile = &sources[0];
    assert_eq!(wfile.word_count, 0);
    assert_eq!(wfile.line_count, 0);
    assert_eq!(render_summary(&sources, false), "0\n");
}

#[test]
fn single_source_report_has_no_name() {
    let text = vec![String::from("a b c")];
    let out = render_summary(&vec![scan("named.txt", &text)], false);
    assert_eq!(out, "3\n");
}

#[test]
fn io_failure_reason_carries_the_os_text() {
    let err = ResolveError::IoFailure(String::from("Permission denied (os error 13)"));
    let line = format_error(err.reason().as_str(), "secret.txt");
    assert_eq!(line, "Error! Permission denied (os error 13): secret.txt\n");
}
