use werds::count::{count_based_on_args, words_in_line, WordyFile};

#[test]
fn words_in_line_properly_counts() {
    assert_eq!(words_in_line(String::from("hi")), 1);
    assert_eq!(words_in_line(String::from("hi there")), 2);
    assert_eq!(words_in_line(String::from("")), 0);
    assert_eq!(words_in_line(String::from("I love counting words!")), 4);
}

#[test]
fn count_based_on_args_keys_off_lines_bool() {
    let wfile = WordyFile {
        path: String::from("example.txt"),
        word_count: 10,
        line_count: 2,
    };
    assert_eq!(count_based_on_args(&wfile, false), 10);
    assert_eq!(count_based_on_args(&wfile, true), 2);
}

#[test]
fn wordy_file_from_path_buff() {
    let pb = String::from("tests/fixtures/haiku.txt");
    let haiku = vec![
        String::from("old pond"),
        String::from("frog leaps in"),
        String::from("water sound"),
    ];
    let mut wfile = WordyFile::new(pb.clone());
    wfile.process_buf_reader(&haiku);
    assert_eq!(wfile.path, pb.clone());
    assert_eq!(wfile.word_count, 7);
    assert_eq!(wfile.line_count, 3);
}
