use wc_clone::{
    classify, decimal_text, format_row, get_stats, get_stats_bin, summarize_files,
    summarize_stream, CommandOptions, ReadResult,
};

fn options(list: &[&str]) -> CommandOptions {
    CommandOptions::build(list.iter().map(|arg| arg.to_string()).collect()).unwrap()
}

fn named(label: &str, content: &[u8]) -> (String, ReadResult) {
    (label.to_string(), classify(content.to_vec()))
}

#[test]
fn decimal_of_small_numbers() {
    assert_eq!(decimal_text(0), "0");
    assert_eq!(decimal_text(7), "7");
    assert_eq!(decimal_text(9), "9");
    assert_eq!(decimal_text(10), "10");
    assert_eq!(decimal_text(11), "11");
    assert_eq!(decimal_text(100), "100");
    assert_eq!(decimal_text(1234567890), "1234567890");
}

#[test]
fn decimal_of_the_largest_number() {
    assert_eq!(decimal_text(u64::MAX), "18446744073709551615");
    assert_eq!(decimal_text(u64::MAX), u64::MAX.to_string());
}

#[test]
fn decimal_agrees_with_the_standard_rendering() {
    let mut n: u64 = 1;
    while n < u64::MAX / 7 {
        assert_eq!(decimal_text(n), n.to_string());
        assert_eq!(decimal_text(n - 1), (n - 1).to_string());
        n *= 7;
    }
}

#[test]
fn row_shows_the_default_counters() {
    let row = format_row(&options(&["wc", "f"]), &get_stats("a b\nc\n"), "f");
    assert_eq!(row, " 2 3 6 f");
}

#[test]
fn row_shows_all_counters_in_fixed_order() {
    let stats = get_stats("h\u{e9}llo w\u{f6}rld\n");
    let row = format_row(&options(&["wc", "-cmwl", "f"]), &stats, "notes.txt");
    assert_eq!(row, " 1 2 12 14 notes.txt");
}

#[test]
fn row_shows_only_what_is_selected() {
    let stats = get_stats("h\u{e9}llo w\u{f6}rld\n");
    assert_eq!(format_row(&options(&["wc", "-l", "f"]), &stats, "f"), " 1 f");
    assert_eq!(format_row(&options(&["wc", "-w", "f"]), &stats, "f"), " 2 f");
    assert_eq!(format_row(&options(&["wc", "-m", "f"]), &stats, "f"), " 12 f");
    assert_eq!(format_row(&options(&["wc", "-c", "f"]), &stats, "f"), " 14 f");
    assert_eq!(format_row(&options(&["wc", "-cl", "f"]), &stats, "f"), " 1 14 f");
    assert_eq!(format_row(&options(&["wc", "-", "f"]), &stats, "f"), " f");
}

#[test]
fn row_takes_the_topic_as_it_is() {
    let stats = get_stats("");
    assert_eq!(format_row(&options(&["wc", "f"]), &stats, ""), " 0 0 0 ");
    assert_eq!(format_row(&options(&["wc", "f"]), &stats, "a b"), " 0 0 0 a b");
    assert_eq!(format_row(&options(&["wc", "f"]), &stats, "total"), " 0 0 0 total");
}

#[test]
fn stream_row_shows_lines_words_and_bytes() {
    assert_eq!(summarize_stream(b"a b\nc\n"), " 2 3 6 ");
    assert_eq!(summarize_stream(&[]), " 0 0 0 ");
    assert_eq!(summarize_stream("h\u{e9}llo w\u{f6}rld\n".as_bytes()), " 1 2 14 ");
}

#[test]
fn stream_row_of_binary_data_counts_bytes() {
    assert_eq!(summarize_stream(&[0xff, 0x20, 0xfe, 0x0a]), " 1 2 4 ");
}

#[test]
fn a_single_file_prints_no_total() {
    let opts = options(&["wc", "a.txt"]);
    let lines = summarize_files(&opts, &vec![named("a.txt", b"a b\nc\n")]).unwrap();
    assert_eq!(lines, vec![String::from(" 2 3 6 a.txt")]);
}

#[test]
fn two_files_print_a_total_that_is_their_sum() {
    let opts = options(&["wc", "-lwmc", "a.txt", "b.txt"]);
    let inputs = vec![named("a.txt", b"a b\nc\n"), named("b.txt", "h\u{e9}llo\n".as_bytes())];
    let lines = summarize_files(&opts, &inputs).unwrap();
    assert_eq!(
        lines,
        vec![
            String::from(" 2 3 6 6 a.txt"),
            String::from(" 1 1 6 7 b.txt"),
            String::from(" 3 4 12 13 total"),
        ]
    );
    let mut sum = get_stats("a b\nc\n");
    sum.add(&get_stats("h\u{e9}llo\n"));
    assert_eq!(lines[2], format_row(&opts, &sum, "total"));
}

#[test]
fn three_files_print_one_total() {
    let opts = options(&["wc", "a", "b", "c"]);
    let inputs = vec![named("a", b"x\n"), named("b", b"y z\n"), named("c", b"")];
    let lines = summarize_files(&opts, &inputs).unwrap();
    assert_eq!(
        lines,
        vec![
            String::from(" 1 1 2 a"),
            String::from(" 1 2 4 b"),
            String::from(" 0 0 0 c"),
            String::from(" 2 3 6 total"),
        ]
    );
}

#[test]
fn no_input_prints_nothing() {
    let opts = options(&["wc", "a"]);
    assert_eq!(summarize_files(&opts, &Vec::new()), Some(Vec::new()));
}

#[test]
fn binary_input_without_character_count_gives_no_notice() {
    let opts = options(&["wc", "bin"]);
    let lines = summarize_files(&opts, &vec![named("bin", &[0xff])]).unwrap();
    assert_eq!(lines, vec![String::from(" 0 1 1 bin")]);
}

#[test]
fn binary_input_suppresses_its_character_count_with_a_notice() {
    assert_eq!(classify(vec![0xff]), ReadResult::Binary(vec![0xff]));
    let opts = options(&["wc", "-lwmc", "bin"]);
    let lines = summarize_files(&opts, &vec![named("bin", &[0xff])]).unwrap();
    assert_eq!(
        lines,
        vec![String::from("wc_clone: bin Illegal byte sequence"), String::from(" 0 1 1 bin")]
    );
}

#[test]
fn character_count_is_suppressed_for_the_binary_input_only() {
    let opts = options(&["wc", "-m", "a", "bin", "b"]);
    let inputs = vec![named("a", b"abc"), named("bin", &[0xff, 0xfe]), named("b", b"de")];
    let lines = summarize_files(&opts, &inputs).unwrap();
    assert_eq!(
        lines,
        vec![
            String::from("wc_clone: bin Illegal byte sequence"),
            String::from(" 3 a"),
            String::from(" bin"),
            String::from(" 2 b"),
            String::from(" 7 total"),
        ]
    );
}

#[test]
fn each_binary_input_gets_its_own_notice() {
    let opts = options(&["wc", "-mc", "x", "y"]);
    let inputs = vec![named("x", &[0xff]), named("y", &[0x80, 0x0a])];
    let lines = summarize_files(&opts, &inputs).unwrap();
    assert_eq!(
        lines,
        vec![
            String::from("wc_clone: x Illegal byte sequence"),
            String::from("wc_clone: y Illegal byte sequence"),
            String::from(" 1 x"),
            String::from(" 2 y"),
            String::from(" 3 3 total"),
        ]
    );
}

#[test]
fn unreadable_input_is_reported_and_the_rest_goes_on() {
    let opts = options(&["wc", "a", "gone", "b"]);
    let inputs = vec![
        named("a", b"x\n"),
        (String::from("gone"), ReadResult::ReadError(String::from("No such file or directory"))),
        named("b", b"y z\n"),
    ];
    let lines = summarize_files(&opts, &inputs).unwrap();
    assert_eq!(
        lines,
        vec![
            String::from("wc_clone: gone: No such file or directory"),
            String::from(" 1 1 2 a"),
            String::from(" 1 2 4 b"),
            String::from(" 2 3 6 total"),
        ]
    );
}

#[test]
fn unreadable_input_does_not_count_towards_a_total() {
    let opts = options(&["wc", "a", "gone"]);
    let inputs = vec![
        named("a", b"x\n"),
        (String::from("gone"), ReadResult::ReadError(String::from("denied"))),
    ];
    let lines = summarize_files(&opts, &inputs).unwrap();
    assert_eq!(lines, vec![String::from("wc_clone: gone: denied"), String::from(" 1 1 2 a")]);
}

#[test]
fn only_unreadable_inputs_print_only_notices() {
    let opts = options(&["wc", "p", "q"]);
    let inputs = vec![
        (String::from("p"), ReadResult::ReadError(String::from("denied"))),
        (String::from("q"), ReadResult::ReadError(String::from("missing"))),
    ];
    let lines = summarize_files(&opts, &inputs).unwrap();
    assert_eq!(
        lines,
        vec![String::from("wc_clone: p: denied"), String::from("wc_clone: q: missing")]
    );
}

#[test]
fn binary_rows_match_the_byte_scan() {
    let opts = options(&["wc", "-lwc", "bin"]);
    let content = [0x00u8, 0x20, 0xff, 0x0a, 0x41];
    let lines = summarize_files(&opts, &vec![named("bin", &content)]).unwrap();
    assert_eq!(lines, vec![format_row(&opts, &get_stats_bin(&content), "bin")]);
    assert_eq!(lines[0], " 1 3 5 bin");
}
