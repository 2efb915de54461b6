use wc_clone::{combine, get_stats, get_stats_bin, FileStats};

fn counts(stats: &FileStats) -> (u64, u64, u64, u64) {
    (stats.line_count(), stats.word_count(), stats.char_count(), stats.byte_count())
}

#[test]
fn new_stats_are_zero() {
    assert_eq!(counts(&FileStats::new()), (0, 0, 0, 0));
}

#[test]
fn add_sums_each_counter() {
    let mut total = get_stats("a b\nc\n");
    total.add(&get_stats("h\u{e9}llo w\u{f6}rld\n"));
    assert_eq!(counts(&total), (3, 5, 18, 20));
}

#[test]
fn add_leaves_the_other_record_alone() {
    let mut total = FileStats::new();
    let other = get_stats("x y\n");
    total.add(&other);
    assert_eq!(counts(&other), (1, 2, 4, 4));
    assert_eq!(total, other);
}

#[test]
fn combine_sums_each_counter() {
    let total = combine(get_stats("one two\n"), get_stats_bin(&[0xff, 0x0a, 0x0a]));
    assert_eq!(counts(&total), (3, 3, 11, 11));
}

#[test]
fn combine_is_commutative() {
    let a = get_stats("a b\nc\n");
    let b = get_stats("h\u{e9}llo\n\nworld");
    assert_eq!(combine(a, b), combine(b, a));
}

#[test]
fn combine_is_associative() {
    let a = get_stats("a b\nc\n");
    let b = get_stats("h\u{e9}llo\n\nworld");
    let c = get_stats_bin(&[0x00, 0x20, 0x01, 0x0a]);
    assert_eq!(combine(combine(a, b), c), combine(a, combine(b, c)));
    assert_eq!(counts(&combine(combine(a, b), c)), (5, 7, 22, 23));
}

#[test]
fn combine_with_zero_changes_nothing() {
    let a = get_stats("a b\nc\n");
    assert_eq!(combine(a, FileStats::new()), a);
    assert_eq!(combine(FileStats::new(), a), a);
    assert_eq!(combine(FileStats::new(), FileStats::new()), FileStats::new());
}

#[test]
fn add_and_combine_agree() {
    let a = get_stats("some words here\n");
    let b = get_stats("and more\nlines\n");
    let mut total = a;
    total.add(&b);
    assert_eq!(total, combine(a, b));
    assert_eq!(a.checked_add(&b), Some(total));
}

#[test]
fn checked_add_gives_the_sum_while_it_fits() {
    let a = get_stats("a b\nc\n");
    let b = get_stats("d\n");
    let sum = a.checked_add(&b).unwrap();
    assert_eq!(counts(&sum), (3, 4, 8, 8));
}

#[test]
fn checked_add_refuses_a_sum_beyond_u64() {
    let mut stats = get_stats_bin(&[0x0a]);
    assert_eq!(counts(&stats), (1, 0, 1, 1));
    let mut doublings = 0;
    loop {
        match stats.checked_add(&stats) {
            Some(sum) => {
                stats = sum;
                doublings += 1;
            }
            None => break,
        }
        assert!(doublings < 64);
    }
    assert_eq!(doublings, 63);
    assert_eq!(stats.byte_count(), 1u64 << 63);
    assert_eq!(stats.line_count(), 1u64 << 63);
    assert_eq!(stats.word_count(), 0);
    assert_eq!(stats.checked_add(&FileStats::new()), Some(stats));
}
