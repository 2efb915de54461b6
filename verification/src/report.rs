//! The lines that a run prints.
//!
//! A row shows the selected counters of one input in the fixed order lines,
//! words, characters, bytes, each after a space, and then the input's label
//! after another space. Numbers are written in decimal.

use vstd::prelude::*;
use crate::decode::{classified, Classified, ReadResult};
use crate::options::{texts, CommandOptions, OptionsView};
use crate::scan::{accumulate, get_stats, get_stats_bin, input_tally};
use crate::stats::{FileStats, Tally};

verus! {

/// The character of a decimal digit.
pub open spec fn digit(d: nat) -> char {
    if d == 0 {
        '0'
    } else if d == 1 {
        '1'
    } else if d == 2 {
        '2'
    } else if d == 3 {
        '3'
    } else if d == 4 {
        '4'
    } else if d == 5 {
        '5'
    } else if d == 6 {
        '6'
    } else if d == 7 {
        '7'
    } else if d == 8 {
        '8'
    } else {
        '9'
    }
}

/// The decimal digits of a number, most significant first, without leading
/// zeros.
pub open spec fn decimal(n: nat) -> Seq<char>
    decreases n,
{
    if n < 10 {
        seq![digit(n)]
    } else {
        decimal(n / 10).push(digit(n % 10))
    }
}

/// One counter of a row: a space and the number where the counter is shown,
/// nothing where it is not.
pub open spec fn column(shown: bool, count: nat) -> Seq<char> {
    if shown {
        seq![' '] + decimal(count)
    } else {
        Seq::empty()
    }
}

/// The row of one input: its shown counters, a space, its label.
pub open spec fn row_text(options: OptionsView, tally: Tally, label: Seq<char>) -> Seq<char> {
    column(options.count_lines, tally.lines) + column(options.count_words, tally.words) + column(
        options.count_chars,
        tally.chars,
    ) + column(options.count_bytes, tally.bytes) + seq![' '] + label
}

/// The text of one decimal digit.
fn digit_text(d: u64) -> (text: &'static str)
    requires
        d < 10,
    ensures
        text@ == seq![digit(d as nat)],
{
    proof {
        reveal_strlit("0");
        reveal_strlit("1");
        reveal_strlit("2");
        reveal_strlit("3");
        reveal_strlit("4");
        reveal_strlit("5");
        reveal_strlit("6");
        reveal_strlit("7");
        reveal_strlit("8");
        reveal_strlit("9");
    }
    let text = if d == 0 {
        "0"
    } else if d == 1 {
        "1"
    } else if d == 2 {
        "2"
    } else if d == 3 {
        "3"
    } else if d == 4 {
        "4"
    } else if d == 5 {
        "5"
    } else if d == 6 {
        "6"
    } else if d == 7 {
        "7"
    } else if d == 8 {
        "8"
    } else {
        "9"
    };
    text
}

/// Writes a number in decimal.
pub fn decimal_text(n: u64) -> (text: String)
    ensures
        text@ == decimal(n as nat),
    decreases n,
{
    if n < 10 {
        String::from_str(digit_text(n))
    } else {
        let mut text = decimal_text(n / 10);
        text.append(digit_text(n % 10));
        text
    }
}

/// Appends one counter to a row.
fn push_column(row: &mut String, shown: bool, count: u64)
    ensures
        final(row)@ == old(row)@ + column(shown, count as nat),
{
    if shown {
        row.append(" ");
        let number = decimal_text(count);
        row.append(number.as_str());
        proof {
            reveal_strlit(" ");
        }
    }
}

/// Renders a row with the counters that the four flags select.
fn render_row(
    lines: bool,
    words: bool,
    chars: bool,
    bytes: bool,
    stats: &FileStats,
    topic: &str,
) -> (row: String)
    ensures
        row@ == column(lines, stats@.lines) + column(words, stats@.words) + column(
            chars,
            stats@.chars,
        ) + column(bytes, stats@.bytes) + seq![' '] + topic@,
{
    let mut row = String::new();
    push_column(&mut row, lines, stats.line_count());
    push_column(&mut row, words, stats.word_count());
    push_column(&mut row, chars, stats.char_count());
    push_column(&mut row, bytes, stats.byte_count());
    row.append(" ");
    row.append(topic);
    proof {
        reveal_strlit(" ");
    }
    row
}

/// Renders the row of one input: the counters that the options select, in
/// the order lines, words, characters, bytes, and the topic.
pub fn format_row(options: &CommandOptions, stats: &FileStats, topic: &str) -> (row: String)
    ensures
        row@ == row_text(options@, stats@, topic@),
{
    render_row(
        options.count_lines(),
        options.count_words(),
        options.count_chars(),
        options.count_bytes(),
        stats,
        topic,
    )
}

/// The selection for input that comes as a stream: lines, words and bytes.
pub open spec fn stream_options() -> OptionsView {
    OptionsView {
        count_lines: true,
        count_words: true,
        count_chars: false,
        count_bytes: true,
        files: Seq::empty(),
    }
}

/// The row for the content of a stream: its lines, words and bytes, and an
/// empty label.
pub open spec fn stream_row(bytes: Seq<u8>) -> Seq<char> {
    row_text(stream_options(), input_tally(classified(bytes))->0, Seq::empty())
}

/// Counts the content of a stream and renders its row: the content is
/// scanned as text where it is valid UTF-8, and byte by byte where it is not.
pub fn summarize_stream(buffer: &[u8]) -> (row: String)
    ensures
        row@ == stream_row(buffer@),
{
    let stats = match core::str::from_utf8(buffer) {
        Ok(text) => {
            proof {
                vstd::utf8::encode_utf8_decode_utf8(text@);
            }
            get_stats(text)
        },
        Err(_) => get_stats_bin(buffer),
    };
    let row = render_row(true, true, false, true, &stats, "");
    proof {
        reveal_strlit("");
    }
    row
}

/// The inputs of a run as the report sees them: each label with what its
/// content is.
pub open spec fn labelled(inputs: Seq<(String, ReadResult)>) -> Seq<(Seq<char>, Classified)> {
    inputs.map_values(|input: (String, ReadResult)| (input.0@, input.1@))
}

/// The notice for binary data where characters were to be counted.
pub open spec fn illegal_sequence_notice(label: Seq<char>) -> Seq<char> {
    "wc_clone: "@ + label + " Illegal byte sequence"@
}

/// The notice for an input that could not be read.
pub open spec fn read_error_notice(label: Seq<char>, reason: Seq<char>) -> Seq<char> {
    "wc_clone: "@ + label + ": "@ + reason
}

/// The notices that one input gives rise to: one where it could not be read,
/// one where it is binary data and characters were to be counted.
pub open spec fn notices_of(options: OptionsView, label: Seq<char>, input: Classified) -> Seq<
    Seq<char>,
> {
    match input {
        Classified::Text(_) => Seq::empty(),
        Classified::Bytes(_) => if options.count_chars {
            seq![illegal_sequence_notice(label)]
        } else {
            Seq::empty()
        },
        Classified::Unreadable(reason) => seq![read_error_notice(label, reason)],
    }
}

/// The counters shown for one input: those selected, without the characters
/// where the input is binary data.
pub open spec fn shown_for(options: OptionsView, input: Classified) -> OptionsView {
    if input is Bytes {
        OptionsView { count_chars: false, ..options }
    } else {
        options
    }
}

/// The rows of one input: one where it was read, none where it was not.
pub open spec fn rows_of(options: OptionsView, label: Seq<char>, input: Classified) -> Seq<
    Seq<char>,
> {
    match input_tally(input) {
        Some(tally) => seq![row_text(shown_for(options, input), tally, label)],
        None => Seq::empty(),
    }
}

/// The notices of all inputs, in the order of the inputs.
pub open spec fn all_notices(options: OptionsView, inputs: Seq<(Seq<char>, Classified)>) -> Seq<
    Seq<char>,
>
    decreases inputs.len(),
{
    if inputs.len() == 0 {
        Seq::empty()
    } else {
        all_notices(options, inputs.drop_last()) + notices_of(
            options,
            inputs.last().0,
            inputs.last().1,
        )
    }
}

/// The rows of all inputs, in the order of the inputs.
pub open spec fn all_rows(options: OptionsView, inputs: Seq<(Seq<char>, Classified)>) -> Seq<
    Seq<char>,
>
    decreases inputs.len(),
{
    if inputs.len() == 0 {
        Seq::empty()
    } else {
        all_rows(options, inputs.drop_last()) + rows_of(options, inputs.last().0, inputs.last().1)
    }
}

/// The counters of all inputs that were read, summed.
pub open spec fn total_tally(inputs: Seq<(Seq<char>, Classified)>) -> Tally
    decreases inputs.len(),
{
    if inputs.len() == 0 {
        Tally::zero()
    } else {
        match input_tally(inputs.last().1) {
            Some(tally) => total_tally(inputs.drop_last()).combine(tally),
            None => total_tally(inputs.drop_last()),
        }
    }
}

/// The number of inputs that were read.
pub open spec fn readable_count(inputs: Seq<(Seq<char>, Classified)>) -> nat
    decreases inputs.len(),
{
    if inputs.len() == 0 {
        0
    } else {
        readable_count(inputs.drop_last()) + if input_tally(inputs.last().1) is Some {
            1nat
        } else {
            0nat
        }
    }
}

/// The row of the total, present where more than one input was read.
pub open spec fn total_rows(options: OptionsView, inputs: Seq<(Seq<char>, Classified)>) -> Seq<
    Seq<char>,
> {
    if readable_count(inputs) > 1 {
        seq![row_text(options, total_tally(inputs), "total"@)]
    } else {
        Seq::empty()
    }
}

/// The lines of a run: the notices, then the rows, then the total.
pub open spec fn report(options: OptionsView, inputs: Seq<(Seq<char>, Classified)>) -> Seq<
    Seq<char>,
> {
    all_notices(options, inputs) + all_rows(options, inputs) + total_rows(options, inputs)
}

/// The total of the first inputs is no more, in any counter, than the total
/// of all of them.
proof fn lemma_total_grows(inputs: Seq<(Seq<char>, Classified)>, n: int)
    requires
        0 <= n <= inputs.len(),
    ensures
        total_tally(inputs.take(n)).lines <= total_tally(inputs).lines,
        total_tally(inputs.take(n)).words <= total_tally(inputs).words,
        total_tally(inputs.take(n)).chars <= total_tally(inputs).chars,
        total_tally(inputs.take(n)).bytes <= total_tally(inputs).bytes,
    decreases inputs.len(),
{
    if n == inputs.len() {
        assert(inputs.take(n) =~= inputs);
    } else {
        assert(inputs.drop_last().take(n) =~= inputs.take(n));
        lemma_total_grows(inputs.drop_last(), n);
    }
}

/// Builds the notice for binary data where characters were to be counted.
fn illegal_sequence_text(label: &str) -> (notice: String)
    ensures
        notice@ == illegal_sequence_notice(label@),
{
    let mut notice = String::from_str("wc_clone: ");
    notice.append(label);
    notice.append(" Illegal byte sequence");
    notice
}

/// Builds the notice for an input that could not be read.
fn read_error_text(label: &str, reason: &str) -> (notice: String)
    ensures
        notice@ == read_error_notice(label@, reason@),
{
    let mut notice = String::from_str("wc_clone: ");
    notice.append(label);
    notice.append(": ");
    notice.append(reason);
    notice
}

/// Renders what a run over the given inputs prints, line by line: a notice
/// for each input that could not be read, and for each binary input where
/// characters were to be counted; then a row for each input that was read,
/// without the characters where it is binary; then the row of the total, if
/// more than one input was read.
///
/// Returns `None` where a counter of the total does not fit in a `u64`.
pub fn summarize_files(options: &CommandOptions, inputs: &Vec<(String, ReadResult)>) -> (lines:
    Option<Vec<String>>)
    ensures
        lines is Some <==> total_tally(labelled(inputs@)).fits(),
        lines matches Some(printed) ==> texts(printed@) == report(options@, labelled(inputs@)),
{
    let ghost given = labelled(inputs@);
    let mut notices: Vec<String> = Vec::new();
    let mut rows: Vec<String> = Vec::new();
    let mut total = FileStats::new();
    let mut readable: usize = 0;
    let mut i: usize = 0;
    while i < inputs.len()
        invariant
            given == labelled(inputs@),
            i <= inputs.len(),
            texts(notices@) =~= all_notices(options@, given.take(i as int)),
            texts(rows@) =~= all_rows(options@, given.take(i as int)),
            total@ == total_tally(given.take(i as int)),
            readable == readable_count(given.take(i as int)),
            readable <= i,
        decreases inputs.len() - i,
    {
        let label = inputs[i].0.as_str();
        let content = &inputs[i].1;
        proof {
            assert(given.take(i + 1).drop_last() =~= given.take(i as int));
        }
        match content {
            ReadResult::ReadError(reason) => {
                notices.push(read_error_text(label, reason.as_str()));
            },
            ReadResult::Binary(_) => {
                if options.count_chars() {
                    notices.push(illegal_sequence_text(label));
                }
            },
            ReadResult::Utf8(_) => {},
        }
        match accumulate(content) {
            None => {},
            Some(stats) => {
                let chars = match content {
                    ReadResult::Binary(_) => false,
                    _ => options.count_chars(),
                };
                rows.push(
                    render_row(
                        options.count_lines(),
                        options.count_words(),
                        chars,
                        options.count_bytes(),
                        &stats,
                        label,
                    ),
                );
                match total.checked_add(&stats) {
                    Some(sum) => {
                        total = sum;
                    },
                    None => {
                        proof {
                            lemma_total_grows(given, i + 1);
                        }
                        return None;
                    },
                }
                readable += 1;
            },
        }
        i += 1;
    }
    proof {
        assert(given.take(i as int) =~= given);
        total.lemma_fits();
    }
    if readable > 1 {
        rows.push(format_row(options, &total, "total"));
    }
    notices.append(&mut rows);
    Some(notices)
}

} // verus!
