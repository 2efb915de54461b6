//! The selection of counters and the list of inputs, as given on the command
//! line.
//!
//! The first argument is the program's path and is skipped. The arguments that
//! follow and begin with `-` are options; the first argument that does not, and
//! everything after it, are the files to count, taken verbatim. An option is one
//! of the long names `--lines`, `--words`, `--chars`, `--bytes`, or a dash
//! followed by any number of the letters `l`, `w`, `m`, `c`. Any other option
//! is an error. Without any option, lines, words and bytes are counted.

use vstd::prelude::*;
use vstd::std_specs::iter::IteratorSpec;

verus! {

/// One of the four counters that a run can show.
pub enum Counter {
    Lines,
    Words,
    Chars,
    Bytes,
}

/// The mathematical content of [`CommandOptions`].
pub struct OptionsView {
    pub count_lines: bool,
    pub count_words: bool,
    pub count_chars: bool,
    pub count_bytes: bool,
    pub files: Seq<Seq<char>>,
}

/// The texts of a sequence of strings.
pub open spec fn texts(strings: Seq<String>) -> Seq<Seq<char>> {
    strings.map_values(|s: String| s@)
}

/// Whether the argument is an option: it begins with a dash.
pub open spec fn is_option(arg: Seq<char>) -> bool {
    arg.len() > 0 && arg[0] == '-'
}

/// The long option that selects the counter.
pub open spec fn long_name(counter: Counter) -> Seq<char> {
    match counter {
        Counter::Lines => "--lines"@,
        Counter::Words => "--words"@,
        Counter::Chars => "--chars"@,
        Counter::Bytes => "--bytes"@,
    }
}

/// The letter that selects the counter in a short option.
pub open spec fn letter(counter: Counter) -> char {
    match counter {
        Counter::Lines => 'l',
        Counter::Words => 'w',
        Counter::Chars => 'm',
        Counter::Bytes => 'c',
    }
}

/// Whether the argument is one of the four long options.
pub open spec fn is_long_option(arg: Seq<char>) -> bool {
    ||| arg == long_name(Counter::Lines)
    ||| arg == long_name(Counter::Words)
    ||| arg == long_name(Counter::Chars)
    ||| arg == long_name(Counter::Bytes)
}

/// Whether the character is the letter of some counter.
pub open spec fn is_letter(c: char) -> bool {
    ||| c == letter(Counter::Lines)
    ||| c == letter(Counter::Words)
    ||| c == letter(Counter::Chars)
    ||| c == letter(Counter::Bytes)
}

/// Whether an option is understood: it is a long option, or every character
/// after its dash is the letter of a counter.
pub open spec fn supported(arg: Seq<char>) -> bool {
    is_long_option(arg) || forall|i: int| 1 <= i < arg.len() ==> is_letter(#[trigger] arg[i])
}

/// Whether an option turns the counter on: it is the counter's long name, or
/// a short option that holds the counter's letter.
pub open spec fn selects(arg: Seq<char>, counter: Counter) -> bool {
    arg == long_name(counter) || (!is_long_option(arg) && exists|i: int|
        1 <= i < arg.len() && #[trigger] arg[i] == letter(counter))
}

/// The index of the first argument at or after `from` that is not an option,
/// or the end of the arguments where all of them are options.
pub open spec fn first_operand_from(args: Seq<Seq<char>>, from: int) -> int
    decreases args.len() - from,
{
    if from >= args.len() || !is_option(args[from]) {
        from
    } else {
        first_operand_from(args, from + 1)
    }
}

/// Where the files begin: the index of the first argument after the program's
/// path that is not an option.
pub open spec fn operands_start(args: Seq<Seq<char>>) -> int {
    first_operand_from(args, 1)
}

/// The index of the first argument in `from..to` that is not a supported
/// option, or `to` where there is none.
pub open spec fn first_unsupported_from(args: Seq<Seq<char>>, from: int, to: int) -> int
    decreases to - from,
{
    if from >= to {
        to
    } else if !supported(args[from]) {
        from
    } else {
        first_unsupported_from(args, from + 1, to)
    }
}

/// Whether some option before the files turns the counter on.
pub open spec fn any_selects(args: Seq<Seq<char>>, start: int, counter: Counter) -> bool {
    exists|j: int| 1 <= j < start && #[trigger] selects(args[j], counter)
}

/// Whether the counter is shown. Without any option the default applies:
/// every counter but the characters.
pub open spec fn chosen(args: Seq<Seq<char>>, counter: Counter) -> bool {
    if operands_start(args) == 1 {
        !(counter is Chars)
    } else {
        any_selects(args, operands_start(args), counter)
    }
}

/// The message for an option that is not supported.
pub open spec fn unsupported_message(arg: Seq<char>) -> Seq<char> {
    "Recieved unsupported option: "@ + arg
}

/// The message for a command line that names no file.
pub open spec fn no_files_message() -> Seq<char> {
    "No files spcified..."@
}

/// What a command line means: the options it gives, or the message of the
/// error it makes. The first unsupported option is reported even where no
/// file follows it.
pub open spec fn parse(args: Seq<Seq<char>>) -> Result<OptionsView, Seq<char>> {
    let start = operands_start(args);
    let bad = first_unsupported_from(args, 1, start);
    if bad < start {
        Err(unsupported_message(args[bad]))
    } else if start >= args.len() {
        Err(no_files_message())
    } else {
        Ok(
            OptionsView {
                count_lines: chosen(args, Counter::Lines),
                count_words: chosen(args, Counter::Words),
                count_chars: chosen(args, Counter::Chars),
                count_bytes: chosen(args, Counter::Bytes),
                files: args.skip(start),
            },
        )
    }
}

/// Which counters to show, and for which files.
#[derive(Debug)]
pub struct CommandOptions {
    count_words: bool,
    count_chars: bool,
    count_bytes: bool,
    count_lines: bool,
    files: Vec<String>,
}

impl View for CommandOptions {
    type V = OptionsView;

    closed spec fn view(&self) -> OptionsView {
        OptionsView {
            count_lines: self.count_lines,
            count_words: self.count_words,
            count_chars: self.count_chars,
            count_bytes: self.count_bytes,
            files: texts(self.files@),
        }
    }
}

/// The counters that one option turns on.
#[derive(Clone, Copy)]
struct Marks {
    lines: bool,
    words: bool,
    chars: bool,
    bytes: bool,
}

impl Marks {
    /// Whether the marks are those that the letters of `arg` before `end` set.
    spec fn holds_letters(self, arg: Seq<char>, end: int) -> bool {
        &&& self.lines == exists|i: int| 1 <= i < end && #[trigger] arg[i] == 'l'
        &&& self.words == exists|i: int| 1 <= i < end && #[trigger] arg[i] == 'w'
        &&& self.chars == exists|i: int| 1 <= i < end && #[trigger] arg[i] == 'm'
        &&& self.bytes == exists|i: int| 1 <= i < end && #[trigger] arg[i] == 'c'
    }

    /// Whether the marks are the counters that the option selects.
    spec fn of_option(self, arg: Seq<char>) -> bool {
        &&& self.lines == selects(arg, Counter::Lines)
        &&& self.words == selects(arg, Counter::Words)
        &&& self.chars == selects(arg, Counter::Chars)
        &&& self.bytes == selects(arg, Counter::Bytes)
    }

    /// Whether the marks are the counters that the options before `end` select.
    spec fn of_options(self, args: Seq<Seq<char>>, end: int) -> bool {
        &&& self.lines == any_selects(args, end, Counter::Lines)
        &&& self.words == any_selects(args, end, Counter::Words)
        &&& self.chars == any_selects(args, end, Counter::Chars)
        &&& self.bytes == any_selects(args, end, Counter::Bytes)
    }

    fn none() -> (marks: Marks)
        ensures
            !marks.lines && !marks.words && !marks.chars && !marks.bytes,
    {
        Marks { lines: false, words: false, chars: false, bytes: false }
    }

    fn union(self, other: Marks) -> (marks: Marks)
        ensures
            marks.lines == (self.lines || other.lines),
            marks.words == (self.words || other.words),
            marks.chars == (self.chars || other.chars),
            marks.bytes == (self.bytes || other.bytes),
    {
        Marks {
            lines: self.lines || other.lines,
            words: self.words || other.words,
            chars: self.chars || other.chars,
            bytes: self.bytes || other.bytes,
        }
    }
}

/// Compares two strings character by character.
fn same_text(a: &str, b: &str) -> (same: bool)
    ensures
        same == (a@ == b@),
{
    let mut xs = a.chars();
    let mut ys = b.chars();
    let ghost mut common: Seq<char> = Seq::empty();
    loop
        invariant
            a@ == common + xs.remaining(),
            b@ == common + ys.remaining(),
            xs.decrease() is Some,
        decreases xs.decrease()->0,
    {
        let x = xs.next();
        let y = ys.next();
        match (x, y) {
            (None, None) => {
                return true;
            },
            (Some(x), Some(y)) => {
                if x != y {
                    assert(a@[common.len() as int] == x);
                    assert(b@[common.len() as int] == y);
                    return false;
                }
                proof {
                    common = common.push(x);
                }
            },
            _ => {
                return false;
            },
        }
    }
}

/// Whether the argument begins with a dash.
fn begins_with_dash(arg: &str) -> (dash: bool)
    ensures
        dash == is_option(arg@),
{
    let mut chars = arg.chars();
    match chars.next() {
        Some(c) => c == '-',
        None => false,
    }
}

/// The four long names differ from one another: they differ in the character
/// after the two dashes.
proof fn lemma_long_names()
    ensures
        long_name(Counter::Lines) != long_name(Counter::Words),
        long_name(Counter::Lines) != long_name(Counter::Chars),
        long_name(Counter::Lines) != long_name(Counter::Bytes),
        long_name(Counter::Words) != long_name(Counter::Chars),
        long_name(Counter::Words) != long_name(Counter::Bytes),
        long_name(Counter::Chars) != long_name(Counter::Bytes),
{
    reveal_strlit("--lines");
    reveal_strlit("--words");
    reveal_strlit("--chars");
    reveal_strlit("--bytes");
    assert("--lines"@[2] == 'l');
    assert("--words"@[2] == 'w');
    assert("--chars"@[2] == 'c');
    assert("--bytes"@[2] == 'b');
}

/// Reads the letters of a short option.
fn marks_of_letters(arg: &str) -> (marks: Option<Marks>)
    requires
        is_option(arg@),
        !is_long_option(arg@),
    ensures
        marks is Some <==> supported(arg@),
        marks matches Some(m) ==> m.of_option(arg@),
{
    let mut chars = arg.chars();
    let _dash = chars.next();
    let mut marks = Marks::none();
    let ghost mut end: int = 1;
    loop
        invariant
            1 <= end <= arg@.len(),
            chars.remaining() == arg@.skip(end),
            chars.decrease() is Some,
            !is_long_option(arg@),
            forall|i: int| 1 <= i < end ==> is_letter(#[trigger] arg@[i]),
            marks.holds_letters(arg@, end),
        decreases chars.decrease()->0,
    {
        match chars.next() {
            None => {
                return Some(marks);
            },
            Some(c) => {
                if c == 'l' {
                    marks.lines = true;
                } else if c == 'w' {
                    marks.words = true;
                } else if c == 'm' {
                    marks.chars = true;
                } else if c == 'c' {
                    marks.bytes = true;
                } else {
                    return None;
                }
                proof {
                    end = end + 1;
                }
            },
        }
    }
}

/// Reads one option: the counters it selects, or `None` where it is not
/// supported.
fn marks_of(arg: &str) -> (marks: Option<Marks>)
    requires
        is_option(arg@),
    ensures
        marks is Some <==> supported(arg@),
        marks matches Some(m) ==> m.of_option(arg@),
{
    proof {
        lemma_long_names();
    }
    if same_text(arg, "--bytes") {
        Some(Marks { lines: false, words: false, chars: false, bytes: true })
    } else if same_text(arg, "--chars") {
        Some(Marks { lines: false, words: false, chars: true, bytes: false })
    } else if same_text(arg, "--words") {
        Some(Marks { lines: false, words: true, chars: false, bytes: false })
    } else if same_text(arg, "--lines") {
        Some(Marks { lines: true, words: false, chars: false, bytes: false })
    } else {
        marks_of_letters(arg)
    }
}

/// An option at `from`, before the files, moves the start of the files past it.
proof fn lemma_operand_after(args: Seq<Seq<char>>, from: int)
    ensures
        from <= first_operand_from(args, from),
        from < args.len() ==> first_operand_from(args, from) <= args.len(),
    decreases args.len() - from,
{
    if from < args.len() && is_option(args[from]) {
        lemma_operand_after(args, from + 1);
    }
}

impl CommandOptions {
    /// Options that select no counter and name no file.
    pub fn new() -> (options: Self)
        ensures
            options@ == (OptionsView {
                count_lines: false,
                count_words: false,
                count_chars: false,
                count_bytes: false,
                files: Seq::empty(),
            }),
    {
        let options = Self {
            count_bytes: false,
            count_chars: false,
            count_words: false,
            count_lines: false,
            files: Vec::new(),
        };
        assert(texts(options.files@) =~= Seq::empty());
        options
    }

    /// Reads a command line, the program's path first.
    ///
    /// Returns the options that [`parse`] gives for the arguments, or the
    /// message of the error that it gives.
    pub fn build(argv: Vec<String>) -> (result: Result<CommandOptions, String>)
        ensures
            match result {
                Ok(options) => parse(texts(argv@)) == Ok::<OptionsView, Seq<char>>(options@),
                Err(message) => parse(texts(argv@)) == Err::<OptionsView, Seq<char>>(message@),
            },
    {
        let mut given = argv;
        let ghost args = texts(given@);
        let ghost start = operands_start(args);
        let count = given.len();
        let mut marks = Marks::none();
        let mut i: usize = 1;
        while i < count && begins_with_dash(given[i].as_str())
            invariant
                given@ == argv@,
                count == given.len(),
                args == texts(given@),
                start == operands_start(args),
                1 <= i,
                i <= count || count == 0,
                start == first_operand_from(args, i as int),
                first_unsupported_from(args, 1, start) == first_unsupported_from(
                    args,
                    i as int,
                    start,
                ),
                marks.of_options(args, i as int),
            decreases count - i,
        {
            proof {
                lemma_operand_after(args, i + 1);
            }
            match marks_of(given[i].as_str()) {
                None => {
                    let message = String::from_str("Recieved unsupported option: ").concat(
                        given[i].as_str(),
                    );
                    return Err(message);
                },
                Some(found) => {
                    marks = marks.union(found);
                },
            }
            i += 1;
        }
        if i >= count {
            return Err(String::from_str("No files spcified..."));
        }
        if i == 1 {
            marks = Marks { lines: true, words: true, chars: false, bytes: true };
        }
        let files = given.split_off(i);
        assert(texts(files@) =~= args.skip(i as int));
        Ok(
            CommandOptions {
                count_words: marks.words,
                count_chars: marks.chars,
                count_bytes: marks.bytes,
                count_lines: marks.lines,
                files,
            },
        )
    }

    /// Whether lines are counted.
    pub fn count_lines(&self) -> (on: bool)
        ensures
            on == self@.count_lines,
    {
        self.count_lines
    }

    /// Whether words are counted.
    pub fn count_words(&self) -> (on: bool)
        ensures
            on == self@.count_words,
    {
        self.count_words
    }

    /// Whether characters are counted.
    pub fn count_chars(&self) -> (on: bool)
        ensures
            on == self@.count_chars,
    {
        self.count_chars
    }

    /// Whether bytes are counted.
    pub fn count_bytes(&self) -> (on: bool)
        ensures
            on == self@.count_bytes,
    {
        self.count_bytes
    }

    /// The files to count, in the order given.
    pub fn files(&self) -> (files: &Vec<String>)
        ensures
            texts(files@) == self@.files,
    {
        &self.files
    }
}

} // verus!
