//! The single forward pass that counts lines, words and units.
//!
//! Text and binary data are scanned by the same state machine, fed with
//! characters in the one case and with bytes in the other.

use vstd::prelude::*;
use vstd::utf8::{decode_utf8, encode_utf8, valid_utf8};
use crate::decode::{classified, Classified, ReadResult};
use crate::model::{
    binary_tally,
    ends_in_word,
    lemma_counts_within_len,
    lemma_newline_count_push,
    lemma_word_count_push,
    newline_count,
    tally_of,
    text_tally,
    word_count,
};
use crate::stats::{FileStats, Tally};
use crate::unit::{Unit, UnitClass};

verus! {

/// The state of a scan: the counters so far, and whether the last unit fed
/// was part of a word. A word is counted when it ends.
struct Scanner<T: Unit> {
    lines: u64,
    words: u64,
    units: u64,
    in_word: bool,
    seen: Ghost<Seq<T>>,
}

impl<T: Unit> Scanner<T> {
    /// The state agrees with the units fed so far. The word that the scan is
    /// inside of, if any, is not yet among `words`.
    spec fn wf(&self) -> bool {
        &&& self.units == self.seen@.len()
        &&& self.lines == newline_count(self.seen@)
        &&& self.in_word == ends_in_word(self.seen@)
        &&& self.words + (if self.in_word {
            1nat
        } else {
            0nat
        }) == word_count(self.seen@)
    }

    fn new() -> (scanner: Self)
        ensures
            scanner.wf(),
            scanner.seen@ == Seq::<T>::empty(),
    {
        Scanner { lines: 0, words: 0, units: 0, in_word: false, seen: Ghost(Seq::empty()) }
    }

    /// Takes the next unit of the input.
    fn feed(&mut self, unit: T)
        requires
            old(self).wf(),
            old(self).seen@.len() < u64::MAX,
        ensures
            final(self).wf(),
            final(self).seen@ == old(self).seen@.push(unit),
    {
        proof {
            lemma_counts_within_len(self.seen@);
            lemma_newline_count_push(self.seen@, unit);
            lemma_word_count_push(self.seen@, unit);
        }
        self.units += 1;
        match unit.class_of() {
            UnitClass::Newline => {
                self.lines += 1;
                if self.in_word {
                    self.words += 1;
                    self.in_word = false;
                }
            },
            UnitClass::Blank => {
                if self.in_word {
                    self.words += 1;
                    self.in_word = false;
                }
            },
            UnitClass::Word => {
                self.in_word = true;
            },
        }
        self.seen = Ghost(self.seen@.push(unit));
    }

    /// Ends the scan: a word that the input ends in is counted now.
    fn finish(self, byte_len: u64) -> (stats: FileStats)
        requires
            self.wf(),
        ensures
            stats@ == tally_of(self.seen@, byte_len as nat),
    {
        proof {
            lemma_counts_within_len(self.seen@);
        }
        let words = if self.in_word {
            self.words + 1
        } else {
            self.words
        };
        FileStats::from_counts(self.lines, words, self.units, byte_len)
    }
}

/// Text has at most as many characters as its encoding has bytes.
proof fn lemma_chars_within_bytes(text: Seq<char>)
    ensures
        text.len() <= encode_utf8(text).len(),
    decreases text.len(),
{
    if text.len() > 0 {
        lemma_chars_within_bytes(text.drop_first());
    }
}

/// Counts the lines, words, characters and bytes of text.
pub fn get_stats(file_content: &str) -> (stats: FileStats)
    ensures
        stats@ == text_tally(file_content@),
{
    let byte_len = file_content.as_bytes().len();
    proof {
        lemma_chars_within_bytes(file_content@);
    }
    let mut scanner = Scanner::<char>::new();
    for c in chars: file_content.chars()
        invariant
            chars.seq() == file_content@,
            file_content@.len() <= usize::MAX,
            scanner.wf(),
            scanner.seen@ =~= file_content@.take(chars.index()),
    {
        scanner.feed(c);
    }
    assert(file_content@.take(file_content@.len() as int) =~= file_content@);
    scanner.finish(byte_len as u64)
}

/// Counts the lines, words and bytes of binary data. Every byte is a unit,
/// so the character count is the byte count.
pub fn get_stats_bin(file_content: &[u8]) -> (stats: FileStats)
    ensures
        stats@ == binary_tally(file_content@),
{
    let byte_len = file_content.len();
    let mut scanner = Scanner::<u8>::new();
    let mut i: usize = 0;
    while i < byte_len
        invariant
            byte_len == file_content@.len(),
            i <= byte_len,
            scanner.wf(),
            scanner.seen@ =~= file_content@.take(i as int),
        decreases byte_len - i,
    {
        scanner.feed(file_content[i]);
        i += 1;
    }
    assert(file_content@.take(byte_len as int) =~= file_content@);
    scanner.finish(byte_len as u64)
}

/// The counters of a classified input: those of its text or of its bytes, and
/// none where the input could not be read.
pub open spec fn input_tally(input: Classified) -> Option<Tally> {
    match input {
        Classified::Text(text) => Some(text_tally(text)),
        Classified::Bytes(bytes) => Some(binary_tally(bytes)),
        Classified::Unreadable(_) => None,
    }
}

/// Scans a classified input once and returns its counters, or `None` where
/// the input could not be read.
pub fn accumulate(input: &ReadResult) -> (stats: Option<FileStats>)
    ensures
        stats is Some <==> !(input is ReadError),
        input_tally(input@) == match stats {
            Some(found) => Some(found@),
            None => None::<Tally>,
        },
{
    match input {
        ReadResult::Utf8(text) => Some(get_stats(text.as_str())),
        ReadResult::Binary(bytes) => Some(get_stats_bin(bytes.as_slice())),
        ReadResult::ReadError(_) => None,
    }
}

/// Whatever a buffer holds, its byte count is its length: for text as much
/// as for binary data.
pub proof fn lemma_byte_count_is_length(bytes: Seq<u8>)
    ensures
        input_tally(classified(bytes)) matches Some(tally) && tally.bytes == bytes.len(),
{
    if valid_utf8(bytes) {
        vstd::utf8::decode_utf8_encode_utf8(bytes);
    }
}

} // verus!
