//! The four counters of one input, and their sum over several inputs.

use vstd::prelude::*;

verus! {

/// The mathematical content of [`FileStats`]: four natural numbers.
pub struct Tally {
    pub lines: nat,
    pub words: nat,
    pub chars: nat,
    pub bytes: nat,
}

impl Tally {
    /// The tally of nothing.
    pub open spec fn zero() -> Tally {
        Tally { lines: 0, words: 0, chars: 0, bytes: 0 }
    }

    /// The sum of two tallies, counter by counter.
    pub open spec fn combine(self, other: Tally) -> Tally {
        Tally {
            lines: self.lines + other.lines,
            words: self.words + other.words,
            chars: self.chars + other.chars,
            bytes: self.bytes + other.bytes,
        }
    }

    /// Whether every counter can be held in a `u64`.
    pub open spec fn fits(self) -> bool {
        &&& self.lines <= u64::MAX
        &&& self.words <= u64::MAX
        &&& self.chars <= u64::MAX
        &&& self.bytes <= u64::MAX
    }
}

/// Combining is commutative.
pub proof fn lemma_combine_commutative(a: Tally, b: Tally)
    ensures
        a.combine(b) == b.combine(a),
{
}

/// Combining is associative.
pub proof fn lemma_combine_associative(a: Tally, b: Tally, c: Tally)
    ensures
        a.combine(b).combine(c) == a.combine(b.combine(c)),
{
}

/// Combining with the zero tally, on either side, changes nothing.
pub proof fn lemma_combine_zero(a: Tally)
    ensures
        a.combine(Tally::zero()) == a,
        Tally::zero().combine(a) == a,
{
}

/// The counters of one input, or of several inputs taken together.
#[derive(Clone, Copy, Debug, PartialEq, Eq)]
pub struct FileStats {
    word_count: u64,
    char_count: u64,
    byte_count: u64,
    line_count: u64,
}

impl View for FileStats {
    type V = Tally;

    closed spec fn view(&self) -> Tally {
        Tally {
            lines: self.line_count as nat,
            words: self.word_count as nat,
            chars: self.char_count as nat,
            bytes: self.byte_count as nat,
        }
    }
}

impl FileStats {
    /// The counters of a record can be held in a `u64` each.
    pub proof fn lemma_fits(self)
        ensures
            self@.fits(),
    {
    }

    /// Counters that are all zero.
    pub fn new() -> (stats: Self)
        ensures
            stats@ == Tally::zero(),
    {
        Self { word_count: 0, char_count: 0, byte_count: 0, line_count: 0 }
    }

    /// Counters with the given values.
    pub(crate) fn from_counts(lines: u64, words: u64, chars: u64, bytes: u64) -> (stats: Self)
        ensures
            stats@ == (Tally {
                lines: lines as nat,
                words: words as nat,
                chars: chars as nat,
                bytes: bytes as nat,
            }),
    {
        Self { word_count: words, char_count: chars, byte_count: bytes, line_count: lines }
    }

    /// Adds the counters of `other` to these.
    pub fn add(&mut self, other: &FileStats)
        requires
            old(self)@.combine(other@).fits(),
        ensures
            final(self)@ == old(self)@.combine(other@),
    {
        self.word_count += other.word_count;
        self.char_count += other.char_count;
        self.byte_count += other.byte_count;
        self.line_count += other.line_count;
    }

    /// The sum of these counters and those of `other`, or `None` where a sum
    /// does not fit in a `u64`.
    pub fn checked_add(&self, other: &FileStats) -> (sum: Option<FileStats>)
        ensures
            sum is Some <==> self@.combine(other@).fits(),
            sum matches Some(total) ==> total@ == self@.combine(other@),
    {
        let lines = self.line_count.checked_add(other.line_count);
        let words = self.word_count.checked_add(other.word_count);
        let chars = self.char_count.checked_add(other.char_count);
        let bytes = self.byte_count.checked_add(other.byte_count);
        match (lines, words, chars, bytes) {
            (Some(lines), Some(words), Some(chars), Some(bytes)) => Some(
                Self::from_counts(lines, words, chars, bytes),
            ),
            _ => None,
        }
    }

    /// The number of newlines.
    pub fn line_count(&self) -> (count: u64)
        ensures
            count == self@.lines,
    {
        self.line_count
    }

    /// The number of words.
    pub fn word_count(&self) -> (count: u64)
        ensures
            count == self@.words,
    {
        self.word_count
    }

    /// The number of units: characters of text, or bytes of binary data.
    pub fn char_count(&self) -> (count: u64)
        ensures
            count == self@.chars,
    {
        self.char_count
    }

    /// The number of bytes.
    pub fn byte_count(&self) -> (count: u64)
        ensures
            count == self@.bytes,
    {
        self.byte_count
    }
}

/// The sum of two records, counter by counter.
pub fn combine(a: FileStats, b: FileStats) -> (total: FileStats)
    requires
        a@.combine(b@).fits(),
    ensures
        total@ == a@.combine(b@),
{
    let mut total = a;
    total.add(&b);
    total
}

} // verus!
