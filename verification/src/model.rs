//! What a scan counts, stated over sequences of units.
//!
//! A line is counted for every newline unit. A word is a maximal run of units
//! that are not spaces, and is counted where it begins. [`words`] gives the
//! runs themselves, and [`lemma_word_count_is_split`] shows that there are as
//! many of them as [`word_count`] says. [`lemma_newline_count_is_newlines`]
//! and [`lemma_newline_count_concat`] say the like of lines, and
//! [`lemma_no_word_in_spaces`] that an input of spaces holds no word.

use vstd::prelude::*;
use crate::stats::Tally;
use crate::unit::{is_newline, is_space, Unit};

verus! {

/// The number of indices `i` with `0 <= i < end` at which `on` holds.
pub open spec fn count_below(end: int, on: spec_fn(int) -> bool) -> nat
    decreases end,
{
    if end <= 0 {
        0
    } else {
        count_below(end - 1, on) + if on(end - 1) {
            1nat
        } else {
            0nat
        }
    }
}

/// Whether a newline stands at index `i`.
pub open spec fn newline_at<T: Unit>(units: Seq<T>) -> spec_fn(int) -> bool {
    |i: int| 0 <= i < units.len() && is_newline(units[i])
}

/// Whether a word begins at index `i`: the unit there is not a space, and it
/// stands first or follows a space.
pub open spec fn word_begins_at<T: Unit>(units: Seq<T>) -> spec_fn(int) -> bool {
    |i: int| 0 <= i < units.len() && !is_space(units[i]) && (i == 0 || is_space(units[i - 1]))
}

/// The number of newline units.
pub open spec fn newline_count<T: Unit>(units: Seq<T>) -> nat {
    count_below(units.len() as int, newline_at(units))
}

/// The number of words: of indices at which a word begins.
pub open spec fn word_count<T: Unit>(units: Seq<T>) -> nat {
    count_below(units.len() as int, word_begins_at(units))
}

/// Whether the units end inside a word.
pub open spec fn ends_in_word<T: Unit>(units: Seq<T>) -> bool {
    units.len() > 0 && !is_space(units.last())
}

/// The counters of a sequence of units that takes `byte_len` bytes.
pub open spec fn tally_of<T: Unit>(units: Seq<T>, byte_len: nat) -> Tally {
    Tally {
        lines: newline_count(units),
        words: word_count(units),
        chars: units.len(),
        bytes: byte_len,
    }
}

/// The counters of text: its units are its characters, its bytes those of its
/// UTF-8 encoding.
pub open spec fn text_tally(text: Seq<char>) -> Tally {
    tally_of(text, vstd::utf8::encode_utf8(text).len())
}

/// The counters of binary data: its units are its bytes.
pub open spec fn binary_tally(bytes: Seq<u8>) -> Tally {
    tally_of(bytes, bytes.len())
}

/// The words of `units` that follow `word`, the run of units read since the
/// last space: a space closes the run, any other unit extends it, and the end
/// of the input closes it too. An empty run is no word.
pub open spec fn split_from<T: Unit>(units: Seq<T>, word: Seq<T>) -> Seq<Seq<T>>
    decreases units.len(),
{
    let closed = if word.len() > 0 {
        seq![word]
    } else {
        Seq::empty()
    };
    if units.len() == 0 {
        closed
    } else if is_space(units[0]) {
        closed + split_from(units.drop_first(), Seq::empty())
    } else {
        split_from(units.drop_first(), word.push(units[0]))
    }
}

/// The words of the input in order: what is left when it is split at its
/// spaces and the empty pieces are dropped.
pub open spec fn words<T: Unit>(units: Seq<T>) -> Seq<Seq<T>> {
    split_from(units, Seq::empty())
}

/// A count is at most the number of indices counted over.
pub proof fn lemma_count_bound(end: int, on: spec_fn(int) -> bool)
    requires
        0 <= end,
    ensures
        count_below(end, on) <= end,
    decreases end,
{
    if end > 0 {
        lemma_count_bound(end - 1, on);
    }
}

/// Two predicates that agree below `end` have the same count.
pub proof fn lemma_count_agree(end: int, on: spec_fn(int) -> bool, other: spec_fn(int) -> bool)
    requires
        forall|i: int| 0 <= i < end ==> #[trigger] on(i) == other(i),
    ensures
        count_below(end, on) == count_below(end, other),
    decreases end,
{
    if end > 0 {
        lemma_count_agree(end - 1, on, other);
    }
}

/// A predicate that holds nowhere below `end` has count zero.
pub proof fn lemma_count_none(end: int, on: spec_fn(int) -> bool)
    requires
        forall|i: int| 0 <= i < end ==> !#[trigger] on(i),
    ensures
        count_below(end, on) == 0,
    decreases end,
{
    if end > 0 {
        lemma_count_none(end - 1, on);
    }
}

/// The count over `first + second` indices is the count over the first
/// `first` and the count over the `second` that follow.
pub proof fn lemma_count_split(first: int, second: int, on: spec_fn(int) -> bool)
    requires
        0 <= first,
        0 <= second,
    ensures
        count_below(first + second, on) == count_below(first, on) + count_below(
            second,
            |i: int| on(i + first),
        ),
    decreases second,
{
    if second > 0 {
        lemma_count_split(first, second - 1, on);
    }
}

/// There are no more lines and no more words than there are units.
pub proof fn lemma_counts_within_len<T: Unit>(units: Seq<T>)
    ensures
        newline_count(units) <= units.len(),
        word_count(units) <= units.len(),
{
    lemma_count_bound(units.len() as int, newline_at(units));
    lemma_count_bound(units.len() as int, word_begins_at(units));
}

/// One more unit adds a line exactly where it is a newline.
pub proof fn lemma_newline_count_push<T: Unit>(units: Seq<T>, unit: T)
    ensures
        newline_count(units.push(unit)) == newline_count(units) + if is_newline(unit) {
            1nat
        } else {
            0nat
        },
{
    lemma_count_agree(units.len() as int, newline_at(units.push(unit)), newline_at(units));
}

/// One more unit adds a word exactly where it begins one: it is not a space,
/// and the units before it do not end inside a word.
pub proof fn lemma_word_count_push<T: Unit>(units: Seq<T>, unit: T)
    ensures
        word_count(units.push(unit)) == word_count(units) + if !is_space(unit) && !ends_in_word(
            units,
        ) {
            1nat
        } else {
            0nat
        },
{
    lemma_count_agree(
        units.len() as int,
        word_begins_at(units.push(unit)),
        word_begins_at(units),
    );
}

/// The newlines of two inputs put together are those of the one and those of
/// the other: what stands before or after a part of the input does not change
/// how many lines the part holds.
pub proof fn lemma_newline_count_concat<T: Unit>(front: Seq<T>, back: Seq<T>)
    ensures
        newline_count(front + back) == newline_count(front) + newline_count(back),
{
    let whole = front + back;
    let n = front.len() as int;
    lemma_count_split(n, back.len() as int, newline_at(whole));
    lemma_count_agree(n, newline_at(whole), newline_at(front));
    lemma_count_agree(back.len() as int, |i: int| newline_at(whole)(i + n), newline_at(back));
}

/// The newline units of the input, in order: what is left when every other
/// unit is taken out.
pub open spec fn newlines<T: Unit>(units: Seq<T>) -> Seq<T> {
    units.filter(|unit: T| is_newline(unit))
}

/// An input with exactly `n` newline units has line count `n`, whatever the
/// other units are.
pub proof fn lemma_newline_count_is_newlines<T: Unit>(units: Seq<T>)
    ensures
        newline_count(units) == newlines(units).len(),
    decreases units.len(),
{
    if units.len() > 0 {
        let init = units.drop_last();
        assert(units =~= init.push(units.last()));
        lemma_newline_count_is_newlines(init);
        lemma_newline_count_push(init, units.last());
        init.lemma_filter_push(units.last(), |unit: T| is_newline(unit));
    } else {
        reveal(Seq::filter);
    }
}

/// The words of two inputs put together are those of the one and those of the
/// other, less one where a word runs across the joint.
pub proof fn lemma_word_count_concat<T: Unit>(front: Seq<T>, back: Seq<T>)
    ensures
        word_count(front + back) + (if ends_in_word(front) && back.len() > 0 && !is_space(
            back[0],
        ) {
            1nat
        } else {
            0nat
        }) == word_count(front) + word_count(back),
    decreases back.len(),
{
    if back.len() > 0 {
        let init = back.drop_last();
        let unit = back.last();
        assert(back =~= init.push(unit));
        lemma_word_count_concat(front, init);
        lemma_word_count_push(front + init, unit);
        lemma_word_count_push(init, unit);
    }
}

/// An input of spaces only, or an empty one, holds no word.
pub proof fn lemma_no_word_in_spaces<T: Unit>(units: Seq<T>)
    requires
        forall|i: int| 0 <= i < units.len() ==> is_space(#[trigger] units[i]),
    ensures
        word_count(units) == 0,
{
    lemma_count_none(units.len() as int, word_begins_at(units));
}

/// An input that holds a unit other than a space holds a word.
pub proof fn lemma_word_in_other<T: Unit>(units: Seq<T>, i: int)
    requires
        0 <= i < units.len(),
        !is_space(units[i]),
    ensures
        word_count(units) > 0,
    decreases units.len(),
{
    let init = units.drop_last();
    assert(units =~= init.push(units.last()));
    lemma_word_count_push(init, units.last());
    if i < init.len() {
        lemma_word_in_other(init, i);
    } else if ends_in_word(init) {
        lemma_word_in_other(init, init.len() - 1);
    }
}

/// Every word that [`split_from`] gives is a run without spaces and is not
/// empty, given that the run read so far holds no space.
pub proof fn lemma_split_words<T: Unit>(units: Seq<T>, word: Seq<T>, k: int)
    requires
        forall|j: int| 0 <= j < word.len() ==> !is_space(#[trigger] word[j]),
        0 <= k < split_from(units, word).len(),
    ensures
        split_from(units, word)[k].len() > 0,
        forall|j: int|
            0 <= j < split_from(units, word)[k].len() ==> !is_space(
                #[trigger] split_from(units, word)[k][j],
            ),
    decreases units.len(),
{
    if units.len() == 0 {
    } else if is_space(units[0]) {
        if word.len() > 0 && k == 0 {
        } else {
            let shift = if word.len() > 0 {
                1int
            } else {
                0int
            };
            lemma_split_words(units.drop_first(), Seq::<T>::empty(), k - shift);
        }
    } else {
        lemma_split_words(units.drop_first(), word.push(units[0]), k);
    }
}

/// The number of words that [`split_from`] gives: those that begin in `units`,
/// and the run read so far unless it is empty or goes on into `units`.
pub proof fn lemma_split_len<T: Unit>(units: Seq<T>, word: Seq<T>)
    ensures
        split_from(units, word).len() == word_count(units) + if word.len() > 0 && (units.len() == 0
            || is_space(units[0])) {
            1nat
        } else {
            0nat
        },
    decreases units.len(),
{
    if units.len() > 0 {
        let first = seq![units[0]];
        let rest = units.drop_first();
        assert(units =~= first + rest);
        lemma_word_count_concat(first, rest);
        assert(word_count(first) == if is_space(units[0]) {
            0nat
        } else {
            1nat
        }) by {
            lemma_word_count_push(Seq::<T>::empty(), units[0]);
        }
        if is_space(units[0]) {
            lemma_split_len(rest, Seq::<T>::empty());
        } else {
            lemma_split_len(rest, word.push(units[0]));
        }
    }
}

/// The units of the input that are not spaces, in order.
pub open spec fn unspaced<T: Unit>(units: Seq<T>) -> Seq<T> {
    units.filter(|unit: T| !is_space(unit))
}

/// The words that [`split_from`] gives, put end to end, are the run read so
/// far and then the units that are not spaces.
pub proof fn lemma_split_content<T: Unit>(units: Seq<T>, word: Seq<T>)
    ensures
        split_from(units, word).flatten() == word + unspaced(units),
    decreases units.len(),
{
    let closed = if word.len() > 0 {
        seq![word]
    } else {
        Seq::<Seq<T>>::empty()
    };
    assert(closed.flatten() =~= word) by {
        if word.len() > 0 {
            closed.lemma_flatten_one_element();
        }
    }
    if units.len() == 0 {
        reveal(Seq::filter);
        assert(word + unspaced(units) =~= word);
    } else {
        let rest = units.drop_first();
        assert(units =~= seq![units[0]] + rest);
        rest.lemma_filter_prepend(units[0], |unit: T| !is_space(unit));
        if is_space(units[0]) {
            lemma_split_content(rest, Seq::<T>::empty());
            vstd::seq_lib::lemma_flatten_concat(closed, split_from(rest, Seq::<T>::empty()));
            assert(word + unspaced(units) =~= word + (Seq::<T>::empty() + unspaced(rest)));
        } else {
            lemma_split_content(rest, word.push(units[0]));
            assert(word + unspaced(units) =~= word.push(units[0]) + unspaced(rest));
        }
    }
}

/// Splitting the input at its spaces and counting the pieces that are not
/// empty gives the number of words. Each piece counted is a run of units
/// that holds no space, and the pieces put end to end are the units of the
/// input that are not spaces.
pub proof fn lemma_word_count_is_split<T: Unit>(units: Seq<T>)
    ensures
        words(units).len() == word_count(units),
        words(units).flatten() == unspaced(units),
        forall|k: int|
            0 <= k < words(units).len() ==> (#[trigger] words(units)[k]).len() > 0,
        forall|k: int, j: int|
            0 <= k < words(units).len() && 0 <= j < words(units)[k].len() ==> !is_space(
                #[trigger] words(units)[k][j],
            ),
{
    lemma_split_len(units, Seq::<T>::empty());
    lemma_split_content(units, Seq::<T>::empty());
    assert(Seq::<T>::empty() + unspaced(units) =~= unspaced(units));
    assert forall|k: int| 0 <= k < words(units).len() implies (#[trigger] words(units)[k]).len()
        > 0 && (forall|j: int|
        0 <= j < words(units)[k].len() ==> !is_space(#[trigger] words(units)[k][j])) by {
        lemma_split_words(units, Seq::<T>::empty(), k);
    }
}

} // verus!
