//! What a line typed by the user means: the value it enters, and whether it
//! confirms.

use vstd::prelude::*;

verus! {

/// Whether `c` is white space: what `char::is_whitespace` of the standard
/// library returns for it, which is a matter of Unicode's tables.
pub uninterp spec fn is_whitespace(c: char) -> bool;

/// `char::is_whitespace` of the standard library. Nothing is claimed of it but
/// that its result is a function of the character, named `is_whitespace`.
pub assume_specification[ char::is_whitespace ](c: char) -> (white: bool)
    ensures
        white == is_whitespace(c),
;

/// `text` without the white space at its end.
pub open spec fn trimmed_end(text: Seq<char>) -> Seq<char>
    decreases text.len(),
{
    if text.len() > 0 && is_whitespace(text.last()) {
        trimmed_end(text.drop_last())
    } else {
        text
    }
}

/// `text` without the white space at its start.
pub open spec fn trimmed_start(text: Seq<char>) -> Seq<char>
    decreases text.len(),
{
    if text.len() > 0 && is_whitespace(text.first()) {
        trimmed_start(text.drop_first())
    } else {
        text
    }
}

/// `text` without the white space at either end.
pub open spec fn trimmed(text: Seq<char>) -> Seq<char> {
    trimmed_end(trimmed_start(text))
}

/// Whether a line answers the request for confirmation with yes: it does when,
/// white space at its ends apart, it is the one letter `y` or `Y`.
pub open spec fn confirms(line: Seq<char>) -> bool {
    trimmed(line) == seq!['y'] || trimmed(line) == seq!['Y']
}

/// Trimming never lengthens a text: what is left is a stretch of it.
pub proof fn lemma_trimmed_is_stretch(text: Seq<char>)
    ensures
        exists|from: int, to: int|
            0 <= from <= to <= text.len() && trimmed(text) == #[trigger] text.subrange(from, to),
{
    lemma_trimmed_start_is_suffix(text);
    let from: int = text.len() - trimmed_start(text).len();
    let rest = trimmed_start(text);
    lemma_trimmed_end_is_prefix(rest);
    let to: int = from + trimmed_end(rest).len();
    assert(trimmed(text) =~= text.subrange(from, to));
}

/// What is left after trimming the start is the end of the text.
pub proof fn lemma_trimmed_start_is_suffix(text: Seq<char>)
    ensures
        trimmed_start(text).len() <= text.len(),
        trimmed_start(text) == text.subrange(
            text.len() - trimmed_start(text).len(),
            text.len() as int,
        ),
    decreases text.len(),
{
    if text.len() > 0 && is_whitespace(text.first()) {
        let rest = text.drop_first();
        lemma_trimmed_start_is_suffix(rest);
        assert(rest.subrange(rest.len() - trimmed_start(rest).len(), rest.len() as int)
            =~= text.subrange(text.len() - trimmed_start(rest).len(), text.len() as int));
    } else {
        assert(text =~= text.subrange(0, text.len() as int));
    }
}

/// What is left after trimming the end is the start of the text.
pub proof fn lemma_trimmed_end_is_prefix(text: Seq<char>)
    ensures
        trimmed_end(text).len() <= text.len(),
        trimmed_end(text) == text.subrange(0, trimmed_end(text).len() as int),
    decreases text.len(),
{
    if text.len() > 0 && is_whitespace(text.last()) {
        let rest = text.drop_last();
        lemma_trimmed_end_is_prefix(rest);
        assert(rest.subrange(0, trimmed_end(rest).len() as int) =~= text.subrange(
            0,
            trimmed_end(rest).len() as int,
        ));
    } else {
        assert(text =~= text.subrange(0, text.len() as int));
    }
}

/// A line confirms only if the letter `y` or `Y` stands in it, whatever counts
/// as white space.
pub proof fn lemma_confirmation_holds_a_yes(line: Seq<char>)
    requires
        confirms(line),
    ensures
        line.contains('y') || line.contains('Y'),
{
    lemma_trimmed_is_stretch(line);
    let (from, to) = choose|from: int, to: int|
        0 <= from <= to <= line.len() && trimmed(line) == #[trigger] line.subrange(from, to);
    assert(seq!['y'].len() == 1 && seq!['Y'].len() == 1);
    assert(line.subrange(from, to)[0] == line[from]);
    assert(seq!['y'][0] == 'y' && seq!['Y'][0] == 'Y');
}

/// The empty line and the line `n` do not confirm.
pub proof fn lemma_refusals_do_not_confirm()
    ensures
        !confirms(Seq::empty()),
        !confirms(seq!['n']),
{
    if confirms(Seq::empty()) {
        lemma_confirmation_holds_a_yes(Seq::empty());
    }
    if confirms(seq!['n']) {
        lemma_confirmation_holds_a_yes(seq!['n']);
        let line = seq!['n'];
        assert(forall|i: int| 0 <= i < line.len() ==> line[i] == 'n');
    }
}

/// Returns the value that a line of input enters: the line without the white
/// space at its end, line ending included.
pub fn entered_value(line: &str) -> (value: String)
    ensures
        value@ == trimmed_end(line@),
{
    let mut end: usize = line.unicode_len();
    assert(line@ =~= line@.subrange(0, end as int));
    while end > 0 && line.get_char(end - 1).is_whitespace()
        invariant
            end <= line@.len(),
            trimmed_end(line@) == trimmed_end(line@.subrange(0, end as int)),
        decreases end,
    {
        assert(line@.subrange(0, end as int).drop_last() =~= line@.subrange(0, end - 1));
        end -= 1;
    }
    line.substring_char(0, end).to_owned()
}

/// Tells whether a line of input confirms.
pub fn is_confirmation(line: &str) -> (yes: bool)
    ensures
        yes == confirms(line@),
{
    let len: usize = line.unicode_len();
    let mut start: usize = 0;
    assert(line@ =~= line@.subrange(0, len as int));
    while start < len && line.get_char(start).is_whitespace()
        invariant
            start <= len == line@.len(),
            trimmed_start(line@) == trimmed_start(line@.subrange(start as int, len as int)),
        decreases len - start,
    {
        assert(line@.subrange(start as int, len as int).drop_first() =~= line@.subrange(
            start + 1,
            len as int,
        ));
        start += 1;
    }
    let ghost rest = line@.subrange(start as int, len as int);
    assert(trimmed_start(line@) == rest);
    let mut end: usize = len;
    while end > start && line.get_char(end - 1).is_whitespace()
        invariant
            start <= end <= len == line@.len(),
            rest == line@.subrange(start as int, len as int),
            trimmed_end(rest) == trimmed_end(line@.subrange(start as int, end as int)),
        decreases end,
    {
        assert(line@.subrange(start as int, end as int).drop_last() =~= line@.subrange(
            start as int,
            end - 1,
        ));
        end -= 1;
    }
    assert(trimmed(line@) == line@.subrange(start as int, end as int));
    if end - start != 1 {
        assert(seq!['y'].len() == 1);
        assert(seq!['Y'].len() == 1);
        return false;
    }
    let letter = line.get_char(start);
    assert(line@.subrange(start as int, end as int) =~= seq![letter]);
    assert(seq!['y'][0] == 'y');
    assert(seq!['Y'][0] == 'Y');
    assert(seq![letter][0] == letter);
    letter == 'y' || letter == 'Y'
}

} // verus!
