//! Characters and runs of characters: the vocabulary shared by the lexers.

use vstd::prelude::*;

verus! {

/// The four characters that separate words: space, tab, carriage return and
/// line feed.
pub open spec fn is_space(c: char) -> bool {
    c == ' ' || c == '\t' || c == '\r' || c == '\n'
}

/// An ASCII decimal digit.
pub open spec fn is_digit(c: char) -> bool {
    '0' <= c <= '9'
}

/// A leading `+` or `-`.
pub open spec fn is_sign(c: char) -> bool {
    c == '+' || c == '-'
}

/// A character that ends a line.
pub open spec fn is_line_break(c: char) -> bool {
    c == '\r' || c == '\n'
}

/// The ASCII lower-case form of `c`; every other character is left alone.
pub open spec fn lower(c: char) -> char {
    if 'A' <= c <= 'Z' {
        ((c as u8) + 32) as char
    } else {
        c
    }
}

/// `word` with every character in ASCII lower case.
pub open spec fn lower_seq(word: Seq<char>) -> Seq<char> {
    word.map_values(|c: char| lower(c))
}

/// The kinds of run that the lexers scan over.
#[derive(Clone, Copy, Debug, PartialEq, Eq)]
pub enum Run {
    /// Decimal digits.
    Digits,
    /// Separators (see [`is_space`]).
    Spaces,
    /// Anything but a separator.
    Word,
    /// Anything but a line break.
    Line,
}

/// Whether `c` may continue a run of the given kind.
pub open spec fn in_run(run: Run, c: char) -> bool {
    match run {
        Run::Digits => is_digit(c),
        Run::Spaces => is_space(c),
        Run::Word => !is_space(c),
        Run::Line => !is_line_break(c),
    }
}

/// Where the longest run of the given kind that starts at `from` ends: the
/// first index at or after `from` that holds a character outside the run, or
/// the length of `text`.
pub open spec fn run_end(text: Seq<char>, from: int, run: Run) -> int
    decreases text.len() - from,
{
    if 0 <= from < text.len() && in_run(run, text[from]) {
        run_end(text, from + 1, run)
    } else {
        from
    }
}

/// `run_end` stays inside the text, and everything before it is in the run.
pub proof fn lemma_run_end(text: Seq<char>, from: int, run: Run)
    requires
        0 <= from <= text.len(),
    ensures
        from <= run_end(text, from, run) <= text.len(),
        forall|i: int| from <= i < run_end(text, from, run) ==> in_run(run, #[trigger] text[i]),
        run_end(text, from, run) < text.len() ==> !in_run(
            run,
            text[run_end(text, from, run)],
        ),
        from < text.len() && in_run(run, text[from]) ==> from < run_end(text, from, run),
    decreases text.len() - from,
{
    if from < text.len() && in_run(run, text[from]) {
        lemma_run_end(text, from + 1, run);
    }
}

/// Whether `c` separates words.
pub fn is_space_char(c: char) -> (b: bool)
    ensures
        b == is_space(c),
{
    c == ' ' || c == '\t' || c == '\r' || c == '\n'
}

/// Whether `c` is a decimal digit.
pub fn is_digit_char(c: char) -> (b: bool)
    ensures
        b == is_digit(c),
{
    '0' <= c && c <= '9'
}

/// Whether `c` is `+` or `-`.
pub fn is_sign_char(c: char) -> (b: bool)
    ensures
        b == is_sign(c),
{
    c == '+' || c == '-'
}

/// `c` in ASCII lower case.
pub fn lower_char(c: char) -> (out: char)
    ensures
        out == lower(c),
{
    if 'A' <= c && c <= 'Z' {
        ((c as u8) + 32) as char
    } else {
        c
    }
}

/// Whether `c` may continue a run of the given kind.
fn continues(run: Run, c: char) -> (b: bool)
    ensures
        b == in_run(run, c),
{
    match run {
        Run::Digits => is_digit_char(c),
        Run::Spaces => is_space_char(c),
        Run::Word => !is_space_char(c),
        Run::Line => !(c == '\r' || c == '\n'),
    }
}

/// Scans the longest run of the given kind that starts at `from`.
pub fn scan(text: &[char], from: usize, run: Run) -> (end: usize)
    requires
        from <= text@.len(),
    ensures
        end == run_end(text@, from as int, run),
        from <= end <= text@.len(),
        from < text@.len() && in_run(run, text@[from as int]) ==> from < end,
{
    let mut end: usize = from;
    proof {
        lemma_run_end(text@, from as int, run);
    }
    while end < text.len() && continues(run, text[end])
        invariant
            from <= end <= text@.len(),
            run_end(text@, end as int, run) == run_end(text@, from as int, run),
        decreases text@.len() - end,
    {
        end += 1;
    }
    end
}

/// The characters of `text`, in order.
pub fn chars_of(text: &str) -> (out: Vec<char>)
    ensures
        out@ == text@,
{
    let mut out: Vec<char> = Vec::new();
    let it = text.chars();
    for c in iter: it
        invariant
            out@ == iter.seq().take(iter.index@),
    {
        out.push(c);
    }
    out
}

/// `String::push` appends the character to the string and changes nothing
/// else of it.
pub assume_specification[ std::string::String::push ](text: &mut std::string::String, ch: char)
    ensures
        final(text)@ == old(text)@.push(ch),
;

/// The characters `text[from..to]` as a `String`.
pub fn collect_string(text: &[char], from: usize, to: usize) -> (out: String)
    requires
        from <= to <= text@.len(),
    ensures
        out@ == text@.subrange(from as int, to as int),
{
    let mut out = String::new();
    let mut i: usize = from;
    while i < to
        invariant
            from <= i <= to <= text@.len(),
            out@ =~= text@.subrange(from as int, i as int),
        decreases to - i,
    {
        out.push(text[i]);
        i += 1;
    }
    out
}

/// Whether `text[from..to]` spells `word` when letter case is ignored.
/// `word` itself must be written in lower case.
pub fn spells(text: &[char], from: usize, to: usize, word: &str) -> (b: bool)
    requires
        from <= to <= text@.len(),
    ensures
        b == (lower_seq(text@.subrange(from as int, to as int)) == word@),
{
    let n = word.unicode_len();
    if to - from != n {
        return false;
    }
    let ghost part = text@.subrange(from as int, to as int);
    let mut i: usize = 0;
    while i < n
        invariant
            from <= to <= text@.len(),
            n == to - from,
            n == word@.len(),
            i <= n,
            part == text@.subrange(from as int, to as int),
            forall|k: int| 0 <= k < i ==> lower(#[trigger] part[k]) == word@[k],
        decreases n - i,
    {
        if lower_char(text[from + i]) != word.get_char(i) {
            assert(lower_seq(part)[i as int] != word@[i as int]);
            return false;
        }
        i += 1;
    }
    assert(lower_seq(part) =~= word@);
    true
}

} // verus!
