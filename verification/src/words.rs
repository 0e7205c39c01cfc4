//! Words, lines and letter case on character sequences.

use vstd::prelude::*;
use crate::text::{is_space, is_space_char, slice_of, trim, trimmed};

verus! {

/// The maximal runs of characters that are not white space, in order.
///
/// Read from left to right: a white-space character ends the current word,
/// any other character extends the current word or begins a new one.
pub open spec fn words(s: Seq<char>) -> Seq<Seq<char>>
    decreases s.len(),
{
    if s.len() == 0 {
        Seq::empty()
    } else {
        let before = words(s.drop_last());
        if is_space(s.last()) {
            before
        } else if s.len() >= 2 && !is_space(s[s.len() - 2]) && before.len() > 0 {
            before.drop_last().push(before.last().push(s.last()))
        } else {
            before.push(seq![s.last()])
        }
    }
}

/// The views of the words collected so far.
pub open spec fn word_views(done: Seq<Vec<char>>) -> Seq<Seq<char>> {
    done.map_values(|w: Vec<char>| w@)
}

/// Splits `v` at white space into its words.
pub fn split_whitespace(v: &Vec<char>) -> (out: Vec<Vec<char>>)
    ensures
        word_views(out@) == words(v@),
{
    let mut done: Vec<Vec<char>> = Vec::new();
    let mut current: Vec<char> = Vec::new();
    let mut in_word: bool = false;
    let mut i: usize = 0;
    assert(v@.take(0) =~= Seq::<char>::empty());
    assert(word_views(done@) =~= Seq::<Seq<char>>::empty());
    while i < v.len()
        invariant
            i <= v.len(),
            in_word ==> i > 0 && !is_space(v@[i - 1]) && words(v@.take(i as int)) == word_views(
                done@,
            ).push(current@),
            !in_word ==> (i > 0 ==> is_space(v@[i - 1])) && words(v@.take(i as int))
                == word_views(done@),
        decreases v.len() - i,
    {
        let c: char = v[i];
        let ghost prefix = v@.take(i + 1);
        let ghost earlier = words(v@.take(i as int));
        proof {
            assert(prefix.drop_last() =~= v@.take(i as int));
            assert(prefix.last() == c);
            if i > 0 {
                assert(prefix[prefix.len() - 2] == v@[i - 1]);
            }
        }
        if is_space_char(c) {
            if in_word {
                let ghost views = word_views(done@);
                done.push(current);
                current = Vec::new();
                in_word = false;
                assert(word_views(done@) =~= views.push(done@.last()@));
            }
        } else {
            if in_word {
                let ghost old_current = current@;
                current.push(c);
                assert(earlier.drop_last() =~= word_views(done@));
                assert(earlier.last() == old_current);
            } else {
                current = Vec::new();
                current.push(c);
                in_word = true;
                assert(current@ =~= seq![c]);
            }
        }
        i += 1;
    }
    assert(v@.take(v.len() as int) =~= v@);
    if in_word {
        let ghost views = word_views(done@);
        done.push(current);
        assert(word_views(done@) =~= views.push(done@.last()@));
    }
    done
}

/// How many words `v` holds.
pub fn count_words(v: &Vec<char>) -> (n: usize)
    ensures
        n == words(v@).len(),
{
    let parts = split_whitespace(v);
    parts.len()
}

// ---------------------------------------------------------------------------
// Lines
// ---------------------------------------------------------------------------

/// How many characters stand before the first line feed of `s`.
pub open spec fn line_len(s: Seq<char>) -> nat
    decreases s.len(),
{
    if s.len() > 0 && s[0] != '\n' {
        1 + line_len(s.drop_first())
    } else {
        0
    }
}

/// The first line is no longer than the text.
pub proof fn lemma_line_len_bound(s: Seq<char>)
    ensures
        line_len(s) <= s.len(),
    decreases s.len(),
{
    if s.len() > 0 && s[0] != '\n' {
        lemma_line_len_bound(s.drop_first());
    }
}

/// The first line of `s` that is not blank, trimmed; lines end at line feeds.
pub open spec fn first_nonblank_line(s: Seq<char>) -> Option<Seq<char>>
    decreases s.len(),
{
    if s.len() == 0 {
        None
    } else {
        let n = line_len(s);
        let line = trimmed(s.take(n as int));
        if line.len() > 0 {
            Some(line)
        } else if n < s.len() {
            first_nonblank_line(s.skip(n as int + 1))
        } else {
            None
        }
    }
}

/// The first line of `v` that is not blank, trimmed.
pub fn find_nonblank_line(v: &Vec<char>) -> (r: Option<Vec<char>>)
    ensures
        r is Some == first_nonblank_line(v@) is Some,
        r is Some ==> r->0@ == first_nonblank_line(v@)->0,
{
    let mut start: usize = 0;
    assert(v@.skip(0) =~= v@);
    while start < v.len()
        invariant
            start <= v.len(),
            first_nonblank_line(v@) == first_nonblank_line(v@.skip(start as int)),
        decreases v.len() - start,
    {
        let ghost rest = v@.skip(start as int);
        let mut end: usize = start;
        assert(rest.skip(0) =~= rest);
        while end < v.len() && v[end] != '\n'
            invariant
                start <= end <= v.len(),
                rest == v@.skip(start as int),
                line_len(rest) == (end - start) + line_len(rest.skip(end - start)),
            decreases v.len() - end,
        {
            assert(rest.skip(end - start).drop_first() =~= rest.skip(end - start + 1));
            end += 1;
        }
        assert(line_len(rest) == end - start);
        let raw = slice_of(v, start, end);
        assert(raw@ =~= rest.take((end - start) as int));
        let line = trim(&raw);
        if line.len() > 0 {
            return Some(line);
        }
        if end == v.len() {
            return None;
        }
        assert(rest.skip(end - start + 1) =~= v@.skip(end + 1));
        start = end + 1;
    }
    assert(v@.skip(v.len() as int) =~= Seq::<char>::empty());
    None
}

// ---------------------------------------------------------------------------
// Letter case and line breaks
// ---------------------------------------------------------------------------

/// The lower-case form of an ASCII capital letter; any other character itself.
pub open spec fn ascii_lower(c: char) -> char {
    if 0x41 <= c as u32 <= 0x5A {
        ((c as u32 + 32) as u8) as char
    } else {
        c
    }
}

/// `s` with each ASCII capital letter in its lower-case form.
pub open spec fn lowered_ascii(s: Seq<char>) -> Seq<char> {
    s.map_values(|c: char| ascii_lower(c))
}

/// Lowers an ASCII capital letter.
pub fn lower_char(c: char) -> (r: char)
    ensures
        r == ascii_lower(c),
{
    let n: u32 = c as u32;
    if 0x41 <= n && n <= 0x5A {
        ((n + 32) as u8) as char
    } else {
        c
    }
}

/// Lowers the ASCII capital letters of `v`.
pub fn to_ascii_lowercase(v: &Vec<char>) -> (out: Vec<char>)
    ensures
        out@ == lowered_ascii(v@),
{
    let mut out: Vec<char> = Vec::new();
    let mut i: usize = 0;
    while i < v.len()
        invariant
            i <= v.len(),
            out@ == lowered_ascii(v@.take(i as int)),
        decreases v.len() - i,
    {
        out.push(lower_char(v[i]));
        i += 1;
        assert(out@ =~= lowered_ascii(v@.take(i as int)));
    }
    assert(v@.take(v.len() as int) =~= v@);
    out
}

/// A space for a carriage return or a line feed; any other character itself.
pub open spec fn unbroken(c: char) -> char {
    if c == '\r' || c == '\n' {
        ' '
    } else {
        c
    }
}

/// `s` with every carriage return and line feed turned into a space.
pub open spec fn single_line(s: Seq<char>) -> Seq<char> {
    s.map_values(|c: char| unbroken(c))
}

/// Turns every carriage return and line feed of `v` into a space.
pub fn to_single_line(v: &Vec<char>) -> (out: Vec<char>)
    ensures
        out@ == single_line(v@),
{
    let mut out: Vec<char> = Vec::new();
    let mut i: usize = 0;
    while i < v.len()
        invariant
            i <= v.len(),
            out@ == single_line(v@.take(i as int)),
        decreases v.len() - i,
    {
        let c: char = v[i];
        if c == '\r' || c == '\n' {
            out.push(' ');
        } else {
            out.push(c);
        }
        i += 1;
        assert(out@ =~= single_line(v@.take(i as int)));
    }
    assert(v@.take(v.len() as int) =~= v@);
    out
}

} // verus!
