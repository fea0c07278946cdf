//! Character-level text predicates used by the classification rules.
use vstd::prelude::*;

verus! {

/// ASCII lower-casing of one character; other characters are unchanged.
pub open spec fn lower_char(c: char) -> char {
    if 'A' <= c && c <= 'Z' {
        ((c as u32) + 32) as char
    } else {
        c
    }
}

/// ASCII lower-casing of a text.
pub open spec fn lower(s: Seq<char>) -> Seq<char> {
    s.map_values(|c: char| lower_char(c))
}

/// `p` occurs in `s` at position `i`.
pub open spec fn occurs_at(s: Seq<char>, p: Seq<char>, i: int) -> bool {
    0 <= i && i + p.len() <= s.len() && s.subrange(i, i + p.len()) == p
}

/// `p` occurs somewhere in `s`.
pub open spec fn has_infix(s: Seq<char>, p: Seq<char>) -> bool {
    exists|i: int| occurs_at(s, p, i)
}

/// `s` begins with `p`.
pub open spec fn has_prefix(s: Seq<char>, p: Seq<char>) -> bool {
    p.len() <= s.len() && s.subrange(0, p.len() as int) == p
}

/// `s` ends with `p`.
pub open spec fn has_suffix(s: Seq<char>, p: Seq<char>) -> bool {
    p.len() <= s.len() && s.subrange(s.len() - p.len(), s.len() as int) == p
}

/// The characters of a text, in order.
pub fn chars_of(s: &str) -> (v: Vec<char>)
    ensures
        v@ == s@,
{
    let mut v: Vec<char> = Vec::new();
    for c in it: s.chars()
        invariant
            v@ == it.seq().take(it.index() as int),
            it.seq() == s@,
    {
        v.push(c);
    }
    v
}

} // verus!
verus! {

/// Whether the ASCII lower-case form of `c` is `d`.
pub fn lower_char_is(c: char, d: char) -> (r: bool)
    ensures
        r == (lower_char(c) == d),
{
    if 'A' <= c && c <= 'Z' {
        let lc = (c as u32) + 32;
        proof {
            assert(('A' as u32) <= (c as u32) <= ('Z' as u32));
            assert(lc as char as u32 == lc);
        }
        lc == (d as u32)
    } else {
        c == d
    }
}

} // verus!
verus! {

/// A character as it takes part in a comparison: folded to ASCII lower case or not.
pub open spec fn form(c: char, fold: bool) -> char {
    if fold {
        lower_char(c)
    } else {
        c
    }
}

/// A text as it takes part in a comparison.
pub open spec fn formed(s: Seq<char>, fold: bool) -> Seq<char> {
    if fold {
        lower(s)
    } else {
        s
    }
}

fn char_matches(c: char, d: char, fold: bool) -> (r: bool)
    ensures
        r == (form(c, fold) == d),
{
    if fold {
        lower_char_is(c, d)
    } else {
        c == d
    }
}

/// Whether `p` occurs in the (possibly folded) text `s` at position `start`.
pub fn matches_at(s: &Vec<char>, start: usize, p: &Vec<char>, fold: bool) -> (r: bool)
    ensures
        r == occurs_at(formed(s@, fold), p@, start as int),
{
    if p.len() > s.len() || start > s.len() - p.len() {
        return false;
    }
    let mut k: usize = 0;
    while k < p.len()
        invariant
            start + p.len() <= s.len(),
            k <= p.len(),
            forall|j: int| 0 <= j < k ==> form(#[trigger] s@[start + j], fold) == p@[j],
        decreases p.len() - k,
    {
        if !char_matches(s[start + k], p[k], fold) {
            assert(formed(s@, fold)[start + k] == form(s@[start + k as int], fold));
            assert(formed(s@, fold).subrange(start as int, start + p.len())[k as int]
                != p@[k as int]);
            return false;
        }
        k = k + 1;
    }
    assert(formed(s@, fold).subrange(start as int, start + p.len()) =~= p@) by {
        assert forall|j: int| 0 <= j < p.len() implies formed(s@, fold).subrange(
            start as int,
            start + p.len(),
        )[j] == p@[j] by {
            assert(form(s@[start + j], fold) == p@[j]);
        }
    }
    true
}

/// Whether `p` occurs anywhere in the (possibly folded) text `s`.
pub fn contains_at_any(s: &Vec<char>, p: &Vec<char>, fold: bool) -> (r: bool)
    ensures
        r == has_infix(formed(s@, fold), p@),
{
    if p.len() > s.len() {
        assert forall|i: int| !occurs_at(formed(s@, fold), p@, i) by {}
        return false;
    }
    let last = s.len() - p.len();
    let mut i: usize = 0;
    loop
        invariant
            last + p.len() == s.len(),
            i <= last,
            forall|j: int| 0 <= j < i ==> !occurs_at(formed(s@, fold), p@, j),
        decreases last - i,
    {
        if matches_at(s, i, p, fold) {
            return true;
        }
        if i == last {
            assert forall|j: int| !occurs_at(formed(s@, fold), p@, j) by {
                if 0 <= j <= last && j != i {
                    assert(j < i);
                }
            }
            return false;
        }
        i = i + 1;
    }
}

/// Whether the (possibly folded) text `s` begins with `p`.
pub fn begins_with(s: &Vec<char>, p: &Vec<char>, fold: bool) -> (r: bool)
    ensures
        r == has_prefix(formed(s@, fold), p@),
{
    matches_at(s, 0, p, fold)
}

/// Whether the (possibly folded) text `s` ends with `p`.
pub fn ends_with(s: &Vec<char>, p: &Vec<char>, fold: bool) -> (r: bool)
    ensures
        r == has_suffix(formed(s@, fold), p@),
{
    if p.len() > s.len() {
        return false;
    }
    matches_at(s, s.len() - p.len(), p, fold)
}

/// Whether the (possibly folded) text `s` is exactly `p`.
pub fn equals(s: &Vec<char>, p: &Vec<char>, fold: bool) -> (r: bool)
    ensures
        r == (formed(s@, fold) == p@),
{
    if s.len() != p.len() {
        return false;
    }
    let r = matches_at(s, 0, p, fold);
    assert(formed(s@, fold).subrange(0, p.len() as int) =~= formed(s@, fold));
    r
}

/// Whether two texts are the same.
pub fn same_text(a: &str, b: &str) -> (r: bool)
    ensures
        r == (a@ == b@),
{
    let x = chars_of(a);
    let y = chars_of(b);
    equals(&x, &y, false)
}

} // verus!

verus! {

/// The index of the first line feed at or after `from`, or the length.
pub open spec fn next_line_feed(s: Seq<char>, from: int) -> int
    decreases s.len() - from,
{
    if from >= s.len() {
        s.len() as int
    } else if s[from] == '\n' {
        from
    } else {
        next_line_feed(s, from + 1)
    }
}

/// The lines of `s` from position `from` on, as the standard library's
/// `str::lines` gives them: split at each line feed, a carriage return just
/// before a line feed dropped, and no line after a final line feed.
pub open spec fn lines_from(s: Seq<char>, from: int) -> Seq<Seq<char>>
    decreases s.len() - from,
{
    if from < 0 || from >= s.len() {
        Seq::empty()
    } else {
        let e = next_line_feed(s, from);
        proof {
            lemma_next_line_feed(s, from);
        }
        let piece = s.subrange(from, e);
        let line = if e < s.len() && piece.len() > 0 && piece.last() == '\r' {
            piece.drop_last()
        } else {
            piece
        };
        if e < s.len() {
            seq![line] + lines_from(s, e + 1)
        } else {
            seq![line]
        }
    }
}

/// The next line feed from `from` is at or after it, and no line feed comes between.
pub proof fn lemma_next_line_feed(s: Seq<char>, from: int)
    requires
        0 <= from <= s.len(),
    ensures
        from <= next_line_feed(s, from) <= s.len(),
        next_line_feed(s, from) < s.len() ==> s[next_line_feed(s, from)] == '\n',
        forall|k: int| from <= k < next_line_feed(s, from) ==> s[k] != '\n',
    decreases s.len() - from,
{
    if from < s.len() && s[from] != '\n' {
        lemma_next_line_feed(s, from + 1);
    }
}

/// Calls `String::push`, which appends one character.
#[verifier::external_body]
fn push_char(s: &mut String, c: char)
    ensures
        final(s)@ == old(s)@.push(c),
{
    s.push(c);
}

/// The text of `v[from..to]`.
fn text_between(v: &Vec<char>, from: usize, to: usize) -> (r: String)
    requires
        from <= to <= v.len(),
    ensures
        r@ == v@.subrange(from as int, to as int),
{
    let mut r = String::new();
    let mut k = from;
    while k < to
        invariant
            from <= k <= to <= v.len(),
            r@ == v@.subrange(from as int, k as int),
        decreases to - k,
    {
        push_char(&mut r, v[k]);
        k = k + 1;
        assert(r@ =~= v@.subrange(from as int, k as int));
    }
    r
}

/// The lines of a text, as `str::lines` gives them.
pub fn split_lines(text: &str) -> (r: Vec<String>)
    ensures
        r@.len() == lines_from(text@, 0).len(),
        forall|i: int| 0 <= i < r@.len() ==> (#[trigger] r@[i])@ == lines_from(text@, 0)[i],
{
    let v = chars_of(text);
    let ghost s = v@;
    let mut out: Vec<String> = Vec::new();
    let mut pos: usize = 0;
    let ghost mut done: Seq<Seq<char>> = Seq::empty();
    while pos < v.len()
        invariant
            s == v@,
            s == text@,
            pos <= v.len(),
            lines_from(s, 0) == done + lines_from(s, pos as int),
            out@.len() == done.len(),
            forall|i: int| 0 <= i < out@.len() ==> (#[trigger] out@[i])@ == done[i],
        decreases v.len() - pos,
    {
        let mut e = pos;
        while e < v.len() && v[e] != '\n'
            invariant
                pos <= e <= v.len(),
                s == v@,
                next_line_feed(s, pos as int) == next_line_feed(s, e as int),
            decreases v.len() - e,
        {
            e = e + 1;
        }
        proof {
            lemma_next_line_feed(s, pos as int);
        }
        let end = if e < v.len() && e > pos && v[e - 1] == '\r' {
            e - 1
        } else {
            e
        };
        let line = text_between(&v, pos, end);
        proof {
            let piece = s.subrange(pos as int, e as int);
            if e < v.len() && e > pos && v@[e - 1] == '\r' {
                assert(piece.drop_last() =~= s.subrange(pos as int, end as int));
            } else {
                assert(piece =~= s.subrange(pos as int, end as int));
            }
            if e < v.len() {
                assert(lines_from(s, pos as int) == seq![line@] + lines_from(s, e + 1));
                assert(done + lines_from(s, pos as int) =~= done.push(line@) + lines_from(
                    s,
                    e + 1,
                ));
            } else {
                assert(lines_from(s, pos as int) == seq![line@]);
                assert(done + lines_from(s, pos as int) =~= done.push(line@));
            }
            done = done.push(line@);
        }
        out.push(line);
        if e < v.len() {
            pos = e + 1;
        } else {
            pos = e;
            assert(lines_from(s, pos as int) =~= Seq::<Seq<char>>::empty());
        }
    }
    assert(lines_from(s, pos as int) =~= Seq::<Seq<char>>::empty());
    assert(done + Seq::<Seq<char>>::empty() =~= done);
    out
}

} // verus!
