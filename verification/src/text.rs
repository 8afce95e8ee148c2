//! Text as sequences of characters: conversions between `str`, `String` and
//! `Vec<char>`, substring search, and the case and whitespace operations the
//! rest of the crate builds on.

use vstd::prelude::*;
use vstd::string::*;

verus! {

broadcast use vstd::string::group_string_axioms;

/// What `str::to_lowercase` makes of a text. Unicode decides it, so the
/// library only names it.
pub uninterp spec fn lowercase(s: Seq<char>) -> Seq<char>;

/// What `str::to_uppercase` makes of a text.
pub uninterp spec fn uppercase(s: Seq<char>) -> Seq<char>;

/// What `str::trim` leaves of a text: the text without its leading and
/// trailing Unicode whitespace.
pub uninterp spec fn trimmed(s: Seq<char>) -> Seq<char>;

/// `str::to_lowercase` returns the lowercase form of the whole text, which
/// depends on the text alone.
pub assume_specification[ str::to_lowercase ](s: &str) -> (r: String)
    ensures
        r@ == lowercase(s@),
;

/// `str::to_uppercase` returns the uppercase form of the whole text, which
/// depends on the text alone.
pub assume_specification[ str::to_uppercase ](s: &str) -> (r: String)
    ensures
        r@ == uppercase(s@),
;

/// `str::trim` returns the slice that is left once leading and trailing
/// whitespace is removed.
pub assume_specification[ str::trim ](s: &str) -> (r: &str)
    ensures
        r@ == trimmed(s@),
;

/// `String::push` appends one character to the end of the string.
pub assume_specification[ String::push ](s: &mut String, c: char)
    ensures
        final(s)@ == old(s)@.push(c),
;

/// The views of a list of strings, in order.
pub open spec fn texts(v: Seq<String>) -> Seq<Seq<char>> {
    Seq::new(v.len(), |i: int| v[i]@)
}

/// Appending a string appends its view.
pub proof fn lemma_texts_push(v: Seq<String>, s: String)
    ensures
        texts(v.push(s)) == texts(v).push(s@),
{
    assert(texts(v.push(s)) =~= texts(v).push(s@));
}

/// Appends a copy of `s` to `v`.
pub fn push_text(v: &mut Vec<String>, s: &str)
    ensures
        texts(final(v)@) == texts(old(v)@).push(s@),
{
    let owned = s.to_owned();
    proof {
        lemma_texts_push(v@, owned);
    }
    v.push(owned);
}

/// Appends `s` to `v`.
pub fn push_string(v: &mut Vec<String>, s: String)
    ensures
        texts(final(v)@) == texts(old(v)@).push(s@),
{
    proof {
        lemma_texts_push(v@, s);
    }
    v.push(s);
}

/// `needle` stands in `hay` at offset `at`.
pub open spec fn occurs_at(hay: Seq<char>, needle: Seq<char>, at: int) -> bool {
    &&& 0 <= at
    &&& at + needle.len() <= hay.len()
    &&& hay.subrange(at, at + needle.len()) == needle
}

/// `needle` stands somewhere in `hay`.
pub open spec fn has_substring(hay: Seq<char>, needle: Seq<char>) -> bool {
    exists|at: int| occurs_at(hay, needle, at)
}

/// Two texts hold the same characters.
pub fn str_eq(a: &str, b: &str) -> (r: bool)
    ensures
        r == (a@ == b@),
{
    let x = a.to_owned();
    let y = b.to_owned();
    x == y
}

/// The characters of a text.
pub fn chars_of(s: &str) -> (v: Vec<char>)
    ensures
        v@ == s@,
{
    let mut v: Vec<char> = Vec::new();
    for c in it: s.chars()
        invariant
            it.seq() == s@,
            v@ == it.seq().take(it.index() as int),
    {
        v.push(c);
    }
    v
}

/// The string made of `v[from..to]`.
pub fn string_of(v: &Vec<char>, from: usize, to: usize) -> (s: String)
    requires
        from <= to <= v.len(),
    ensures
        s@ == v@.subrange(from as int, to as int),
{
    let mut s = String::new();
    let mut i: usize = from;
    while i < to
        invariant
            from <= i <= to <= v.len(),
            s@ == v@.subrange(from as int, i as int),
        decreases to - i,
    {
        s.push(v[i]);
        i = i + 1;
    }
    s
}

/// Appends `tail` to `head`.
pub fn append_text(head: &str, tail: &str) -> (s: String)
    ensures
        s@ == head@ + tail@,
{
    let mut s = head.to_owned();
    s.append(tail);
    s
}

/// Whether `needle` stands in `hay` at offset `at`.
pub fn chars_match_at(hay: &Vec<char>, needle: &Vec<char>, at: usize) -> (r: bool)
    requires
        at + needle.len() <= hay.len(),
    ensures
        r == occurs_at(hay@, needle@, at as int),
{
    let n = needle.len();
    let mut j: usize = 0;
    while j < n
        invariant
            n == needle.len(),
            at + n <= hay.len(),
            j <= n,
            forall|k: int| 0 <= k < j ==> hay@[at + k] == needle@[k],
        decreases n - j,
    {
        if hay[at + j] != needle[j] {
            assert(hay@.subrange(at as int, at + n)[j as int] != needle@[j as int]);
            return false;
        }
        j = j + 1;
    }
    assert(hay@.subrange(at as int, at + n) =~= needle@);
    true
}

/// Whether `needle` stands somewhere in `hay`.
pub fn chars_contain(hay: &Vec<char>, needle: &Vec<char>) -> (r: bool)
    ensures
        r == has_substring(hay@, needle@),
{
    if needle.len() > hay.len() {
        return false;
    }
    if needle.len() == 0 {
        assert(hay@.subrange(0, 0) =~= needle@);
        assert(occurs_at(hay@, needle@, 0));
        return true;
    }
    let last = hay.len() - needle.len();
    let mut at: usize = 0;
    while at <= last
        invariant
            last == hay.len() - needle.len(),
            last < hay.len(),
            at <= last + 1,
            forall|k: int| 0 <= k < at ==> !occurs_at(hay@, needle@, k),
        decreases last + 1 - at,
    {
        if chars_match_at(hay, needle, at) {
            return true;
        }
        at = at + 1;
    }
    false
}

/// Whether `needle` stands somewhere in `hay`.
pub fn contains(hay: &str, needle: &str) -> (r: bool)
    ensures
        r == has_substring(hay@, needle@),
{
    let h = chars_of(hay);
    let n = chars_of(needle);
    chars_contain(&h, &n)
}

/// Whether the characters `hay` hold the text `needle`.
pub fn chars_contain_str(hay: &Vec<char>, needle: &str) -> (r: bool)
    ensures
        r == has_substring(hay@, needle@),
{
    let n = chars_of(needle);
    chars_contain(hay, &n)
}

/// The index of the first `c` in `s`, or the length of `s` where it holds
/// none.
pub open spec fn first_index_of(s: Seq<char>, c: char) -> int
    decreases s.len(),
{
    if s.len() == 0 {
        0
    } else if s[0] == c {
        0
    } else {
        1 + first_index_of(s.drop_first(), c)
    }
}

/// The first line of a text, without its line ending: a line feed, or a
/// carriage return and a line feed. An empty text has no line.
pub open spec fn first_line(s: Seq<char>) -> Option<Seq<char>> {
    if s.len() == 0 {
        None
    } else {
        let end = first_index_of(s, '\n');
        if end < s.len() && end > 0 && s[end - 1] == '\r' {
            Some(s.take(end - 1))
        } else {
            Some(s.take(end))
        }
    }
}

/// The lines of a text. A line ends with a line feed, or a carriage return
/// and a line feed, which are not part of it; the last line need not end.
pub open spec fn lines_of(s: Seq<char>) -> Seq<Seq<char>>
    decreases s.len(),
{
    if s.len() == 0 {
        Seq::empty()
    } else {
        let end = first_index_of(s, '\n');
        if 0 <= end < s.len() {
            seq![first_line(s)->0] + lines_of(s.skip(end + 1))
        } else {
            seq![first_line(s)->0]
        }
    }
}

/// The offset of the first place at which `needle` stands in `hay`.
pub open spec fn first_occurrence(hay: Seq<char>, needle: Seq<char>) -> Option<int> {
    if has_substring(hay, needle) {
        Some(
            choose|at: int|
                occurs_at(hay, needle, at) && forall|k: int|
                    0 <= k < at ==> !occurs_at(hay, needle, k),
        )
    } else {
        None
    }
}

/// The index of the first `c` in `s[from..]`, or the length of `s`.
pub fn find_char_from(s: &Vec<char>, from: usize, c: char) -> (at: usize)
    requires
        from <= s.len(),
    ensures
        at == from + first_index_of(s@.skip(from as int), c),
        from <= at <= s.len(),
{
    let mut i: usize = from;
    let ghost tail = s@.skip(from as int);
    assert(tail.skip(0) =~= tail);
    while i < s.len()
        invariant
            from <= i <= s.len(),
            tail == s@.skip(from as int),
            first_index_of(tail, c) == (i - from) + first_index_of(tail.skip(i - from), c),
        decreases s.len() - i,
    {
        let ghost rest = tail.skip(i - from);
        assert(rest[0] == s@[i as int]);
        assert(rest.drop_first() =~= tail.skip(i - from + 1));
        if s[i] == c {
            return i;
        }
        i = i + 1;
    }
    i
}

/// The index of the first `c` in `s`, or the length of `s`.
pub fn find_char(s: &Vec<char>, c: char) -> (at: usize)
    ensures
        at == first_index_of(s@, c),
        at <= s.len(),
{
    assert(s@.skip(0) =~= s@);
    find_char_from(s, 0, c)
}

/// The lines of a text.
pub fn split_lines(s: &str) -> (lines: Vec<String>)
    ensures
        texts(lines@) == lines_of(s@),
{
    let v = chars_of(s);
    let mut lines: Vec<String> = Vec::new();
    let mut pos: usize = 0;
    assert(v@.skip(0) =~= v@);
    assert(texts(lines@) =~= Seq::<Seq<char>>::empty());
    while pos < v.len()
        invariant
            pos <= v.len(),
            lines_of(v@) == texts(lines@) + lines_of(v@.skip(pos as int)),
        decreases v.len() - pos,
    {
        let ghost rest = v@.skip(pos as int);
        let end = find_char_from(&v, pos, '\n');
        let stop = if end < v.len() && end > pos && v[end - 1] == '\r' {
            end - 1
        } else {
            end
        };
        let line = string_of(&v, pos, stop);
        proof {
            assert(rest.len() > 0);
            assert(end - pos == first_index_of(rest, '\n'));
            if end < v.len() && end > pos {
                assert(rest[end - pos - 1] == v@[end - 1]);
            }
            assert(v@.subrange(pos as int, stop as int) =~= rest.take(stop - pos));
            assert(first_line(rest) == Some(line@));
            lemma_texts_push(lines@, line);
        }
        let ghost before = texts(lines@);
        lines.push(line);
        if end < v.len() {
            proof {
                assert(rest.skip(end - pos + 1) =~= v@.skip(end + 1));
                assert(before + (seq![line@] + lines_of(v@.skip(end + 1))) =~= before.push(line@)
                    + lines_of(v@.skip(end + 1)));
            }
            pos = end + 1;
        } else {
            proof {
                assert(v@.skip(v.len() as int).len() == 0);
                assert(before + seq![line@] =~= before.push(line@) + lines_of(
                    v@.skip(v.len() as int),
                ));
            }
            pos = v.len();
        }
    }
    assert(lines_of(v@.skip(pos as int)) =~= Seq::<Seq<char>>::empty());
    assert(texts(lines@) + Seq::<Seq<char>>::empty() =~= texts(lines@));
    lines
}

/// The offset of the first place at which `needle` stands in `hay`.
pub fn find_substring(hay: &Vec<char>, needle: &Vec<char>) -> (found: Option<usize>)
    ensures
        match found {
            Some(at) => first_occurrence(hay@, needle@) == Some(at as int) && occurs_at(
                hay@,
                needle@,
                at as int,
            ),
            None => first_occurrence(hay@, needle@) is None,
        },
{
    if needle.len() > hay.len() {
        return None;
    }
    let last = hay.len() - needle.len();
    let mut at: usize = 0;
    while at <= last
        invariant
            last == hay.len() - needle.len(),
            at <= last + 1,
            forall|k: int| 0 <= k < at ==> !occurs_at(hay@, needle@, k),
        decreases last + 1 - at,
    {
        if chars_match_at(hay, needle, at) {
            proof {
                let chosen = first_occurrence(hay@, needle@)->0;
                assert(occurs_at(hay@, needle@, at as int) && forall|k: int|
                    0 <= k < at ==> !occurs_at(hay@, needle@, k));
                if chosen < at {
                    assert(!occurs_at(hay@, needle@, chosen));
                }
            }
            return Some(at);
        }
        if at == last {
            return None;
        }
        at = at + 1;
    }
    None
}

/// The first line of a text.
pub fn first_line_of(s: &str) -> (line: Option<String>)
    ensures
        match line {
            Some(l) => first_line(s@) == Some(l@),
            None => first_line(s@) is None,
        },
{
    let v = chars_of(s);
    if v.len() == 0 {
        return None;
    }
    let end = find_char(&v, '\n');
    if end < v.len() && end > 0 && v[end - 1] == '\r' {
        Some(string_of(&v, 0, end - 1))
    } else {
        Some(string_of(&v, 0, end))
    }
}

/// `s` begins with `head`.
pub open spec fn has_prefix(s: Seq<char>, head: Seq<char>) -> bool {
    head.len() <= s.len() && s.take(head.len() as int) == head
}

/// `s` ends with `tail`.
pub open spec fn has_suffix(s: Seq<char>, tail: Seq<char>) -> bool {
    tail.len() <= s.len() && s.skip(s.len() - tail.len()) == tail
}

/// The parts of `s` between the occurrences of `c`: one more part than
/// there are occurrences.
pub open spec fn split_on(s: Seq<char>, c: char) -> Seq<Seq<char>>
    decreases s.len(),
{
    let end = first_index_of(s, c);
    if 0 <= end < s.len() {
        seq![s.take(end)] + split_on(s.skip(end + 1), c)
    } else {
        seq![s]
    }
}

/// Whether `s` ends with `tail`.
pub fn ends_with(s: &Vec<char>, tail: &str) -> (r: bool)
    ensures
        r == has_suffix(s@, tail@),
{
    let t = chars_of(tail);
    if t.len() > s.len() {
        return false;
    }
    let at = s.len() - t.len();
    let r = chars_match_at(s, &t, at);
    assert(s@.subrange(at as int, at + t.len()) =~= s@.skip(s.len() - t.len()));
    r
}

/// Whether `s` begins with `head`.
pub fn starts_with(s: &Vec<char>, head: &str) -> (r: bool)
    ensures
        r == has_prefix(s@, head@),
{
    let h = chars_of(head);
    if h.len() > s.len() {
        return false;
    }
    let r = chars_match_at(s, &h, 0);
    assert(s@.subrange(0, h.len() as int) =~= s@.take(h.len() as int));
    r
}

/// The parts of a text between the occurrences of `c`.
pub fn split(s: &str, c: char) -> (parts: Vec<String>)
    ensures
        texts(parts@) == split_on(s@, c),
{
    let v = chars_of(s);
    let mut parts: Vec<String> = Vec::new();
    let mut pos: usize = 0;
    assert(v@.skip(0) =~= v@);
    assert(texts(parts@) =~= Seq::<Seq<char>>::empty());
    loop
        invariant_except_break
            pos <= v.len(),
            split_on(v@, c) == texts(parts@) + split_on(v@.skip(pos as int), c),
        ensures
            texts(parts@) == split_on(v@, c),
        decreases v.len() - pos,
    {
        let ghost rest = v@.skip(pos as int);
        let ghost before = texts(parts@);
        let end = find_char_from(&v, pos, c);
        let part = string_of(&v, pos, end);
        proof {
            assert(v@.subrange(pos as int, end as int) =~= rest.take(end - pos));
            lemma_texts_push(parts@, part);
        }
        parts.push(part);
        if end < v.len() {
            proof {
                assert(rest.skip(end - pos + 1) =~= v@.skip(end + 1));
                assert(before + (seq![part@] + split_on(v@.skip(end + 1), c)) =~= before.push(part@)
                    + split_on(v@.skip(end + 1), c));
            }
            pos = end + 1;
        } else {
            proof {
                assert(rest.take(rest.len() as int) =~= rest);
                assert(before + seq![rest] =~= before.push(part@));
            }
            break ;
        }
    }
    parts
}

/// A copy of a list of strings.
pub fn clone_strings(v: &Vec<String>) -> (r: Vec<String>)
    ensures
        r@ == v@,
{
    let mut r: Vec<String> = Vec::new();
    let mut i: usize = 0;
    while i < v.len()
        invariant
            i <= v.len(),
            r@ == v@.take(i as int),
        decreases v.len() - i,
    {
        r.push(v[i].clone());
        i = i + 1;
    }
    r
}

/// The items of `parts`, each pair of neighbours parted by `sep`.
pub open spec fn joined(parts: Seq<Seq<char>>, sep: Seq<char>) -> Seq<char>
    decreases parts.len(),
{
    if parts.len() == 0 {
        Seq::empty()
    } else if parts.len() == 1 {
        parts[0]
    } else {
        joined(parts.drop_last(), sep) + sep + parts.last()
    }
}

/// Joins `parts` with `sep` between neighbours.
pub fn join(parts: &Vec<String>, sep: &str) -> (s: String)
    ensures
        s@ == joined(texts(parts@), sep@),
{
    let mut s = String::new();
    let mut i: usize = 0;
    while i < parts.len()
        invariant
            i <= parts.len(),
            s@ == joined(texts(parts@.take(i as int)), sep@),
        decreases parts.len() - i,
    {
        proof {
            let before = texts(parts@.take(i as int));
            let after = texts(parts@.take(i + 1));
            assert(after.drop_last() =~= before);
            assert(after.last() == parts@[i as int]@);
        }
        if i > 0 {
            s.append(sep);
        }
        s.append(parts[i].as_str());
        i = i + 1;
    }
    assert(parts@.take(parts.len() as int) =~= parts@);
    s
}

} // verus!
