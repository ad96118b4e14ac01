//! Reading and building text, character by character.
//!
//! Each function works on the sequence of Unicode scalar values that a `&str` holds, and says in
//! its contract what it returns in terms of that sequence.
use vstd::prelude::*;
use vstd::string::*;
use vstd::utf8::*;

verus! {

/// Whether `c` has the Unicode property White_Space.
pub open spec fn is_space(c: char) -> bool {
    let n = c as u32;
    ||| 0x9 <= n <= 0xd
    ||| n == 0x20
    ||| n == 0x85
    ||| n == 0xa0
    ||| n == 0x1680
    ||| 0x2000 <= n <= 0x200a
    ||| n == 0x2028
    ||| n == 0x2029
    ||| n == 0x202f
    ||| n == 0x205f
    ||| n == 0x3000
}

/// `s` without the white space that it starts with.
pub open spec fn without_leading_space(s: Seq<char>) -> Seq<char>
    decreases s.len(),
{
    if s.len() > 0 && is_space(s[0]) {
        without_leading_space(s.drop_first())
    } else {
        s
    }
}

/// `s` without the white space that it ends with.
pub open spec fn without_trailing_space(s: Seq<char>) -> Seq<char>
    decreases s.len(),
{
    if s.len() > 0 && is_space(s.last()) {
        without_trailing_space(s.drop_last())
    } else {
        s
    }
}

/// `s` without white space at either end.
pub open spec fn trimmed(s: Seq<char>) -> Seq<char> {
    without_trailing_space(without_leading_space(s))
}

/// `s` without the slashes that it ends with.
pub open spec fn without_trailing_slashes(s: Seq<char>) -> Seq<char>
    decreases s.len(),
{
    if s.len() > 0 && s.last() == '/' {
        without_trailing_slashes(s.drop_last())
    } else {
        s
    }
}

/// The position of the first `c` in `s`, or the length of `s` where there is none.
pub open spec fn position(s: Seq<char>, c: char) -> int
    decreases s.len(),
{
    if s.len() == 0 || s[0] == c {
        0
    } else {
        1 + position(s.drop_first(), c)
    }
}

/// What stands before the first `c` in `s`: all of `s` where there is none.
pub open spec fn before_first(s: Seq<char>, c: char) -> Seq<char> {
    s.take(position(s, c))
}

/// What stands behind the first `c` in `s`.
pub open spec fn after_first(s: Seq<char>, c: char) -> Seq<char>
    recommends
        s.contains(c),
{
    s.skip(position(s, c) + 1)
}

/// The pieces of `s` between the separators `sep`; there is always at least one.
pub open spec fn pieces(s: Seq<char>, sep: char) -> Seq<Seq<char>>
    decreases s.len(),
    via pieces_decreases
{
    if s.contains(sep) {
        seq![before_first(s, sep)] + pieces(after_first(s, sep), sep)
    } else {
        seq![s]
    }
}

#[via_fn]
proof fn pieces_decreases(s: Seq<char>, sep: char) {
    lemma_position(s, sep);
}

/// The characters of each text in a sequence of texts.
pub open spec fn views(texts: Seq<&str>) -> Seq<Seq<char>> {
    texts.map_values(|t: &str| t@)
}

/// The characters of each text in a sequence of texts.
pub open spec fn string_views(texts: Seq<String>) -> Seq<Seq<char>> {
    texts.map_values(|t: String| t@)
}

/// The characters of a text that may be missing.
pub open spec fn optional(text: Option<String>) -> Option<Seq<char>> {
    match text {
        Some(t) => Some(t@),
        None => None,
    }
}

/// The lower-case form of an ASCII letter; every other character stays as it is.
pub open spec fn ascii_lower(c: char) -> char {
    if 'A' <= c <= 'Z' {
        (c as u8 + 32) as u8 as char
    } else {
        c
    }
}

/// `s` with its ASCII letters in lower case.
pub open spec fn lowercase(s: Seq<char>) -> Seq<char> {
    s.map_values(|c: char| ascii_lower(c))
}

/// Whether `s` starts with `prefix`.
pub open spec fn has_prefix(s: Seq<char>, prefix: Seq<char>) -> bool {
    prefix.len() <= s.len() && s.take(prefix.len() as int) == prefix
}

/// Whether `://` stands somewhere in `s`.
pub open spec fn has_scheme_separator(s: Seq<char>) -> bool {
    exists|i: int| separator_at(s, i)
}

/// Whether `://` stands at position `i` of `s`.
pub open spec fn separator_at(s: Seq<char>, i: int) -> bool {
    0 <= i && i + 3 <= s.len() && s[i] == ':' && s[i + 1] == '/' && s[i + 2] == '/'
}

/// What stands behind the last `://` in `s`: all of `s` where there is none.
pub open spec fn after_last_separator(s: Seq<char>) -> Seq<char>
    decreases s.len(),
{
    if !has_scheme_separator(s) || s.len() == 0 {
        s
    } else if has_scheme_separator(s.drop_first()) {
        after_last_separator(s.drop_first())
    } else {
        s.skip(3)
    }
}

/// The decimal digit for `d`.
pub open spec fn digit(d: nat) -> char
    recommends
        d < 10,
{
    (48 + d) as u8 as char
}

/// `n` in decimal digits, without leading zeros.
pub open spec fn decimal(n: nat) -> Seq<char>
    decreases n,
{
    if n < 10 {
        seq![digit(n)]
    } else {
        decimal(n / 10).push(digit(n % 10))
    }
}

/// The position of a character is where it first occurs.
pub proof fn lemma_position(s: Seq<char>, c: char)
    ensures
        0 <= position(s, c) <= s.len(),
        forall|j: int| 0 <= j < position(s, c) ==> s[j] != c,
        position(s, c) < s.len() ==> s[position(s, c)] == c,
        s.contains(c) <==> position(s, c) < s.len(),
    decreases s.len(),
{
    if s.len() > 0 && s[0] != c {
        let rest = s.drop_first();
        lemma_position(rest, c);
        assert forall|j: int| 0 <= j < position(s, c) implies s[j] != c by {
            if j > 0 {
                assert(s[j] == rest[j - 1]);
            }
        }
    }
}

/// The first occurrence of a character is its position.
pub proof fn lemma_position_is(s: Seq<char>, c: char, i: int)
    requires
        0 <= i <= s.len(),
        forall|j: int| 0 <= j < i ==> s[j] != c,
        i < s.len() ==> s[i] == c,
    ensures
        position(s, c) == i,
{
    lemma_position(s, c);
}

/// A text that starts and ends with something else than white space is trimmed as it is.
pub proof fn lemma_trimmed(s: Seq<char>)
    requires
        s.len() > 0 ==> !is_space(s[0]) && !is_space(s.last()),
    ensures
        trimmed(s) == s,
{
}

proof fn lemma_leading_len(s: Seq<char>)
    ensures
        without_leading_space(s).len() <= s.len(),
    decreases s.len(),
{
    if s.len() > 0 && is_space(s[0]) {
        lemma_leading_len(s.drop_first());
    }
}

proof fn lemma_trailing_len(s: Seq<char>)
    ensures
        without_trailing_space(s).len() <= s.len(),
    decreases s.len(),
{
    if s.len() > 0 && is_space(s.last()) {
        lemma_trailing_len(s.drop_last());
    }
}

/// A text that is trimmed as it is starts and ends with something else than white space.
pub proof fn lemma_trimmed_ends(s: Seq<char>)
    requires
        trimmed(s) == s,
        s.len() > 0,
    ensures
        !is_space(s[0]),
        !is_space(s.last()),
{
    lemma_trailing_len(without_leading_space(s));
    lemma_leading_len(s.drop_first());
    lemma_trailing_len(s.drop_last());
}

/// Whether a text holds nothing but white space.
pub open spec fn blank(s: Seq<char>) -> bool {
    forall|i: int| 0 <= i < s.len() ==> is_space(#[trigger] s[i])
}

/// What a text starts with is trimmed alike whatever stands behind something that is not white
/// space.
proof fn lemma_leading_sum(a: Seq<char>, b: Seq<char>)
    requires
        b.len() > 0,
        !is_space(b[0]),
    ensures
        without_leading_space(a + b) == without_leading_space(a) + b,
    decreases a.len(),
{
    if a.len() == 0 {
        assert(a + b =~= b);
        assert(without_leading_space(a) + b =~= b);
    } else if is_space(a[0]) {
        assert((a + b).drop_first() =~= a.drop_first() + b);
        lemma_leading_sum(a.drop_first(), b);
    }
}

/// What a text ends with is trimmed alike whatever stands in front of something that is not white
/// space.
proof fn lemma_trailing_sum(a: Seq<char>, b: Seq<char>)
    requires
        a.len() > 0,
        !is_space(a.last()),
    ensures
        without_trailing_space(a + b) == a + without_trailing_space(b),
    decreases b.len(),
{
    if b.len() == 0 {
        assert(a + b =~= a);
        assert(a + without_trailing_space(b) =~= a);
    } else if is_space(b.last()) {
        assert((a + b).drop_last() =~= a + b.drop_last());
        lemma_trailing_sum(a, b.drop_last());
    }
}

/// A text without the white space that it starts with starts with none.
proof fn lemma_leading_twice(s: Seq<char>)
    ensures
        without_leading_space(without_leading_space(s)) == without_leading_space(s),
    decreases s.len(),
{
    if s.len() > 0 && is_space(s[0]) {
        lemma_leading_twice(s.drop_first());
    }
}

/// White space behind a text makes no difference once the text is trimmed.
proof fn lemma_trimmed_push(s: Seq<char>, c: char)
    requires
        is_space(c),
    ensures
        trimmed(s.push(c)) == trimmed(s),
    decreases s.len(),
{
    if s.len() == 0 {
        assert(s.push(c).drop_first() =~= s);
    } else if is_space(s[0]) {
        assert(s.push(c).drop_first() =~= s.drop_first().push(c));
        lemma_trimmed_push(s.drop_first(), c);
    } else {
        assert(s.push(c).drop_last() =~= s);
    }
}

/// A text is trimmed alike with and without the white space that it ends with.
proof fn lemma_trimmed_trailing(s: Seq<char>)
    ensures
        trimmed(without_trailing_space(s)) == trimmed(s),
    decreases s.len(),
{
    if s.len() > 0 && is_space(s.last()) {
        lemma_trimmed_trailing(s.drop_last());
        lemma_trimmed_push(s.drop_last(), s.last());
        assert(s.drop_last().push(s.last()) =~= s);
    }
}

/// White space around a text makes no difference once the text is trimmed.
pub proof fn lemma_trimmed_padding(front: Seq<char>, s: Seq<char>, back: Seq<char>)
    requires
        blank(front),
        blank(back),
    ensures
        trimmed(front + s + back) == trimmed(s),
    decreases front.len() + back.len(),
{
    let whole = front + s + back;
    if front.len() > 0 {
        let rest = front.drop_first();
        assert(is_space(front[0]));
        assert forall|i: int| 0 <= i < rest.len() implies is_space(#[trigger] rest[i]) by {
            assert(rest[i] == front[i + 1]);
        }
        assert(whole.drop_first() =~= rest + s + back);
        lemma_trimmed_padding(rest, s, back);
    } else if back.len() > 0 {
        let rest = back.drop_last();
        assert(is_space(back[back.len() - 1]));
        assert forall|i: int| 0 <= i < rest.len() implies is_space(#[trigger] rest[i]) by {
            assert(rest[i] == back[i]);
        }
        lemma_trimmed_padding(front, s, rest);
        lemma_trimmed_push(front + s + rest, back.last());
        assert((front + s + rest).push(back.last()) =~= whole);
    } else {
        assert(whole =~= s);
    }
}

proof fn lemma_leading_without(s: Seq<char>, c: char)
    requires
        !s.contains(c),
    ensures
        !without_leading_space(s).contains(c),
    decreases s.len(),
{
    if s.len() > 0 && is_space(s[0]) {
        let rest = s.drop_first();
        assert(!rest.contains(c)) by {
            if rest.contains(c) {
                let i = rest.index_of(c);
                assert(s[i + 1] == c);
            }
        }
        lemma_leading_without(rest, c);
    }
}

/// A trimmed text with a separator that is no white space has the trimmed texts on either side of
/// it, as far as they are trimmed in turn.
pub proof fn lemma_trimmed_sides(a: Seq<char>, sep: char, b: Seq<char>)
    requires
        !a.contains(sep),
        !is_space(sep),
    ensures
        trimmed(a + seq![sep] + b).contains(sep),
        trimmed(before_first(trimmed(a + seq![sep] + b), sep)) == trimmed(a),
        trimmed(after_first(trimmed(a + seq![sep] + b), sep)) == trimmed(b),
{
    let whole = a + seq![sep] + b;
    let front = without_leading_space(a);
    let back = without_trailing_space(b);
    assert(whole =~= a + (seq![sep] + b));
    lemma_leading_sum(a, seq![sep] + b);
    assert(without_leading_space(whole) =~= (front + seq![sep]) + b);
    lemma_trailing_sum(front + seq![sep], b);
    let short = trimmed(whole);
    assert(short =~= front + seq![sep] + back);
    lemma_leading_without(a, sep);
    assert(short[front.len() as int] == sep);
    assert forall|j: int| 0 <= j < front.len() implies short[j] != sep by {
        assert(short[j] == front[j]);
    }
    lemma_position_is(short, sep, front.len() as int);
    assert(before_first(short, sep) =~= front);
    assert(after_first(short, sep) =~= back);
    lemma_leading_twice(a);
    lemma_trimmed_trailing(b);
}

proof fn lemma_lower_space(c: char)
    ensures
        is_space(ascii_lower(c)) == is_space(c),
{
}

proof fn lemma_lower_leading(s: Seq<char>)
    ensures
        lowercase(without_leading_space(s)) == without_leading_space(lowercase(s)),
    decreases s.len(),
{
    if s.len() > 0 {
        lemma_lower_space(s[0]);
        assert(lowercase(s)[0] == ascii_lower(s[0]));
        assert(lowercase(s).drop_first() =~= lowercase(s.drop_first()));
        lemma_lower_leading(s.drop_first());
    }
}

proof fn lemma_lower_trailing(s: Seq<char>)
    ensures
        lowercase(without_trailing_space(s)) == without_trailing_space(lowercase(s)),
    decreases s.len(),
{
    if s.len() > 0 {
        lemma_lower_space(s.last());
        assert(lowercase(s).last() == ascii_lower(s.last()));
        assert(lowercase(s).drop_last() =~= lowercase(s.drop_last()));
        lemma_lower_trailing(s.drop_last());
    }
}

/// It makes no difference whether a text is put in lower case or trimmed first.
pub proof fn lemma_lower_trimmed(s: Seq<char>)
    ensures
        lowercase(trimmed(s)) == trimmed(lowercase(s)),
{
    lemma_lower_leading(s);
    lemma_lower_trailing(without_leading_space(s));
}

/// The pieces of two texts with a separator between them are those of each.
pub proof fn lemma_pieces_sum(a: Seq<char>, sep: char, b: Seq<char>)
    ensures
        pieces(a + seq![sep] + b, sep) == pieces(a, sep) + pieces(b, sep),
    decreases a.len(),
{
    if a.contains(sep) {
        lemma_position(a, sep);
        let first = before_first(a, sep);
        let rest = after_first(a, sep);
        assert(!first.contains(sep)) by {
            if first.contains(sep) {
                let i = first.index_of(sep);
                assert(a[i] == sep);
            }
        }
        lemma_pieces_sum(rest, sep, b);
        lemma_pieces_first(first, sep, rest + seq![sep] + b);
        assert(a + seq![sep] + b =~= first + seq![sep] + (rest + seq![sep] + b));
        assert(pieces(a + seq![sep] + b, sep) =~= pieces(a, sep) + pieces(b, sep));
    } else {
        lemma_pieces_first(a, sep, b);
    }
}

/// A text in front of a separator is the first piece.
pub proof fn lemma_pieces_first(first: Seq<char>, sep: char, rest: Seq<char>)
    requires
        !first.contains(sep),
    ensures
        pieces(first + seq![sep] + rest, sep) == seq![first] + pieces(rest, sep),
{
    let s = first + seq![sep] + rest;
    assert(s[first.len() as int] == sep);
    assert(s.contains(sep));
    assert forall|j: int| 0 <= j < first.len() implies s[j] != sep by {
        assert(s[j] == first[j]);
    }
    lemma_position_is(s, sep, first.len() as int);
    assert(before_first(s, sep) =~= first);
    assert(after_first(s, sep) =~= rest);
}

/// The characters of a text.
pub fn chars_of(s: &str) -> (r: Vec<char>)
    ensures
        r@ == s@,
{
    let mut v: Vec<char> = Vec::new();
    for c in it: s.chars()
        invariant
            v@ == s@.take(it.index()),
            it.seq() == s@,
    {
        v.push(c);
    }
    v
}

/// A copy of a text that may be missing.
pub fn clone_text(text: &Option<String>) -> (r: Option<String>)
    ensures
        r == *text,
{
    match text {
        Some(t) => Some(t.clone()),
        None => None,
    }
}

/// Whether two texts hold the same characters.
pub fn same_text(a: &str, b: &str) -> (r: bool)
    ensures
        r == (a@ == b@),
{
    let x = chars_of(a);
    let y = chars_of(b);
    if x.len() != y.len() {
        return false;
    }
    let mut i: usize = 0;
    while i < x.len()
        invariant
            i <= x.len(),
            x.len() == y.len(),
            x@ == a@,
            y@ == b@,
            forall|j: int| 0 <= j < i ==> x@[j] == y@[j],
        decreases x.len() - i,
    {
        if x[i] != y[i] {
            assert(a@[i as int] != b@[i as int]);
            return false;
        }
        i += 1;
    }
    assert(a@ =~= b@);
    true
}

/// Whether `c` has the Unicode property White_Space.
pub fn is_white_space(c: char) -> (r: bool)
    ensures
        r == is_space(c),
{
    let n: u32 = c as u32;
    (0x9 <= n && n <= 0xd) || n == 0x20 || n == 0x85 || n == 0xa0 || n == 0x1680 || (0x2000 <= n
        && n <= 0x200a) || n == 0x2028 || n == 0x2029 || n == 0x202f || n == 0x205f || n == 0x3000
}

/// The text without white space at either end.
pub fn trim(s: &str) -> (r: &str)
    ensures
        r@ == trimmed(s@),
{
    let chars = chars_of(s);
    let mut start: usize = 0;
    assert(s@.skip(0) =~= s@);
    while start < chars.len() && is_white_space(chars[start])
        invariant
            start <= chars.len(),
            chars@ == s@,
            without_leading_space(s@) == without_leading_space(s@.skip(start as int)),
        decreases chars.len() - start,
    {
        assert(s@.skip(start as int).drop_first() =~= s@.skip(start + 1));
        start += 1;
    }
    let ghost tail = s@.skip(start as int);
    assert(without_leading_space(s@) == tail);
    let mut end: usize = chars.len();
    assert(s@.subrange(start as int, end as int) =~= tail);
    while end > start && is_white_space(chars[end - 1])
        invariant
            start <= end <= chars.len(),
            chars@ == s@,
            tail == s@.skip(start as int),
            without_trailing_space(tail) == without_trailing_space(
                s@.subrange(start as int, end as int),
            ),
        decreases end,
    {
        assert(s@.subrange(start as int, end as int).drop_last() =~= s@.subrange(
            start as int,
            end - 1,
        ));
        end -= 1;
    }
    s.substring_char(start, end)
}

/// The text without the slashes that it ends with.
pub fn trim_end_slashes(s: &str) -> (r: &str)
    ensures
        r@ == without_trailing_slashes(s@),
{
    let chars = chars_of(s);
    let mut end: usize = chars.len();
    assert(s@.take(end as int) =~= s@);
    while end > 0 && chars[end - 1] == '/'
        invariant
            end <= chars.len(),
            chars@ == s@,
            without_trailing_slashes(s@) == without_trailing_slashes(s@.take(end as int)),
        decreases end,
    {
        assert(s@.take(end as int).drop_last() =~= s@.take(end - 1));
        end -= 1;
    }
    assert(s@.subrange(0, end as int) =~= s@.take(end as int));
    s.substring_char(0, end)
}

/// The position of the first `c` among `chars`, or their number where there is none.
fn find(chars: &Vec<char>, c: char) -> (r: usize)
    ensures
        r == position(chars@, c),
{
    let mut i: usize = 0;
    while i < chars.len() && chars[i] != c
        invariant
            i <= chars.len(),
            forall|j: int| 0 <= j < i ==> chars@[j] != c,
        decreases chars.len() - i,
    {
        i += 1;
    }
    proof {
        lemma_position_is(chars@, c, i as int);
    }
    i
}

/// What stands before the first `c`: the whole text where there is none.
pub fn text_before(s: &str, c: char) -> (r: &str)
    ensures
        r@ == before_first(s@, c),
{
    let chars = chars_of(s);
    let i = find(&chars, c);
    proof {
        lemma_position(s@, c);
        assert(s@.subrange(0, i as int) =~= s@.take(i as int));
    }
    s.substring_char(0, i)
}

/// What stands before and behind the first `c`, where there is one.
pub fn split_once<'a>(s: &'a str, c: char) -> (r: Option<(&'a str, &'a str)>)
    ensures
        r is Some <==> s@.contains(c),
        r matches Some(p) ==> p.0@ == before_first(s@, c) && p.1@ == after_first(s@, c),
{
    let chars = chars_of(s);
    let i = find(&chars, c);
    proof {
        lemma_position(s@, c);
    }
    if i < chars.len() {
        proof {
            assert(s@.subrange(0, i as int) =~= s@.take(i as int));
            assert(s@.subrange(i + 1, s@.len() as int) =~= s@.skip(i + 1));
        }
        Some((s.substring_char(0, i), s.substring_char(i + 1, chars.len())))
    } else {
        None
    }
}

/// The pieces of the text between the separators `sep`.
pub fn split<'a>(s: &'a str, sep: char) -> (r: Vec<&'a str>)
    ensures
        views(r@) == pieces(s@, sep),
{
    let chars = chars_of(s);
    let mut parts: Vec<&'a str> = Vec::new();
    let mut start: usize = 0;
    let mut i: usize = 0;
    proof {
        assert(s@.skip(0) =~= s@);
        assert(views(parts@) + pieces(s@.skip(0), sep) =~= pieces(s@, sep));
    }
    while i < chars.len()
        invariant
            start <= i <= chars.len(),
            chars@ == s@,
            forall|j: int| start <= j < i ==> chars@[j] != sep,
            views(parts@) + pieces(s@.skip(start as int), sep) == pieces(s@, sep),
        decreases chars.len() - i,
    {
        if chars[i] == sep {
            let ghost before = views(parts@);
            let ghost rest = s@.skip(start as int);
            let piece = s.substring_char(start, i);
            parts.push(piece);
            proof {
                assert(rest[i - start] == sep);
                assert forall|j: int| 0 <= j < i - start implies rest[j] != sep by {
                    assert(rest[j] == chars@[start + j]);
                }
                lemma_position_is(rest, sep, i - start);
                lemma_position(rest, sep);
                assert(before_first(rest, sep) =~= piece@);
                assert(after_first(rest, sep) =~= s@.skip(i + 1));
                assert(views(parts@) =~= before.push(piece@));
                assert(views(parts@) + pieces(s@.skip(i + 1), sep) =~= before + pieces(rest, sep));
            }
            start = i + 1;
        }
        i += 1;
    }
    let ghost before = views(parts@);
    let ghost rest = s@.skip(start as int);
    let piece = s.substring_char(start, chars.len());
    parts.push(piece);
    proof {
        assert(piece@ =~= rest);
        assert forall|j: int| 0 <= j < rest.len() implies rest[j] != sep by {
            assert(rest[j] == chars@[start + j]);
        }
        assert(!rest.contains(sep));
        assert(views(parts@) =~= before + pieces(rest, sep));
    }
    parts
}

/// The lower-case form of an ASCII letter.
fn lower(c: char) -> (r: char)
    ensures
        r == ascii_lower(c),
{
    if 'A' <= c && c <= 'Z' {
        (c as u8 + 32) as char
    } else {
        c
    }
}

/// Whether `s`, with its ASCII letters in lower case, is `word`.
pub fn is_word(s: &str, word: &str) -> (r: bool)
    ensures
        r == (lowercase(s@) == word@),
{
    let x = chars_of(s);
    let y = chars_of(word);
    if x.len() != y.len() {
        return false;
    }
    let mut i: usize = 0;
    while i < x.len()
        invariant
            i <= x.len(),
            x.len() == y.len(),
            x@ == s@,
            y@ == word@,
            forall|j: int| 0 <= j < i ==> lowercase(s@)[j] == word@[j],
        decreases x.len() - i,
    {
        if lower(x[i]) != y[i] {
            assert(lowercase(s@)[i as int] != word@[i as int]);
            return false;
        }
        i += 1;
    }
    assert(lowercase(s@) =~= word@);
    true
}

/// Whether the text starts with `prefix`.
pub fn starts_with(s: &str, prefix: &str) -> (r: bool)
    ensures
        r == has_prefix(s@, prefix@),
{
    let x = chars_of(s);
    let y = chars_of(prefix);
    if y.len() > x.len() {
        return false;
    }
    let mut i: usize = 0;
    while i < y.len()
        invariant
            i <= y.len() <= x.len(),
            x@ == s@,
            y@ == prefix@,
            forall|j: int| 0 <= j < i ==> x@[j] == y@[j],
        decreases y.len() - i,
    {
        if x[i] != y[i] {
            assert(s@.take(prefix@.len() as int)[i as int] != prefix@[i as int]);
            return false;
        }
        i += 1;
    }
    assert(s@.take(prefix@.len() as int) =~= prefix@);
    true
}

/// Where `://` last stands decides what stands behind it.
pub proof fn lemma_after_last_separator(s: Seq<char>, i: int)
    requires
        separator_at(s, i),
        forall|j: int| i < j ==> !separator_at(s, j),
    ensures
        after_last_separator(s) == s.skip(i + 3),
    decreases s.len(),
{
    let rest = s.drop_first();
    if i == 0 {
        assert forall|j: int| !separator_at(rest, j) by {
            if separator_at(rest, j) {
                assert(separator_at(s, j + 1));
            }
        }
    } else {
        assert(separator_at(rest, i - 1));
        assert forall|j: int| i - 1 < j implies !separator_at(rest, j) by {
            if separator_at(rest, j) {
                assert(separator_at(s, j + 1));
            }
        }
        lemma_after_last_separator(rest, i - 1);
        assert(rest.skip(i - 1 + 3) =~= s.skip(i + 3));
    }
}

/// What stands behind the last `://`: the whole text where there is none.
pub fn text_after_separator(s: &str) -> (r: &str)
    ensures
        r@ == after_last_separator(s@),
{
    let chars = chars_of(s);
    let mut i: usize = chars.len();
    while i > 0
        invariant
            i <= chars.len(),
            chars@ == s@,
            forall|j: int| i <= j ==> !separator_at(s@, j),
        decreases i,
    {
        i -= 1;
        if chars.len() - i >= 3 && chars[i] == ':' && chars[i + 1] == '/' && chars[i + 2] == '/' {
            proof {
                assert(separator_at(s@, i as int));
                lemma_after_last_separator(s@, i as int);
                assert(s@.subrange(i + 3, s@.len() as int) =~= s@.skip(i + 3));
            }
            return s.substring_char(i + 3, chars.len());
        }
    }
    assert(!has_scheme_separator(s@));
    s
}

/// The text of a decimal digit.
fn digit_text(d: u64) -> (r: &'static str)
    requires
        d < 10,
    ensures
        r@ == seq![digit(d as nat)],
{
    proof {
        reveal_strlit("0");
        reveal_strlit("1");
        reveal_strlit("2");
        reveal_strlit("3");
        reveal_strlit("4");
        reveal_strlit("5");
        reveal_strlit("6");
        reveal_strlit("7");
        reveal_strlit("8");
        reveal_strlit("9");
    }
    let t = match d {
        0 => "0",
        1 => "1",
        2 => "2",
        3 => "3",
        4 => "4",
        5 => "5",
        6 => "6",
        7 => "7",
        8 => "8",
        _ => "9",
    };
    assert(t@ =~= seq![digit(d as nat)]);
    t
}

/// `n` in decimal digits.
pub fn decimal_text(n: u64) -> (r: String)
    ensures
        r@ == decimal(n as nat),
    decreases n,
{
    if n < 10 {
        digit_text(n).to_string()
    } else {
        let mut s = decimal_text(n / 10);
        s.append(digit_text(n % 10));
        assert(s@ =~= decimal(n as nat));
        s
    }
}

/// The longest start of `s` that takes at most `limit` bytes in UTF-8.
pub open spec fn truncated(s: Seq<char>, limit: nat) -> Seq<char>
    decreases s.len(),
{
    if encode_utf8(s).len() <= limit || s.len() == 0 {
        s
    } else {
        truncated(s.drop_last(), limit)
    }
}

/// The UTF-8 form of two texts, one behind the other, is that of each, one behind the other.
pub proof fn lemma_encode_sum(a: Seq<char>, b: Seq<char>)
    ensures
        encode_utf8(a + b) == encode_utf8(a) + encode_utf8(b),
    decreases a.len(),
{
    if a.len() == 0 {
        assert(a + b =~= b);
        assert(encode_utf8(a) + encode_utf8(b) =~= encode_utf8(b));
    } else {
        lemma_encode_sum(a.drop_first(), b);
        assert((a + b).drop_first() =~= a.drop_first() + b);
        assert(encode_utf8(a + b) =~= encode_utf8(a) + encode_utf8(b));
    }
}

/// A start that fits, with a next character that does not, is the longest start that fits.
proof fn lemma_truncated_is(s: Seq<char>, limit: nat, n: int)
    requires
        0 <= n <= s.len(),
        encode_utf8(s.take(n)).len() <= limit,
        n < s.len() ==> encode_utf8(s.take(n + 1)).len() > limit,
    ensures
        truncated(s, limit) == s.take(n),
    decreases s.len(),
{
    if n == s.len() {
        assert(s.take(n) =~= s);
    } else {
        let shorter = s.drop_last();
        lemma_encode_sum(s.take(n + 1), s.skip(n + 1));
        assert(s.take(n + 1) + s.skip(n + 1) =~= s);
        assert(shorter.take(n) =~= s.take(n));
        if n < shorter.len() {
            assert(shorter.take(n + 1) =~= s.take(n + 1));
        }
        lemma_truncated_is(shorter, limit, n);
    }
}

/// The number of bytes that a character takes in UTF-8.
fn char_width(c: char) -> (r: usize)
    ensures
        r == encode_utf8(seq![c]).len(),
        1 <= r <= 4,
{
    let n: u32 = c as u32;
    proof {
        let one = seq![c];
        assert(one.drop_first() =~= seq![]);
        assert(encode_utf8(one.drop_first()) =~= seq![]);
        assert(encode_utf8(one) =~= encode_scalar(one[0] as u32));
    }
    if n < 0x80 {
        1
    } else if n < 0x800 {
        2
    } else if n < 0x1_0000 {
        3
    } else {
        4
    }
}

/// Shorten a text to at most `limit` bytes, at the boundary of a character.
pub fn truncate_at_char_boundary(text: &mut String, limit: usize)
    ensures
        final(text)@ == truncated(old(text)@, limit as nat),
{
    let chars = chars_of(text.as_str());
    let mut total: usize = 0;
    let mut end: usize = 0;
    let ghost s = text@;
    assert(s.take(0) =~= seq![]);
    while end < chars.len() && char_width(chars[end]) <= limit - total
        invariant
            end <= chars.len(),
            chars@ == s,
            total <= limit,
            total == encode_utf8(s.take(end as int)).len(),
        decreases chars.len() - end,
    {
        proof {
            lemma_encode_sum(s.take(end as int), seq![s[end as int]]);
            assert(s.take(end as int) + seq![s[end as int]] =~= s.take(end + 1));
        }
        total = total + char_width(chars[end]);
        end += 1;
    }
    proof {
        if end < chars.len() {
            lemma_encode_sum(s.take(end as int), seq![s[end as int]]);
            assert(s.take(end as int) + seq![s[end as int]] =~= s.take(end + 1));
        }
        lemma_truncated_is(s, limit as nat, end as int);
        assert(s.subrange(0, end as int) =~= s.take(end as int));
    }
    let kept = text.as_str().substring_char(0, end).to_string();
    *text = kept;
}

} // verus!
