//! Laws on text: what the operations on characters keep of a text, and what they take away.
use vstd::prelude::*;

use crate::text::{
    after_first, after_last_separator, before_first, blank, decimal, has_prefix, has_scheme_separator,
    is_space, lemma_after_last_separator, lemma_position, lowercase, optional, pieces, separator_at,
    string_views, trimmed, views, without_leading_space, without_trailing_slashes,
    without_trailing_space,
};

verus! {

/// Texts with a separator between each two.
pub open spec fn joined(parts: Seq<Seq<char>>, sep: char) -> Seq<char>
    decreases parts.len(),
{
    if parts.len() == 0 {
        seq![]
    } else if parts.len() == 1 {
        parts[0]
    } else {
        parts[0] + seq![sep] + joined(parts.drop_first(), sep)
    }
}

/// The pieces of a text, joined again, are the text, and no piece holds the separator. Nothing of a
/// text is lost when it is split.
pub proof fn pieces_make_up_the_text(s: Seq<char>, sep: char)
    ensures
        pieces(s, sep).len() > 0,
        joined(pieces(s, sep), sep) == s,
        forall|i: int, j: int|
            0 <= i < pieces(s, sep).len() && 0 <= j < pieces(s, sep)[i].len() ==> #[trigger] pieces(
                s,
                sep,
            )[i][j] != sep,
    decreases s.len(),
{
    lemma_position(s, sep);
    let all = pieces(s, sep);
    if s.contains(sep) {
        let first = before_first(s, sep);
        let rest = after_first(s, sep);
        pieces_make_up_the_text(rest, sep);
        assert(all.drop_first() =~= pieces(rest, sep));
        assert(joined(all, sep) =~= s);
        assert forall|i: int, j: int| 0 <= i < all.len() && 0 <= j < all[i].len() implies
            #[trigger] all[i][j] != sep by {
            if i == 0 {
                assert(first[j] == s[j]);
            } else {
                assert(all[i] == pieces(rest, sep)[i - 1]);
            }
        }
    } else {
        assert(all =~= seq![s]);
        assert forall|i: int, j: int| 0 <= i < all.len() && 0 <= j < all[i].len() implies
            #[trigger] all[i][j] != sep by {
            assert(all[i] == s);
        }
    }
}

/// The first separator parts a text in two, which make up the text; a text without it stays whole.
pub proof fn the_first_separator_parts_a_text(s: Seq<char>, sep: char)
    ensures
        s.contains(sep) ==> s == before_first(s, sep) + seq![sep] + after_first(s, sep),
        !s.contains(sep) ==> before_first(s, sep) == s,
        !before_first(s, sep).contains(sep),
{
    lemma_position(s, sep);
    if s.contains(sep) {
        assert(s =~= before_first(s, sep) + seq![sep] + after_first(s, sep));
    } else {
        assert(before_first(s, sep) =~= s);
    }
    assert(!before_first(s, sep).contains(sep)) by {
        if before_first(s, sep).contains(sep) {
            let i = before_first(s, sep).index_of(sep);
            assert(s[i] == sep);
        }
    }
}

proof fn lemma_leading(s: Seq<char>)
    ensures
        exists|front: Seq<char>| #[trigger]
            blank(front) && s == front + without_leading_space(s),
        without_leading_space(s).len() > 0 ==> !is_space(without_leading_space(s)[0]),
    decreases s.len(),
{
    if s.len() > 0 && is_space(s[0]) {
        lemma_leading(s.drop_first());
        let rest = choose|front: Seq<char>| #[trigger]
            blank(front) && s.drop_first() == front + without_leading_space(s.drop_first());
        let front = seq![s[0]] + rest;
        assert forall|i: int| 0 <= i < front.len() implies is_space(#[trigger] front[i]) by {
            if i > 0 {
                assert(front[i] == rest[i - 1]);
            }
        }
        assert(blank(front));
        assert(s =~= seq![s[0]] + s.drop_first());
        assert(s.drop_first() == rest + without_leading_space(s));
        assert(s =~= front + without_leading_space(s));
    } else {
        assert(blank(seq![]));
        assert(s =~= Seq::<char>::empty() + s);
    }
}

proof fn lemma_trailing(s: Seq<char>)
    ensures
        exists|back: Seq<char>| #[trigger] blank(back) && s == without_trailing_space(s) + back,
        without_trailing_space(s).len() > 0 ==> !is_space(without_trailing_space(s).last()),
    decreases s.len(),
{
    if s.len() > 0 && is_space(s.last()) {
        lemma_trailing(s.drop_last());
        let rest = choose|back: Seq<char>| #[trigger]
            blank(back) && s.drop_last() == without_trailing_space(s.drop_last()) + back;
        let back = rest.push(s.last());
        assert forall|i: int| 0 <= i < back.len() implies is_space(#[trigger] back[i]) by {
            if i < rest.len() {
                assert(back[i] == rest[i]);
            }
        }
        assert(blank(back));
        assert(s =~= s.drop_last().push(s.last()));
        assert(s.drop_last() == without_trailing_space(s) + rest);
        assert(s =~= without_trailing_space(s) + back);
    } else {
        assert(blank(seq![]));
        assert(s =~= s + Seq::<char>::empty());
    }
}

/// Trimming takes away white space at the ends, all of it, and nothing else.
pub proof fn trimming_takes_white_space_only(s: Seq<char>)
    ensures
        exists|front: Seq<char>, back: Seq<char>|
            #![trigger blank(front), blank(back)]
            blank(front) && blank(back) && s == front + trimmed(s) + back,
        trimmed(s).len() > 0 ==> !is_space(trimmed(s)[0]) && !is_space(trimmed(s).last()),
{
    let middle = without_leading_space(s);
    lemma_leading(s);
    lemma_trailing(middle);
    let front = choose|front: Seq<char>| #[trigger] blank(front) && s == front + middle;
    let back = choose|back: Seq<char>| #[trigger] blank(back) && middle == trimmed(s) + back;
    assert(s =~= front + trimmed(s) + back);
    if trimmed(s).len() > 0 {
        assert(trimmed(s)[0] == middle[0]);
    }
}

/// Trimming slashes takes away those at the end, all of them, and nothing else.
pub proof fn trimming_takes_slashes_only(s: Seq<char>)
    ensures
        without_trailing_slashes(s).len() <= s.len(),
        s.take(without_trailing_slashes(s).len() as int) == without_trailing_slashes(s),
        forall|i: int| without_trailing_slashes(s).len() <= i < s.len() ==> #[trigger] s[i] == '/',
        without_trailing_slashes(s).len() > 0 ==> without_trailing_slashes(s).last() != '/',
    decreases s.len(),
{
    if s.len() > 0 && s.last() == '/' {
        let start = s.drop_last();
        trimming_takes_slashes_only(start);
        let kept = without_trailing_slashes(start);
        assert(s.take(kept.len() as int) =~= start.take(kept.len() as int));
        assert forall|i: int| kept.len() <= i < s.len() implies #[trigger] s[i] == '/' by {
            if i < start.len() {
                assert(start[i] == '/');
            }
        }
    } else {
        assert(s.take(s.len() as int) =~= s);
    }
}

/// What stands behind the last `://` is all that follows it; a text without `://` stays whole.
pub proof fn the_last_separator_ends_the_scheme(a: Seq<char>, b: Seq<char>)
    requires
        forall|i: int|
            0 <= i && i + 2 < b.len() ==> !(#[trigger] b[i] == ':' && b[i + 1] == '/' && b[i + 2]
                == '/'),
    ensures
        after_last_separator(a + seq![':', '/', '/'] + b) == b,
        after_last_separator(b) == b,
{
    let s = a + seq![':', '/', '/'] + b;
    let n = a.len() as int;
    assert(s[n] == ':' && s[n + 1] == '/' && s[n + 2] == '/');
    assert(separator_at(s, n));
    assert forall|j: int| n < j implies !separator_at(s, j) by {
        if separator_at(s, j) {
            if j >= n + 3 {
                assert(b[j - n - 3] == ':');
            }
        }
    }
    lemma_after_last_separator(s, n);
    assert(s.skip(n + 3) =~= b);
    assert(!has_scheme_separator(b)) by {
        if has_scheme_separator(b) {
            let i = choose|i: int| separator_at(b, i);
            assert(b[i] == ':');
        }
    }
}

/// Putting a text in lower case changes the letters from `A` to `Z`, each to its own lower-case
/// letter, and no other character.
pub proof fn lower_case_changes_letters_only(s: Seq<char>, i: int)
    requires
        0 <= i < s.len(),
    ensures
        lowercase(s).len() == s.len(),
        'A' <= s[i] <= 'Z' ==> lowercase(s)[i] as u32 == s[i] as u32 + 32,
        !('A' <= s[i] <= 'Z') ==> lowercase(s)[i] == s[i],
{
}

/// The number that decimal digits stand for.
pub open spec fn number_in(digits: Seq<char>) -> int
    decreases digits.len(),
{
    if digits.len() == 0 {
        0
    } else {
        10 * number_in(digits.drop_last()) + (digits.last() as u32 - '0' as u32)
    }
}

/// A number in decimal is made of digits that stand for the number, without a zero in front.
pub proof fn decimals_stand_for_the_number(n: nat)
    ensures
        number_in(decimal(n)) == n,
        forall|i: int| 0 <= i < decimal(n).len() ==> '0' <= #[trigger] decimal(n)[i] <= '9',
        decimal(n).len() > 0,
        n > 0 ==> decimal(n)[0] != '0',
    decreases n,
{
    if n >= 10 {
        decimals_stand_for_the_number(n / 10);
        let start = decimal(n / 10);
        let all = decimal(n);
        assert(all.drop_last() =~= start);
        assert forall|i: int| 0 <= i < all.len() implies '0' <= #[trigger] all[i] <= '9' by {
            if i < start.len() {
                assert(all[i] == start[i]);
            }
        }
        assert(all[0] == start[0]);
    } else {
        reveal_with_fuel(number_in, 2);
    }
}

/// Two numbers are never written alike.
pub proof fn different_numbers_are_written_differently(a: nat, b: nat)
    requires
        decimal(a) == decimal(b),
    ensures
        a == b,
{
    decimals_stand_for_the_number(a);
    decimals_stand_for_the_number(b);
}

/// A text starts with another exactly when it is that text with something behind it.
pub proof fn prefixes_stand_in_front(s: Seq<char>, prefix: Seq<char>, rest: Seq<char>)
    ensures
        has_prefix(prefix + rest, prefix),
        has_prefix(s, prefix) ==> s == prefix + s.skip(prefix.len() as int),
{
    assert((prefix + rest).take(prefix.len() as int) =~= prefix);
    if has_prefix(s, prefix) {
        assert(s =~= s.take(prefix.len() as int) + s.skip(prefix.len() as int));
    }
}

/// The characters of a text are all of its characters, where there is a text.
pub proof fn texts_are_seen_whole(
    text: String,
    texts: Seq<String>,
    slices: Seq<&str>,
    i: int,
)
    ensures
        optional(Some(text)) == Some(text@),
        optional(None) == None::<Seq<char>>,
        string_views(texts).len() == texts.len(),
        0 <= i < texts.len() ==> string_views(texts)[i] == texts[i]@,
        views(slices).len() == slices.len(),
        0 <= i < slices.len() ==> views(slices)[i] == slices[i]@,
{
}

} // verus!
