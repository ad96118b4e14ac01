//! Laws on connection strings: which of them are read alike, and what they are read as.
use vstd::prelude::*;

use crate::error::ErrorView;
use crate::laws::text::{
    the_first_separator_parts_a_text, the_last_separator_ends_the_scheme,
    trimming_takes_slashes_only, trimming_takes_white_space_only,
};
use crate::servicebus::client::{
    client_fields, client_of, endpoint_verdict, last_value, malformed, malformed_part,
    namespace_endpoint, namespace_in, parsed_connection, parsed_namespace, redirected, safe_scheme,
    secure, set_value, sets, ClientView,
};
use crate::text::{
    after_first, before_first, blank, has_scheme_separator, is_space, lemma_after_last_separator,
    lemma_lower_trimmed, lemma_pieces_first, lemma_pieces_sum, lemma_position, lemma_position_is,
    lemma_trimmed, lemma_trimmed_ends, lemma_trimmed_padding, lemma_trimmed_sides, lowercase,
    pieces, separator_at, trimmed, without_trailing_slashes,
};
use crate::uri::{url_parse, UrlHost, UrlView};

verus! {

/// The error for a connection string shows nothing of it but the endpoint.
pub proof fn connection_errors_show_the_endpoint_only(conn: Seq<char>)
    ensures
        parsed_connection(conn) matches Err(e) ==> {
            ||| e == malformed_part()
            ||| e == ErrorView::Config("Service Bus connection string missing 'Endpoint'"@)
            ||| e == ErrorView::Config(
                "Service Bus connection string missing 'SharedAccessKeyName'"@,
            )
            ||| e == ErrorView::Config("Service Bus connection string missing 'SharedAccessKey'"@)
            ||| last_value(pieces(conn, ';'), "endpoint"@) matches Some(endpoint)
                && parsed_namespace(endpoint) == Err::<Seq<char>, ErrorView>(e)
        },
{
}

/// The part of a connection string that names the endpoint of a namespace.
pub open spec fn endpoint_part(namespace: Seq<char>) -> Seq<char> {
    "Endpoint=sb://"@ + namespace + ".servicebus.windows.net/"@
}

/// The part of a connection string that names the policy.
pub open spec fn policy_part(policy_name: Seq<char>) -> Seq<char> {
    "SharedAccessKeyName="@ + policy_name
}

/// The part of a connection string that holds the key.
pub open spec fn key_part(key: Seq<char>) -> Seq<char> {
    "SharedAccessKey="@ + key
}

/// The connection string of a namespace under a policy.
pub open spec fn connection_string(
    namespace: Seq<char>,
    policy_name: Seq<char>,
    key: Seq<char>,
) -> Seq<char> {
    endpoint_part(namespace) + ";"@ + policy_part(policy_name) + ";"@ + key_part(key)
}

/// Whether a text can be the value of a setting in a connection string: it holds no semicolon, and
/// no white space at either end.
pub open spec fn settable(value: Seq<char>) -> bool {
    !value.contains(';') && trimmed(value) == value
}

/// Whether a text can be the namespace in an endpoint: it is not empty and holds neither a dot, nor
/// a semicolon, nor `://`.
pub open spec fn nameable(namespace: Seq<char>) -> bool {
    namespace.len() > 0 && !namespace.contains('.') && !namespace.contains(';')
        && !has_scheme_separator(namespace)
}

/// The namespace in an endpoint is what stands between its scheme and the Service Bus domain.
proof fn lemma_namespace_between(scheme: Seq<char>, namespace: Seq<char>, end: Seq<char>)
    requires
        nameable(namespace),
        scheme.len() >= 3,
        separator_at(scheme, scheme.len() - 3),
        end.len() > 0,
        end[0] == '.',
        !end.contains(':'),
        end.last() == 't' || end.len() > 1 && end.last() == '/' && end[end.len() - 2] == 't',
    ensures
        namespace_in(scheme + namespace + end) == namespace,
{
    let s = scheme + namespace + end;
    let k = scheme.len() - 3;
    assert(separator_at(s, k));
    assert forall|j: int| k < j implies !separator_at(s, j) by {
        if separator_at(s, j) {
            let n = scheme.len();
            if j < n {
                assert(s[k + 1] == '/' && s[k + 2] == '/');
            } else if j < n + namespace.len() {
                assert(s[(n + namespace.len()) as int] == '.');
                assert(separator_at(namespace, j - n));
            } else {
                assert(end[j - n - namespace.len()] == ':');
            }
        }
    }
    lemma_after_last_separator(s, k);
    let host = namespace + end;
    assert(s.skip(k + 3) =~= host);
    let bare = without_trailing_slashes(host);
    reveal_with_fuel(without_trailing_slashes, 3);
    assert(host.last() == end.last());
    if end.last() == '/' {
        assert(host.drop_last().last() == end[end.len() - 2]);
        assert(bare =~= host.drop_last());
    }
    assert(bare.len() > namespace.len());
    assert(bare[namespace.len() as int] == '.');
    assert forall|j: int| 0 <= j < namespace.len() implies bare[j] != '.' by {
        assert(bare[j] == namespace[j]);
    }
    lemma_position_is(bare, '.', namespace.len() as int);
    assert(before_first(bare, '.') =~= namespace);
}

/// The endpoint of a client names the namespace of the client.
pub proof fn endpoints_name_the_namespace(namespace: Seq<char>)
    requires
        nameable(namespace),
    ensures
        parsed_namespace(namespace_endpoint(namespace)) == Ok::<Seq<char>, ErrorView>(namespace),
{
    reveal_strlit("https://");
    reveal_strlit(".servicebus.windows.net");
    lemma_namespace_between("https://"@, namespace, ".servicebus.windows.net"@);
}

/// What a part of a connection string sets: the name before the first equals sign, to what follows.
proof fn lemma_part(name: Seq<char>, value: Seq<char>)
    requires
        name.len() > 0,
        !name.contains('='),
        !is_space(name[0]),
        !is_space(name.last()),
        trimmed(value) == value,
    ensures
        ({
            let part = name + "="@ + value;
            &&& trimmed(part) == part
            &&& part.contains('=')
            &&& set_value(part) == value
            &&& forall|key: Seq<char>| #[trigger] sets(part, key) <==> lowercase(name) == key
        }),
{
    reveal_strlit("=");
    let part = name + "="@ + value;
    if value.len() > 0 {
        lemma_trimmed_ends(value);
        assert(part.last() == value.last());
    }
    lemma_trimmed(part);
    assert(part[name.len() as int] == '=');
    assert forall|j: int| 0 <= j < name.len() implies part[j] != '=' by {
        assert(part[j] == name[j]);
    }
    lemma_position_is(part, '=', name.len() as int);
    assert(before_first(part, '=') =~= name);
    assert(after_first(part, '=') =~= value);
    lemma_trimmed(name);
}

/// A connection string of the documented form gives the client of its namespace, policy and key;
/// the key may hold equals signs.
pub proof fn connection_strings_are_read_back(
    namespace: Seq<char>,
    policy_name: Seq<char>,
    key: Seq<char>,
)
    requires
        nameable(namespace),
        settable(policy_name),
        settable(key),
    ensures
        parsed_connection(connection_string(namespace, policy_name, key)) == Ok::<
            ClientView,
            ErrorView,
        >(client_of(namespace, policy_name, key)),
{
    let a = endpoint_part(namespace);
    let b = policy_part(policy_name);
    let c = key_part(key);
    let endpoint = "sb://"@ + namespace + ".servicebus.windows.net/"@;
    reveal_strlit("=");
    reveal_strlit(";");
    reveal_strlit("sb://");
    reveal_strlit(".servicebus.windows.net/");
    reveal_strlit("Endpoint=sb://");
    reveal_strlit("Endpoint");
    reveal_strlit("endpoint");
    reveal_strlit("SharedAccessKeyName=");
    reveal_strlit("SharedAccessKeyName");
    reveal_strlit("sharedaccesskeyname");
    reveal_strlit("SharedAccessKey=");
    reveal_strlit("SharedAccessKey");
    reveal_strlit("sharedaccesskey");
    assert(a =~= "Endpoint"@ + "="@ + endpoint);
    assert(b =~= "SharedAccessKeyName"@ + "="@ + policy_name);
    assert(c =~= "SharedAccessKey"@ + "="@ + key);
    lemma_trimmed(endpoint);
    lemma_part("Endpoint"@, endpoint);
    lemma_part("SharedAccessKeyName"@, policy_name);
    lemma_part("SharedAccessKey"@, key);
    assert(lowercase("Endpoint"@) =~= "endpoint"@);
    assert(lowercase("SharedAccessKeyName"@) =~= "sharedaccesskeyname"@);
    assert(lowercase("SharedAccessKey"@) =~= "sharedaccesskey"@);
    assert(!a.contains(';')) by {
        assert forall|i: int| 0 <= i < a.len() implies a[i] != ';' by {
            if 14 <= i < 14 + namespace.len() {
                assert(a[i] == namespace[i - 14]);
            }
        }
    }
    assert(!b.contains(';')) by {
        assert forall|i: int| 0 <= i < b.len() implies b[i] != ';' by {
            if 20 <= i {
                assert(b[i] == policy_name[i - 20]);
            }
        }
    }
    assert(!c.contains(';')) by {
        assert forall|i: int| 0 <= i < c.len() implies c[i] != ';' by {
            if 16 <= i {
                assert(c[i] == key[i - 16]);
            }
        }
    }
    let conn = connection_string(namespace, policy_name, key);
    assert(conn =~= a + seq![';'] + (b + seq![';'] + c));
    lemma_pieces_first(a, ';', b + seq![';'] + c);
    lemma_pieces_first(b, ';', c);
    let parts = pieces(conn, ';');
    assert(parts =~= seq![a, b, c]);
    assert(parts.drop_last() =~= seq![a, b]);
    assert(parts.drop_last().drop_last() =~= seq![a]);
    reveal_with_fuel(last_value, 4);
    assert(last_value(parts, "endpoint"@) == Some(endpoint));
    assert(last_value(parts, "sharedaccesskeyname"@) == Some(policy_name));
    assert(last_value(parts, "sharedaccesskey"@) == Some(key));
    lemma_namespace_between("sb://"@, namespace, ".servicebus.windows.net/"@);
}

/// Whether a keyword is one that a connection string is read for.
pub open spec fn keyword(key: Seq<char>) -> bool {
    key == "endpoint"@ || key == "sharedaccesskeyname"@ || key == "sharedaccesskey"@
}

/// Whether a segment of a connection string matters: it is malformed or sets a keyword. Blank
/// segments and settings of anything else do not.
pub open spec fn matters(part: Seq<char>) -> bool {
    malformed(part) || exists|key: Seq<char>| keyword(key) && #[trigger] sets(part, key)
}

/// Whether two segments say the same.
pub open spec fn alike(a: Seq<char>, b: Seq<char>) -> bool {
    &&& malformed(a) == malformed(b)
    &&& forall|key: Seq<char>| #[trigger] sets(a, key) == sets(b, key)
    &&& forall|key: Seq<char>| #[trigger] sets(a, key) ==> set_value(a) == set_value(b)
}

/// Whether each segment that matters has one that says the same among others.
pub open spec fn covered(parts: Seq<Seq<char>>, others: Seq<Seq<char>>) -> bool {
    forall|i: int|
        0 <= i < parts.len() && matters(#[trigger] parts[i]) ==> exists|j: int|
            0 <= j < others.len() && alike(parts[i], #[trigger] others[j])
}

/// Whether no two segments set one keyword to different values.
pub open spec fn consistent(parts: Seq<Seq<char>>) -> bool {
    forall|i: int, j: int, key: Seq<char>|
        0 <= i < parts.len() && 0 <= j < parts.len() && keyword(key) && #[trigger] sets(
            parts[i],
            key,
        ) && #[trigger] sets(parts[j], key) ==> set_value(parts[i]) == set_value(parts[j])
}

/// Whether a segment is malformed.
pub open spec fn has_malformed(parts: Seq<Seq<char>>) -> bool {
    exists|i: int| 0 <= i < parts.len() && malformed(#[trigger] parts[i])
}

/// Whether two lists of segments are read alike: both hold a malformed segment or neither does, and
/// they give each keyword the same value.
spec fn read_alike(a: Seq<Seq<char>>, b: Seq<Seq<char>>) -> bool {
    &&& has_malformed(a) == has_malformed(b)
    &&& forall|key: Seq<char>| keyword(key) ==> #[trigger] last_value(a, key) == last_value(b, key)
}

proof fn lemma_read_alike(conn: Seq<char>, other: Seq<char>)
    requires
        read_alike(pieces(conn, ';'), pieces(other, ';')),
    ensures
        parsed_connection(conn) == parsed_connection(other),
{
    let a = pieces(conn, ';');
    let b = pieces(other, ';');
    assert(last_value(a, "endpoint"@) == last_value(b, "endpoint"@));
    assert(last_value(a, "sharedaccesskeyname"@) == last_value(b, "sharedaccesskeyname"@));
    assert(last_value(a, "sharedaccesskey"@) == last_value(b, "sharedaccesskey"@));
    assert(has_malformed(a) == has_malformed(b));
}

/// A value comes from a segment that sets it, and there is one where a segment sets the keyword.
proof fn lemma_last_value(parts: Seq<Seq<char>>, key: Seq<char>)
    ensures
        last_value(parts, key) matches Some(value) ==> exists|i: int|
            0 <= i < parts.len() && #[trigger] sets(parts[i], key) && value == set_value(parts[i]),
        last_value(parts, key) is None ==> forall|i: int|
            0 <= i < parts.len() ==> !#[trigger] sets(parts[i], key),
    decreases parts.len(),
{
    if parts.len() > 0 {
        let start = parts.drop_last();
        lemma_last_value(start, key);
        if sets(parts.last(), key) {
            assert(sets(parts[parts.len() - 1], key));
        } else {
            if last_value(start, key) is Some {
                let i = choose|i: int|
                    0 <= i < start.len() && #[trigger] sets(start[i], key)
                        && last_value(start, key)->0 == set_value(start[i]);
                assert(sets(parts[i], key));
            } else {
                assert forall|i: int| 0 <= i < parts.len() implies !#[trigger] sets(
                    parts[i],
                    key,
                ) by {
                    if i < start.len() {
                        assert(parts[i] == start[i]);
                        assert(!sets(start[i], key));
                    }
                }
            }
        }
    }
}

proof fn lemma_covered_value(a: Seq<Seq<char>>, b: Seq<Seq<char>>, key: Seq<char>)
    requires
        covered(a, b),
        covered(b, a),
        consistent(a),
        keyword(key),
    ensures
        last_value(a, key) == last_value(b, key),
{
    lemma_last_value(a, key);
    lemma_last_value(b, key);
    if last_value(a, key) is Some {
        let i = choose|i: int|
            0 <= i < a.len() && #[trigger] sets(a[i], key) && last_value(a, key)->0 == set_value(
                a[i],
            );
        assert(matters(a[i]));
        let j = choose|j: int| 0 <= j < b.len() && alike(a[i], #[trigger] b[j]);
        assert(sets(b[j], key));
    }
    if last_value(b, key) is Some {
        let j = choose|j: int|
            0 <= j < b.len() && #[trigger] sets(b[j], key) && last_value(b, key)->0 == set_value(
                b[j],
            );
        assert(matters(b[j]));
        let i = choose|i: int| 0 <= i < a.len() && alike(b[j], #[trigger] a[i]);
        assert(sets(a[i], key));
        assert(set_value(a[i]) == set_value(b[j]));
    }
}

/// Two connection strings are read alike where each segment that matters in one has a segment that
/// says the same in the other, in whatever order and among whatever segments that do not matter,
/// provided no keyword is set to two values. So neither the case of keywords, nor white space, nor
/// empty or foreign segments, nor the order of segments makes a difference.
pub proof fn connection_strings_are_read_alike(conn: Seq<char>, other: Seq<char>)
    requires
        covered(pieces(conn, ';'), pieces(other, ';')),
        covered(pieces(other, ';'), pieces(conn, ';')),
        consistent(pieces(conn, ';')),
    ensures
        parsed_connection(conn) == parsed_connection(other),
{
    let a = pieces(conn, ';');
    let b = pieces(other, ';');
    if has_malformed(a) {
        let i = choose|i: int| 0 <= i < a.len() && malformed(#[trigger] a[i]);
        assert(matters(a[i]));
        let j = choose|j: int| 0 <= j < b.len() && alike(a[i], #[trigger] b[j]);
        assert(malformed(b[j]));
    }
    if has_malformed(b) {
        let j = choose|j: int| 0 <= j < b.len() && malformed(#[trigger] b[j]);
        assert(matters(b[j]));
        let i = choose|i: int| 0 <= i < a.len() && alike(b[j], #[trigger] a[i]);
        assert(malformed(a[i]));
    }
    assert forall|key: Seq<char>| keyword(key) implies #[trigger] last_value(a, key) == last_value(
        b,
        key,
    ) by {
        lemma_covered_value(a, b, key);
    }
    lemma_read_alike(conn, other);
}

/// The segments of a connection string may stand in any order where no two of them set the same
/// keyword.
pub proof fn segments_may_be_reordered(conn: Seq<char>, other: Seq<char>)
    requires
        pieces(conn, ';').to_multiset() == pieces(other, ';').to_multiset(),
        forall|i: int, j: int, key: Seq<char>|
            0 <= i < j < pieces(conn, ';').len() && keyword(key) && #[trigger] sets(
                pieces(conn, ';')[i],
                key,
            ) ==> !#[trigger] sets(pieces(conn, ';')[j], key),
    ensures
        parsed_connection(conn) == parsed_connection(other),
{
    let a = pieces(conn, ';');
    let b = pieces(other, ';');
    a.to_multiset_ensures();
    b.to_multiset_ensures();
    assert forall|i: int| 0 <= i < a.len() && matters(#[trigger] a[i]) implies exists|j: int|
        0 <= j < b.len() && alike(a[i], #[trigger] b[j]) by {
        assert(a.contains(a[i]));
        assert(b.to_multiset().count(a[i]) > 0);
        let j = b.index_of(a[i]);
        assert(alike(a[i], b[j]));
    }
    assert forall|j: int| 0 <= j < b.len() && matters(#[trigger] b[j]) implies exists|i: int|
        0 <= i < a.len() && alike(b[j], #[trigger] a[i]) by {
        assert(b.contains(b[j]));
        assert(a.to_multiset().count(b[j]) > 0);
        let i = a.index_of(b[j]);
        assert(alike(b[j], a[i]));
    }
    assert(consistent(a)) by {
        assert forall|i: int, j: int, key: Seq<char>|
            0 <= i < a.len() && 0 <= j < a.len() && keyword(key) && #[trigger] sets(a[i], key)
                && #[trigger] sets(a[j], key) implies set_value(a[i]) == set_value(a[j]) by {
            if i < j {
                assert(!sets(pieces(conn, ';')[j], key));
            } else if j < i {
                assert(!sets(pieces(conn, ';')[i], key));
            }
        }
    }
    connection_strings_are_read_alike(conn, other);
}

/// Two neighbouring segments that do not set the same keyword may change places, also where keywords
/// are set more than once.
pub proof fn neighbours_may_change_places(
    before: Seq<char>,
    a: Seq<char>,
    b: Seq<char>,
    after: Seq<char>,
)
    requires
        !a.contains(';'),
        !b.contains(';'),
        forall|key: Seq<char>| keyword(key) && #[trigger] sets(a, key) ==> !sets(b, key),
    ensures
        parsed_connection(before + seq![';'] + (a + seq![';'] + (b + seq![';'] + after)))
            == parsed_connection(before + seq![';'] + (b + seq![';'] + (a + seq![';'] + after))),
{
    let x = pieces(before, ';');
    let y = pieces(after, ';');
    lemma_pieces_sum(before, ';', a + seq![';'] + (b + seq![';'] + after));
    lemma_pieces_first(a, ';', b + seq![';'] + after);
    lemma_pieces_first(b, ';', after);
    lemma_pieces_sum(before, ';', b + seq![';'] + (a + seq![';'] + after));
    lemma_pieces_first(b, ';', a + seq![';'] + after);
    lemma_pieces_first(a, ';', after);
    let conn = before + seq![';'] + (a + seq![';'] + (b + seq![';'] + after));
    let other = before + seq![';'] + (b + seq![';'] + (a + seq![';'] + after));
    let first = (x + seq![a, b]) + y;
    let second = (x + seq![b, a]) + y;
    assert(pieces(conn, ';') =~= first);
    assert(pieces(other, ';') =~= second);
    assert forall|key: Seq<char>| keyword(key) implies #[trigger] last_value(first, key)
        == last_value(second, key) by {
        let p = x + seq![a, b];
        let q = x + seq![b, a];
        assert(p.drop_last() =~= x.push(a));
        assert(q.drop_last() =~= x.push(b));
        assert(x.push(a).drop_last() =~= x);
        assert(x.push(b).drop_last() =~= x);
        reveal_with_fuel(last_value, 3);
        assert(last_value(p, key) == last_value(q, key));
        lemma_last_value_end(p, q, y, key);
    }
    lemma_has_malformed_sum(x + seq![a, b], y);
    lemma_has_malformed_sum(x + seq![b, a], y);
    lemma_has_malformed_sum(x, seq![a, b]);
    lemma_has_malformed_sum(x, seq![b, a]);
    assert(has_malformed(seq![a, b]) == has_malformed(seq![b, a])) by {
        let p = seq![a, b];
        let q = seq![b, a];
        assert(p[0] == q[1] && p[1] == q[0]);
        if has_malformed(p) {
            let i = choose|i: int| 0 <= i < p.len() && malformed(#[trigger] p[i]);
            assert(malformed(q[1 - i]));
        }
        if has_malformed(q) {
            let i = choose|i: int| 0 <= i < q.len() && malformed(#[trigger] q[i]);
            assert(malformed(p[1 - i]));
        }
    }
    lemma_read_alike(conn, other);
}

/// What stands behind two lists of segments that give a keyword the same value keeps it so.
proof fn lemma_last_value_end(
    a: Seq<Seq<char>>,
    b: Seq<Seq<char>>,
    end: Seq<Seq<char>>,
    key: Seq<char>,
)
    requires
        last_value(a, key) == last_value(b, key),
    ensures
        last_value(a + end, key) == last_value(b + end, key),
    decreases end.len(),
{
    if end.len() == 0 {
        assert(a + end =~= a);
        assert(b + end =~= b);
    } else {
        assert((a + end).drop_last() =~= a + end.drop_last());
        assert((b + end).drop_last() =~= b + end.drop_last());
        assert((a + end).last() == end.last() && (b + end).last() == end.last());
        lemma_last_value_end(a, b, end.drop_last(), key);
    }
}

proof fn lemma_has_malformed_sum(a: Seq<Seq<char>>, b: Seq<Seq<char>>)
    ensures
        has_malformed(a + b) <==> has_malformed(a) || has_malformed(b),
{
    let all = a + b;
    if has_malformed(all) {
        let i = choose|i: int| 0 <= i < all.len() && malformed(#[trigger] all[i]);
        if i < a.len() {
            assert(malformed(a[i]));
        } else {
            assert(malformed(b[i - a.len()]));
        }
    }
    if has_malformed(a) {
        let i = choose|i: int| 0 <= i < a.len() && malformed(#[trigger] a[i]);
        assert(malformed(all[i]));
    }
    if has_malformed(b) {
        let i = choose|i: int| 0 <= i < b.len() && malformed(#[trigger] b[i]);
        assert(malformed(all[i + a.len()]));
    }
}

/// Whether no segment matters.
pub open spec fn none_matters(parts: Seq<Seq<char>>) -> bool {
    forall|i: int| 0 <= i < parts.len() ==> !matters(#[trigger] parts[i])
}

proof fn lemma_ignored(a: Seq<Seq<char>>, extra: Seq<Seq<char>>, key: Seq<char>)
    requires
        none_matters(extra),
        keyword(key),
    ensures
        last_value(a + extra, key) == last_value(a, key),
    decreases extra.len(),
{
    if extra.len() == 0 {
        assert(a + extra =~= a);
    } else {
        let start = extra.drop_last();
        assert(!matters(extra[extra.len() - 1]));
        assert(!sets(extra.last(), key));
        assert forall|i: int| 0 <= i < start.len() implies !matters(#[trigger] start[i]) by {
            assert(start[i] == extra[i]);
        }
        assert((a + extra).drop_last() =~= a + start);
        assert((a + extra).last() == extra.last());
        lemma_ignored(a, start, key);
    }
}

/// Segments that do not matter may be put in front of a connection string, behind it, or between two
/// of its segments: blank ones, and settings of anything but the keywords.
pub proof fn ignored_segments_may_be_added(
    before: Seq<char>,
    extra: Seq<char>,
    after: Seq<char>,
)
    requires
        none_matters(pieces(extra, ';')),
    ensures
        parsed_connection(before + seq![';'] + (extra + seq![';'] + after)) == parsed_connection(
            before + seq![';'] + after,
        ),
        parsed_connection(extra + seq![';'] + after) == parsed_connection(after),
        parsed_connection(before + seq![';'] + extra) == parsed_connection(before),
{
    let a = pieces(before, ';');
    let x = pieces(extra, ';');
    let b = pieces(after, ';');
    let none = Seq::<Seq<char>>::empty();
    lemma_pieces_sum(before, ';', extra + seq![';'] + after);
    lemma_pieces_sum(extra, ';', after);
    lemma_pieces_sum(before, ';', after);
    lemma_pieces_sum(before, ';', extra);
    assert(!has_malformed(x)) by {
        if has_malformed(x) {
            let i = choose|i: int| 0 <= i < x.len() && malformed(#[trigger] x[i]);
            assert(matters(x[i]));
        }
    }
    lemma_has_malformed_sum(a, x);
    lemma_has_malformed_sum(a, b);
    lemma_has_malformed_sum(x, b);
    lemma_has_malformed_sum(a + x, b);
    assert(a + (x + b) =~= (a + x) + b);
    assert(none + x =~= x);
    assert(none + b =~= b);
    assert forall|key: Seq<char>| keyword(key) implies #[trigger] last_value(
        (a + x) + b,
        key,
    ) == last_value(a + b, key) by {
        lemma_ignored(a, x, key);
        lemma_last_value_end(a + x, a, b, key);
    }
    assert forall|key: Seq<char>| keyword(key) implies #[trigger] last_value(x + b, key)
        == last_value(b, key) by {
        lemma_ignored(none, x, key);
        lemma_last_value_end(x, none, b, key);
    }
    assert forall|key: Seq<char>| keyword(key) implies #[trigger] last_value(a + x, key)
        == last_value(a, key) by {
        lemma_ignored(a, x, key);
    }
    lemma_read_alike(
        before + seq![';'] + (extra + seq![';'] + after),
        before + seq![';'] + after,
    );
    lemma_read_alike(extra + seq![';'] + after, after);
    lemma_read_alike(before + seq![';'] + extra, before);
}

/// A segment may be replaced by one that says the same, each in its place.
pub proof fn segments_may_be_respelled(conn: Seq<char>, other: Seq<char>)
    requires
        pieces(conn, ';').len() == pieces(other, ';').len(),
        forall|i: int|
            0 <= i < pieces(conn, ';').len() ==> alike(
                #[trigger] pieces(conn, ';')[i],
                pieces(other, ';')[i],
            ),
    ensures
        parsed_connection(conn) == parsed_connection(other),
{
    let a = pieces(conn, ';');
    let b = pieces(other, ';');
    assert forall|key: Seq<char>| keyword(key) implies #[trigger] last_value(a, key) == last_value(
        b,
        key,
    ) by {
        lemma_respelled(a, b, key);
    }
    if has_malformed(a) {
        let i = choose|i: int| 0 <= i < a.len() && malformed(#[trigger] a[i]);
        assert(malformed(b[i]));
    }
    if has_malformed(b) {
        let i = choose|i: int| 0 <= i < b.len() && malformed(#[trigger] b[i]);
        assert(alike(a[i], b[i]));
        assert(malformed(a[i]));
    }
    lemma_read_alike(conn, other);
}

proof fn lemma_respelled(a: Seq<Seq<char>>, b: Seq<Seq<char>>, key: Seq<char>)
    requires
        a.len() == b.len(),
        forall|i: int| 0 <= i < a.len() ==> alike(#[trigger] a[i], b[i]),
    ensures
        last_value(a, key) == last_value(b, key),
    decreases a.len(),
{
    if a.len() > 0 {
        assert(alike(a[a.len() - 1], b[b.len() - 1]));
        assert(sets(a.last(), key) == sets(b.last(), key));
        let x = a.drop_last();
        let y = b.drop_last();
        assert forall|i: int| 0 <= i < x.len() implies alike(#[trigger] x[i], y[i]) by {
            assert(alike(a[i], b[i]));
        }
        lemma_respelled(x, y, key);
    }
}

/// A setting says the same whatever the case of the letters in its keyword, and whatever white space
/// stands around the keyword, the value and the segment.
pub proof fn settings_may_be_respelled(
    keyword: Seq<char>,
    other_keyword: Seq<char>,
    value: Seq<char>,
    padding: Seq<Seq<char>>,
)
    requires
        !keyword.contains('='),
        !other_keyword.contains('='),
        lowercase(keyword) == lowercase(other_keyword),
        padding.len() == 4,
        forall|i: int| 0 <= i < 4 ==> blank(#[trigger] padding[i]),
    ensures
        alike(
            keyword + seq!['='] + value,
            (padding[0] + other_keyword + padding[1]) + seq!['='] + (padding[2] + value
                + padding[3]),
        ),
{
    let x = padding[0] + other_keyword + padding[1];
    let y = padding[2] + value + padding[3];
    let a = keyword + seq!['='] + value;
    let b = x + seq!['='] + y;
    assert(!x.contains('=')) by {
        if x.contains('=') {
            let i = x.index_of('=');
            if i < padding[0].len() {
                assert(is_space(padding[0][i]));
            } else if i < padding[0].len() + other_keyword.len() {
                assert(other_keyword[i - padding[0].len()] == '=');
            } else {
                assert(is_space(padding[1][i - padding[0].len() - other_keyword.len()]));
            }
        }
    }
    lemma_trimmed_sides(keyword, '=', value);
    lemma_trimmed_sides(x, '=', y);
    lemma_trimmed_padding(padding[0], other_keyword, padding[1]);
    lemma_trimmed_padding(padding[2], value, padding[3]);
    lemma_lower_trimmed(keyword);
    lemma_lower_trimmed(other_keyword);
    lemma_position(trimmed(a), '=');
    lemma_position(trimmed(b), '=');
}

/// A segment says the same with white space around it, whatever it is.
pub proof fn segments_may_be_padded(front: Seq<char>, part: Seq<char>, back: Seq<char>)
    requires
        blank(front),
        blank(back),
    ensures
        alike(part, front + part + back),
{
    lemma_trimmed_padding(front, part, back);
}

/// What stands on either side of the first equals sign of a segment, white space left out, is the
/// keyword, in whatever case, and its value, all of it.
pub proof fn settings_are_read_whole(keyword: Seq<char>, value: Seq<char>, key: Seq<char>)
    requires
        !keyword.contains('='),
    ensures
        ({
            let part = keyword + seq!['='] + value;
            &&& sets(part, key) <==> lowercase(trimmed(keyword)) == key
            &&& set_value(part) == trimmed(value)
            &&& !malformed(part)
        }),
{
    lemma_trimmed_sides(keyword, '=', value);
}

/// A segment without an equals sign sets nothing, and is malformed unless it is white space.
pub proof fn segments_without_a_setting_are_malformed(part: Seq<char>, key: Seq<char>)
    requires
        !part.contains('='),
    ensures
        !sets(part, key),
        malformed(part) <==> trimmed(part).len() > 0,
{
    trimming_takes_white_space_only(part);
    let (front, back) = choose|front: Seq<char>, back: Seq<char>|
        #![trigger blank(front), blank(back)]
        blank(front) && blank(back) && part == front + trimmed(part) + back;
    if trimmed(part).contains('=') {
        let i = trimmed(part).index_of('=');
        assert(part[front.len() + i] == '=');
    }
}

/// The last segment that sets a keyword gives it its value.
pub proof fn the_last_setting_counts(parts: Seq<Seq<char>>, key: Seq<char>, i: int)
    requires
        0 <= i < parts.len(),
        sets(parts[i], key),
        forall|j: int| i < j < parts.len() ==> !sets(#[trigger] parts[j], key),
    ensures
        last_value(parts, key) == Some(set_value(parts[i])),
    decreases parts.len(),
{
    if i < parts.len() - 1 {
        assert(!sets(parts[parts.len() - 1], key));
        let start = parts.drop_last();
        assert(start[i] == parts[i]);
        assert forall|j: int| i < j < start.len() implies !sets(#[trigger] start[j], key) by {
            assert(start[j] == parts[j]);
        }
        the_last_setting_counts(start, key, i);
    }
}

/// A keyword that no segment sets has no value.
pub proof fn keywords_that_are_not_set_have_no_value(parts: Seq<Seq<char>>, key: Seq<char>)
    requires
        forall|j: int| 0 <= j < parts.len() ==> !sets(#[trigger] parts[j], key),
    ensures
        last_value(parts, key) is None,
{
    lemma_last_value(parts, key);
}

/// The client of a connection string has the namespace in its endpoint, its policy and its whole
/// key. What is missing is the error: a malformed segment first, then the endpoint, its namespace,
/// the policy and the key.
pub proof fn connection_strings_are_checked_in_turn(conn: Seq<char>)
    ensures
        ({
            let parts = pieces(conn, ';');
            let endpoint = last_value(parts, "endpoint"@);
            let policy = last_value(parts, "sharedaccesskeyname"@);
            let key = last_value(parts, "sharedaccesskey"@);
            parsed_connection(conn) == (if has_malformed(parts) {
                Err::<ClientView, ErrorView>(
                    ErrorView::Config(
                        "invalid Service Bus connection string segment (missing '='): <redacted>"@,
                    ),
                )
            } else if endpoint is None {
                Err::<ClientView, ErrorView>(
                    ErrorView::Config("Service Bus connection string missing 'Endpoint'"@),
                )
            } else if namespace_in(endpoint->0).len() == 0 {
                Err::<ClientView, ErrorView>(
                    ErrorView::Config(
                        "could not parse namespace from Service Bus endpoint '"@ + endpoint->0
                            + "'"@,
                    ),
                )
            } else if policy is None {
                Err::<ClientView, ErrorView>(
                    ErrorView::Config(
                        "Service Bus connection string missing 'SharedAccessKeyName'"@,
                    ),
                )
            } else if key is None {
                Err::<ClientView, ErrorView>(
                    ErrorView::Config("Service Bus connection string missing 'SharedAccessKey'"@),
                )
            } else {
                Ok::<ClientView, ErrorView>(
                    ClientView {
                        namespace: namespace_in(endpoint->0),
                        policy_name: policy->0,
                        shared_access_key: key->0,
                        endpoint: "https://"@ + namespace_in(endpoint->0)
                            + ".servicebus.windows.net"@,
                    },
                )
            })
        }),
{
}

/// Whether `://` stands nowhere in a text.
pub open spec fn unschemed(s: Seq<char>) -> bool {
    forall|i: int|
        0 <= i && i + 2 < s.len() ==> !(#[trigger] s[i] == ':' && s[i + 1] == '/' && s[i + 2] == '/')
}

/// The namespace in an endpoint is what stands before the first dot of its host, all of it, whatever
/// the scheme and whatever follows the dot. An endpoint without a scheme is its host.
pub proof fn namespaces_stand_before_the_first_dot(
    scheme: Seq<char>,
    namespace: Seq<char>,
    rest: Seq<char>,
)
    requires
        !namespace.contains('.'),
        unschemed(namespace + seq!['.'] + rest),
    ensures
        namespace_in(scheme + seq![':', '/', '/'] + (namespace + seq!['.'] + rest)) == namespace,
        namespace_in(namespace + seq!['.'] + rest) == namespace,
{
    let host = namespace + seq!['.'] + rest;
    the_last_separator_ends_the_scheme(scheme, host);
    trimming_takes_slashes_only(host);
    let bare = without_trailing_slashes(host);
    assert(host[namespace.len() as int] == '.');
    assert(bare.len() > namespace.len());
    assert(bare == host.take(bare.len() as int));
    assert(bare[namespace.len() as int] == '.');
    assert forall|j: int| 0 <= j < namespace.len() implies bare[j] != '.' by {
        assert(bare[j] == namespace[j]);
    }
    lemma_position_is(bare, '.', namespace.len() as int);
    assert(before_first(bare, '.') =~= namespace);
}

/// A host without a dot is the namespace, trailing slashes left out.
pub proof fn hosts_without_a_dot_are_the_namespace(scheme: Seq<char>, host: Seq<char>)
    requires
        !host.contains('.'),
        unschemed(host),
    ensures
        namespace_in(scheme + seq![':', '/', '/'] + host) == without_trailing_slashes(host),
        namespace_in(host) == without_trailing_slashes(host),
        parsed_namespace(host) == (if without_trailing_slashes(host).len() == 0 {
            Err::<Seq<char>, ErrorView>(
                ErrorView::Config(
                    "could not parse namespace from Service Bus endpoint '"@ + host + "'"@,
                ),
            )
        } else {
            Ok::<Seq<char>, ErrorView>(without_trailing_slashes(host))
        }),
{
    the_last_separator_ends_the_scheme(scheme, host);
    trimming_takes_slashes_only(host);
    let bare = without_trailing_slashes(host);
    assert(!bare.contains('.')) by {
        if bare.contains('.') {
            let i = bare.index_of('.');
            assert(bare == host.take(bare.len() as int));
            assert(host[i] == '.');
        }
    }
    the_first_separator_parts_a_text(bare, '.');
}

/// A client has the namespace, the policy and the key it was given, whole, and the endpoint of its
/// namespace. Debug output shows all of it but the key.
pub proof fn clients_keep_what_they_are_given(
    namespace: Seq<char>,
    policy_name: Seq<char>,
    key: Seq<char>,
    client: ClientView,
)
    ensures
        client_of(namespace, policy_name, key) == (ClientView {
            namespace,
            policy_name,
            shared_access_key: key,
            endpoint: "https://"@ + namespace + ".servicebus.windows.net"@,
        }),
        namespace_endpoint(namespace) == "https://"@ + namespace + ".servicebus.windows.net"@,
        client_fields(client) == seq![
            ("namespace"@, client.namespace),
            ("policy_name"@, client.policy_name),
            ("endpoint"@, client.endpoint),
        ],
{
}

/// Whether a URL may carry a signature: it has the scheme `https`, or `http` and a host that is this
/// machine (`localhost`, `127.0.0.0/8` or `::1`).
pub open spec fn may_carry_signatures(url: UrlView) -> bool {
    ||| url.scheme == "https"@
    ||| url.scheme == "http"@ && match url.host {
        UrlHost::Missing => false,
        UrlHost::Domain => url.host_text matches Some(domain) && lowercase(domain)
            == "localhost"@,
        UrlHost::Ipv4(bits) => bits / 0x100_0000 == 127,
        UrlHost::Ipv6(bits) => bits == 1,
    }
}

/// An endpoint is accepted where it is a URL that may carry signatures, with a host and a path with
/// segments, and with neither query nor fragment. The error names the endpoint and what is wrong.
pub proof fn endpoints_are_checked_in_turn(
    endpoint: Seq<char>,
    read: std::result::Result<UrlView, Seq<char>>,
)
    ensures
        endpoint_verdict(endpoint, read) == (match read {
            Err(e) => Err::<(), ErrorView>(
                ErrorView::Config("invalid Service Bus endpoint '"@ + endpoint + "': "@ + e),
            ),
            Ok(url) => if !may_carry_signatures(url) {
                Err::<(), ErrorView>(
                    ErrorView::Config(
                        "Service Bus endpoint '"@ + endpoint + "' uses '"@ + url.scheme
                            + "': only https, or http on a loopback host, is allowed"@,
                    ),
                )
            } else if url.cannot_be_a_base || url.host == UrlHost::Missing || url.query is Some
                || url.fragment is Some {
                Err::<(), ErrorView>(
                    ErrorView::Config(
                        "Service Bus endpoint '"@ + endpoint
                            + "' must be a plain scheme://host[:port][/path] URL"@,
                    ),
                )
            } else {
                Ok::<(), ErrorView>(())
            },
        }),
        secure(read) <==> (read matches Ok(url) ==> may_carry_signatures(url)
            && !url.cannot_be_a_base),
        read matches Ok(url) ==> (safe_scheme(url) <==> may_carry_signatures(url)),
{
}

/// A client that is given another endpoint keeps its namespace, its policy and its key, and sends to
/// that endpoint, without slashes at its end.
pub proof fn redirected_clients_keep_the_rest(client: ClientView, endpoint: Seq<char>)
    ensures
        ({
            let plain = without_trailing_slashes(endpoint);
            redirected(client, endpoint) == (match endpoint_verdict(plain, url_parse(plain)) {
                Ok(_) => Ok::<ClientView, ErrorView>(
                    ClientView {
                        namespace: client.namespace,
                        policy_name: client.policy_name,
                        shared_access_key: client.shared_access_key,
                        endpoint: plain,
                    },
                ),
                Err(e) => Err::<ClientView, ErrorView>(e),
            })
        }),
{
}

} // verus!
