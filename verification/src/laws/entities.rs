//! Laws on queues, topics and subscriptions: which names they may have, what their URLs are, and
//! which lock locations they accept.
use vstd::prelude::*;
use vstd::utf8::*;

use crate::error::ErrorView;
use crate::laws::requests::{entities_have_three_urls, url_behind, whole_text};
use crate::laws::text::{joined, pieces_make_up_the_text};
use crate::laws::{
    double_slash_at, lemma_kept, literal_segment, names_have_no_empty_segment,
    plain_names_stand_in_the_path, slashed,
};
use crate::servicebus::client::ClientView;
use crate::servicebus::clients::{named_entity, named_subscription, NamedView};
use crate::servicebus::entity::{
    address_verdict, addresses_message, entity_of, entity_room, exact_path, lock_verdict,
    messages_path, name_verdict, subscription_of, EntityView,
};
use crate::text::{pieces, without_trailing_slashes};
use crate::uri::{
    all_descend, descends, dropped, has_room, kept, path_with, segment_encoded, segment_escaped,
    segment_size, segments_size, url_parse, without_last_slash, UrlView,
};

verus! {

/// Whether a name may be used: it is not empty, neither starts nor ends with a slash, and holds no
/// two slashes one behind the other.
pub open spec fn usable(name: Seq<char>) -> bool {
    &&& name.len() > 0
    &&& name[0] != '/'
    &&& name.last() != '/'
    &&& forall|i: int| !#[trigger] double_slash_at(name, i)
}

/// The error for a name that may not be used names it, in full.
pub open spec fn unusable(what: Seq<char>, name: Seq<char>) -> ErrorView {
    ErrorView::Config(
        "Service Bus "@ + what + " name '"@ + name + "' is empty or has an empty path segment"@,
    )
}

/// A name is accepted exactly when it may be used, and the error names it.
pub proof fn usable_names_are_accepted(what: Seq<char>, name: Seq<char>)
    ensures
        name_verdict(what, name) == (if usable(name) {
            Ok::<(), ErrorView>(())
        } else {
            Err::<(), ErrorView>(unusable(what, name))
        }),
{
    names_have_no_empty_segment(name);
}

/// Whether an entity can be addressed: its name may be used, then the name of the subscription, then
/// the endpoint is a URL, then the URL has a path with segments.
pub proof fn addresses_are_checked_in_turn(
    endpoint: Seq<char>,
    base: std::result::Result<UrlView, Seq<char>>,
    name: Seq<char>,
    subscription: Option<Seq<char>>,
)
    ensures
        address_verdict(endpoint, base, name, subscription) == (if !usable(name) {
            Err::<(), ErrorView>(unusable("entity"@, name))
        } else if subscription is Some && !usable(subscription->0) {
            Err::<(), ErrorView>(unusable("subscription"@, subscription->0))
        } else if base is Err {
            Err::<(), ErrorView>(
                ErrorView::Config(
                    "invalid Service Bus endpoint '"@ + endpoint + "': "@ + base->Err_0,
                ),
            )
        } else if base->Ok_0.cannot_be_a_base {
            Err::<(), ErrorView>(
                ErrorView::Config(
                    "Service Bus endpoint '"@ + endpoint + "' cannot carry a path"@,
                ),
            )
        } else {
            Ok::<(), ErrorView>(())
        }),
{
    names_have_no_empty_segment(name);
    if subscription is Some {
        names_have_no_empty_segment(subscription->0);
    }
}

/// The segments of an entity, joined by slashes, are its name, all of it; a subscription stands
/// behind its topic and the word `subscriptions`, with its whole name. The client is the one asked.
pub proof fn entities_keep_their_names(
    client: ClientView,
    name: Seq<char>,
    subscription: Option<Seq<char>>,
)
    ensures
        entity_of(client, name, subscription) matches Ok(entity) ==> {
            &&& entity.client == client
            &&& subscription is None ==> joined(entity.segments, '/') == name
            &&& subscription matches Some(s) ==> {
                let n = entity.segments.len() - 2;
                &&& n > 0
                &&& joined(entity.segments.take(n), '/') == name
                &&& entity.segments[n] == "subscriptions"@
                &&& entity.segments[n + 1] == s
            }
            &&& forall|i: int| 0 <= i < pieces(name, '/').len() ==> #[trigger] entity.segments[i]
                == pieces(name, '/')[i]
        },
        entity_of(client, name, subscription) is Ok <==> usable(name) && (
        subscription matches Some(s) ==> usable(s)) && (url_parse(
            client.endpoint,
        ) matches Ok(url) && !url.cannot_be_a_base),
        entity_of(client, name, subscription) matches Err(e) ==> Err::<(), ErrorView>(e)
            == address_verdict(client.endpoint, url_parse(client.endpoint), name, subscription),
{
    pieces_make_up_the_text(name, '/');
    addresses_are_checked_in_turn(
        client.endpoint,
        url_parse(client.endpoint),
        name,
        subscription,
    );
    if entity_of(client, name, subscription) is Ok && subscription is Some {
        let entity = entity_of(client, name, subscription)->Ok_0;
        let n = entity.segments.len() - 2;
        assert(entity.segments.take(n) =~= pieces(name, '/'));
    }
}

/// A subscription of a topic has the client of the topic and its segments, with `subscriptions` and
/// the whole name of the subscription behind them.
pub proof fn subscriptions_keep_their_names(topic: EntityView, subscription: Seq<char>)
    ensures
        subscription_of(topic, subscription) == (if usable(subscription) {
            Ok::<EntityView, ErrorView>(
                EntityView {
                    client: topic.client,
                    segments: topic.segments + seq!["subscriptions"@, subscription],
                },
            )
        } else {
            Err::<EntityView, ErrorView>(unusable("subscription"@, subscription))
        }),
{
    names_have_no_empty_segment(subscription);
}

/// A client that is asked for by name is the one of the entity with that name, and has the name.
pub proof fn clients_keep_the_name_asked_for(
    client: ClientView,
    topic: EntityView,
    name: Seq<char>,
)
    ensures
        named_entity(client, name) == (match entity_of(client, name, None) {
            Ok(entity) => Ok::<NamedView, ErrorView>(NamedView { entity, name }),
            Err(e) => Err::<NamedView, ErrorView>(e),
        }),
        named_subscription(topic, name) == (match subscription_of(topic, name) {
            Ok(entity) => Ok::<NamedView, ErrorView>(NamedView { entity, name }),
            Err(e) => Err::<NamedView, ErrorView>(e),
        }),
{
}

/// Whether a name stands in a URL as it is: each of its pieces does.
pub open spec fn plain_name(name: Seq<char>) -> bool {
    forall|i: int| 0 <= i < pieces(name, '/').len() ==> literal_segment(
        #[trigger] pieces(name, '/')[i],
    )
}

/// A path without a slash at its end; nothing is left of a path of slashes, be it one or two.
pub open spec fn start_of(path: Seq<char>) -> Seq<char> {
    if path == "/"@ || path == "//"@ {
        seq![]
    } else if path.len() > 0 && path.last() == '/' {
        path.drop_last()
    } else {
        path
    }
}

proof fn lemma_slashed_sum(a: Seq<Seq<char>>, b: Seq<Seq<char>>)
    ensures
        slashed(a + b) == slashed(a) + slashed(b),
    decreases b.len(),
{
    if b.len() == 0 {
        assert(a + b =~= a);
        assert(slashed(a) + slashed(b) =~= slashed(a));
    } else {
        assert((a + b).drop_last() =~= a + b.drop_last());
        assert((a + b).last() == b.last());
        lemma_slashed_sum(a, b.drop_last());
        assert(slashed(a + b) =~= slashed(a) + slashed(b));
    }
}

proof fn lemma_slashed_one(part: Seq<char>)
    ensures
        slashed(seq![part]) == "/"@ + part,
{
    let one = seq![part];
    assert(one.drop_last() =~= Seq::<Seq<char>>::empty());
    assert(slashed(one.drop_last()) =~= Seq::<char>::empty());
    assert(slashed(one) =~= "/"@ + part);
}

proof fn lemma_slashed_joined(parts: Seq<Seq<char>>)
    requires
        parts.len() > 0,
    ensures
        slashed(parts) == "/"@ + joined(parts, '/'),
    decreases parts.len(),
{
    reveal_strlit("/");
    lemma_slashed_one(parts[0]);
    if parts.len() == 1 {
        assert(parts =~= seq![parts[0]]);
    } else {
        let rest = parts.drop_first();
        assert(parts =~= seq![parts[0]] + rest);
        lemma_slashed_sum(seq![parts[0]], rest);
        lemma_slashed_joined(rest);
        assert(slashed(parts) =~= "/"@ + joined(parts, '/'));
    }
}

proof fn lemma_literal_word(word: Seq<char>)
    requires
        word.len() > 2,
        forall|i: int| 0 <= i < word.len() ==> 'a' <= #[trigger] word[i] <= 'z',
    ensures
        literal_segment(word),
{
    reveal_strlit(".");
    reveal_strlit("..");
    assert forall|i: int| 0 <= i < word.len() implies !segment_escaped(#[trigger] word[i] as u8) by {
        assert('a' <= word[i] <= 'z');
    }
    assert(is_ascii_chars(word));
}

proof fn lemma_literal_words()
    ensures
        literal_segment("messages"@),
        literal_segment("head"@),
        literal_segment("subscriptions"@),
{
    reveal_strlit("messages");
    reveal_strlit("head");
    reveal_strlit("subscriptions");
    lemma_literal_word("messages"@);
    lemma_literal_word("head"@);
    lemma_literal_word("subscriptions"@);
}

/// A literal segment leaves the path before it alone.
proof fn lemma_literal_descends(segment: Seq<char>)
    requires
        literal_segment(segment),
    ensures
        descends(segment),
{
    assert forall|i: int| 0 <= i < segment.len() implies !dropped(#[trigger] segment[i]) by {
        assert(!segment_escaped(segment[i] as u8));
    }
    lemma_kept(segment);
}

/// The path of an entity with plain segments is that of the endpoint with each segment behind a
/// slash.
proof fn lemma_plain_path(entity: EntityView, tail: Seq<Seq<char>>)
    requires
        exact_path(entity, tail),
        url_parse(entity.client.endpoint)->Ok_0.path.len() > 0,
        url_parse(entity.client.endpoint)->Ok_0.path[0] == '/',
        entity.segments.len() > 0,
        forall|i: int|
            0 <= i < entity.segments.len() ==> literal_segment(#[trigger] entity.segments[i]),
        forall|i: int| 0 <= i < tail.len() ==> literal_segment(#[trigger] tail[i]),
    ensures
        url_behind(entity, tail).path == start_of(url_parse(entity.client.endpoint)->Ok_0.path)
            + slashed(entity.segments) + slashed(tail),
{
    let path = url_parse(entity.client.endpoint)->Ok_0.path;
    let all = entity.segments + tail;
    assert forall|i: int| 0 <= i < all.len() implies literal_segment(#[trigger] all[i]) by {
        if i < entity.segments.len() {
            assert(all[i] == entity.segments[i]);
        } else {
            assert(all[i] == tail[i - entity.segments.len()]);
        }
    }
    assert forall|i: int| 0 <= i < all.len() implies descends(#[trigger] all[i]) by {
        lemma_literal_descends(all[i]);
    }
    plain_names_stand_in_the_path(path, all);
    lemma_slashed_sum(entity.segments, tail);
    let base = without_last_slash(path);
    reveal_strlit("/");
    reveal_strlit("//");
    if path.len() == 1 {
        assert(path =~= "/"@);
    } else if path.len() == 2 && path.last() == '/' {
        assert(path =~= "//"@);
    }
    if base.len() == 1 {
        assert(start_of(path) =~= seq![]);
    } else {
        assert(start_of(path) =~= base);
    }
    assert(url_behind(entity, tail).path =~= start_of(path) + slashed(entity.segments) + slashed(
        tail,
    ));
}

/// The paths of a queue or topic with a plain name are that of the endpoint, a slash and the whole
/// name, with `/messages` and `/messages/head` behind it.
pub proof fn plain_entities_have_their_name_as_path(
    client: ClientView,
    name: Seq<char>,
    entity: EntityView,
)
    requires
        entity_of(client, name, None) == Ok::<EntityView, ErrorView>(entity),
        plain_name(name),
        url_parse(client.endpoint)->Ok_0.path.len() > 0,
        url_parse(client.endpoint)->Ok_0.path[0] == '/',
        exact_path(entity, seq![]),
        exact_path(entity, seq!["messages"@]),
        exact_path(entity, seq!["messages"@, "head"@]),
    ensures
        ({
            let start = start_of(url_parse(client.endpoint)->Ok_0.path);
            &&& entity.root().path == start + "/"@ + name
            &&& entity.messages().path == start + "/"@ + name + "/messages"@
            &&& entity.head().path == start + "/"@ + name + "/messages/head"@
        }),
{
    let start = start_of(url_parse(client.endpoint)->Ok_0.path);
    pieces_make_up_the_text(name, '/');
    entities_have_three_urls(entity);
    entities_keep_their_names(client, name, None);
    assert(entity.segments =~= pieces(name, '/'));
    lemma_tails(entity, start, "/"@ + name);
}

/// The paths below an entity whose own segments make up a path.
proof fn lemma_tails(entity: EntityView, start: Seq<char>, own: Seq<char>)
    requires
        url_parse(entity.client.endpoint)->Ok_0.path.len() > 0,
        url_parse(entity.client.endpoint)->Ok_0.path[0] == '/',
        start == start_of(url_parse(entity.client.endpoint)->Ok_0.path),
        exact_path(entity, seq![]),
        exact_path(entity, seq!["messages"@]),
        exact_path(entity, seq!["messages"@, "head"@]),
        entity.segments.len() > 0,
        forall|i: int|
            0 <= i < entity.segments.len() ==> literal_segment(#[trigger] entity.segments[i]),
        own == "/"@ + joined(entity.segments, '/'),
    ensures
        url_behind(entity, seq![]).path == start + own,
        url_behind(entity, seq!["messages"@]).path == start + own + "/messages"@,
        url_behind(entity, seq!["messages"@, "head"@]).path == start + own + "/messages/head"@,
{
    reveal_strlit("/");
    reveal_strlit("messages");
    reveal_strlit("head");
    reveal_strlit("/messages");
    reveal_strlit("/messages/head");
    lemma_literal_words();
    lemma_slashed_joined(entity.segments);
    lemma_slashed_one("messages"@);
    lemma_slashed_one("head"@);
    lemma_slashed_sum(seq!["messages"@], seq!["head"@]);
    assert(seq!["messages"@] + seq!["head"@] =~= seq!["messages"@, "head"@]);
    lemma_plain_path(entity, seq![]);
    lemma_plain_path(entity, seq!["messages"@]);
    lemma_plain_path(entity, seq!["messages"@, "head"@]);
    assert(slashed(seq![]) =~= Seq::<char>::empty());
    assert(url_behind(entity, seq![]).path =~= start + own);
    assert(slashed(seq!["messages"@]) =~= "/messages"@);
    assert(slashed(seq!["messages"@, "head"@]) =~= "/messages/head"@);
}

proof fn lemma_joined_sum(a: Seq<Seq<char>>, b: Seq<Seq<char>>)
    requires
        a.len() > 0,
        b.len() > 0,
    ensures
        joined(a + b, '/') == joined(a, '/') + seq!['/'] + joined(b, '/'),
    decreases a.len(),
{
    if a.len() == 1 {
        assert((a + b).drop_first() =~= b);
        assert(joined(a + b, '/') =~= joined(a, '/') + seq!['/'] + joined(b, '/'));
    } else {
        assert((a + b).drop_first() =~= a.drop_first() + b);
        lemma_joined_sum(a.drop_first(), b);
        assert(joined(a + b, '/') =~= joined(a, '/') + seq!['/'] + joined(b, '/'));
    }
}

proof fn lemma_joined_subscription(topic: Seq<Seq<char>>, subscription: Seq<char>)
    requires
        topic.len() > 0,
    ensures
        joined(topic + seq!["subscriptions"@, subscription], '/') == joined(topic, '/')
            + "/subscriptions/"@ + subscription,
{
    reveal_strlit("/subscriptions/");
    reveal_strlit("subscriptions");
    let tail = seq!["subscriptions"@, subscription];
    lemma_joined_sum(topic, tail);
    assert(tail.drop_first() =~= seq![subscription]);
    reveal_with_fuel(joined, 3);
    assert(joined(tail, '/') =~= "subscriptions"@ + seq!['/'] + subscription);
    assert(joined(topic + tail, '/') =~= joined(topic, '/') + "/subscriptions/"@ + subscription);
}

/// The paths of a subscription with a plain name are that of its topic, `/subscriptions/` and the
/// whole name of the subscription, with `/messages` and `/messages/head` behind it. This holds
/// whether the subscription is addressed through the topic or at once.
pub proof fn plain_subscriptions_have_their_name_as_path(
    client: ClientView,
    name: Seq<char>,
    topic: EntityView,
    subscription: Seq<char>,
    entity: EntityView,
)
    requires
        entity_of(client, name, None) == Ok::<EntityView, ErrorView>(topic),
        subscription_of(topic, subscription) == Ok::<EntityView, ErrorView>(entity) || entity_of(
            client,
            name,
            Some(subscription),
        ) == Ok::<EntityView, ErrorView>(entity),
        plain_name(name),
        literal_segment(subscription),
        url_parse(client.endpoint)->Ok_0.path.len() > 0,
        url_parse(client.endpoint)->Ok_0.path[0] == '/',
        exact_path(topic, seq![]),
        exact_path(entity, seq![]),
        exact_path(entity, seq!["messages"@]),
        exact_path(entity, seq!["messages"@, "head"@]),
    ensures
        entity.root().path == topic.root().path + "/subscriptions/"@ + subscription,
        entity.messages().path == topic.root().path + "/subscriptions/"@ + subscription
            + "/messages"@,
        entity.head().path == topic.root().path + "/subscriptions/"@ + subscription
            + "/messages/head"@,
        entity.root().path == start_of(url_parse(client.endpoint)->Ok_0.path) + "/"@ + name
            + "/subscriptions/"@ + subscription,
{
    let start = start_of(url_parse(client.endpoint)->Ok_0.path);
    pieces_make_up_the_text(name, '/');
    entities_have_three_urls(entity);
    entities_have_three_urls(topic);
    entities_keep_their_names(client, name, None);
    entities_keep_their_names(client, name, Some(subscription));
    subscriptions_keep_their_names(topic, subscription);
    let segments = pieces(name, '/');
    assert(topic.segments =~= segments);
    assert(entity.segments =~= segments + seq!["subscriptions"@, subscription]);
    lemma_literal_words();
    assert forall|i: int| 0 <= i < entity.segments.len() implies literal_segment(
        #[trigger] entity.segments[i],
    ) by {
        if i < segments.len() {
            assert(entity.segments[i] == segments[i]);
        }
    }
    lemma_joined_subscription(segments, subscription);
    let own = "/"@ + name + "/subscriptions/"@ + subscription;
    assert(own =~= "/"@ + joined(entity.segments, '/'));
    lemma_tails(entity, start, own);
    lemma_plain_path(topic, seq![]);
    lemma_slashed_joined(topic.segments);
    assert(slashed(seq![]) =~= Seq::<char>::empty());
    assert(topic.root().path =~= start + "/"@ + name);
    assert(entity.root().path =~= topic.root().path + "/subscriptions/"@ + subscription);
    assert(entity.messages().path =~= topic.root().path + "/subscriptions/"@ + subscription
        + "/messages"@);
    assert(entity.head().path =~= topic.root().path + "/subscriptions/"@ + subscription
        + "/messages/head"@);
    assert(entity.root().path =~= start + "/"@ + name + "/subscriptions/"@ + subscription);
}

proof fn lemma_between(front: Seq<char>, a: Seq<char>, b: Seq<char>, back: Seq<char>)
    requires
        front + a + back == front + b + back,
    ensures
        a == b,
{
    let x = front + a + back;
    let y = front + b + back;
    assert(x.len() == front.len() + a.len() + back.len());
    assert(y.len() == front.len() + b.len() + back.len());
    assert forall|i: int| 0 <= i < a.len() implies a[i] == b[i] by {
        assert(x[front.len() + i] == a[i]);
        assert(y[front.len() + i] == b[i]);
    }
    assert(a =~= b);
}

/// Two subscriptions of a topic with different plain names have different scopes, so neither is
/// taken for the other.
pub proof fn different_subscriptions_have_different_scopes(
    client: ClientView,
    name: Seq<char>,
    topic: EntityView,
    a: Seq<char>,
    b: Seq<char>,
    first: EntityView,
    second: EntityView,
)
    requires
        entity_of(client, name, None) == Ok::<EntityView, ErrorView>(topic),
        subscription_of(topic, a) == Ok::<EntityView, ErrorView>(first),
        subscription_of(topic, b) == Ok::<EntityView, ErrorView>(second),
        plain_name(name),
        literal_segment(a),
        literal_segment(b),
        url_parse(client.endpoint)->Ok_0.path.len() > 0,
        url_parse(client.endpoint)->Ok_0.path[0] == '/',
        exact_path(topic, seq![]),
        exact_path(first, seq![]),
        exact_path(second, seq![]),
        first.scope() == second.scope(),
    ensures
        a == b,
{
    entities_have_three_urls(first);
    entities_have_three_urls(second);
    subscriptions_keep_their_names(topic, a);
    subscriptions_keep_their_names(topic, b);
    let base = url_parse(client.endpoint)->Ok_0;
    lemma_own_path(client, name, topic, a, first);
    lemma_own_path(client, name, topic, b, second);
    let front = base.before_path + start_of(base.path) + "/"@ + name + "/subscriptions/"@;
    let end = whole_text(UrlView { before_path: seq![], path: seq![], ..base });
    assert(whole_text(url_behind(first, seq![])) =~= front + a + end);
    assert(whole_text(url_behind(second, seq![])) =~= front + b + end);
    lemma_between(front, a, b, end);
}

proof fn lemma_own_path(
    client: ClientView,
    name: Seq<char>,
    topic: EntityView,
    subscription: Seq<char>,
    entity: EntityView,
)
    requires
        entity_of(client, name, None) == Ok::<EntityView, ErrorView>(topic),
        subscription_of(topic, subscription) == Ok::<EntityView, ErrorView>(entity),
        plain_name(name),
        literal_segment(subscription),
        url_parse(client.endpoint)->Ok_0.path.len() > 0,
        url_parse(client.endpoint)->Ok_0.path[0] == '/',
        exact_path(entity, seq![]),
    ensures
        url_behind(entity, seq![]).path == start_of(url_parse(client.endpoint)->Ok_0.path) + "/"@
            + name + "/subscriptions/"@ + subscription,
{
    pieces_make_up_the_text(name, '/');
    entities_keep_their_names(client, name, None);
    subscriptions_keep_their_names(topic, subscription);
    let segments = pieces(name, '/');
    assert(topic.segments =~= segments);
    lemma_literal_words();
    assert forall|i: int| 0 <= i < entity.segments.len() implies literal_segment(
        #[trigger] entity.segments[i],
    ) by {
        if i < segments.len() {
            assert(entity.segments[i] == segments[i]);
        }
    }
    lemma_joined_subscription(segments, subscription);
    lemma_slashed_joined(entity.segments);
    lemma_plain_path(entity, seq![]);
    assert(slashed(seq![]) =~= Seq::<char>::empty());
    assert(url_behind(entity, seq![]).path =~= start_of(url_parse(client.endpoint)->Ok_0.path)
        + "/"@ + name + "/subscriptions/"@ + subscription);
}

/// Two queues or topics of a client with different plain names have different scopes.
pub proof fn different_entities_have_different_scopes(
    client: ClientView,
    a: Seq<char>,
    b: Seq<char>,
    first: EntityView,
    second: EntityView,
)
    requires
        entity_of(client, a, None) == Ok::<EntityView, ErrorView>(first),
        entity_of(client, b, None) == Ok::<EntityView, ErrorView>(second),
        plain_name(a),
        plain_name(b),
        url_parse(client.endpoint)->Ok_0.path.len() > 0,
        url_parse(client.endpoint)->Ok_0.path[0] == '/',
        exact_path(first, seq![]),
        exact_path(second, seq![]),
        first.scope() == second.scope(),
    ensures
        a == b,
{
    entities_have_three_urls(first);
    entities_have_three_urls(second);
    entities_keep_their_names(client, a, None);
    entities_keep_their_names(client, b, None);
    pieces_make_up_the_text(a, '/');
    pieces_make_up_the_text(b, '/');
    assert(first.segments =~= pieces(a, '/'));
    assert(second.segments =~= pieces(b, '/'));
    lemma_slashed_joined(first.segments);
    lemma_slashed_joined(second.segments);
    lemma_plain_path(first, seq![]);
    lemma_plain_path(second, seq![]);
    assert(slashed(seq![]) =~= Seq::<char>::empty());
    let base = url_parse(client.endpoint)->Ok_0;
    let front = base.before_path + start_of(base.path) + "/"@;
    let end = whole_text(UrlView { before_path: seq![], path: seq![], ..base });
    assert(whole_text(url_behind(first, seq![])) =~= front + a + end);
    assert(whole_text(url_behind(second, seq![])) =~= front + b + end);
    lemma_between(front, a, b, end);
}

/// The path that is promised is that of the endpoint with every segment behind it, for all segments
/// that do not spell `..` with a dropped character in it.
pub proof fn promised_paths_hold_every_segment(entity: EntityView, tail: Seq<Seq<char>>)
    ensures
        exact_path(entity, tail) <==> (url_parse(entity.client.endpoint) matches Ok(url) && ((forall|
            i: int,
        |
            0 <= i < (entity.segments + tail).len() ==> (kept(
                #[trigger] (entity.segments + tail)[i],
            ) == ".."@ ==> (entity.segments + tail)[i] == ".."@)) ==> url_behind(entity, tail).path
            == path_with(url.path, entity.segments + tail))),
{
    let all = entity.segments + tail;
    let spelled = forall|i: int|
        0 <= i < all.len() ==> (kept(#[trigger] all[i]) == ".."@ ==> all[i] == ".."@);
    if all_descend(all) {
        assert forall|i: int| 0 <= i < all.len() && kept(#[trigger] all[i]) == ".."@ implies all[i]
            == ".."@ by {
            assert(descends(all[i]));
        }
    }
    if spelled {
        assert forall|i: int| 0 <= i < all.len() implies descends(#[trigger] all[i]) by {}
    }
}

/// A lock location is accepted exactly when it has the scheme, the host and the port of the entity,
/// a path that starts with that of the entity, without slashes at its end, and `/messages/`, and no
/// fragment. It is then taken as it is. Otherwise the error names what is wrong.
pub proof fn lock_locations_are_checked(
    root: UrlView,
    url: std::result::Result<UrlView, Seq<char>>,
)
    ensures
        lock_verdict(root, url) == (match url {
            Err(e) => Err::<UrlView, ErrorView>(
                ErrorView::Service("invalid Service Bus lock location: "@ + e),
            ),
            Ok(url) => {
                let start = without_trailing_slashes(root.path) + "/messages/"@;
                if url.scheme == root.scheme && url.host_text == root.host_text && url.port
                    == root.port && start.len() <= url.path.len() && url.path.take(
                    start.len() as int,
                ) == start && url.fragment is None {
                    Ok::<UrlView, ErrorView>(url)
                } else {
                    Err::<UrlView, ErrorView>(
                        ErrorView::Service(
                            "Service Bus returned a lock location outside "@ + root.path
                                + "; refusing to send credentials to it"@,
                        ),
                    )
                }
            },
        }),
        messages_path(root) == without_trailing_slashes(root.path) + "/messages/"@,
        url matches Ok(url) ==> (addresses_message(root, url) <==> lock_verdict(root, Ok(url)) is Ok),
{
}

/// There is room for an entity where its longest URL takes at most 4 GiB: the URL of the endpoint,
/// and a slash and the percent-encoded text for each segment but `.` and `..`.
pub proof fn room_is_counted_in_bytes(
    url: UrlView,
    segments: Seq<Seq<char>>,
    segment: Seq<char>,
    e: Seq<char>,
)
    ensures
        has_room(url, segments) <==> encode_utf8(url.text()).len() + segments_size(segments)
            <= 0xffff_ffff,
        entity_room(Ok(url), segments) <==> has_room(url, segments + seq!["messages"@, "head"@]),
        entity_room(Err(e), segments),
        segments_size(seq![]) == 0,
        segments_size(segments.push(segment)) == segments_size(segments) + segment_size(segment),
        segment == "."@ || segment == ".."@ ==> segment_size(segment) == 0,
        segment != "."@ && segment != ".."@ ==> segment_size(segment) == 1 + segment_encoded(
            encode_utf8(segment),
        ).len(),
        segment_size(segment) <= 1 + 3 * encode_utf8(segment).len(),
{
    assert(segments.push(segment).drop_last() =~= segments);
    lemma_encoded_len(encode_utf8(segment));
}

proof fn lemma_encoded_len(bytes: Seq<u8>)
    ensures
        segment_encoded(bytes).len() <= 3 * bytes.len(),
    decreases bytes.len(),
{
    if bytes.len() > 0 {
        lemma_encoded_len(bytes.drop_last());
    }
}

} // verus!
