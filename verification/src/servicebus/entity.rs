//! Queues, topics and subscriptions: their names, their URLs and the lock locations they accept.
use vstd::prelude::*;
use vstd::string::*;
use vstd::utf8::*;

use crate::error::{agrees, AzureError, ErrorView, Result};
use crate::servicebus::client::{
    invalid_endpoint, safe_scheme, secure, ClientView, ServiceBusClient,
};
use crate::text::{
    has_prefix, optional, pieces, same_text, split, starts_with, string_views, trim_end_slashes,
    views, without_trailing_slashes,
};
use crate::uri::{
    all_descend, extend_path, has_room, is_escaped, parse_url, parse_view, path_with,
    segment_encoded, segment_size, segments_size, url_extended_path, url_parse, UrlParts, UrlView,
};

verus! {

/// Whether a name is not empty and has no empty piece between its slashes.
pub open spec fn well_named(name: Seq<char>) -> bool {
    forall|i: int| 0 <= i < pieces(name, '/').len() ==> (#[trigger] pieces(name, '/')[i]).len() > 0
}

/// Whether a name may be used, and the error where it may not.
pub open spec fn name_verdict(what: Seq<char>, name: Seq<char>) -> std::result::Result<
    (),
    ErrorView,
> {
    if well_named(name) {
        Ok(())
    } else {
        Err(
            ErrorView::Config(
                "Service Bus "@ + what + " name '"@ + name
                    + "' is empty or has an empty path segment"@,
            ),
        )
    }
}

/// A queue, topic or topic subscription addressed through one namespace client.
pub struct Entity {
    client: ServiceBusClient,
    segments: Vec<String>,
    root: UrlParts,
}

/// What an [`Entity`] is made of.
pub struct EntityView {
    /// The client that it is addressed through.
    pub client: ClientView,
    /// The segments behind the path of the endpoint.
    pub segments: Seq<Seq<char>>,
}

impl EntityView {
    /// The URL below the entity.
    pub open spec fn url(self, tail: Seq<Seq<char>>) -> UrlView {
        UrlView {
            path: url_extended_path(self.client.endpoint, self.segments + tail)->0,
            ..url_parse(self.client.endpoint)->Ok_0
        }
    }

    /// The URL of the entity itself, e.g. `https://ns.servicebus.windows.net/orders`.
    pub open spec fn root(self) -> UrlView {
        self.url(seq![])
    }

    /// The URL of the entity as text: what its signatures are made for.
    pub open spec fn scope(self) -> Seq<char> {
        self.root().text()
    }

    /// The URL that messages are sent to.
    pub open spec fn messages(self) -> UrlView {
        self.url(seq!["messages"@])
    }

    /// The URL that messages are received from.
    pub open spec fn head(self) -> UrlView {
        self.url(head_tail())
    }
}

/// Whether the path of a URL below an entity is that of the endpoint followed by the segments, each
/// percent-encoded without tabs, line feeds and carriage returns. This is not said where a segment
/// spells `..` with one of those in it.
pub open spec fn exact_path(entity: EntityView, tail: Seq<Seq<char>>) -> bool {
    url_parse(entity.client.endpoint) matches Ok(url) && (all_descend(entity.segments + tail)
        ==> entity.url(tail).path == path_with(url.path, entity.segments + tail))
}

/// The segments of the URL that messages are received from.
pub open spec fn head_tail() -> Seq<Seq<char>> {
    seq!["messages"@, "head"@]
}

/// Whether an entity with these segments has URLs of at most 4 GiB below an endpoint.
pub open spec fn entity_room(
    base: std::result::Result<UrlView, Seq<char>>,
    segments: Seq<Seq<char>>,
) -> bool {
    base matches Ok(url) ==> has_room(url, segments + head_tail())
}

/// The segments of an entity and of one of its subscriptions.
pub open spec fn entity_segments(name: Seq<char>, subscription: Option<Seq<char>>) -> Seq<
    Seq<char>,
> {
    match subscription {
        Some(subscription) => pieces(name, '/') + subscription_tail(subscription),
        None => pieces(name, '/'),
    }
}

/// The segments of a subscription, behind those of its topic.
pub open spec fn subscription_tail(subscription: Seq<char>) -> Seq<Seq<char>> {
    seq!["subscriptions"@, subscription]
}

/// Whether an entity can be addressed below an endpoint, given what the endpoint is read as.
pub open spec fn address_verdict(
    endpoint: Seq<char>,
    base: std::result::Result<UrlView, Seq<char>>,
    name: Seq<char>,
    subscription: Option<Seq<char>>,
) -> std::result::Result<(), ErrorView> {
    if !well_named(name) {
        Err(name_verdict("entity"@, name)->Err_0)
    } else if subscription matches Some(s) && !well_named(s) {
        Err(name_verdict("subscription"@, subscription->0)->Err_0)
    } else {
        match base {
            Err(e) => Err(invalid_endpoint(endpoint, e)),
            Ok(url) => if url.cannot_be_a_base {
                Err(
                    ErrorView::Config(
                        "Service Bus endpoint '"@ + endpoint + "' cannot carry a path"@,
                    ),
                )
            } else {
                Ok(())
            },
        }
    }
}

/// The outcome of addressing an entity.
pub open spec fn entity_of(
    client: ClientView,
    name: Seq<char>,
    subscription: Option<Seq<char>>,
) -> std::result::Result<EntityView, ErrorView> {
    match address_verdict(client.endpoint, url_parse(client.endpoint), name, subscription) {
        Ok(_) => Ok(EntityView { client, segments: entity_segments(name, subscription) }),
        Err(e) => Err(e),
    }
}

/// A text that may be missing, as characters.
pub open spec fn optional_text(text: Option<&str>) -> Option<Seq<char>> {
    match text {
        Some(text) => Some(text@),
        None => None,
    }
}

/// The outcome of addressing a subscription of a topic.
pub open spec fn subscription_of(topic: EntityView, subscription: Seq<char>) -> std::result::Result<
    EntityView,
    ErrorView,
> {
    match name_verdict("subscription"@, subscription) {
        Err(e) => Err(e),
        Ok(_) => Ok(
            EntityView { segments: topic.segments + subscription_tail(subscription), ..topic },
        ),
    }
}

/// What the path of a lock location starts with.
pub open spec fn messages_path(root: UrlView) -> Seq<char> {
    without_trailing_slashes(root.path) + "/messages/"@
}

/// Whether a URL addresses a message of the entity: it has the same origin, lies below the
/// messages of the entity, and has no fragment.
pub open spec fn addresses_message(root: UrlView, url: UrlView) -> bool {
    url.same_origin(root) && has_prefix(url.path, messages_path(root)) && url.fragment is None
}

/// Whether a lock location is accepted, given what it is read as.
pub open spec fn lock_verdict(
    root: UrlView,
    url: std::result::Result<UrlView, Seq<char>>,
) -> std::result::Result<UrlView, ErrorView> {
    match url {
        Err(e) => Err(ErrorView::Service("invalid Service Bus lock location: "@ + e)),
        Ok(url) => if addresses_message(root, url) {
            Ok(url)
        } else {
            Err(
                ErrorView::Service(
                    "Service Bus returned a lock location outside "@ + root.path
                        + "; refusing to send credentials to it"@,
                ),
            )
        },
    }
}

/// Check that a name is not empty and has no empty path segment.
pub fn validate_name(what: &str, name: &str) -> (r: Result<()>)
    ensures
        agrees(r, name_verdict(what@, name@)),
{
    let parts = split(name, '/');
    let ghost all = pieces(name@, '/');
    let mut i: usize = 0;
    proof {
        reveal_strlit("");
    }
    while i < parts.len()
        invariant
            i <= parts.len(),
            ""@.len() == 0,
            views(parts@) == all,
            all == pieces(name@, '/'),
            forall|j: int| 0 <= j < i ==> (#[trigger] all[j]).len() > 0,
        decreases parts.len() - i,
    {
        assert(all[i as int] == parts@[i as int]@);
        if same_text(parts[i], "") {
            return Err(
                AzureError::Config(
                    "Service Bus ".to_string().concat(what).concat(" name '").concat(name).concat(
                        "' is empty or has an empty path segment",
                    ),
                ),
            );
        }
        assert(all[i as int].len() == 0 ==> all[i as int] =~= ""@);
        i += 1;
    }
    Ok(())
}

/// Check that an entity, or one of its subscriptions, can be addressed below an endpoint, given what
/// the endpoint was read as.
pub fn check_address(
    endpoint: &str,
    base: &std::result::Result<UrlParts, String>,
    name: &str,
    subscription: Option<&str>,
) -> (r: Result<()>)
    ensures
        agrees(
            r,
            address_verdict(endpoint@, parse_view(*base), name@, optional_text(subscription)),
        ),
{
    match validate_name("entity", name) {
        Ok(_) => {},
        Err(e) => return Err(e),
    }
    if let Some(sub) = subscription {
        match validate_name("subscription", sub) {
            Ok(_) => {},
            Err(e) => return Err(e),
        }
    }
    match base {
        Err(e) => Err(
            AzureError::Config(
                "invalid Service Bus endpoint '".to_string().concat(endpoint).concat("': ").concat(
                    e.as_str(),
                ),
            ),
        ),
        Ok(url) => if url.cannot_be_a_base {
            Err(
                AzureError::Config(
                    "Service Bus endpoint '".to_string().concat(endpoint).concat(
                        "' cannot carry a path",
                    ),
                ),
            )
        } else {
            Ok(())
        },
    }
}

/// Whether two texts that may be missing are the same.
fn same_optional(a: &Option<String>, b: &Option<String>) -> (r: bool)
    ensures
        r == (optional(*a) == optional(*b)),
{
    match (a, b) {
        (Some(a), Some(b)) => same_text(a.as_str(), b.as_str()),
        (None, None) => true,
        _ => false,
    }
}

/// Accept a lock location only if it addresses a message of the entity at `root`, given what it
/// was read as.
pub fn check_lock_location(root: &UrlParts, url: std::result::Result<UrlParts, String>) -> (r:
    Result<UrlParts>)
    ensures
        agrees(r, lock_verdict(root@, parse_view(url))),
{
    let url = match url {
        Ok(url) => url,
        Err(e) => return Err(
            AzureError::Service(
                "invalid Service Bus lock location: ".to_string().concat(e.as_str()),
            ),
        ),
    };
    let messages = trim_end_slashes(root.path.as_str()).to_string().concat("/messages/");
    let same_origin = same_text(url.scheme.as_str(), root.scheme.as_str()) && same_optional(
        &url.host_text,
        &root.host_text,
    ) && url.port == root.port;
    if !same_origin || !starts_with(url.path.as_str(), messages.as_str()) || url.fragment.is_some() {
        return Err(
            AzureError::Service(
                "Service Bus returned a lock location outside ".to_string().concat(
                    root.path.as_str(),
                ).concat("; refusing to send credentials to it"),
            ),
        );
    }
    Ok(url)
}

/// Segments take at least the room that the first of them take.
proof fn lemma_size_sum(a: Seq<Seq<char>>, b: Seq<Seq<char>>)
    ensures
        segments_size(a + b) == segments_size(a) + segments_size(b),
        segments_size(b) >= 0,
    decreases b.len(),
{
    if b.len() == 0 {
        assert(a + b =~= a);
    } else {
        lemma_size_sum(a, b.drop_last());
        assert((a + b).drop_last() =~= a + b.drop_last());
        assert((a + b).last() == b.last());
    }
}

/// The number of bytes that a segment adds to a path, at most.
fn size_of_segment(segment: &str) -> (r: u128)
    ensures
        r == segment_size(segment@),
        r <= 1 + 3 * usize::MAX,
{
    if same_text(segment, ".") || same_text(segment, "..") {
        return 0;
    }
    let bytes = segment.as_bytes();
    let mut size: u128 = 1;
    let mut i: usize = 0;
    assert(bytes@.take(0) =~= seq![]);
    while i < bytes.len()
        invariant
            i <= bytes.len(),
            size == 1 + segment_encoded(bytes@.take(i as int)).len(),
            size <= 1 + 3 * i,
        decreases bytes.len() - i,
    {
        proof {
            assert(bytes@.take(i + 1).drop_last() =~= bytes@.take(i as int));
            assert(bytes@.take(i + 1).last() == bytes@[i as int]);
        }
        size = size + if is_escaped(bytes[i]) {
            3
        } else {
            1
        };
        i += 1;
    }
    assert(bytes@.take(i as int) =~= bytes@);
    size
}

/// Whether a URL with these segments behind its path stays within 4 GiB.
fn fits(url: &UrlParts, segments: &Vec<String>) -> (r: bool)
    ensures
        r == has_room(url@, string_views(segments@)),
{
    let limit: u128 = 0xffff_ffff;
    let mut total: u128 = url.as_text().as_str().as_bytes().len() as u128;
    let mut i: usize = 0;
    let ghost all = string_views(segments@);
    let ghost start = encode_utf8(url@.text()).len();
    assert(all.take(0) =~= seq![]);
    while i < segments.len()
        invariant
            i <= segments.len(),
            all == string_views(segments@),
            limit == 0xffff_ffff,
            start == encode_utf8(url@.text()).len(),
            total == start + segments_size(all.take(i as int)),
            total <= limit || i == 0,
        decreases segments.len() - i,
    {
        if total > limit {
            proof {
                lemma_size_sum(all.take(i as int), all.skip(i as int));
                assert(all.take(i as int) + all.skip(i as int) =~= all);
            }
            return false;
        }
        proof {
            assert(all.take(i + 1).drop_last() =~= all.take(i as int));
            assert(all.take(i + 1).last() == segments@[i as int]@);
        }
        total = total + size_of_segment(segments[i].as_str());
        i += 1;
        if total > limit {
            proof {
                lemma_size_sum(all.take(i as int), all.skip(i as int));
                assert(all.take(i as int) + all.skip(i as int) =~= all);
            }
            return false;
        }
    }
    assert(all.take(i as int) =~= all);
    total <= limit
}

/// Put segments behind others.
fn push_all(segments: &mut Vec<String>, more: &[&str])
    ensures
        string_views(final(segments)@) == string_views(old(segments)@) + views(more@),
{
    let ghost before = string_views(segments@);
    let mut i: usize = 0;
    assert(before + views(more@).take(0) =~= before);
    while i < more.len()
        invariant
            i <= more.len(),
            string_views(segments@) == before + views(more@).take(i as int),
        decreases more.len() - i,
    {
        let ghost now = string_views(segments@);
        segments.push(more[i].to_string());
        i += 1;
        proof {
            assert(string_views(segments@) =~= now.push(more@[i - 1]@));
            assert(string_views(segments@) =~= before + views(more@).take(i as int));
        }
    }
    assert(views(more@).take(i as int) =~= views(more@));
}

/// A copy of a list of segments.
fn clone_segments(segments: &Vec<String>) -> (r: Vec<String>)
    ensures
        string_views(r@) == string_views(segments@),
{
    let mut copy: Vec<String> = Vec::new();
    let mut i: usize = 0;
    while i < segments.len()
        invariant
            i <= segments.len(),
            copy.len() == i,
            forall|j: int| 0 <= j < i ==> copy@[j]@ == (#[trigger] segments@[j])@,
        decreases segments.len() - i,
    {
        copy.push(segments[i].clone());
        i += 1;
    }
    assert(string_views(copy@) =~= string_views(segments@));
    copy
}

/// Whether an entity with these segments has URLs of at most 4 GiB below the endpoint of a client.
fn room_below(client: &ServiceBusClient, segments: Vec<String>) -> (r: bool)
    ensures
        r == entity_room(client.base(), string_views(segments@)),
{
    let mut segments = segments;
    let tail: [&str; 2] = ["messages", "head"];
    push_all(&mut segments, &tail);
    assert(views(tail@) =~= head_tail());
    match client.base_url() {
        Ok(url) => fits(url, &segments),
        Err(_) => true,
    }
}

impl ServiceBusClient {
    /// Whether there is room for a queue or topic of this name: its URLs take at most 4 GiB.
    pub fn has_room_for(&self, name: &str) -> (r: bool)
        ensures
            r == entity_room(self.base(), pieces(name@, '/')),
    {
        let mut segments: Vec<String> = Vec::new();
        push_all(&mut segments, split(name, '/').as_slice());
        assert(string_views(segments@) =~= pieces(name@, '/'));
        room_below(self, segments)
    }
}

impl View for Entity {
    type V = EntityView;

    closed spec fn view(&self) -> EntityView {
        EntityView { client: self.client@, segments: string_views(self.segments@) }
    }
}

impl Clone for Entity {
    fn clone(&self) -> (r: Self)
        ensures
            r@ == self@,
            r.base() == self.base(),
    {
        proof {
            use_type_invariant(self);
        }
        Entity {
            client: self.client.clone(),
            segments: clone_segments(&self.segments),
            root: self.root.clone(),
        }
    }
}

impl Entity {
    #[verifier::type_invariant]
    spec fn addressable(self) -> bool {
        &&& self.base() == url_parse(self@.client.endpoint)
        &&& self.base() matches Ok(url) && !url.cannot_be_a_base
        &&& secure(self.base())
        &&& self.root@ == self@.root()
        &&& exact_path(self@, seq![])
        &&& entity_room(self.base(), self@.segments)
    }

    /// What the endpoint of the client is read as.
    pub closed spec fn base(self) -> std::result::Result<UrlView, Seq<char>> {
        self.client.base()
    }

    /// The client that the entity is addressed through.
    pub(crate) fn client(&self) -> (r: &ServiceBusClient)
        ensures
            r@ == self@.client,
    {
        &self.client
    }

    /// Address the entity `name`, or one of its subscriptions, through `client`.
    pub(crate) fn new(client: ServiceBusClient, name: &str, subscription: Option<&str>) -> (r: Result<
        Self,
    >)
        requires
            entity_room(client.base(), entity_segments(name@, optional_text(subscription))),
        ensures
            agrees(r, entity_of(client@, name@, optional_text(subscription))),
            r matches Ok(entity) ==> entity.base() == client.base() && exact_path(entity@, seq![]),
    {
        match check_address(client.endpoint(), client.base_url(), name, subscription) {
            Ok(_) => {},
            Err(e) => return Err(e),
        }
        let base = client.base_url().as_ref().unwrap().clone();
        let mut segments: Vec<String> = Vec::new();
        push_all(&mut segments, split(name, '/').as_slice());
        assert(string_views(segments@) =~= pieces(name@, '/'));
        if let Some(sub) = subscription {
            let ghost before = string_views(segments@);
            let tail: [&str; 2] = ["subscriptions", sub];
            push_all(&mut segments, &tail);
            assert(views(tail@) =~= subscription_tail(sub@));
        }
        Entity::at(client, segments, base)
    }

    /// The entity with these segments below the endpoint, which was read as `base`.
    fn at(client: ServiceBusClient, segments: Vec<String>, base: UrlParts) -> (r: Result<Self>)
        requires
            client.base() == Ok::<UrlView, Seq<char>>(base@),
            client.base() == url_parse(client@.endpoint),
            secure(client.base()),
            !base@.cannot_be_a_base,
            entity_room(client.base(), string_views(segments@)),
        ensures
            r matches Ok(entity) && entity@ == (EntityView {
                client: client@,
                segments: string_views(segments@),
            }) && entity.base() == client.base() && exact_path(entity@, seq![]),
    {
        proof {
            lemma_size_sum(string_views(segments@), head_tail());
            assert(string_views(segments@) + seq![] =~= string_views(segments@));
        }
        match extend_path(client.endpoint(), &segments) {
            Some(path) => Ok(Entity { client, segments, root: base.with_path(path) }),
            None => Err(
                AzureError::Config("Service Bus entity URL cannot carry a path".to_string()),
            ),
        }
    }

    /// Whether there is room for a subscription of this name.
    pub(crate) fn has_room_for(&self, subscription: &str) -> (r: bool)
        ensures
            r == entity_room(self.base(), self@.segments + subscription_tail(subscription@)),
    {
        let mut segments = clone_segments(&self.segments);
        let tail: [&str; 2] = ["subscriptions", subscription];
        push_all(&mut segments, &tail);
        assert(views(tail@) =~= subscription_tail(subscription@));
        room_below(&self.client, segments)
    }

    /// Address a subscription of this topic.
    pub(crate) fn subscription(&self, subscription: &str) -> (r: Result<Self>)
        requires
            entity_room(self.base(), self@.segments + subscription_tail(subscription@)),
        ensures
            agrees(r, subscription_of(self@, subscription@)),
            r matches Ok(entity) ==> entity.base() == self.base() && exact_path(entity@, seq![]),
    {
        match validate_name("subscription", subscription) {
            Ok(_) => {},
            Err(e) => return Err(e),
        }
        proof {
            use_type_invariant(self);
        }
        let mut segments = clone_segments(&self.segments);
        let tail: [&str; 2] = ["subscriptions", subscription];
        push_all(&mut segments, &tail);
        assert(views(tail@) =~= subscription_tail(subscription@));
        let base = match self.client.base_url() {
            Ok(url) => url.clone(),
            Err(_) => return Err(
                AzureError::Config("Service Bus entity URL cannot carry a path".to_string()),
            ),
        };
        Entity::at(self.client.clone(), segments, base)
    }

    /// The URL below the entity.
    pub(crate) fn url(&self, tail: &[&str]) -> (r: UrlParts)
        requires
            self.base() matches Ok(url) ==> has_room(url, self@.segments + views(tail@)),
        ensures
            r@ == self@.url(views(tail@)),
            safe_scheme(r@),
            exact_path(self@, views(tail@)),
    {
        proof {
            use_type_invariant(self);
        }
        let mut segments = clone_segments(&self.segments);
        push_all(&mut segments, tail);
        let path = match extend_path(self.client.endpoint(), &segments) {
            Some(path) => path,
            None => self.root.path.clone(),
        };
        self.root.clone().with_path(path)
    }

    /// The URL that messages are sent to.
    pub fn messages_url(&self) -> (r: UrlParts)
        ensures
            r@ == self@.messages(),
            safe_scheme(r@),
            exact_path(self@, seq!["messages"@]),
    {
        let tail: [&str; 1] = ["messages"];
        proof {
            use_type_invariant(self);
            lemma_size_sum(self@.segments + seq!["messages"@], seq!["head"@]);
            assert(self@.segments + seq!["messages"@] + seq!["head"@] =~= self@.segments
                + head_tail());
            assert(views(tail@) =~= seq!["messages"@]);
        }
        self.url(&tail)
    }

    /// The URL that messages are received from.
    pub fn head_url(&self) -> (r: UrlParts)
        ensures
            r@ == self@.head(),
            safe_scheme(r@),
            exact_path(self@, head_tail()),
    {
        let tail: [&str; 2] = ["messages", "head"];
        proof {
            use_type_invariant(self);
            assert(views(tail@) =~= head_tail());
        }
        self.url(&tail)
    }

    /// The URL of the entity as text: what its signatures are made for.
    pub fn scope(&self) -> (r: String)
        ensures
            r@ == self@.scope(),
            exact_path(self@, seq![]),
    {
        proof {
            use_type_invariant(self);
        }
        self.root.as_text()
    }

    /// Accept a server-supplied lock location only if it addresses a message of this entity on the
    /// same origin, so a settle request can never carry this entity's SAS token to another host,
    /// port, scheme or entity.
    pub fn lock_location(&self, location: &str) -> (r: Result<UrlParts>)
        ensures
            agrees(r, lock_verdict(self@.root(), url_parse(location@))),
            safe_scheme(self@.root()),
    {
        proof {
            use_type_invariant(self);
        }
        check_lock_location(&self.root, parse_url(location))
    }
}

} // verus!
