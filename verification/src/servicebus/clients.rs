//! The clients of queues, topics and subscriptions.
use vstd::prelude::*;

use reqwest::header::{HeaderMap, HeaderValue};

use crate::error::{agrees, ErrorView, Result};
use crate::servicebus::client::{shown_fields, ClientView, ServiceBusClient};
use crate::servicebus::entity::{
    entity_of, entity_room, subscription_of, subscription_tail, Entity, EntityView,
};
use crate::servicebus::message::{SendMessageOptions, Span, CUSTOM_ROOM};
use crate::servicebus::request::{
    options_view, peek_request, receive_request, send_request, sent_safely, Request,
};
use crate::servicebus::response::{lock_head, LockHead};
use crate::text::pieces;
use crate::uri::UrlView;

verus! {

/// An entity and the name that it was asked for by.
pub struct NamedView {
    pub entity: EntityView,
    pub name: Seq<char>,
}

/// The outcome of asking a client for a queue or a topic.
pub open spec fn named_entity(client: ClientView, name: Seq<char>) -> std::result::Result<
    NamedView,
    ErrorView,
> {
    match entity_of(client, name, None) {
        Ok(entity) => Ok(NamedView { entity, name }),
        Err(e) => Err(e),
    }
}

/// The outcome of asking a topic for a subscription.
pub open spec fn named_subscription(topic: EntityView, name: Seq<char>) -> std::result::Result<
    NamedView,
    ErrorView,
> {
    match subscription_of(topic, name) {
        Ok(entity) => Ok(NamedView { entity, name }),
        Err(e) => Err(e),
    }
}

impl ServiceBusClient {
    /// Get a [`QueueClient`] for the named queue.
    pub fn queue(&self, queue: &str) -> (r: Result<QueueClient>)
        requires
            entity_room(self.base(), pieces(queue@, '/')),
        ensures
            agrees(r, named_entity(self@, queue@)),
    {
        match Entity::new(self.clone(), queue, None) {
            Ok(entity) => Ok(QueueClient { entity, queue: queue.to_string() }),
            Err(e) => Err(e),
        }
    }

    /// Get a [`TopicClient`] for the named topic.
    pub fn topic(&self, topic: &str) -> (r: Result<TopicClient>)
        requires
            entity_room(self.base(), pieces(topic@, '/')),
        ensures
            agrees(r, named_entity(self@, topic@)),
            r matches Ok(client) ==> client.base() == self.base(),
    {
        match Entity::new(self.clone(), topic, None) {
            Ok(entity) => Ok(TopicClient { entity, topic: topic.to_string() }),
            Err(e) => Err(e),
        }
    }

    /// Get a [`QueueClient`] for the named queue, or `None` where its URLs would take more than
    /// 4 GiB.
    pub fn queue_if_room(&self, queue: &str) -> (r: Option<Result<QueueClient>>)
        ensures
            r is Some <==> entity_room(self.base(), pieces(queue@, '/')),
            r matches Some(asked) ==> agrees(asked, named_entity(self@, queue@)),
    {
        if self.has_room_for(queue) {
            Some(self.queue(queue))
        } else {
            None
        }
    }

    /// Get a [`TopicClient`] for the named topic, or `None` where its URLs would take more than
    /// 4 GiB.
    pub fn topic_if_room(&self, topic: &str) -> (r: Option<Result<TopicClient>>)
        ensures
            r is Some <==> entity_room(self.base(), pieces(topic@, '/')),
            r matches Some(asked) ==> agrees(asked, named_entity(self@, topic@)),
            r matches Some(Ok(client)) ==> client.base() == self.base(),
    {
        if self.has_room_for(topic) {
            Some(self.topic(topic))
        } else {
            None
        }
    }
}

/// Client for a single Service Bus queue.
pub struct QueueClient {
    entity: Entity,
    queue: String,
}

impl View for QueueClient {
    type V = NamedView;

    closed spec fn view(&self) -> NamedView {
        NamedView { entity: self.entity@, name: self.queue@ }
    }
}

impl Clone for QueueClient {
    fn clone(&self) -> (r: Self)
        ensures
            r@ == self@,
    {
        QueueClient { entity: self.entity.clone(), queue: self.queue.clone() }
    }
}

impl QueueClient {
    /// The queue name.
    pub fn name(&self) -> (r: &str)
        ensures
            r@ == self@.name,
    {
        self.queue.as_str()
    }

    /// The queue as an entity of its namespace.
    pub fn entity(&self) -> (r: &Entity)
        ensures
            r@ == self@.entity,
    {
        &self.entity
    }

    /// Prepare to send a message to the queue at the time `now`. The send is not retried; see the
    /// [delivery notes](ServiceBusClient#delivery).
    pub fn send_message(&self, msg: &str, options: Option<SendMessageOptions>, now: i64) -> (r:
        Result<Request>)
        requires
            options matches Some(options) ==> options@.sendable(),
        ensures
            agrees(r, send_request(self@.entity, msg@, options_view(options), now)),
            sent_safely(r),
    {
        self.entity.send_message(msg, options, now)
    }

    /// Prepare to send a message to the queue at the time `now`, or `None` where a header map has no
    /// room for its options, which happens only with more than [`CUSTOM_ROOM`] custom properties.
    pub fn send_message_if_room(
        &self,
        msg: &str,
        options: Option<SendMessageOptions>,
        now: i64,
    ) -> (r: Option<Result<Request>>)
        requires
            options matches Some(options) ==> options@.written(),
        ensures
            (options matches Some(options) ==> options@.custom().len() <= CUSTOM_ROOM) ==> r is Some,
            r matches Some(made) ==> agrees(
                made,
                send_request(self@.entity, msg@, options_view(options), now),
            ) && sent_safely(made),
    {
        self.entity.send_message_if_room(msg, options, now)
    }

    /// Prepare to receive and delete the message at the head of the queue, at the time `now`.
    ///
    /// The body of the response is empty when there is no message; a message with an empty body is
    /// indistinguishable from none, so use [`QueueClient::peek_lock`] when that matters.
    pub fn receive_and_delete_message(&self, now: i64) -> (r: Result<Request>)
        ensures
            agrees(r, receive_request(self@.entity, now)),
            sent_safely(r),
    {
        self.entity.receive_and_delete_message(now)
    }

    /// Prepare to lock the message at the head of the queue for its body alone, at the time `now`.
    ///
    /// `timeout` is how long the service waits for a message before answering with an empty body
    /// (sent in whole seconds, rounded up). The lock location is discarded, so the message is
    /// redelivered once the lock expires; use [`QueueClient::peek_lock`] to settle it.
    pub fn peek_lock_message(&self, timeout: Option<Span>, now: i64) -> (r: Result<Request>)
        ensures
            agrees(r, peek_request(self@.entity, timeout, now)),
            sent_safely(r),
    {
        self.entity.peek_lock_request(timeout, now)
    }

    /// Prepare to lock the message at the head of the queue and keep its lock, so it can be
    /// completed, abandoned or renewed. `timeout` behaves as in
    /// [`QueueClient::peek_lock_message`].
    pub fn peek_lock(&self, timeout: Option<Span>, now: i64) -> (r: Result<Request>)
        ensures
            agrees(r, peek_request(self@.entity, timeout, now)),
            sent_safely(r),
    {
        self.entity.peek_lock_request(timeout, now)
    }

    /// Read the head of the response to [`QueueClient::peek_lock`].
    pub fn peek_lock_response(&self, status: u16, headers: &HeaderMap<HeaderValue>) -> (r: Result<
        LockHead,
    >)
        ensures
            agrees(r, lock_head(self@.entity, status, *headers)),
    {
        self.entity.peek_lock_response(status, headers)
    }

    /// The fields that debug output shows, by name.
    pub fn debug_fields(&self) -> (r: Vec<(&'static str, String)>)
        ensures
            shown_fields(r@) == seq![("queue"@, self@.name), ("url"@, self@.entity.scope())],
    {
        let mut fields: Vec<(&'static str, String)> = Vec::new();
        fields.push(("queue", self.queue.clone()));
        fields.push(("url", self.entity.scope()));
        assert(shown_fields(fields@) =~= seq![
            ("queue"@, self@.name),
            ("url"@, self@.entity.scope()),
        ]);
        fields
    }
}

/// Client for a Service Bus topic.
pub struct TopicClient {
    entity: Entity,
    topic: String,
}

impl View for TopicClient {
    type V = NamedView;

    closed spec fn view(&self) -> NamedView {
        NamedView { entity: self.entity@, name: self.topic@ }
    }
}

impl Clone for TopicClient {
    fn clone(&self) -> (r: Self)
        ensures
            r@ == self@,
            r.base() == self.base(),
    {
        TopicClient { entity: self.entity.clone(), topic: self.topic.clone() }
    }
}

impl TopicClient {
    /// What the endpoint of the client is read as.
    pub closed spec fn base(self) -> std::result::Result<UrlView, Seq<char>> {
        self.entity.base()
    }

    /// The topic name.
    pub fn name(&self) -> (r: &str)
        ensures
            r@ == self@.name,
    {
        self.topic.as_str()
    }

    /// The topic as an entity of its namespace.
    pub fn entity(&self) -> (r: &Entity)
        ensures
            r@ == self@.entity,
    {
        &self.entity
    }

    /// A sender that publishes to this topic.
    pub fn topic_sender(&self) -> (r: TopicSender)
        ensures
            r@ == self@.entity,
    {
        TopicSender { entity: self.entity.clone() }
    }

    /// Whether there is room for a subscription of this name: its URLs take at most 4 GiB.
    pub fn has_room_for(&self, subscription: &str) -> (r: bool)
        ensures
            r == entity_room(
                self.base(),
                self@.entity.segments + subscription_tail(subscription@),
            ),
    {
        self.entity.has_room_for(subscription)
    }

    /// A receiver for one of this topic's subscriptions.
    pub fn subscription_receiver(&self, subscription: &str) -> (r: Result<SubscriptionReceiver>)
        requires
            entity_room(self.base(), self@.entity.segments + subscription_tail(subscription@)),
        ensures
            agrees(r, named_subscription(self@.entity, subscription@)),
    {
        match self.entity.subscription(subscription) {
            Ok(entity) => Ok(
                SubscriptionReceiver { entity, subscription: subscription.to_string() },
            ),
            Err(e) => Err(e),
        }
    }

    /// A receiver for one of this topic's subscriptions, or `None` where its URLs would take more
    /// than 4 GiB.
    pub fn subscription_receiver_if_room(&self, subscription: &str) -> (r: Option<
        Result<SubscriptionReceiver>,
    >)
        ensures
            r is Some <==> entity_room(
                self.base(),
                self@.entity.segments + subscription_tail(subscription@),
            ),
            r matches Some(asked) ==> agrees(
                asked,
                named_subscription(self@.entity, subscription@),
            ),
    {
        if self.has_room_for(subscription) {
            Some(self.subscription_receiver(subscription))
        } else {
            None
        }
    }

    /// The fields that debug output shows, by name.
    pub fn debug_fields(&self) -> (r: Vec<(&'static str, String)>)
        ensures
            shown_fields(r@) == seq![("topic"@, self@.name), ("url"@, self@.entity.scope())],
    {
        let mut fields: Vec<(&'static str, String)> = Vec::new();
        fields.push(("topic", self.topic.clone()));
        fields.push(("url", self.entity.scope()));
        assert(shown_fields(fields@) =~= seq![
            ("topic"@, self@.name),
            ("url"@, self@.entity.scope()),
        ]);
        fields
    }
}

/// Publishes messages to a topic.
pub struct TopicSender {
    entity: Entity,
}

impl View for TopicSender {
    type V = EntityView;

    closed spec fn view(&self) -> EntityView {
        self.entity@
    }
}

impl Clone for TopicSender {
    fn clone(&self) -> (r: Self)
        ensures
            r@ == self@,
    {
        TopicSender { entity: self.entity.clone() }
    }
}

impl TopicSender {
    /// The topic as an entity of its namespace.
    pub fn entity(&self) -> (r: &Entity)
        ensures
            r@ == self@,
    {
        &self.entity
    }

    /// Prepare to send a message to the topic at the time `now`. The send is not retried; see the
    /// [delivery notes](ServiceBusClient#delivery).
    pub fn send_message(&self, msg: &str, options: Option<SendMessageOptions>, now: i64) -> (r:
        Result<Request>)
        requires
            options matches Some(options) ==> options@.sendable(),
        ensures
            agrees(r, send_request(self@, msg@, options_view(options), now)),
            sent_safely(r),
    {
        self.entity.send_message(msg, options, now)
    }

    /// Prepare to send a message to the topic at the time `now`, or `None` where a header map has no
    /// room for its options, which happens only with more than [`CUSTOM_ROOM`] custom properties.
    pub fn send_message_if_room(
        &self,
        msg: &str,
        options: Option<SendMessageOptions>,
        now: i64,
    ) -> (r: Option<Result<Request>>)
        requires
            options matches Some(options) ==> options@.written(),
        ensures
            (options matches Some(options) ==> options@.custom().len() <= CUSTOM_ROOM) ==> r is Some,
            r matches Some(made) ==> agrees(
                made,
                send_request(self@, msg@, options_view(options), now),
            ) && sent_safely(made),
    {
        self.entity.send_message_if_room(msg, options, now)
    }

    /// The fields that debug output shows, by name.
    pub fn debug_fields(&self) -> (r: Vec<(&'static str, String)>)
        ensures
            shown_fields(r@) == seq![("url"@, self@.scope())],
    {
        let mut fields: Vec<(&'static str, String)> = Vec::new();
        fields.push(("url", self.entity.scope()));
        assert(shown_fields(fields@) =~= seq![("url"@, self@.scope())]);
        fields
    }
}

/// Consumes messages from a topic subscription.
pub struct SubscriptionReceiver {
    entity: Entity,
    subscription: String,
}

impl View for SubscriptionReceiver {
    type V = NamedView;

    closed spec fn view(&self) -> NamedView {
        NamedView { entity: self.entity@, name: self.subscription@ }
    }
}

impl Clone for SubscriptionReceiver {
    fn clone(&self) -> (r: Self)
        ensures
            r@ == self@,
    {
        SubscriptionReceiver { entity: self.entity.clone(), subscription: self.subscription.clone() }
    }
}

impl SubscriptionReceiver {
    /// The subscription name.
    pub fn name(&self) -> (r: &str)
        ensures
            r@ == self@.name,
    {
        self.subscription.as_str()
    }

    /// The subscription as an entity of its namespace.
    pub fn entity(&self) -> (r: &Entity)
        ensures
            r@ == self@.entity,
    {
        &self.entity
    }

    /// Prepare to receive and delete the message at the head of the subscription, at the time
    /// `now`.
    ///
    /// The body of the response is empty when there is no message; a message with an empty body is
    /// indistinguishable from none, so use [`SubscriptionReceiver::peek_lock`] when that matters.
    pub fn receive_and_delete_message(&self, now: i64) -> (r: Result<Request>)
        ensures
            agrees(r, receive_request(self@.entity, now)),
            sent_safely(r),
    {
        self.entity.receive_and_delete_message(now)
    }

    /// Prepare to lock the message at the head of the subscription for its body alone, at the time
    /// `now`.
    ///
    /// `timeout` is how long the service waits for a message before answering with an empty body
    /// (sent in whole seconds, rounded up). The lock location is discarded, so the message is
    /// redelivered once the lock expires; use [`SubscriptionReceiver::peek_lock`] to settle it.
    pub fn peek_lock_message(&self, timeout: Option<Span>, now: i64) -> (r: Result<Request>)
        ensures
            agrees(r, peek_request(self@.entity, timeout, now)),
            sent_safely(r),
    {
        self.entity.peek_lock_request(timeout, now)
    }

    /// Prepare to lock the message at the head of the subscription and keep its lock, so it can be
    /// completed, abandoned or renewed. `timeout` behaves as in
    /// [`SubscriptionReceiver::peek_lock_message`].
    pub fn peek_lock(&self, timeout: Option<Span>, now: i64) -> (r: Result<Request>)
        ensures
            agrees(r, peek_request(self@.entity, timeout, now)),
            sent_safely(r),
    {
        self.entity.peek_lock_request(timeout, now)
    }

    /// Read the head of the response to [`SubscriptionReceiver::peek_lock`].
    pub fn peek_lock_response(&self, status: u16, headers: &HeaderMap<HeaderValue>) -> (r: Result<
        LockHead,
    >)
        ensures
            agrees(r, lock_head(self@.entity, status, *headers)),
    {
        self.entity.peek_lock_response(status, headers)
    }

    /// The fields that debug output shows, by name.
    pub fn debug_fields(&self) -> (r: Vec<(&'static str, String)>)
        ensures
            shown_fields(r@) == seq![("url"@, self@.entity.scope())],
    {
        let mut fields: Vec<(&'static str, String)> = Vec::new();
        fields.push(("url", self.entity.scope()));
        assert(shown_fields(fields@) =~= seq![("url"@, self@.entity.scope())]);
        fields
    }
}

} // verus!
