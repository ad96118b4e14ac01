//! Messages: the options they are sent with and the properties they are received with.
use vstd::prelude::*;
use vstd::string::*;
use vstd::utf8::*;

use reqwest::header::{HeaderMap, HeaderValue};

use crate::encoding::{
    http_date, http_date_text, json_char, json_escaped, json_seconds, json_seconds_text,
    json_string, json_string_text, printable, read_http_date, write_http_date, HTTP_DATE_END,
};
use crate::error::{agrees, AzureError, ErrorView, Result};
use crate::headers::{
    header_contents, header_name, header_sensitive, insert_header, is_header_value, new_headers,
    valid_name, valid_value,
};
use crate::names::NameMap;
use crate::text::{clone_text, lowercase, optional, string_views};

verus! {

/// A length of time: seconds, and the nanoseconds beyond them.
#[derive(Clone, Copy, Debug, PartialEq, Eq, Structural)]
pub struct Span {
    /// Whole seconds.
    pub secs: u64,
    /// Nanoseconds beyond the whole seconds.
    pub nanos: u32,
}

impl Span {
    /// Whether the nanoseconds are less than a second.
    pub open spec fn normal(self) -> bool {
        self.nanos < 1_000_000_000
    }
}

/// A point in time, in whole seconds since the UNIX epoch.
#[derive(Clone, Copy, Debug, PartialEq, Eq, Structural)]
pub struct UnixTime {
    /// Seconds since the UNIX epoch; negative before it.
    pub secs: i64,
}

impl UnixTime {
    /// Whether the time has an HTTP form: it lies between the UNIX epoch and the year 10000.
    pub open spec fn has_http_form(self) -> bool {
        0 <= self.secs < HTTP_DATE_END
    }
}

/// A double-precision number, as its bits.
#[derive(Clone, Copy, Debug, PartialEq, Eq, Structural)]
pub struct Real {
    /// The bits of the number in IEEE 754 binary64 form.
    pub bits: u64,
}

/// Broker properties the service reports for a received message.
#[derive(Debug)]
#[non_exhaustive]
pub struct BrokerProperties {
    /// Number of times the message has been delivered.
    pub delivery_count: i32,
    /// Sequence number assigned when the message was enqueued.
    pub enqueued_sequence_number: Option<i64>,
    /// When the message was enqueued.
    pub enqueued_time_utc: Option<UnixTime>,
    /// Lock token (peek-lock receives only).
    pub lock_token: Option<String>,
    /// When the lock expires (peek-lock receives only).
    pub locked_until_utc: Option<UnixTime>,
    /// Message identifier.
    pub message_id: Option<String>,
    /// Sequence number.
    pub sequence_number: Option<i64>,
    /// Message state, e.g. `Active`.
    pub state: Option<String>,
    /// Time to live, in seconds.
    pub time_to_live: Option<Real>,
    /// Correlation identifier.
    pub correlation_id: Option<String>,
    /// Session identifier.
    pub session_id: Option<String>,
    /// Application label.
    pub label: Option<String>,
    /// Reply-to address.
    pub reply_to: Option<String>,
    /// Destination address.
    pub to: Option<String>,
}

impl Clone for BrokerProperties {
    fn clone(&self) -> (r: Self)
        ensures
            r == *self,
    {
        BrokerProperties {
            delivery_count: self.delivery_count,
            enqueued_sequence_number: self.enqueued_sequence_number,
            enqueued_time_utc: self.enqueued_time_utc,
            lock_token: clone_text(&self.lock_token),
            locked_until_utc: self.locked_until_utc,
            message_id: clone_text(&self.message_id),
            sequence_number: self.sequence_number,
            state: clone_text(&self.state),
            time_to_live: self.time_to_live,
            correlation_id: clone_text(&self.correlation_id),
            session_id: clone_text(&self.session_id),
            label: clone_text(&self.label),
            reply_to: clone_text(&self.reply_to),
            to: clone_text(&self.to),
        }
    }
}

impl Default for BrokerProperties {
    fn default() -> (r: Self)
        ensures
            r == no_broker_properties(),
    {
        BrokerProperties {
            delivery_count: 0,
            enqueued_sequence_number: None,
            enqueued_time_utc: None,
            lock_token: None,
            locked_until_utc: None,
            message_id: None,
            sequence_number: None,
            state: None,
            time_to_live: None,
            correlation_id: None,
            session_id: None,
            label: None,
            reply_to: None,
            to: None,
        }
    }
}

/// Broker properties of which none is reported.
pub open spec fn no_broker_properties() -> BrokerProperties {
    BrokerProperties {
        delivery_count: 0,
        enqueued_sequence_number: None,
        enqueued_time_utc: None,
        lock_token: None,
        locked_until_utc: None,
        message_id: None,
        sequence_number: None,
        state: None,
        time_to_live: None,
        correlation_id: None,
        session_id: None,
        label: None,
        reply_to: None,
        to: None,
    }
}

/// Broker properties that can be set when sending a message, built with
/// [`SettableBrokerProperties::new`] and its setters.
#[derive(Debug)]
#[non_exhaustive]
pub struct SettableBrokerProperties {
    /// Correlation identifier.
    pub correlation_id: Option<String>,
    /// Session identifier.
    pub session_id: Option<String>,
    /// Message identifier, used by the entity's duplicate detection.
    pub message_id: Option<String>,
    /// Application label.
    pub label: Option<String>,
    /// Reply-to address.
    pub reply_to: Option<String>,
    /// Time to live.
    pub time_to_live: Option<Span>,
    /// Destination address.
    pub to: Option<String>,
    /// Enqueue the message at this time instead of immediately.
    pub scheduled_enqueue_time_utc: Option<UnixTime>,
    /// Session to reply to.
    pub reply_to_session_id: Option<String>,
    /// Partition key.
    pub partition_key: Option<String>,
}

/// Broker properties to set, as characters.
pub struct PropertiesView {
    pub correlation_id: Option<Seq<char>>,
    pub session_id: Option<Seq<char>>,
    pub message_id: Option<Seq<char>>,
    pub label: Option<Seq<char>>,
    pub reply_to: Option<Seq<char>>,
    pub time_to_live: Option<Span>,
    pub to: Option<Seq<char>>,
    pub scheduled_enqueue_time_utc: Option<UnixTime>,
    pub reply_to_session_id: Option<Seq<char>>,
    pub partition_key: Option<Seq<char>>,
}

impl View for SettableBrokerProperties {
    type V = PropertiesView;

    open spec fn view(&self) -> PropertiesView {
        PropertiesView {
            correlation_id: optional(self.correlation_id),
            session_id: optional(self.session_id),
            message_id: optional(self.message_id),
            label: optional(self.label),
            reply_to: optional(self.reply_to),
            time_to_live: self.time_to_live,
            to: optional(self.to),
            scheduled_enqueue_time_utc: self.scheduled_enqueue_time_utc,
            reply_to_session_id: optional(self.reply_to_session_id),
            partition_key: optional(self.partition_key),
        }
    }
}

/// Broker properties of which none is set.
pub open spec fn no_properties() -> PropertiesView {
    PropertiesView {
        correlation_id: None,
        session_id: None,
        message_id: None,
        label: None,
        reply_to: None,
        time_to_live: None,
        to: None,
        scheduled_enqueue_time_utc: None,
        reply_to_session_id: None,
        partition_key: None,
    }
}

/// A JSON object field: its name in quotes, a colon and its value.
pub open spec fn json_field(name: Seq<char>, value: Seq<char>) -> Seq<char> {
    "\""@ + name + "\":"@ + value
}

/// The field of a value, where there is one.
pub open spec fn value_field(name: Seq<char>, value: Option<Seq<char>>) -> Seq<Seq<char>> {
    match value {
        Some(value) => seq![json_field(name, value)],
        None => seq![],
    }
}

/// The field of a text property, where it is set.
pub open spec fn text_field(name: Seq<char>, value: Option<Seq<char>>) -> Seq<Seq<char>> {
    match value {
        Some(text) => seq![json_field(name, json_string_text(text))],
        None => seq![],
    }
}

/// A length of time as a JSON number of seconds, where it is set.
pub open spec fn seconds_text(value: Option<Span>) -> Option<Seq<char>> {
    match value {
        Some(span) => Some(json_seconds_text(span.secs, span.nanos)),
        None => None,
    }
}

/// The HTTP form of a time, where it is set.
pub open spec fn date_text(value: Option<UnixTime>) -> Option<Seq<char>> {
    match value {
        Some(time) => Some(http_date_text(time.secs as u64)),
        None => None,
    }
}

/// The fields of the properties that are set, under the names they have on the wire, given the time
/// to live as a JSON number and the enqueue time in HTTP form.
pub open spec fn wire_fields(
    properties: PropertiesView,
    seconds: Option<Seq<char>>,
    date: Option<Seq<char>>,
) -> Seq<Seq<char>> {
    text_field("CorrelationId"@, properties.correlation_id)
        + text_field("SessionId"@, properties.session_id)
        + text_field("MessageId"@, properties.message_id)
        + text_field("Label"@, properties.label)
        + text_field("ReplyTo"@, properties.reply_to)
        + value_field("TimeToLive"@, seconds)
        + text_field("To"@, properties.to)
        + text_field("ScheduledEnqueueTimeUtc"@, date)
        + text_field("ReplyToSessionId"@, properties.reply_to_session_id)
        + text_field("PartitionKey"@, properties.partition_key)
}

/// Fields with a comma between each two.
pub open spec fn comma_separated(fields: Seq<Seq<char>>) -> Seq<char>
    decreases fields.len(),
{
    if fields.len() == 0 {
        seq![]
    } else if fields.len() == 1 {
        fields[0]
    } else {
        comma_separated(fields.drop_last()) + ","@ + fields.last()
    }
}

/// A JSON object of the broker properties that are set, given the time to live as a JSON number and
/// the enqueue time in HTTP form.
pub open spec fn broker_json_with(
    properties: PropertiesView,
    seconds: Option<Seq<char>>,
    date: Option<Seq<char>>,
) -> Seq<char> {
    "{"@ + comma_separated(wire_fields(properties, seconds, date)) + "}"@
}

/// Broker properties as they go into the `BrokerProperties` header: a JSON object of those that
/// are set.
pub open spec fn broker_json(properties: PropertiesView) -> Seq<char> {
    broker_json_with(
        properties,
        seconds_text(properties.time_to_live),
        date_text(properties.scheduled_enqueue_time_utc),
    )
}

/// Whether broker properties can be written: lengths of time are normal and times have an HTTP
/// form.
pub open spec fn writable(properties: PropertiesView) -> bool {
    &&& properties.time_to_live matches Some(span) ==> span.normal()
    &&& properties.scheduled_enqueue_time_utc matches Some(time) ==> time.has_http_form()
}

/// Whether a text that may be missing holds no delete character, the one control character that a
/// JSON string holds as it is.
pub open spec fn undeleted(text: Option<Seq<char>>) -> bool {
    text matches Some(text) ==> !text.contains('\u{7f}')
}

/// Whether no text among broker properties holds a delete character.
pub open spec fn undeleted_properties(properties: PropertiesView) -> bool {
    &&& undeleted(properties.correlation_id)
    &&& undeleted(properties.session_id)
    &&& undeleted(properties.message_id)
    &&& undeleted(properties.label)
    &&& undeleted(properties.reply_to)
    &&& undeleted(properties.to)
    &&& undeleted(properties.reply_to_session_id)
    &&& undeleted(properties.partition_key)
}

/// Whether every text is a header value.
pub open spec fn valid_values(texts: Seq<Seq<char>>) -> bool {
    forall|i: int| 0 <= i < texts.len() ==> valid_value(#[trigger] texts[i])
}

/// A JSON string of a text without a delete character is a header value.
pub proof fn lemma_json_string_valid(text: Seq<char>)
    requires
        !text.contains('\u{7f}'),
    ensures
        valid_value(json_string_text(text)),
{
    lemma_json_escaped_valid(text);
}

proof fn lemma_json_char_valid(c: char)
    requires
        c != '\u{7f}',
    ensures
        valid_value(json_char(c)),
{
    char_u32_cast(c, c as u32);
    char_is_scalar(c);
    if c as u32 == 0x7f {
        assert(0x7fu32 as char == '\u{7f}');
    }
}

proof fn lemma_json_escaped_valid(text: Seq<char>)
    requires
        !text.contains('\u{7f}'),
    ensures
        valid_value(json_escaped(text)),
    decreases text.len(),
{
    if text.len() > 0 {
        let start = text.drop_last();
        assert(!start.contains('\u{7f}')) by {
            if start.contains('\u{7f}') {
                let i = start.index_of('\u{7f}');
                assert(text[i] == '\u{7f}');
            }
        }
        lemma_json_escaped_valid(start);
        assert(text[text.len() - 1] != '\u{7f}');
        lemma_json_char_valid(text.last());
    }
}

/// A field with a value that is a header value is one itself.
proof fn lemma_field_valid(name: Seq<char>, value: Seq<char>)
    requires
        valid_value(name),
        valid_value(value),
    ensures
        valid_value(json_field(name, value)),
{
    reveal_strlit("\"");
    reveal_strlit("\":");
}

/// Header values with commas between them are a header value.
proof fn lemma_joined_valid(fields: Seq<Seq<char>>)
    requires
        valid_values(fields),
    ensures
        valid_value(comma_separated(fields)),
    decreases fields.len(),
{
    reveal_strlit(",");
    if fields.len() > 0 {
        assert(valid_value(fields[fields.len() - 1]));
        let start = fields.drop_last();
        assert forall|i: int| 0 <= i < start.len() implies valid_value(#[trigger] start[i]) by {
            assert(start[i] == fields[i]);
        }
        lemma_joined_valid(start);
    }
}

/// The HTTP form of a time.
pub fn serialize_http_date(time: UnixTime) -> (r: String)
    requires
        time.has_http_form(),
    ensures
        r@ == http_date_text(time.secs as u64),
        http_date(r@) == Some(time.secs as u64),
        printable(r@),
{
    write_http_date(time.secs as u64)
}

/// The time that a date in HTTP form denotes, where there is one. The error is the text of what is
/// wrong with it.
pub fn deserialize_http_date(raw: Option<&str>) -> (r: std::result::Result<Option<UnixTime>, String>)
    ensures
        raw is None ==> r == Ok::<Option<UnixTime>, String>(None),
        raw matches Some(text) ==> match http_date(text@) {
            Some(secs) => r matches Ok(Some(time)) && time.secs == secs && time.has_http_form(),
            None => r matches Err(e) && e@ == "string contains no or an invalid date"@,
        },
{
    match raw {
        Some(text) => match read_http_date(text) {
            Ok(secs) => Ok(Some(UnixTime { secs: secs as i64 })),
            Err(e) => Err(e),
        },
        None => Ok(None),
    }
}

/// Put a field behind the fields of a JSON object.
fn push_field(fields: &mut Vec<String>, name: &str, value: String)
    ensures
        string_views(final(fields)@) == string_views(old(fields)@).push(
            json_field(name@, value@),
        ),
        valid_values(string_views(old(fields)@)) && valid_value(name@) && valid_value(value@)
            ==> valid_values(string_views(final(fields)@)),
{
    let ghost before = string_views(fields@);
    proof {
        if valid_value(name@) && valid_value(value@) {
            lemma_field_valid(name@, value@);
        }
    }
    fields.push("\"".to_string().concat(name).concat("\":").concat(value.as_str()));
    assert(string_views(fields@) =~= before.push(json_field(name@, value@)));
}

/// Put the field of a text property, where it is set, behind the fields of a JSON object.
fn push_text(fields: &mut Vec<String>, name: &str, value: &Option<String>)
    ensures
        string_views(final(fields)@) == string_views(old(fields)@) + text_field(
            name@,
            optional(*value),
        ),
        valid_values(string_views(old(fields)@)) && valid_value(name@) && undeleted(
            optional(*value),
        ) ==> valid_values(string_views(final(fields)@)),
{
    let ghost before = string_views(fields@);
    if let Some(text) = value {
        proof {
            if undeleted(optional(*value)) {
                lemma_json_string_valid(text@);
            }
        }
        push_field(fields, name, json_string(text.as_str()));
    }
    assert(string_views(fields@) =~= before + text_field(name@, optional(*value)));
}

/// Put the field of a value, where there is one, behind the fields of a JSON object.
fn push_value(fields: &mut Vec<String>, name: &str, value: Option<String>)
    ensures
        string_views(final(fields)@) == string_views(old(fields)@) + value_field(
            name@,
            optional(value),
        ),
        valid_values(string_views(old(fields)@)) && valid_value(name@) && (optional(
            value,
        ) matches Some(text) ==> valid_value(text)) ==> valid_values(string_views(final(fields)@)),
{
    let ghost before = string_views(fields@);
    let ghost text = optional(value);
    if let Some(value) = value {
        push_field(fields, name, value);
    }
    assert(string_views(fields@) =~= before + value_field(name@, text));
}

/// Fields with a comma between each two.
fn join_fields(fields: &Vec<String>) -> (r: String)
    ensures
        r@ == comma_separated(string_views(fields@)),
{
    let mut joined = String::new();
    let mut i: usize = 0;
    let ghost all = string_views(fields@);
    while i < fields.len()
        invariant
            i <= fields.len(),
            all == string_views(fields@),
            joined@ == comma_separated(all.take(i as int)),
        decreases fields.len() - i,
    {
        proof {
            assert(all.take(i + 1).drop_last() =~= all.take(i as int));
            assert(all[i as int] == fields@[i as int]@);
        }
        if i > 0 {
            joined.append(",");
        }
        joined.append(fields[i].as_str());
        i += 1;
        assert(joined@ =~= comma_separated(all.take(i as int)));
    }
    assert(all.take(i as int) =~= all);
    joined
}

impl Clone for SettableBrokerProperties {
    fn clone(&self) -> (r: Self)
        ensures
            r == *self,
    {
        SettableBrokerProperties {
            correlation_id: clone_text(&self.correlation_id),
            session_id: clone_text(&self.session_id),
            message_id: clone_text(&self.message_id),
            label: clone_text(&self.label),
            reply_to: clone_text(&self.reply_to),
            time_to_live: self.time_to_live,
            to: clone_text(&self.to),
            scheduled_enqueue_time_utc: self.scheduled_enqueue_time_utc,
            reply_to_session_id: clone_text(&self.reply_to_session_id),
            partition_key: clone_text(&self.partition_key),
        }
    }
}

impl Default for SettableBrokerProperties {
    fn default() -> (r: Self)
        ensures
            r@ == no_properties(),
    {
        SettableBrokerProperties {
            correlation_id: None,
            session_id: None,
            message_id: None,
            label: None,
            reply_to: None,
            time_to_live: None,
            to: None,
            scheduled_enqueue_time_utc: None,
            reply_to_session_id: None,
            partition_key: None,
        }
    }
}

impl SettableBrokerProperties {
    /// No properties set.
    pub fn new() -> (r: Self)
        ensures
            r@ == no_properties(),
    {
        SettableBrokerProperties::default()
    }

    /// Set the correlation identifier.
    #[must_use]
    pub fn correlation_id(self, value: &str) -> (r: Self)
        ensures
            r@ == (PropertiesView { correlation_id: Some(value@), ..self@ }),
    {
        SettableBrokerProperties { correlation_id: Some(value.to_string()), ..self }
    }

    /// Set the session identifier.
    #[must_use]
    pub fn session_id(self, value: &str) -> (r: Self)
        ensures
            r@ == (PropertiesView { session_id: Some(value@), ..self@ }),
    {
        SettableBrokerProperties { session_id: Some(value.to_string()), ..self }
    }

    /// Set the message identifier.
    #[must_use]
    pub fn message_id(self, value: &str) -> (r: Self)
        ensures
            r@ == (PropertiesView { message_id: Some(value@), ..self@ }),
    {
        SettableBrokerProperties { message_id: Some(value.to_string()), ..self }
    }

    /// Set the application label.
    #[must_use]
    pub fn label(self, value: &str) -> (r: Self)
        ensures
            r@ == (PropertiesView { label: Some(value@), ..self@ }),
    {
        SettableBrokerProperties { label: Some(value.to_string()), ..self }
    }

    /// Set the reply-to address.
    #[must_use]
    pub fn reply_to(self, value: &str) -> (r: Self)
        ensures
            r@ == (PropertiesView { reply_to: Some(value@), ..self@ }),
    {
        SettableBrokerProperties { reply_to: Some(value.to_string()), ..self }
    }

    /// Set the destination address.
    #[must_use]
    pub fn to(self, value: &str) -> (r: Self)
        ensures
            r@ == (PropertiesView { to: Some(value@), ..self@ }),
    {
        SettableBrokerProperties { to: Some(value.to_string()), ..self }
    }

    /// Set the session to reply to.
    #[must_use]
    pub fn reply_to_session_id(self, value: &str) -> (r: Self)
        ensures
            r@ == (PropertiesView { reply_to_session_id: Some(value@), ..self@ }),
    {
        SettableBrokerProperties { reply_to_session_id: Some(value.to_string()), ..self }
    }

    /// Set the partition key.
    #[must_use]
    pub fn partition_key(self, value: &str) -> (r: Self)
        ensures
            r@ == (PropertiesView { partition_key: Some(value@), ..self@ }),
    {
        SettableBrokerProperties { partition_key: Some(value.to_string()), ..self }
    }

    /// Set the time to live.
    #[must_use]
    pub fn time_to_live(self, ttl: Span) -> (r: Self)
        ensures
            r@ == (PropertiesView { time_to_live: Some(ttl), ..self@ }),
    {
        SettableBrokerProperties { time_to_live: Some(ttl), ..self }
    }

    /// Enqueue the message at `when` instead of immediately.
    #[must_use]
    pub fn scheduled_enqueue_time_utc(self, when: UnixTime) -> (r: Self)
        ensures
            r@ == (PropertiesView { scheduled_enqueue_time_utc: Some(when), ..self@ }),
    {
        SettableBrokerProperties { scheduled_enqueue_time_utc: Some(when), ..self }
    }

    /// Whether the properties can be written.
    pub fn is_writable(&self) -> (r: bool)
        ensures
            r == writable(self@),
    {
        let normal = match self.time_to_live {
            Some(span) => span.nanos < 1_000_000_000,
            None => true,
        };
        let dated = match self.scheduled_enqueue_time_utc {
            Some(time) => 0 <= time.secs && (time.secs as u64) < HTTP_DATE_END,
            None => true,
        };
        normal && dated
    }

    /// The JSON object of the properties that are set.
    pub fn to_json(&self) -> (r: String)
        requires
            writable(self@),
        ensures
            r@ == broker_json(self@),
            undeleted_properties(self@) ==> valid_value(r@),
    {
        let seconds = match self.time_to_live {
            Some(span) => Some(json_seconds(span.secs, span.nanos)),
            None => None,
        };
        let date = match self.scheduled_enqueue_time_utc {
            Some(time) => Some(serialize_http_date(time)),
            None => None,
        };
        assert(date matches Some(date) ==> !date@.contains('\u{7f}'));
        self.json_with(seconds, date)
    }

    /// The JSON object of the properties that are set, given the time to live as a JSON number and
    /// the enqueue time in HTTP form.
    pub fn json_with(&self, seconds: Option<String>, date: Option<String>) -> (r: String)
        ensures
            r@ == broker_json_with(self@, optional(seconds), optional(date)),
            undeleted_properties(self@) && undeleted(optional(date)) && (optional(
                seconds,
            ) matches Some(text) ==> valid_value(text)) ==> valid_value(r@),
    {
        proof {
            reveal_strlit("CorrelationId");
            reveal_strlit("SessionId");
            reveal_strlit("MessageId");
            reveal_strlit("Label");
            reveal_strlit("ReplyTo");
            reveal_strlit("TimeToLive");
            reveal_strlit("To");
            reveal_strlit("ScheduledEnqueueTimeUtc");
            reveal_strlit("ReplyToSessionId");
            reveal_strlit("PartitionKey");
            reveal_strlit("{");
            reveal_strlit("}");
        }
        let ghost number = optional(seconds);
        let mut fields: Vec<String> = Vec::new();
        assert(string_views(fields@) =~= seq![]);
        push_text(&mut fields, "CorrelationId", &self.correlation_id);
        assert(string_views(fields@) =~= text_field("CorrelationId"@, self@.correlation_id));
        push_text(&mut fields, "SessionId", &self.session_id);
        push_text(&mut fields, "MessageId", &self.message_id);
        push_text(&mut fields, "Label", &self.label);
        push_text(&mut fields, "ReplyTo", &self.reply_to);
        push_value(&mut fields, "TimeToLive", seconds);
        push_text(&mut fields, "To", &self.to);
        push_text(&mut fields, "ScheduledEnqueueTimeUtc", &date);
        push_text(&mut fields, "ReplyToSessionId", &self.reply_to_session_id);
        push_text(&mut fields, "PartitionKey", &self.partition_key);
        proof {
            if valid_values(string_views(fields@)) {
                lemma_joined_valid(wire_fields(self@, number, optional(date)));
            }
        }
        "{".to_string().concat(join_fields(&fields).as_str()).concat("}")
    }
}

/// Options for sending a message, built with [`SendMessageOptions::new`] and its setters.
#[derive(Debug)]
#[non_exhaustive]
pub struct SendMessageOptions {
    /// `Content-Type` of the body.
    pub content_type: Option<String>,
    /// Broker properties to set on the message.
    pub broker_properties: Option<SettableBrokerProperties>,
    /// Custom message properties, sent as headers.
    pub custom_properties: Option<NameMap<String>>,
}

/// Options for sending a message, as characters.
pub struct OptionsView {
    pub content_type: Option<Seq<char>>,
    pub broker_properties: Option<PropertiesView>,
    /// Custom properties: the names, in the order in which they were first added, and their values.
    pub custom_properties: Option<(Seq<Seq<char>>, Map<Seq<char>, String>)>,
}

impl View for SendMessageOptions {
    type V = OptionsView;

    open spec fn view(&self) -> OptionsView {
        OptionsView {
            content_type: optional(self.content_type),
            broker_properties: match self.broker_properties {
                Some(properties) => Some(properties@),
                None => None,
            },
            custom_properties: match self.custom_properties {
                Some(custom) => Some((custom.order(), custom@)),
                None => None,
            },
        }
    }
}

impl OptionsView {
    /// The custom properties with their values, in the order in which the names were first added.
    pub open spec fn custom(self) -> Seq<(Seq<char>, Seq<char>)> {
        match self.custom_properties {
            Some((names, values)) => names.map_values(|n: Seq<char>| (n, values[n]@)),
            None => seq![],
        }
    }

    /// Whether the broker properties can be written.
    pub open spec fn written(self) -> bool {
        self.broker_properties matches Some(properties) ==> writable(properties)
    }

    /// Whether the options can be turned into headers: broker properties can be written, and there
    /// are not more custom properties than every header map has room for.
    pub open spec fn sendable(self) -> bool {
        self.written() && self.custom().len() <= CUSTOM_ROOM
    }

    /// Whether HTTP allows the broker properties where no text among them holds a delete character.
    /// This is not said behind a content type that HTTP does not allow.
    pub open spec fn broker_text_allowed(self) -> bool {
        (self.content_type matches Some(content_type) ==> valid_value(content_type)) ==> (
        self.broker_properties matches Some(properties) ==> (undeleted_properties(properties)
            ==> valid_value(broker_json(properties))))
    }
}

/// A number of custom properties that the headers of a request have room for.
pub const CUSTOM_ROOM: usize = 6_549;

/// Options of which none is set.
pub open spec fn no_options() -> OptionsView {
    OptionsView { content_type: None, broker_properties: None, custom_properties: None }
}

/// What a header map holds: the values of each name.
pub type Contents = Map<Seq<char>, Seq<Seq<u8>>>;

/// The error for a header value that HTTP does not allow.
pub open spec fn invalid_value(name: Seq<char>) -> ErrorView {
    ErrorView::Config("invalid value for Service Bus header '"@ + name + "'"@)
}

/// Headers with one more, under a name in lower case, where its value is allowed.
pub open spec fn with_header(
    headers: Contents,
    shown_name: Seq<char>,
    name: Seq<char>,
    value: Seq<char>,
) -> std::result::Result<Contents, ErrorView> {
    if valid_value(value) {
        Ok(headers.insert(name, seq![encode_utf8(value)]))
    } else {
        Err(invalid_value(shown_name))
    }
}

/// Headers with custom properties put in, one after the other; the first that HTTP does not allow
/// decides the error.
pub open spec fn with_custom(
    headers: Contents,
    custom: Seq<(Seq<char>, Seq<char>)>,
) -> std::result::Result<Contents, ErrorView>
    decreases custom.len(),
{
    if custom.len() == 0 {
        Ok(headers)
    } else {
        match with_custom(headers, custom.drop_last()) {
            Err(e) => Err(e),
            Ok(start) => {
                let (name, value) = custom.last();
                if !valid_name(name) {
                    Err(
                        ErrorView::Config(
                            "invalid Service Bus custom property name '"@ + name + "'"@,
                        ),
                    )
                } else {
                    with_header(start, name, lowercase(name), value)
                }
            },
        }
    }
}

/// The headers of a message before its custom properties.
pub open spec fn fixed_headers(options: OptionsView) -> std::result::Result<Contents, ErrorView> {
    let start = match options.content_type {
        Some(content_type) => with_header(
            Map::empty(),
            "Content-Type"@,
            "content-type"@,
            content_type,
        ),
        None => Ok(Map::empty()),
    };
    match start {
        Err(e) => Err(e),
        Ok(headers) => match options.broker_properties {
            Some(properties) => with_header(
                headers,
                "BrokerProperties"@,
                "brokerproperties"@,
                broker_json(properties),
            ),
            None => Ok(headers),
        },
    }
}

/// The headers that options turn into.
pub open spec fn message_headers(options: OptionsView) -> std::result::Result<
    Contents,
    ErrorView,
> {
    match fixed_headers(options) {
        Err(e) => Err(e),
        Ok(headers) => with_custom(headers, options.custom()),
    }
}

/// Whether a result is a header map with these contents and no sensitive value, or that error.
pub open spec fn yields_headers(
    r: Result<HeaderMap<HeaderValue>>,
    expected: std::result::Result<Contents, ErrorView>,
) -> bool {
    match expected {
        Ok(contents) => r matches Ok(headers) && header_contents(headers) == contents
            && header_sensitive(headers) == Set::<Seq<char>>::empty(),
        Err(e) => r matches Err(f) && f@ == e,
    }
}

/// Whether a header map, if there is one, holds no more names than options give: two, and one for
/// each custom property.
pub open spec fn small_headers(r: Result<HeaderMap<HeaderValue>>, options: OptionsView) -> bool {
    r matches Ok(headers) ==> header_contents(headers).dom().finite() && header_contents(
        headers,
    ).dom().len() <= 2 + options.custom().len()
}

/// Whether HTTP allows a header value.
pub fn header_value(name: &str, value: &str) -> (r: Result<()>)
    ensures
        agrees(
            r,
            if valid_value(value@) {
                Ok(())
            } else {
                Err(invalid_value(name@))
            },
        ),
{
    if is_header_value(value) {
        Ok(())
    } else {
        Err(
            AzureError::Config(
                "invalid value for Service Bus header '".to_string().concat(name).concat("'"),
            ),
        )
    }
}

/// Each custom property adds one name at most.
proof fn lemma_custom_size(headers: Contents, custom: Seq<(Seq<char>, Seq<char>)>)
    requires
        headers.dom().finite(),
    ensures
        with_custom(headers, custom) matches Ok(all) ==> all.dom().finite() && all.dom().len()
            <= headers.dom().len() + custom.len(),
    decreases custom.len(),
{
    if custom.len() > 0 {
        lemma_custom_size(headers, custom.drop_last());
    }
}

/// An error among the first custom properties is the error of them all.
proof fn lemma_custom_error(headers: Contents, custom: Seq<(Seq<char>, Seq<char>)>, n: int)
    requires
        0 <= n <= custom.len(),
        with_custom(headers, custom.take(n)) is Err,
    ensures
        with_custom(headers, custom) == with_custom(headers, custom.take(n)),
    decreases custom.len() - n,
{
    if n < custom.len() {
        assert(custom.take(n + 1).drop_last() =~= custom.take(n));
        lemma_custom_error(headers, custom, n + 1);
    } else {
        assert(custom.take(n) =~= custom);
    }
}

impl Clone for SendMessageOptions {
    fn clone(&self) -> (r: Self)
        ensures
            r@ == self@,
    {
        let broker_properties = match &self.broker_properties {
            Some(properties) => Some(properties.clone()),
            None => None,
        };
        let custom_properties = match &self.custom_properties {
            Some(custom) => Some(custom.clone()),
            None => None,
        };
        let r = SendMessageOptions {
            content_type: clone_text(&self.content_type),
            broker_properties,
            custom_properties,
        };
        proof {
            if self.custom_properties is Some {
                assert(r.custom_properties->0@ =~= self.custom_properties->0@);
            }
        }
        r
    }
}

impl Default for SendMessageOptions {
    fn default() -> (r: Self)
        ensures
            r@ == no_options(),
    {
        SendMessageOptions { content_type: None, broker_properties: None, custom_properties: None }
    }
}

impl SendMessageOptions {
    /// Empty options.
    pub fn new() -> (r: Self)
        ensures
            r@ == no_options(),
    {
        SendMessageOptions::default()
    }

    /// Set the `Content-Type` of the body.
    #[must_use]
    pub fn content_type(self, content_type: &str) -> (r: Self)
        ensures
            r@ == (OptionsView { content_type: Some(content_type@), ..self@ }),
    {
        SendMessageOptions { content_type: Some(content_type.to_string()), ..self }
    }

    /// Set the broker properties of the message.
    #[must_use]
    pub fn broker_properties(self, properties: SettableBrokerProperties) -> (r: Self)
        ensures
            r@ == (OptionsView { broker_properties: Some(properties@), ..self@ }),
    {
        SendMessageOptions { broker_properties: Some(properties), ..self }
    }

    /// Add a custom message property, sent as a header.
    #[must_use]
    pub fn custom_property(self, name: &str, value: &str) -> (r: Self)
        ensures
            r@.content_type == self@.content_type,
            r@.broker_properties == self@.broker_properties,
            r@.custom_properties is Some,
            r@.custom() == with_property(self@.custom(), name@, value@),
    {
        let custom = match self.custom_properties {
            Some(custom) => custom,
            None => NameMap::new(),
        };
        let ghost before = custom.order().map_values(|n: Seq<char>| (n, custom@[n]@));
        proof {
            custom.lemma_order();
            assert(before =~= self@.custom());
            assert forall|i: int| 0 <= i < before.len() implies (#[trigger] before[i]).0
                == custom.order()[i] by {}
            if custom@.contains_key(name@) {
                let i = custom.order().index_of(name@);
                assert(before[i].0 == name@);
            }
        }
        let custom_properties = Some(custom.with(name, value.to_string()));
        let r = SendMessageOptions { custom_properties, ..self };
        assert(r@.custom() =~= with_property(self@.custom(), name@, value@));
        r
    }

    /// Whether the broker properties can be written.
    pub fn is_written(&self) -> (r: bool)
        ensures
            r == self@.written(),
    {
        match &self.broker_properties {
            Some(properties) => properties.is_writable(),
            None => true,
        }
    }

    /// Whether the options can be turned into headers.
    pub fn is_sendable(&self) -> (r: bool)
        ensures
            r == self@.sendable(),
    {
        let count = match &self.custom_properties {
            Some(custom) => custom.len(),
            None => 0,
        };
        self.is_written() && count <= CUSTOM_ROOM
    }

    /// The headers that carry the options.
    pub fn to_headers(&self) -> (r: Result<HeaderMap<HeaderValue>>)
        requires
            self@.sendable(),
        ensures
            yields_headers(r, message_headers(self@)),
            small_headers(r, self@),
            self@.broker_text_allowed(),
    {
        self.headers_if_room().unwrap()
    }

    /// The headers that carry the options, or `None` where a header map has no room for them, which
    /// happens only with more than [`CUSTOM_ROOM`] custom properties.
    pub fn headers_if_room(&self) -> (r: Option<Result<HeaderMap<HeaderValue>>>)
        requires
            self@.written(),
        ensures
            self@.custom().len() <= CUSTOM_ROOM ==> r is Some,
            r matches Some(made) ==> yields_headers(made, message_headers(self@)) && small_headers(
                made,
                self@,
            ) && self@.broker_text_allowed(),
    {
        let mut headers = new_headers();
        proof {
            reveal_strlit("Content-Type");
            reveal_strlit("content-type");
            reveal_strlit("brokerproperties");
            assert(lowercase("content-type"@) =~= "content-type"@);
            assert(lowercase("brokerproperties"@) =~= "brokerproperties"@);
        }
        if let Some(content_type) = &self.content_type {
            match header_value("Content-Type", content_type.as_str()) {
                Ok(_) => {},
                Err(e) => return Some(Err(e)),
            }
            if !insert_header(&mut headers, "content-type", content_type.as_str(), false) {
                return None;
            }
        }
        assert(header_sensitive(headers) =~= Set::<Seq<char>>::empty());
        if let Some(properties) = &self.broker_properties {
            let json = properties.to_json();
            match header_value("BrokerProperties", json.as_str()) {
                Ok(_) => {},
                Err(e) => return Some(Err(e)),
            }
            if !insert_header(&mut headers, "brokerproperties", json.as_str(), false) {
                return None;
            }
        }
        assert(header_sensitive(headers) =~= Set::<Seq<char>>::empty());
        let ghost start = header_contents(headers);
        let ghost all = self@.custom();
        assert(fixed_headers(self@) == Ok::<Contents, ErrorView>(start));
        assert(all.take(0) =~= seq![]);
        if let Some(custom) = &self.custom_properties {
            let mut i: usize = 0;
            while i < custom.len()
                invariant
                    i <= custom.order().len(),
                    self.custom_properties == Some(*custom),
                    all == self@.custom(),
                    all.len() == custom.order().len(),
                    start.dom().finite(),
                    start.dom().len() <= 2,
                    fixed_headers(self@) == Ok::<Contents, ErrorView>(start),
                    with_custom(start, all.take(i as int)) == Ok::<Contents, ErrorView>(
                        header_contents(headers),
                    ),
                    header_sensitive(headers) == Set::<Seq<char>>::empty(),
                decreases custom.order().len() - i,
            {
                let name = custom.name_at(i);
                let value = custom.value_at(i);
                proof {
                    assert(all[i as int] == (name@, value@));
                    assert(all.take(i + 1).drop_last() =~= all.take(i as int));
                    assert(all.take(i + 1).last() == (name@, value@));
                    lemma_custom_size(start, all.take(i as int));
                    if with_custom(start, all.take(i + 1)) is Err {
                        lemma_custom_error(start, all, i + 1);
                    }
                }
                if header_name(name).is_none() {
                    return Some(
                        Err(
                            AzureError::Config(
                                "invalid Service Bus custom property name '".to_string().concat(
                                    name,
                                ).concat("'"),
                            ),
                        ),
                    );
                }
                match header_value(name, value.as_str()) {
                    Ok(_) => {},
                    Err(e) => return Some(Err(e)),
                }
                if !insert_header(&mut headers, name, value.as_str(), false) {
                    return None;
                }
                assert(header_sensitive(headers) =~= Set::<Seq<char>>::empty());
                i += 1;
            }
        }
        proof {
            assert(all.take(all.len() as int) =~= all);
            lemma_custom_size(start, all);
        }
        Some(Ok(headers))
    }
}

/// Properties with a value for one name: in place of the one it had, or behind the others.
pub open spec fn with_property(
    custom: Seq<(Seq<char>, Seq<char>)>,
    name: Seq<char>,
    value: Seq<char>,
) -> Seq<(Seq<char>, Seq<char>)> {
    if exists|i: int| 0 <= i < custom.len() && (#[trigger] custom[i]).0 == name {
        custom.map_values(
            |p: (Seq<char>, Seq<char>)|
                if p.0 == name {
                    (name, value)
                } else {
                    p
                },
        )
    } else {
        custom.push((name, value))
    }
}

} // verus!
