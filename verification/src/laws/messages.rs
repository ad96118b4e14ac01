//! Laws on messages: what their options and broker properties are sent as, written out in full.
use vstd::prelude::*;
use vstd::utf8::*;

use crate::encoding::{http_date_text, json_seconds_text, json_string_text};
use crate::error::ErrorView;
use crate::headers::{valid_name, valid_value};
use crate::laws::text::joined;
use crate::servicebus::message::{
    broker_json, broker_json_with, comma_separated, date_text, fixed_headers, json_field,
    message_headers, no_broker_properties, no_options, no_properties, seconds_text, text_field,
    value_field, wire_fields, with_custom, with_property, writable, Contents, OptionsView,
    PropertiesView, Span, UnixTime,
};
use crate::text::lowercase;

verus! {

/// A value that may be missing as a JSON string.
pub open spec fn quoted(value: Option<Seq<char>>) -> Option<Seq<char>> {
    match value {
        Some(text) => Some(json_string_text(text)),
        None => None,
    }
}

/// The properties that can be set, by the names they have on the wire, with their JSON values.
pub open spec fn wire_pairs(
    p: PropertiesView,
    seconds: Option<Seq<char>>,
    date: Option<Seq<char>>,
) -> Seq<(Seq<char>, Option<Seq<char>>)> {
    seq![
        ("CorrelationId"@, quoted(p.correlation_id)),
        ("SessionId"@, quoted(p.session_id)),
        ("MessageId"@, quoted(p.message_id)),
        ("Label"@, quoted(p.label)),
        ("ReplyTo"@, quoted(p.reply_to)),
        ("TimeToLive"@, seconds),
        ("To"@, quoted(p.to)),
        ("ScheduledEnqueueTimeUtc"@, quoted(date)),
        ("ReplyToSessionId"@, quoted(p.reply_to_session_id)),
        ("PartitionKey"@, quoted(p.partition_key)),
    ]
}

/// The fields of those pairs that have a value, each a name in quotes, a colon and the value.
pub open spec fn set_fields(pairs: Seq<(Seq<char>, Option<Seq<char>>)>) -> Seq<Seq<char>>
    decreases pairs.len(),
{
    if pairs.len() == 0 {
        seq![]
    } else {
        let start = set_fields(pairs.drop_last());
        match pairs.last().1 {
            Some(value) => start.push("\""@ + pairs.last().0 + "\":"@ + value),
            None => start,
        }
    }
}

proof fn lemma_set_push(
    pairs: Seq<(Seq<char>, Option<Seq<char>>)>,
    name: Seq<char>,
    value: Option<Seq<char>>,
)
    ensures
        set_fields(pairs.push((name, value))) == set_fields(pairs) + value_field(name, value),
{
    assert(pairs.push((name, value)).drop_last() =~= pairs);
    assert(set_fields(pairs.push((name, value))) =~= set_fields(pairs) + value_field(name, value));
}

proof fn lemma_quoted_push(
    pairs: Seq<(Seq<char>, Option<Seq<char>>)>,
    name: Seq<char>,
    value: Option<Seq<char>>,
)
    ensures
        set_fields(pairs.push((name, quoted(value)))) == set_fields(pairs) + text_field(
            name,
            value,
        ),
{
    lemma_set_push(pairs, name, quoted(value));
    assert(value_field(name, quoted(value)) =~= text_field(name, value));
}

proof fn lemma_wire_fields(
    p: PropertiesView,
    seconds: Option<Seq<char>>,
    date: Option<Seq<char>>,
)
    ensures
        wire_fields(p, seconds, date) == set_fields(wire_pairs(p, seconds, date)),
{
    let p0 = Seq::<(Seq<char>, Option<Seq<char>>)>::empty();
    let p1 = p0.push(("CorrelationId"@, quoted(p.correlation_id)));
    let p2 = p1.push(("SessionId"@, quoted(p.session_id)));
    let p3 = p2.push(("MessageId"@, quoted(p.message_id)));
    let p4 = p3.push(("Label"@, quoted(p.label)));
    let p5 = p4.push(("ReplyTo"@, quoted(p.reply_to)));
    let p6 = p5.push(("TimeToLive"@, seconds));
    let p7 = p6.push(("To"@, quoted(p.to)));
    let p8 = p7.push(("ScheduledEnqueueTimeUtc"@, quoted(date)));
    let p9 = p8.push(("ReplyToSessionId"@, quoted(p.reply_to_session_id)));
    let p10 = p9.push(("PartitionKey"@, quoted(p.partition_key)));
    assert(p10 =~= wire_pairs(p, seconds, date));
    lemma_quoted_push(p0, "CorrelationId"@, p.correlation_id);
    assert(set_fields(p1) =~= text_field("CorrelationId"@, p.correlation_id));
    lemma_quoted_push(p1, "SessionId"@, p.session_id);
    lemma_quoted_push(p2, "MessageId"@, p.message_id);
    lemma_quoted_push(p3, "Label"@, p.label);
    lemma_quoted_push(p4, "ReplyTo"@, p.reply_to);
    lemma_set_push(p5, "TimeToLive"@, seconds);
    lemma_quoted_push(p6, "To"@, p.to);
    lemma_quoted_push(p7, "ScheduledEnqueueTimeUtc"@, date);
    lemma_quoted_push(p8, "ReplyToSessionId"@, p.reply_to_session_id);
    lemma_quoted_push(p9, "PartitionKey"@, p.partition_key);
}

proof fn lemma_joined_push(fields: Seq<Seq<char>>, last: Seq<char>)
    requires
        fields.len() > 0,
    ensures
        joined(fields.push(last), ',') == joined(fields, ',') + seq![','] + last,
    decreases fields.len(),
{
    let all = fields.push(last);
    if fields.len() == 1 {
        assert(all.drop_first() =~= seq![last]);
        reveal_with_fuel(joined, 2);
        assert(joined(all, ',') =~= joined(fields, ',') + seq![','] + last);
    } else {
        assert(all.drop_first() =~= fields.drop_first().push(last));
        lemma_joined_push(fields.drop_first(), last);
        assert(joined(all, ',') =~= joined(fields, ',') + seq![','] + last);
    }
}

proof fn lemma_commas(fields: Seq<Seq<char>>)
    ensures
        comma_separated(fields) == joined(fields, ','),
    decreases fields.len(),
{
    reveal_strlit(",");
    if fields.len() > 1 {
        lemma_commas(fields.drop_last());
        lemma_joined_push(fields.drop_last(), fields.last());
        assert(fields.drop_last().push(fields.last()) =~= fields);
        assert(comma_separated(fields) =~= joined(fields, ','));
    }
}

/// Broker properties are written as a JSON object of those that are set and of no others, each
/// under its own name with its whole value, with commas between them.
pub proof fn broker_properties_are_written_whole(
    p: PropertiesView,
    seconds: Option<Seq<char>>,
    date: Option<Seq<char>>,
)
    ensures
        broker_json_with(p, seconds, date) == "{"@ + joined(
            set_fields(wire_pairs(p, seconds, date)),
            ',',
        ) + "}"@,
        broker_json(p) == broker_json_with(
            p,
            match p.time_to_live {
                Some(span) => Some(json_seconds_text(span.secs, span.nanos)),
                None => None,
            },
            match p.scheduled_enqueue_time_utc {
                Some(time) => Some(http_date_text(time.secs as u64)),
                None => None,
            },
        ),
        seconds_text(p.time_to_live) == (match p.time_to_live {
            Some(span) => Some(json_seconds_text(span.secs, span.nanos)),
            None => None,
        }),
        date_text(p.scheduled_enqueue_time_utc) == (match p.scheduled_enqueue_time_utc {
            Some(time) => Some(http_date_text(time.secs as u64)),
            None => None,
        }),
{
    lemma_wire_fields(p, seconds, date);
    lemma_commas(wire_fields(p, seconds, date));
}

/// A field is its name in quotes, a colon and its value.
pub proof fn fields_are_named(name: Seq<char>, value: Seq<char>)
    ensures
        json_field(name, value) == "\""@ + name + "\":"@ + value,
{
}

/// Nothing is set to start with.
pub proof fn nothing_is_set_at_first()
    ensures
        no_options().content_type is None,
        no_options().broker_properties is None,
        no_options().custom_properties is None,
        no_options().custom() == Seq::<(Seq<char>, Seq<char>)>::empty(),
        no_properties().correlation_id is None,
        no_properties().session_id is None,
        no_properties().message_id is None,
        no_properties().label is None,
        no_properties().reply_to is None,
        no_properties().time_to_live is None,
        no_properties().to is None,
        no_properties().scheduled_enqueue_time_utc is None,
        no_properties().reply_to_session_id is None,
        no_properties().partition_key is None,
        no_broker_properties().delivery_count == 0,
        no_broker_properties().enqueued_sequence_number is None,
        no_broker_properties().enqueued_time_utc is None,
        no_broker_properties().lock_token is None,
        no_broker_properties().locked_until_utc is None,
        no_broker_properties().message_id is None,
        no_broker_properties().sequence_number is None,
        no_broker_properties().state is None,
        no_broker_properties().time_to_live is None,
        no_broker_properties().correlation_id is None,
        no_broker_properties().session_id is None,
        no_broker_properties().label is None,
        no_broker_properties().reply_to is None,
        no_broker_properties().to is None,
{
    assert(no_options().custom() =~= seq![]);
}

/// Broker properties can be written exactly when the time to live has less than a second of
/// nanoseconds and the enqueue time lies from the UNIX epoch to the end of the year 9999. Options can
/// be sent when that holds and there are at most 6549 custom properties.
pub proof fn what_can_be_written(p: PropertiesView, options: OptionsView)
    ensures
        writable(p) <==> (p.time_to_live matches Some(span) ==> span.nanos < 1_000_000_000) && (
        p.scheduled_enqueue_time_utc matches Some(time) ==> 0 <= time.secs <= 253_402_300_799),
        options.written() <==> (options.broker_properties matches Some(p) ==> writable(p)),
        options.sendable() <==> options.written() && options.custom().len() <= 6549,
{
}

/// A length of time is normal with less than a second of nanoseconds, and a time has an HTTP form
/// from the UNIX epoch to the end of the year 9999.
pub proof fn times_have_bounds(span: Span, time: UnixTime)
    ensures
        span.normal() <==> span.nanos < 1_000_000_000,
        time.has_http_form() <==> 0 <= time.secs <= 253_402_300_799,
{
}

/// The custom properties of options are their names in order, each with its whole value.
pub proof fn custom_properties_are_listed(options: OptionsView, i: int)
    ensures
        options.custom_properties matches Some((names, values)) ==> options.custom().len()
            == names.len() && (0 <= i < names.len() ==> options.custom()[i] == (
            names[i],
            values[names[i]]@,
        )),
        options.custom_properties is None ==> options.custom().len() == 0,
{
}

/// Whether a position is where a property is found.
pub open spec fn named_at(custom: Seq<(Seq<char>, Seq<char>)>, name: Seq<char>, i: int) -> bool {
    0 <= i < custom.len() && custom[i].0 == name
}

/// Setting a property gives it the whole value, keeps every other property in its place, and adds
/// one only where there was none of that name.
pub proof fn setting_a_property_changes_it_alone(
    custom: Seq<(Seq<char>, Seq<char>)>,
    name: Seq<char>,
    value: Seq<char>,
    i: int,
)
    ensures
        (exists|j: int| named_at(custom, name, j)) ==> with_property(custom, name, value).len()
            == custom.len(),
        !(exists|j: int| named_at(custom, name, j)) ==> with_property(custom, name, value)
            == custom.push((name, value)),
        0 <= i < custom.len() && custom[i].0 != name ==> with_property(custom, name, value)[i]
            == custom[i],
        0 <= i < custom.len() && custom[i].0 == name ==> with_property(custom, name, value)[i] == (
            name,
            value,
        ),
{
    if exists|j: int| named_at(custom, name, j) {
        let j = choose|j: int| named_at(custom, name, j);
        assert(custom[j].0 == name);
    }
    if 0 <= i < custom.len() && custom[i].0 == name {
        assert(named_at(custom, name, i));
    }
    if exists|j: int| 0 <= j < custom.len() && (#[trigger] custom[j]).0 == name {
        let j = choose|j: int| 0 <= j < custom.len() && (#[trigger] custom[j]).0 == name;
        assert(named_at(custom, name, j));
    }
}

/// The error for a header value that HTTP does not allow names the header.
pub open spec fn bad_value(name: Seq<char>) -> ErrorView {
    ErrorView::Config("invalid value for Service Bus header '"@ + name + "'"@)
}

/// The error for a custom property whose name HTTP does not allow names it.
pub open spec fn bad_name(name: Seq<char>) -> ErrorView {
    ErrorView::Config("invalid Service Bus custom property name '"@ + name + "'"@)
}

/// The content type and the broker properties go into headers of their own, each with its whole
/// value; the content type is looked at first.
pub proof fn content_type_and_broker_properties_are_headers(options: OptionsView)
    ensures
        fixed_headers(options) == (match (options.content_type, options.broker_properties) {
            (None, None) => Ok::<Contents, ErrorView>(Map::empty()),
            (Some(content_type), None) => if !valid_value(content_type) {
                Err::<Contents, ErrorView>(bad_value("Content-Type"@))
            } else {
                Ok::<Contents, ErrorView>(
                    map!["content-type"@ => seq![encode_utf8(content_type)]],
                )
            },
            (None, Some(p)) => if !valid_value(broker_json(p)) {
                Err::<Contents, ErrorView>(bad_value("BrokerProperties"@))
            } else {
                Ok::<Contents, ErrorView>(
                    map!["brokerproperties"@ => seq![encode_utf8(broker_json(p))]],
                )
            },
            (Some(content_type), Some(p)) => if !valid_value(content_type) {
                Err::<Contents, ErrorView>(bad_value("Content-Type"@))
            } else if !valid_value(broker_json(p)) {
                Err::<Contents, ErrorView>(bad_value("BrokerProperties"@))
            } else {
                Ok::<Contents, ErrorView>(
                    map![
                        "content-type"@ => seq![encode_utf8(content_type)],
                        "brokerproperties"@ => seq![encode_utf8(broker_json(p))],
                    ],
                )
            },
        }),
        fixed_headers(options) matches Err(e) ==> message_headers(options) == Err::<
            Contents,
            ErrorView,
        >(e),
        fixed_headers(options) matches Ok(headers) ==> message_headers(options) == with_custom(
            headers,
            options.custom(),
        ),
{
    reveal_strlit("content-type");
    reveal_strlit("brokerproperties");
    assert("content-type"@.len() != "brokerproperties"@.len());
}

/// Whether a name is, in lower case, that of a custom property from a position on.
pub open spec fn named_from(
    custom: Seq<(Seq<char>, Seq<char>)>,
    name: Seq<char>,
    from: int,
) -> bool {
    exists|j: int| from <= j < custom.len() && lowercase((#[trigger] custom[j]).0) == name
}

/// Each custom property is sent as a header of its name, in lower case, with its whole value alone;
/// of two that differ in the case of letters only, the last counts. Every other header stays, and
/// none is added.
pub proof fn custom_properties_are_headers(
    headers: Contents,
    custom: Seq<(Seq<char>, Seq<char>)>,
    i: int,
    name: Seq<char>,
)
    ensures
        with_custom(headers, custom) matches Ok(all) ==> {
            &&& 0 <= i < custom.len() && !named_from(custom, lowercase(custom[i].0), i + 1) ==> {
                &&& all.contains_key(lowercase(custom[i].0))
                &&& all[lowercase(custom[i].0)] == seq![encode_utf8(custom[i].1)]
            }
            &&& !named_from(custom, name, 0) ==> all.contains_key(name) == headers.contains_key(
                name,
            ) && all[name] == headers[name]
            &&& named_from(custom, name, 0) ==> all.contains_key(name)
        },
    decreases custom.len(),
{
    if custom.len() > 0 && with_custom(headers, custom) is Ok {
        let start = custom.drop_last();
        let last = lowercase(custom.last().0);
        let all = with_custom(headers, custom)->Ok_0;
        custom_properties_are_headers(headers, start, i, name);
        assert(lowercase(custom[custom.len() - 1].0) == last);
        if 0 <= i < custom.len() && !named_from(custom, lowercase(custom[i].0), i + 1) {
            if i < start.len() {
                assert(start[i] == custom[i]);
                assert(!named_from(start, lowercase(start[i].0), i + 1)) by {
                    if named_from(start, lowercase(start[i].0), i + 1) {
                        let j = choose|j: int|
                            i + 1 <= j < start.len() && lowercase((#[trigger] start[j]).0)
                                == lowercase(start[i].0);
                        assert(lowercase(custom[j].0) == lowercase(custom[i].0));
                    }
                }
                assert(last != lowercase(custom[i].0));
            }
        }
        if !named_from(custom, name, 0) {
            assert(!named_from(start, name, 0)) by {
                if named_from(start, name, 0) {
                    let j = choose|j: int|
                        0 <= j < start.len() && lowercase((#[trigger] start[j]).0) == name;
                    assert(lowercase(custom[j].0) == name);
                }
            }
            assert(last != name);
        } else if last != name {
            let j = choose|j: int|
                0 <= j < custom.len() && lowercase((#[trigger] custom[j]).0) == name;
            assert(j < start.len());
            assert(lowercase(start[j].0) == name);
        }
    }
}

/// The first custom property that HTTP does not allow decides the error, which names it.
pub proof fn the_first_bad_property_is_named(
    headers: Contents,
    custom: Seq<(Seq<char>, Seq<char>)>,
    i: int,
)
    requires
        0 <= i < custom.len(),
        !(valid_name(custom[i].0) && valid_value(custom[i].1)),
        forall|j: int|
            0 <= j < i ==> valid_name((#[trigger] custom[j]).0) && valid_value(custom[j].1),
    ensures
        with_custom(headers, custom) == Err::<Contents, ErrorView>(
            if !valid_name(custom[i].0) {
                bad_name(custom[i].0)
            } else {
                bad_value(custom[i].0)
            },
        ),
    decreases custom.len(),
{
    let start = custom.drop_last();
    if i < start.len() {
        assert(start[i] == custom[i]);
        the_first_bad_property_is_named(headers, start, i);
    } else {
        lemma_allowed_start(headers, start);
    }
}

proof fn lemma_allowed_start(headers: Contents, custom: Seq<(Seq<char>, Seq<char>)>)
    requires
        forall|j: int|
            0 <= j < custom.len() ==> valid_name((#[trigger] custom[j]).0) && valid_value(
                custom[j].1,
            ),
    ensures
        with_custom(headers, custom) is Ok,
    decreases custom.len(),
{
    if custom.len() > 0 {
        let start = custom.drop_last();
        assert forall|j: int| 0 <= j < start.len() implies valid_name((#[trigger] start[j]).0)
            && valid_value(start[j].1) by {
            assert(start[j] == custom[j]);
        }
        assert(valid_name(custom[custom.len() - 1].0));
        lemma_allowed_start(headers, start);
    }
}

} // verus!
