//! What holds of the mapping as a whole.

use vstd::prelude::*;

use crate::attributes;
use crate::attributes::{AttributesView, UMessageType, UPriority};
use crate::keys;
use crate::mapping;
use crate::message;
use crate::message::MessageView;
use crate::properties;
use crate::properties::{PropertyView, Wanted};
use crate::reading;
use crate::status;
use crate::status::{StatusView, UCode};
use crate::text;
use crate::uri;
use crate::uuid;
use crate::writing;

verus! {

/// Whether an entry is present and wanted.
spec fn entry_wanted(entry: Option<PropertyView>, wanted: Wanted) -> bool {
    entry matches Some(property) && properties::is_wanted(property, wanted)
}

proof fn lemma_select_first(first: PropertyView, others: Seq<PropertyView>, wanted: Wanted)
    ensures
        properties::select(seq![first] + others, wanted) == if properties::is_wanted(
            first,
            wanted,
        ) {
            seq![first] + properties::select(others, wanted)
        } else {
            properties::select(others, wanted)
        },
{
    assert((seq![first] + others).drop_first() =~= others);
}

/// Where no entry is wanted, none is found.
proof fn lemma_none_wanted(entries: Seq<Option<PropertyView>>, wanted: Wanted)
    requires
        forall|j: int| 0 <= j < entries.len() ==> !#[trigger] entry_wanted(entries[j], wanted),
    ensures
        properties::select(writing::present(entries), wanted) == Seq::<PropertyView>::empty(),
    decreases entries.len(),
{
    if entries.len() > 0 {
        let others = entries.drop_first();
        assert(!entry_wanted(entries[0], wanted));
        assert forall|j: int| 0 <= j < others.len() implies !#[trigger] entry_wanted(
            others[j],
            wanted,
        ) by {
            assert(!entry_wanted(entries[j + 1], wanted));
        }
        lemma_none_wanted(others, wanted);
        if entries[0] is Some {
            lemma_select_first(entries[0]->0, writing::present(others), wanted);
        }
    }
}

/// Where at most one entry is wanted, no other is found.
proof fn lemma_one_wanted(entries: Seq<Option<PropertyView>>, i: int, wanted: Wanted)
    requires
        0 <= i < entries.len(),
        forall|j: int|
            0 <= j < entries.len() && j != i ==> !#[trigger] entry_wanted(entries[j], wanted),
    ensures
        properties::select(writing::present(entries), wanted) == if entry_wanted(
            entries[i],
            wanted,
        ) {
            seq![entries[i]->0]
        } else {
            Seq::<PropertyView>::empty()
        },
    decreases entries.len(),
{
    let others = entries.drop_first();
    if i == 0 {
        assert forall|j: int| 0 <= j < others.len() implies !#[trigger] entry_wanted(
            others[j],
            wanted,
        ) by {
            assert(!entry_wanted(entries[j + 1], wanted));
        }
        lemma_none_wanted(others, wanted);
        if entries[0] is Some {
            lemma_select_first(entries[0]->0, writing::present(others), wanted);
            assert(seq![entries[0]->0] + Seq::<PropertyView>::empty() =~= seq![entries[0]->0]);
        }
    } else {
        assert(!entry_wanted(entries[0], wanted));
        assert forall|j: int| 0 <= j < others.len() && j != i - 1 implies !#[trigger] entry_wanted(
            others[j],
            wanted,
        ) by {
            assert(!entry_wanted(entries[j + 1], wanted));
        }
        lemma_one_wanted(others, i - 1, wanted);
        assert(others[i - 1] == entries[i]);
        if entries[0] is Some {
            lemma_select_first(entries[0]->0, writing::present(others), wanted);
        }
    }
}

/// What a user property of the packet for attributes holds.
pub open spec fn written(a: AttributesView, key: Seq<char>) -> Option<Seq<char>> {
    properties::user_property(writing::properties_of(a), key)
}

/// The packet for attributes has one user property for each attribute that is present, and none
/// with a retired key.
pub(crate) proof fn lemma_written(a: AttributesView)
    ensures
        written(a, keys::KEY_UPROTOCOL_VERSION@) == Some(text::decimal(1)),
        written(a, keys::KEY_TTL@) == writing::ttl_text(a.ttl),
        written(a, keys::KEY_MESSAGE_ID@) == Some(uuid::uuid_text(a.id)),
        written(a, keys::KEY_TYPE@) == Some(attributes::name_of_type(a.type_)),
        written(a, keys::KEY_SOURCE@) == Some(uri::uri_text(a.source)),
        written(a, keys::KEY_SINK@) == match a.sink {
            Some(sink) => Some(uri::uri_text(sink)),
            None => None,
        },
        written(a, keys::KEY_PRIORITY@) == match a.priority {
            Some(priority) => Some(attributes::priority_name(priority)),
            None => None,
        },
        written(a, keys::KEY_PERMISSION_LEVEL@) == writing::number_text(a.permission_level),
        written(a, keys::KEY_COMMSTATUS@) == match a.commstatus {
            Some(code) => Some(text::decimal(status::code_value(code) as nat)),
            None => None,
        },
        written(a, keys::KEY_TOKEN@) == a.token,
        written(a, keys::KEY_TRACEPARENT@) == a.traceparent,
        written(a, keys::RETIRED_PAYLOAD_KEY_13@) is None,
        written(a, keys::RETIRED_PAYLOAD_KEY_14@) is None,
        written(a, keys::RETIRED_PAYLOAD_KEY_15@) is None,
{
    let entries = writing::entries(a);
    keys::lemma_keys_differ();
    let all = keys::all_keys();
    assert(all[0] == keys::KEY_UPROTOCOL_VERSION@ && all[1] == keys::KEY_MESSAGE_ID@ && all[2]
        == keys::KEY_TYPE@ && all[3] == keys::KEY_SOURCE@ && all[4] == keys::KEY_SINK@ && all[5]
        == keys::KEY_PRIORITY@ && all[6] == keys::KEY_TTL@ && all[7] == keys::KEY_PERMISSION_LEVEL@
        && all[8] == keys::KEY_COMMSTATUS@ && all[9] == keys::KEY_TOKEN@ && all[10]
        == keys::KEY_TRACEPARENT@ && all[11] == keys::RETIRED_PAYLOAD_KEY_13@ && all[12]
        == keys::RETIRED_PAYLOAD_KEY_14@ && all[13] == keys::RETIRED_PAYLOAD_KEY_15@);
    lemma_one_wanted(entries, 0, Wanted::UserProperty(keys::KEY_UPROTOCOL_VERSION@));
    lemma_one_wanted(entries, 2, Wanted::UserProperty(keys::KEY_TTL@));
    lemma_one_wanted(entries, 3, Wanted::UserProperty(keys::KEY_MESSAGE_ID@));
    lemma_one_wanted(entries, 4, Wanted::UserProperty(keys::KEY_TYPE@));
    lemma_one_wanted(entries, 5, Wanted::UserProperty(keys::KEY_SOURCE@));
    lemma_one_wanted(entries, 6, Wanted::UserProperty(keys::KEY_SINK@));
    lemma_one_wanted(entries, 7, Wanted::UserProperty(keys::KEY_PRIORITY@));
    lemma_one_wanted(entries, 8, Wanted::UserProperty(keys::KEY_PERMISSION_LEVEL@));
    lemma_one_wanted(entries, 9, Wanted::UserProperty(keys::KEY_COMMSTATUS@));
    lemma_one_wanted(entries, 11, Wanted::UserProperty(keys::KEY_TOKEN@));
    lemma_one_wanted(entries, 12, Wanted::UserProperty(keys::KEY_TRACEPARENT@));
    lemma_none_wanted(entries, Wanted::UserProperty(keys::RETIRED_PAYLOAD_KEY_13@));
    lemma_none_wanted(entries, Wanted::UserProperty(keys::RETIRED_PAYLOAD_KEY_14@));
    lemma_none_wanted(entries, Wanted::UserProperty(keys::RETIRED_PAYLOAD_KEY_15@));
}

/// The packet for attributes has one message expiry interval, one correlation data and one content
/// type, each where there is something for it to hold.
pub(crate) proof fn lemma_written_others(a: AttributesView)
    ensures
        properties::message_expiry_interval(writing::properties_of(a)) == match a.ttl {
            Some(ttl) => Some(writing::expiry_seconds(ttl)),
            None => None,
        },
        properties::correlation_data(writing::properties_of(a)) == match a.request_id {
            Some(id) => Some(uuid::uuid_bytes(id)),
            None => None,
        },
        properties::content_types(writing::properties_of(a)) == match a.payload_encoding {
            Some(id) => seq![Some(text::decimal(id as nat))],
            None => Seq::empty(),
        },
{
    let entries = writing::entries(a);
    lemma_one_wanted(entries, 1, Wanted::MessageExpiryInterval);
    lemma_one_wanted(entries, 10, Wanted::CorrelationData);
    lemma_one_wanted(entries, 13, Wanted::ContentType);
}

/// What is read from the packet for a message's attributes, apart from the addresses: the
/// attributes.
proof fn lemma_written_reads_back(a: AttributesView)
    requires
        attributes::valid_attributes(a),
        message::well_placed(a),
        a.payload_encoding != Some(0u32),
    ensures
        ({
            let packet = writing::properties_of(a);
            &&& reading::no_retired_keys(packet) is Ok
            &&& reading::version_supported(packet) is Ok
            &&& reading::message_id(packet) == Ok::<uuid::UUID, StatusView>(a.id)
            &&& reading::message_type(packet) == Ok::<UMessageType, StatusView>(a.type_)
            &&& reading::priority(packet) == Ok::<Option<UPriority>, StatusView>(a.priority)
            &&& reading::ttl(packet) == Ok::<Option<u32>, StatusView>(a.ttl)
            &&& reading::permission_level(packet) == Ok::<Option<u32>, StatusView>(
                a.permission_level,
            )
            &&& reading::commstatus(packet) == Ok::<Option<UCode>, StatusView>(a.commstatus)
            &&& reading::request_id(packet) == Ok::<Option<uuid::UUID>, StatusView>(a.request_id)
            &&& reading::payload_encoding(packet) == Ok::<Option<u32>, StatusView>(
                a.payload_encoding,
            )
        }),
{
    lemma_written(a);
    lemma_written_others(a);
    text::lemma_decimal_reads_back(1);
    uuid::lemma_uuid_text_reads_back(a.id);
    attributes::lemma_type_reads_back(a.type_);
    if a.priority is Some {
        attributes::lemma_priority_reads_back(a.priority->0);
    }
    if a.ttl is Some {
        text::lemma_decimal_reads_back(a.ttl->0 as nat);
    }
    if a.permission_level is Some {
        text::lemma_decimal_reads_back(a.permission_level->0 as nat);
    }
    if a.commstatus is Some {
        text::lemma_decimal_reads_back(status::code_value(a.commstatus->0) as nat);
        status::lemma_code_reads_back(a.commstatus->0);
    }
    if a.request_id is Some {
        uuid::lemma_uuid_bytes_read_back(a.request_id->0);
    }
    if a.payload_encoding is Some {
        text::lemma_decimal_reads_back(a.payload_encoding->0 as nat);
    }
}

/// What is read from the packet for a message's attributes, if their URIs are canonical: the
/// attributes.
proof fn lemma_reads_back(a: AttributesView)
    requires
        attributes::valid_attributes(a),
        message::well_placed(a),
        a.payload_encoding != Some(0u32),
    ensures
        reading::has_canonical_uris(a) ==> reading::attributes_in(writing::properties_of(a))
            == Ok::<AttributesView, StatusView>(a),
{
    let packet = writing::properties_of(a);
    lemma_written(a);
    lemma_written_reads_back(a);
    if reading::has_canonical_uris(a) {
        assert(reading::unreadable(packet) is None);
        assert(reading::attributes_in(packet)->Ok_0 =~= a);
    }
}

/// Attributes that are mapped from a packet make up a message, and their addresses are those that
/// the packet names.
proof fn lemma_mapped(packet: Seq<PropertyView>)
    ensures
        mapping::mapped_attributes(packet) matches Ok(a) ==> {
            &&& attributes::valid_attributes(a)
            &&& message::well_placed(a)
            &&& a.payload_encoding != Some(0u32)
            &&& reading::source(packet) == Ok::<uri::UriView, StatusView>(a.source)
            &&& reading::sink(packet) == Ok::<Option<uri::UriView>, StatusView>(a.sink)
            &&& reading::payload_encoding(packet) == Ok::<Option<u32>, StatusView>(
                a.payload_encoding,
            )
        },
{
}

/// Attributes that a packet was made for can be read back from it, provided that they hold nothing
/// that their type of message has no use for, that their payload encoding is not the reserved one,
/// and that their URIs can be read back from their texts. Where one of these fails, they cannot.
pub proof fn law_attributes_round_trip(a: AttributesView)
    requires
        attributes::valid_attributes(a),
    ensures
        mapping::mapped_properties(a) == Ok::<Seq<PropertyView>, StatusView>(
            writing::properties_of(a),
        ),
        mapping::mapped_attributes(writing::properties_of(a)) == Ok::<AttributesView, StatusView>(
            a,
        ) <==> {
            &&& message::well_placed(a)
            &&& a.payload_encoding != Some(0u32)
            &&& reading::has_canonical_uris(a)
        },
{
    let packet = writing::properties_of(a);
    lemma_mapped(packet);
    lemma_written(a);
    if message::well_placed(a) && a.payload_encoding != Some(0u32) {
        lemma_reads_back(a);
        if reading::has_canonical_uris(a) {
            assert(message::taken_over(a) =~= a);
        }
    }
}

/// No two messages with different attributes have the same packet.
pub proof fn law_packet_identifies_attributes(a: MessageView, b: MessageView)
    requires
        message::is_message(a),
        message::is_message(b),
        writing::properties_of(a.attributes) == writing::properties_of(b.attributes),
    ensures
        a.attributes == b.attributes,
{
    let x = a.attributes;
    let y = b.attributes;
    lemma_written_reads_back(x);
    lemma_written_reads_back(y);
    lemma_written(x);
    lemma_written(y);
    uri::lemma_uri_text_identifies(x.source, y.source);
    if x.sink is Some && y.sink is Some {
        uri::lemma_uri_text_identifies(x.sink->0, y.sink->0);
    }
    assert(x.sink == y.sink);
    assert(x =~= y);
}

/// Every message can be sent. Whoever receives the packet can put the same message together from it
/// and the payload, provided that the URIs of the message can be read back from their texts.
pub proof fn law_message_round_trip(m: MessageView)
    requires
        message::is_message(m),
    ensures
        mapping::mapped_properties(m.attributes) is Ok,
        reading::has_canonical_uris(m.attributes) ==> mapping::mapped_attributes(
            mapping::mapped_properties(m.attributes)->Ok_0,
        ) == Ok::<AttributesView, StatusView>(m.attributes),
        message::message_attributes(m.attributes, m.payload is Some) == Ok::<
            AttributesView,
            StatusView,
        >(m.attributes),
{
    law_attributes_round_trip(m.attributes);
    assert(message::taken_over(m.attributes) =~= m.attributes);
}

/// Attributes that were mapped from a packet can be sent on, and be read from the packet that is
/// made for them, provided that their URIs can be read back from their texts.
pub proof fn law_mapped_attributes_can_be_sent_on(packet: Seq<PropertyView>)
    ensures
        mapping::mapped_attributes(packet) matches Ok(a) ==> {
            &&& mapping::mapped_properties(a) is Ok
            &&& reading::has_canonical_uris(a) ==> mapping::mapped_attributes(
                mapping::mapped_properties(a)->Ok_0,
            ) == Ok::<AttributesView, StatusView>(a)
        },
{
    lemma_mapped(packet);
    if mapping::mapped_attributes(packet) is Ok {
        law_attributes_round_trip(mapping::mapped_attributes(packet)->Ok_0);
    }
}

/// Attributes that were mapped from a packet make up a message with any payload, if a payload is
/// given exactly where the attributes name an encoding for it. No attribute is lost or added.
pub proof fn law_mapped_attributes_make_a_message(packet: Seq<PropertyView>, has_payload: bool)
    ensures
        mapping::mapped_attributes(packet) matches Ok(a) ==> {
            if has_payload == (a.payload_encoding is Some) {
                message::message_attributes(a, has_payload) == Ok::<AttributesView, StatusView>(a)
            } else {
                message::message_attributes(a, has_payload) is Err
            }
        },
{
    lemma_mapped(packet);
    if mapping::mapped_attributes(packet) is Ok {
        let a = mapping::mapped_attributes(packet)->Ok_0;
        assert(message::taken_over(a) =~= a);
    }
}

/// No message has a payload without naming its encoding, and none names an encoding without having
/// a payload.
pub proof fn law_payload_comes_with_encoding(a: AttributesView, has_payload: bool)
    ensures
        has_payload != (a.payload_encoding is Some) ==> message::message_attributes(
            a,
            has_payload,
        ) is Err,
        message::message_attributes(a, has_payload) matches Ok(b) ==> b.payload_encoding
            == a.payload_encoding,
{
}

/// Making a message from the attributes of a message changes none of them.
pub proof fn law_message_attributes_are_kept(a: AttributesView, has_payload: bool)
    ensures
        message::message_attributes(a, has_payload) matches Ok(b) ==> message::message_attributes(
            b,
            has_payload,
        ) == Ok::<AttributesView, StatusView>(b),
{
    if message::message_attributes(a, has_payload) is Ok {
        let b = message::message_attributes(a, has_payload)->Ok_0;
        assert(message::taken_over(b) =~= b);
    }
}

/// A packet with a retired user property is refused, whatever else it holds.
pub proof fn law_retired_keys_are_refused(packet: Seq<PropertyView>)
    requires
        reading::has_user_property(packet, keys::RETIRED_PAYLOAD_KEY_13@)
            || reading::has_user_property(packet, keys::RETIRED_PAYLOAD_KEY_14@)
            || reading::has_user_property(packet, keys::RETIRED_PAYLOAD_KEY_15@),
    ensures
        mapping::mapped_attributes(packet) matches Err(e) && e.code
            == UCode::InvalidArgument,
{
}

/// A packet without a version, or with another version than the one that is mapped, is refused,
/// whatever else it holds.
pub proof fn law_other_versions_are_refused(packet: Seq<PropertyView>)
    requires
        match properties::user_property(packet, keys::KEY_UPROTOCOL_VERSION@) {
            Some(value) => text::unsigned_value(value) != Some(
                writing::CURRENT_UPROTOCOL_MAJOR_VERSION as nat,
            ),
            None => true,
        },
    ensures
        mapping::mapped_attributes(packet) matches Err(e) && e.code
            == UCode::InvalidArgument,
{
}

/// Whatever is wrong with a packet or with attributes, apart from the age of the message, is
/// reported as an invalid argument.
pub proof fn law_failures_are_invalid_arguments(packet: Seq<PropertyView>, a: AttributesView)
    ensures
        mapping::mapped_attributes(packet) matches Err(e) ==> e.code
            == UCode::InvalidArgument,
        mapping::mapped_properties(a) matches Err(e) ==> e.code == UCode::InvalidArgument,
        message::message_attributes(a, true) matches Err(e) ==> e.code
            == UCode::InvalidArgument,
        message::message_attributes(a, false) matches Err(e) ==> e.code
            == UCode::InvalidArgument,
{
}

/// The payload encoding of a message is named by the one content type of its packet, as a decimal
/// numeral of a number that is not zero. A packet without content type has no payload encoding. One
/// with several content types is refused.
pub proof fn law_content_type_names_encoding(packet: Seq<PropertyView>)
    ensures
        mapping::mapped_attributes(packet) matches Ok(a) ==> {
            let content_types = properties::content_types(packet);
            match a.payload_encoding {
                Some(id) => {
                    &&& id != 0
                    &&& content_types.len() == 1
                    &&& content_types[0] matches Some(value) && text::unsigned_value(value) == Some(
                        id as nat,
                    )
                },
                None => content_types.len() == 0,
            }
        },
        properties::content_types(packet).len() > 1 ==> mapping::mapped_attributes(packet) is Err,
{
}

/// The message expiry interval of a packet is the time to live of its message, rounded up to whole
/// seconds.
pub proof fn law_expiry_interval_covers_ttl(ttl: u32)
    ensures
        ttl <= writing::expiry_seconds(ttl) * 1000 < ttl + 1000,
{
}

/// A message without time to live, or with a time to live of zero, is not refused for its age at any
/// time that a clock can read. A message that is refused for its age is also refused later.
pub proof fn law_age_of_messages(a: AttributesView, now: nat, later: nat)
    requires
        now <= later,
    ensures
        a.ttl is None || a.ttl == Some(0u32) ==> mapping::unless_expired(
            a,
            attributes::expired_at(a.id, a.ttl, Some(now)),
        ) is Ok,
        mapping::unless_expired(a, attributes::expired_at(a.id, a.ttl, Some(now))) is Err
            ==> mapping::unless_expired(a, attributes::expired_at(a.id, a.ttl, Some(later))) is Err,
{
}

/// Properties that agree on everything that the mapping looks at are mapped to the same result.
proof fn lemma_same_mapping(p: Seq<PropertyView>, q: Seq<PropertyView>)
    requires
        forall|i: int|
            0 <= i < keys::all_keys().len() ==> properties::user_property(
                p,
                #[trigger] keys::all_keys()[i],
            ) == properties::user_property(q, keys::all_keys()[i]),
        properties::correlation_data(p) == properties::correlation_data(q),
        reading::payload_encoding(p) == reading::payload_encoding(q),
        reading::ttl(p) == reading::ttl(q),
    ensures
        mapping::mapped_attributes(p) == mapping::mapped_attributes(q),
{
    let all = keys::all_keys();
    assert(all[0] == keys::KEY_UPROTOCOL_VERSION@ && all[1] == keys::KEY_MESSAGE_ID@ && all[2]
        == keys::KEY_TYPE@ && all[3] == keys::KEY_SOURCE@ && all[4] == keys::KEY_SINK@ && all[5]
        == keys::KEY_PRIORITY@ && all[6] == keys::KEY_TTL@ && all[7] == keys::KEY_PERMISSION_LEVEL@
        && all[8] == keys::KEY_COMMSTATUS@ && all[9] == keys::KEY_TOKEN@ && all[10]
        == keys::KEY_TRACEPARENT@ && all[11] == keys::RETIRED_PAYLOAD_KEY_13@ && all[12]
        == keys::RETIRED_PAYLOAD_KEY_14@ && all[13] == keys::RETIRED_PAYLOAD_KEY_15@);
}

proof fn lemma_select_concat(p: Seq<PropertyView>, q: Seq<PropertyView>, wanted: Wanted)
    ensures
        properties::select(p + q, wanted) == properties::select(p, wanted) + properties::select(
            q,
            wanted,
        ),
    decreases p.len(),
{
    if p.len() == 0 {
        assert(p + q =~= q);
        assert(properties::select(p, wanted) + properties::select(q, wanted)
            =~= properties::select(q, wanted));
    } else {
        let rest = p.drop_first();
        lemma_select_concat(rest, q, wanted);
        assert((p + q).drop_first() =~= rest + q);
        assert(seq![p[0]] + (properties::select(rest, wanted) + properties::select(q, wanted))
            =~= (seq![p[0]] + properties::select(rest, wanted)) + properties::select(q, wanted));
    }
}

proof fn lemma_select_insert(
    p: Seq<PropertyView>,
    property: PropertyView,
    q: Seq<PropertyView>,
    wanted: Wanted,
)
    requires
        !properties::is_wanted(property, wanted),
    ensures
        properties::select(p + seq![property] + q, wanted) == properties::select(p + q, wanted),
{
    lemma_select_concat(p + seq![property], q, wanted);
    lemma_select_concat(p, seq![property], wanted);
    lemma_select_concat(p, q, wanted);
    assert(seq![property].drop_first() =~= Seq::<PropertyView>::empty());
    assert(properties::select(Seq::<PropertyView>::empty(), wanted).len() == 0);
    assert(properties::select(seq![property], wanted) =~= Seq::<PropertyView>::empty());
    assert(properties::select(p, wanted) + Seq::<PropertyView>::empty()
        =~= properties::select(p, wanted));
}

/// User properties with keys of their own do not matter, wherever they stand.
pub proof fn law_foreign_user_properties_do_not_matter(
    p: Seq<PropertyView>,
    key: Seq<char>,
    value: Seq<char>,
    q: Seq<PropertyView>,
)
    requires
        !keys::is_reserved_key(key),
    ensures
        mapping::mapped_attributes(p + seq![PropertyView::UserProperty(key, value)] + q)
            == mapping::mapped_attributes(p + q),
{
    let property = PropertyView::UserProperty(key, value);
    assert forall|i: int| 0 <= i < keys::all_keys().len() implies properties::user_property(
        p + seq![property] + q,
        #[trigger] keys::all_keys()[i],
    ) == properties::user_property(p + q, keys::all_keys()[i]) by {
        lemma_select_insert(p, property, q, Wanted::UserProperty(keys::all_keys()[i]));
    }
    lemma_select_insert(p, property, q, Wanted::MessageExpiryInterval);
    lemma_select_insert(p, property, q, Wanted::CorrelationData);
    lemma_select_insert(p, property, q, Wanted::ContentType);
    let i = 6;
    assert(keys::all_keys()[i] == keys::KEY_TTL@);
    lemma_same_mapping(p + seq![property] + q, p + q);
}

/// Where a user property names the time to live, a message expiry interval does not matter, wherever
/// it stands.
pub proof fn law_ttl_property_prevails(p: Seq<PropertyView>, seconds: u32, q: Seq<PropertyView>)
    requires
        reading::has_user_property(p + q, keys::KEY_TTL@),
    ensures
        mapping::mapped_attributes(p + seq![PropertyView::MessageExpiryInterval(seconds)] + q)
            == mapping::mapped_attributes(p + q),
{
    let property = PropertyView::MessageExpiryInterval(seconds);
    assert forall|i: int| 0 <= i < keys::all_keys().len() implies properties::user_property(
        p + seq![property] + q,
        #[trigger] keys::all_keys()[i],
    ) == properties::user_property(p + q, keys::all_keys()[i]) by {
        lemma_select_insert(p, property, q, Wanted::UserProperty(keys::all_keys()[i]));
    }
    lemma_select_insert(p, property, q, Wanted::CorrelationData);
    lemma_select_insert(p, property, q, Wanted::ContentType);
    let i = 6;
    assert(keys::all_keys()[i] == keys::KEY_TTL@);
    lemma_same_mapping(p + seq![property] + q, p + q);
}

/// Of several user properties with the same key, only the first one matters.
pub proof fn law_first_user_property_counts(
    p: Seq<PropertyView>,
    key: Seq<char>,
    value: Seq<char>,
    q: Seq<PropertyView>,
)
    requires
        reading::has_user_property(p, key),
    ensures
        mapping::mapped_attributes(p + seq![PropertyView::UserProperty(key, value)] + q)
            == mapping::mapped_attributes(p + q),
{
    let property = PropertyView::UserProperty(key, value);
    assert forall|i: int| 0 <= i < keys::all_keys().len() implies properties::user_property(
        p + seq![property] + q,
        #[trigger] keys::all_keys()[i],
    ) == properties::user_property(p + q, keys::all_keys()[i]) by {
        let wanted = Wanted::UserProperty(keys::all_keys()[i]);
        if keys::all_keys()[i] == key {
            lemma_select_concat(p + seq![property], q, wanted);
            lemma_select_concat(p, seq![property], wanted);
            lemma_select_concat(p, q, wanted);
        } else {
            lemma_select_insert(p, property, q, wanted);
        }
    }
    lemma_select_insert(p, property, q, Wanted::MessageExpiryInterval);
    lemma_select_insert(p, property, q, Wanted::CorrelationData);
    lemma_select_insert(p, property, q, Wanted::ContentType);
    let i = 6;
    assert(keys::all_keys()[i] == keys::KEY_TTL@);
    lemma_same_mapping(p + seq![property] + q, p + q);
}

/// Whether each property that is read is named at most once. Content types may be named repeatedly,
/// and so may user properties with keys of their own.
pub open spec fn names_each_once(packet: Seq<PropertyView>) -> bool {
    forall|wanted: Wanted|
        is_read_once(wanted) ==> #[trigger] properties::select(packet, wanted).len() <= 1
}

/// Whether only the first one of these properties is read.
pub open spec fn is_read_once(wanted: Wanted) -> bool {
    match wanted {
        Wanted::UserProperty(key) => keys::is_reserved_key(key),
        Wanted::MessageExpiryInterval => true,
        Wanted::CorrelationData => true,
        Wanted::ContentType => false,
    }
}

/// Whether properties are user properties with keys of their own.
pub open spec fn are_foreign(packet: Seq<PropertyView>) -> bool {
    forall|i: int|
        0 <= i < packet.len() ==> (#[trigger] packet[i] matches PropertyView::UserProperty(key, _)
            && !keys::is_reserved_key(key))
}

proof fn lemma_select_count(packet: Seq<PropertyView>, wanted: Wanted, property: PropertyView)
    ensures
        properties::select(packet, wanted).to_multiset().count(property)
            == if properties::is_wanted(property, wanted) {
            packet.to_multiset().count(property)
        } else {
            0
        },
    decreases packet.len(),
{
    if packet.len() == 0 {
        assert(!packet.contains(property));
        vstd::seq_lib::to_multiset_contains(packet, property);
        assert(properties::select(packet, wanted) =~= packet);
    } else {
        let rest = packet.drop_first();
        let found = properties::select(rest, wanted);
        lemma_select_count(rest, wanted, property);
        assert(packet =~= rest.insert(0, packet[0]));
        vstd::seq_lib::to_multiset_insert(rest, 0, packet[0]);
        assert(seq![packet[0]] + found =~= found.insert(0, packet[0]));
        vstd::seq_lib::to_multiset_insert(found, 0, packet[0]);
    }
}

/// Properties of a packet that are put in another order, among further user properties with keys of
/// their own, are found in the same number, and a single one is found again.
proof fn lemma_select_reordered(
    p: Seq<PropertyView>,
    foreign: Seq<PropertyView>,
    q: Seq<PropertyView>,
    wanted: Wanted,
)
    requires
        are_foreign(foreign),
        q.to_multiset() == (p + foreign).to_multiset(),
        is_read_once(wanted) || wanted is ContentType,
    ensures
        properties::select(p, wanted).len() == properties::select(q, wanted).len(),
        properties::select(p, wanted).len() <= 1 ==> properties::select(p, wanted)
            == properties::select(q, wanted),
{
    let found_p = properties::select(p, wanted);
    let found_q = properties::select(q, wanted);
    vstd::seq_lib::lemma_multiset_commutative(p, foreign);
    assert forall|property: PropertyView|
        found_p.to_multiset().count(property) == found_q.to_multiset().count(property) by {
        lemma_select_count(p, wanted, property);
        lemma_select_count(q, wanted, property);
        vstd::seq_lib::to_multiset_contains(foreign, property);
    }
    assert(found_p.to_multiset() =~= found_q.to_multiset());
    vstd::seq_lib::to_multiset_len(found_p);
    vstd::seq_lib::to_multiset_len(found_q);
    if found_p.len() == 1 {
        assert(found_p.contains(found_p[0]));
        vstd::seq_lib::to_multiset_contains(found_p, found_p[0]);
        vstd::seq_lib::to_multiset_contains(found_q, found_p[0]);
    }
    if found_p.len() <= 1 {
        assert(found_p =~= found_q);
    }
}

/// Neither the order of the properties of a packet nor further user properties with keys of their own
/// matter, at any time, if each property that is read is named at most once.
pub proof fn law_order_and_foreign_user_properties_do_not_matter(
    p: Seq<PropertyView>,
    foreign: Seq<PropertyView>,
    q: Seq<PropertyView>,
)
    requires
        names_each_once(p),
        are_foreign(foreign),
        q.to_multiset() == (p + foreign).to_multiset(),
    ensures
        mapping::mapped_attributes(p) == mapping::mapped_attributes(q),
        forall|now: Option<nat>|
            #[trigger] mapping::outcome_at(p, now) == mapping::outcome_at(q, now),
{
    assert forall|i: int| 0 <= i < keys::all_keys().len() implies properties::user_property(
        p,
        #[trigger] keys::all_keys()[i],
    ) == properties::user_property(q, keys::all_keys()[i]) by {
        let wanted = Wanted::UserProperty(keys::all_keys()[i]);
        assert(is_read_once(wanted));
        assert(properties::select(p, wanted).len() <= 1);
        lemma_select_reordered(p, foreign, q, wanted);
    }
    assert(properties::select(p, Wanted::MessageExpiryInterval).len() <= 1);
    lemma_select_reordered(p, foreign, q, Wanted::MessageExpiryInterval);
    assert(properties::select(p, Wanted::CorrelationData).len() <= 1);
    lemma_select_reordered(p, foreign, q, Wanted::CorrelationData);
    lemma_select_reordered(p, foreign, q, Wanted::ContentType);
    let i = 6;
    assert(keys::all_keys()[i] == keys::KEY_TTL@);
    lemma_same_mapping(p, q);
}

/// The order of the properties of a packet does not matter, at any time, if each property that is
/// read is named at most once.
pub proof fn law_order_does_not_matter(p: Seq<PropertyView>, q: Seq<PropertyView>)
    requires
        names_each_once(p),
        p.to_multiset() == q.to_multiset(),
    ensures
        mapping::mapped_attributes(p) == mapping::mapped_attributes(q),
        forall|now: Option<nat>|
            #[trigger] mapping::outcome_at(p, now) == mapping::outcome_at(q, now),
{
    let none = Seq::<PropertyView>::empty();
    assert(p + none =~= p);
    law_order_and_foreign_user_properties_do_not_matter(p, none, q);
}

} // verus!
