//! What each operation gives for what it is given, in terms of the protocol: the keys, names and
//! numbers that stand in a packet, and the attributes that they mean.

use vstd::prelude::*;

use crate::attributes;
use crate::attributes::{AttributesView, UAttributes, UMessageType, UPriority};
use crate::laws;
use crate::mapping;
use crate::message;
use crate::message::MessageView;
use crate::properties;
use crate::properties::{Property, PropertyView, Wanted};
use crate::reading;
use crate::status;
use crate::status::{StatusView, UCode, UStatus};
use crate::text;
use crate::uri;
use crate::uri::{UUri, UriView};
use crate::uuid;
use crate::uuid::UUID;
use crate::writing;

verus! {

/// The status codes have the numbers of the protocol, and no other number is a status code.
pub proof fn law_status_codes_have_their_numbers(value: i32)
    ensures
        status::code_value(UCode::OK) == 0,
        status::code_value(UCode::Cancelled) == 1,
        status::code_value(UCode::Unknown) == 2,
        status::code_value(UCode::InvalidArgument) == 3,
        status::code_value(UCode::DeadlineExceeded) == 4,
        status::code_value(UCode::NotFound) == 5,
        status::code_value(UCode::AlreadyExists) == 6,
        status::code_value(UCode::PermissionDenied) == 7,
        status::code_value(UCode::ResourceExhausted) == 8,
        status::code_value(UCode::FailedPrecondition) == 9,
        status::code_value(UCode::Aborted) == 10,
        status::code_value(UCode::OutOfRange) == 11,
        status::code_value(UCode::Unimplemented) == 12,
        status::code_value(UCode::Internal) == 13,
        status::code_value(UCode::Unavailable) == 14,
        status::code_value(UCode::DataLoss) == 15,
        status::code_value(UCode::Unauthenticated) == 16,
        match status::code_of(value) {
            Some(code) => status::code_value(code) == value,
            None => value < 0 || value > 16,
        },
{
}

/// Message types and priority classes have the names and the numbers of the protocol, and no other
/// text is such a name.
pub proof fn law_names_and_numbers(name: Seq<char>)
    ensures
        match attributes::type_named(name) {
            Some(UMessageType::Publish) => name == "up-pub.v1"@,
            Some(UMessageType::Request) => name == "up-req.v1"@,
            Some(UMessageType::Response) => name == "up-res.v1"@,
            Some(UMessageType::Notification) => name == "up-not.v1"@,
            None => {
                &&& name != "up-pub.v1"@
                &&& name != "up-req.v1"@
                &&& name != "up-res.v1"@
                &&& name != "up-not.v1"@
            },
        },
        match attributes::priority_named(name) {
            Some(UPriority::CS0) => name == "CS0"@,
            Some(UPriority::CS1) => name == "CS1"@,
            Some(UPriority::CS2) => name == "CS2"@,
            Some(UPriority::CS3) => name == "CS3"@,
            Some(UPriority::CS4) => name == "CS4"@,
            Some(UPriority::CS5) => name == "CS5"@,
            Some(UPriority::CS6) => name == "CS6"@,
            None => {
                &&& name != "CS0"@
                &&& name != "CS1"@
                &&& name != "CS2"@
                &&& name != "CS3"@
                &&& name != "CS4"@
                &&& name != "CS5"@
                &&& name != "CS6"@
            },
        },
        attributes::type_code(UMessageType::Publish) == 1,
        attributes::type_code(UMessageType::Request) == 2,
        attributes::type_code(UMessageType::Response) == 3,
        attributes::type_code(UMessageType::Notification) == 4,
        attributes::priority_code(None) == 0,
        attributes::priority_code(Some(UPriority::CS0)) == 1,
        attributes::priority_code(Some(UPriority::CS1)) == 2,
        attributes::priority_code(Some(UPriority::CS2)) == 3,
        attributes::priority_code(Some(UPriority::CS3)) == 4,
        attributes::priority_code(Some(UPriority::CS4)) == 5,
        attributes::priority_code(Some(UPriority::CS5)) == 6,
        attributes::priority_code(Some(UPriority::CS6)) == 7,
{
}

proof fn lemma_first_found(packet: Seq<PropertyView>, wanted: Wanted, i: int)
    requires
        0 <= i < packet.len(),
        properties::is_wanted(packet[i], wanted),
        forall|j: int| 0 <= j < i ==> !properties::is_wanted(#[trigger] packet[j], wanted),
    ensures
        properties::select(packet, wanted).len() > 0,
        properties::select(packet, wanted)[0] == packet[i],
    decreases i,
{
    if i > 0 {
        let rest = packet.drop_first();
        assert(!properties::is_wanted(packet[0], wanted));
        assert forall|j: int| 0 <= j < i - 1 implies !properties::is_wanted(
            #[trigger] rest[j],
            wanted,
        ) by {
            assert(rest[j] == packet[j + 1]);
        }
        assert(rest[i - 1] == packet[i]);
        lemma_first_found(rest, wanted, i - 1);
    }
}

proof fn lemma_none_found(packet: Seq<PropertyView>, wanted: Wanted)
    requires
        forall|j: int|
            0 <= j < packet.len() ==> !properties::is_wanted(#[trigger] packet[j], wanted),
    ensures
        properties::select(packet, wanted).len() == 0,
    decreases packet.len(),
{
    if packet.len() > 0 {
        let rest = packet.drop_first();
        assert(!properties::is_wanted(packet[0], wanted));
        assert forall|j: int| 0 <= j < rest.len() implies !properties::is_wanted(
            #[trigger] rest[j],
            wanted,
        ) by {
            assert(rest[j] == packet[j + 1]);
        }
        lemma_none_found(rest, wanted);
    }
}

/// The user property that is found for a key is the one that has no other with that key before it.
pub proof fn law_first_user_property_is_found(
    packet: Seq<PropertyView>,
    key: Seq<char>,
    value: Seq<char>,
    i: int,
)
    ensures
        0 <= i < packet.len() && packet[i] == PropertyView::UserProperty(key, value) && (forall|
            j: int,
        |
            0 <= j < i ==> !(#[trigger] packet[j] matches PropertyView::UserProperty(other, _)
                && other == key)) ==> properties::user_property(packet, key) == Some(value),
        (forall|j: int|
            0 <= j < packet.len() ==> !(#[trigger] packet[j] matches PropertyView::UserProperty(
                other,
                _,
            ) && other == key)) ==> properties::user_property(packet, key) is None,
{
    let wanted = Wanted::UserProperty(key);
    if 0 <= i < packet.len() && packet[i] == PropertyView::UserProperty(key, value) && (forall|
        j: int,
    |
        0 <= j < i ==> !(#[trigger] packet[j] matches PropertyView::UserProperty(other, _) && other
            == key)) {
        lemma_first_found(packet, wanted, i);
    }
    if forall|j: int|
        0 <= j < packet.len() ==> !(#[trigger] packet[j] matches PropertyView::UserProperty(
            other,
            _,
        ) && other == key) {
        lemma_none_found(packet, wanted);
    }
}

/// The message expiry interval that is found is the one that has no other before it.
pub proof fn law_first_expiry_interval_is_found(packet: Seq<PropertyView>, seconds: u32, i: int)
    ensures
        0 <= i < packet.len() && packet[i] == PropertyView::MessageExpiryInterval(seconds)
            && (forall|j: int|
            0 <= j < i ==> !(#[trigger] packet[j] is MessageExpiryInterval))
            ==> properties::message_expiry_interval(packet) == Some(seconds),
        (forall|j: int|
            0 <= j < packet.len() ==> !(#[trigger] packet[j] is MessageExpiryInterval))
            ==> properties::message_expiry_interval(packet) is None,
{
    let wanted = Wanted::MessageExpiryInterval;
    if 0 <= i < packet.len() && packet[i] == PropertyView::MessageExpiryInterval(seconds) && (
    forall|j: int| 0 <= j < i ==> !(#[trigger] packet[j] is MessageExpiryInterval)) {
        lemma_first_found(packet, wanted, i);
    }
    if forall|j: int| 0 <= j < packet.len() ==> !(#[trigger] packet[j] is MessageExpiryInterval) {
        lemma_none_found(packet, wanted);
    }
}

/// The correlation data that is found is the one that has no other before it.
pub proof fn law_first_correlation_data_is_found(packet: Seq<PropertyView>, data: Seq<u8>, i: int)
    ensures
        0 <= i < packet.len() && packet[i] == PropertyView::CorrelationData(data) && (forall|
            j: int,
        |
            0 <= j < i ==> !(#[trigger] packet[j] is CorrelationData))
            ==> properties::correlation_data(packet) == Some(data),
        (forall|j: int| 0 <= j < packet.len() ==> !(#[trigger] packet[j] is CorrelationData))
            ==> properties::correlation_data(packet) is None,
{
    let wanted = Wanted::CorrelationData;
    if 0 <= i < packet.len() && packet[i] == PropertyView::CorrelationData(data) && (forall|j: int|
        0 <= j < i ==> !(#[trigger] packet[j] is CorrelationData)) {
        lemma_first_found(packet, wanted, i);
    }
    if forall|j: int| 0 <= j < packet.len() ==> !(#[trigger] packet[j] is CorrelationData) {
        lemma_none_found(packet, wanted);
    }
}

/// The content types of a packet are those of its first property, where that is one, followed by
/// those of the others.
pub proof fn law_all_content_types_are_found(first: PropertyView, others: Seq<PropertyView>)
    ensures
        properties::content_types(Seq::empty()).len() == 0,
        properties::content_types(seq![first] + others) == match first {
            PropertyView::ContentType(value) => seq![value] + properties::content_types(others),
            _ => properties::content_types(others),
        },
{
    let packet = seq![first] + others;
    assert(packet.drop_first() =~= others);
    assert(properties::content_types(packet) =~= match first {
        PropertyView::ContentType(value) => seq![value] + properties::content_types(others),
        _ => properties::content_types(others),
    });
}

proof fn lemma_id_bits(msb: u64, lsb: u64)
    by (bit_vector)
    ensures
        msb & 0xF000 == 0x7000 <==> (msb / 0x1000) % 16 == 7,
        lsb & 0xC000_0000_0000_0000 == 0x8000_0000_0000_0000 <==> lsb / 0x4000_0000_0000_0000 == 2,
        msb >> 16 == msb / 0x1_0000,
{
}

proof fn lemma_entity_bits(ue_id: u32)
    by (bit_vector)
    ensures
        ue_id & 0xFFFF_0000 == 0xFFFF_0000 <==> ue_id / 0x1_0000 == 0xFFFF,
        ue_id & 0xFFFF == 0xFFFF <==> ue_id % 0x1_0000 == 0xFFFF,
{
}

/// Which attributes are valid: the identifier is of version 7 and of the RFC 4122 variant, no
/// address has a wildcard in it, and the addresses, the time to live, the request identifier and the
/// priority are such as the type of the message requires. Only valid attributes are given the
/// properties of a packet.
pub proof fn law_only_valid_attributes_are_sent(a: AttributesView)
    ensures
        mapping::mapped_properties(a) is Ok <==> {
            &&& (a.id.msb / 0x1000) % 16 == 7
            &&& a.id.lsb / 0x4000_0000_0000_0000 == 2
            &&& a.source.authority_name != seq!['*']
            &&& a.source.ue_id / 0x1_0000 != 0xFFFF
            &&& a.source.ue_id % 0x1_0000 != 0xFFFF
            &&& a.source.ue_version_major != 0xFF
            &&& a.source.resource_id != 0xFFFF
            &&& a.sink matches Some(sink) ==> {
                &&& sink.authority_name != seq!['*']
                &&& sink.ue_id / 0x1_0000 != 0xFFFF
                &&& sink.ue_id % 0x1_0000 != 0xFFFF
                &&& sink.ue_version_major != 0xFF
                &&& sink.resource_id != 0xFFFF
            }
            &&& match a.type_ {
                UMessageType::Publish => a.source.resource_id >= 0x8000 && a.sink is None,
                UMessageType::Notification => {
                    &&& a.source.resource_id != 0
                    &&& a.sink matches Some(sink) && sink.resource_id == 0
                },
                UMessageType::Request => {
                    &&& a.source.resource_id == 0
                    &&& a.sink matches Some(sink) && 0 < sink.resource_id < 0x8000
                    &&& a.ttl matches Some(ttl) && ttl > 0
                    &&& a.priority == Some(UPriority::CS4) || a.priority == Some(UPriority::CS5)
                        || a.priority == Some(UPriority::CS6)
                },
                UMessageType::Response => {
                    &&& 0 < a.source.resource_id < 0x8000
                    &&& a.sink matches Some(sink) && sink.resource_id == 0
                    &&& a.request_id matches Some(id) && (id.msb / 0x1000) % 16 == 7 && id.lsb
                        / 0x4000_0000_0000_0000 == 2
                    &&& a.priority == Some(UPriority::CS4) || a.priority == Some(UPriority::CS5)
                        || a.priority == Some(UPriority::CS6)
                },
            }
        },
        attributes::valid_attributes(a) <==> mapping::mapped_properties(a) is Ok,
        mapping::mapped_properties(a) matches Err(e) ==> e == (StatusView {
            code: UCode::InvalidArgument,
            message: "Invalid uAttributes, err: "@ + attributes::failure_of(a).1,
        }),
{
    lemma_id_bits(a.id.msb, a.id.lsb);
    lemma_entity_bits(a.source.ue_id);
    if a.sink is Some {
        lemma_entity_bits(a.sink->0.ue_id);
    }
    if a.request_id is Some {
        lemma_id_bits(a.request_id->0.msb, a.request_id->0.lsb);
    }
}

proof fn lemma_assembled(b: Seq<u8>) -> (x: u64)
    requires
        b.len() == 8,
    ensures
        ((x >> 56) & 0xFF) as u8 == b[0],
        ((x >> 48) & 0xFF) as u8 == b[1],
        ((x >> 40) & 0xFF) as u8 == b[2],
        ((x >> 32) & 0xFF) as u8 == b[3],
        ((x >> 24) & 0xFF) as u8 == b[4],
        ((x >> 16) & 0xFF) as u8 == b[5],
        ((x >> 8) & 0xFF) as u8 == b[6],
        ((x >> 0) & 0xFF) as u8 == b[7],
{
    let (b0, b1, b2, b3) = (b[0], b[1], b[2], b[3]);
    let (b4, b5, b6, b7) = (b[4], b[5], b[6], b[7]);
    let x: u64 = (b0 as u64) << 56 | (b1 as u64) << 48 | (b2 as u64) << 40 | (b3 as u64) << 32 | (
    b4 as u64) << 24 | (b5 as u64) << 16 | (b6 as u64) << 8 | (b7 as u64);
    assert(((x >> 56) & 0xFF) as u8 == b0 && ((x >> 48) & 0xFF) as u8 == b1 && ((x >> 40) & 0xFF)
        as u8 == b2 && ((x >> 32) & 0xFF) as u8 == b3 && ((x >> 24) & 0xFF) as u8 == b4 && ((x
        >> 16) & 0xFF) as u8 == b5 && ((x >> 8) & 0xFF) as u8 == b6 && ((x >> 0) & 0xFF) as u8
        == b7) by (bit_vector)
        requires
            x == (b0 as u64) << 56 | (b1 as u64) << 48 | (b2 as u64) << 40 | (b3 as u64) << 32 | (
            b4 as u64) << 24 | (b5 as u64) << 16 | (b6 as u64) << 8 | (b7 as u64),
    ;
    x
}

/// Any sixteen bytes are those of an identifier.
proof fn lemma_bytes_of_some_id(data: Seq<u8>) -> (id: UUID)
    requires
        data.len() == 16,
    ensures
        data == uuid::uuid_bytes(id),
{
    let high = data.take(8);
    let low = data.skip(8);
    let msb = lemma_assembled(high);
    let lsb = lemma_assembled(low);
    let id = UUID { msb, lsb };
    assert(uuid::byte_at(id, 0) == data[0] && uuid::byte_at(id, 1) == data[1] && uuid::byte_at(
        id,
        2,
    ) == data[2] && uuid::byte_at(id, 3) == data[3] && uuid::byte_at(id, 4) == data[4]
        && uuid::byte_at(id, 5) == data[5] && uuid::byte_at(id, 6) == data[6] && uuid::byte_at(
        id,
        7,
    ) == data[7]);
    assert(low[0] == data[8] && low[1] == data[9] && low[2] == data[10] && low[3] == data[11]
        && low[4] == data[12] && low[5] == data[13] && low[6] == data[14] && low[7] == data[15]);
    assert(uuid::byte_at(id, 8) == data[8] && uuid::byte_at(id, 9) == data[9] && uuid::byte_at(
        id,
        10,
    ) == data[10] && uuid::byte_at(id, 11) == data[11] && uuid::byte_at(id, 12) == data[12]
        && uuid::byte_at(id, 13) == data[13] && uuid::byte_at(id, 14) == data[14] && uuid::byte_at(
        id,
        15,
    ) == data[15]);
    assert(data =~= uuid::uuid_bytes(id));
    id
}

/// Which attributes are read from a packet: those that its user properties, its message expiry
/// interval, its correlation data and its content type name, and no others. A packet that does not
/// name its version, its identifier, its type and its source in this way, or that names anything
/// else in another way, or that has a retired user property, has no attributes.
pub proof fn law_attributes_that_are_read(packet: Seq<PropertyView>, a: AttributesView)
    ensures
        reading::attributes_in(packet) == Ok::<AttributesView, StatusView>(a) <==> {
            &&& properties::user_property(packet, "13"@) is None
            &&& properties::user_property(packet, "14"@) is None
            &&& properties::user_property(packet, "15"@) is None
            &&& properties::user_property(packet, "uP"@) matches Some(value)
                && text::unsigned_value(value) == Some(1nat)
            &&& properties::user_property(packet, "1"@) matches Some(value) && uuid::spells(
                value,
                a.id,
            )
            &&& (a.id.msb / 0x1000) % 16 == 7
            &&& a.id.lsb / 0x4000_0000_0000_0000 == 2
            &&& match a.type_ {
                UMessageType::Publish => properties::user_property(packet, "2"@) == Some(
                    "up-pub.v1"@,
                ),
                UMessageType::Request => properties::user_property(packet, "2"@) == Some(
                    "up-req.v1"@,
                ),
                UMessageType::Response => properties::user_property(packet, "2"@) == Some(
                    "up-res.v1"@,
                ),
                UMessageType::Notification => properties::user_property(packet, "2"@) == Some(
                    "up-not.v1"@,
                ),
            }
            &&& properties::user_property(packet, "3"@) matches Some(value) && uri::parsed_uri(
                value,
            ) == Ok::<UriView, Seq<char>>(a.source)
            &&& match a.sink {
                Some(sink) => properties::user_property(packet, "4"@) matches Some(value)
                    && uri::parsed_uri(value) == Ok::<UriView, Seq<char>>(sink),
                None => properties::user_property(packet, "4"@) is None,
            }
            &&& match a.priority {
                Some(UPriority::CS0) => properties::user_property(packet, "5"@) == Some("CS0"@),
                Some(UPriority::CS1) => properties::user_property(packet, "5"@) == Some("CS1"@),
                Some(UPriority::CS2) => properties::user_property(packet, "5"@) == Some("CS2"@),
                Some(UPriority::CS3) => properties::user_property(packet, "5"@) == Some("CS3"@),
                Some(UPriority::CS4) => properties::user_property(packet, "5"@) == Some("CS4"@),
                Some(UPriority::CS5) => properties::user_property(packet, "5"@) == Some("CS5"@),
                Some(UPriority::CS6) => properties::user_property(packet, "5"@) == Some("CS6"@),
                None => properties::user_property(packet, "5"@) is None,
            }
            &&& match properties::user_property(packet, "6"@) {
                Some(value) => a.ttl matches Some(ttl) && text::unsigned_value(value) == Some(
                    ttl as nat,
                ),
                None => match properties::message_expiry_interval(packet) {
                    Some(seconds) => a.ttl matches Some(ttl) && ttl == if seconds < 4_294_968 {
                        seconds * 1000
                    } else {
                        0xFFFF_FFFF
                    },
                    None => a.ttl is None,
                },
            }
            &&& match a.permission_level {
                Some(level) => properties::user_property(packet, "7"@) matches Some(value)
                    && text::unsigned_value(value) == Some(level as nat),
                None => properties::user_property(packet, "7"@) is None,
            }
            &&& match a.commstatus {
                Some(code) => properties::user_property(packet, "8"@) matches Some(value)
                    && text::signed_value(value) == Some(status::code_value(code) as int),
                None => properties::user_property(packet, "8"@) is None,
            }
            &&& match a.request_id {
                Some(id) => {
                    &&& properties::correlation_data(packet) == Some(uuid::uuid_bytes(id))
                    &&& (id.msb / 0x1000) % 16 == 7
                    &&& id.lsb / 0x4000_0000_0000_0000 == 2
                },
                None => properties::correlation_data(packet) is None,
            }
            &&& a.token == properties::user_property(packet, "10"@)
            &&& a.traceparent == properties::user_property(packet, "11"@)
            &&& match a.payload_encoding {
                Some(id) => {
                    &&& id != 0
                    &&& properties::content_types(packet).len() == 1
                    &&& properties::content_types(packet)[0] matches Some(value)
                        && text::unsigned_value(value) == Some(id as nat)
                },
                None => properties::content_types(packet).len() == 0,
            }
        },
{
    lemma_id_bits(a.id.msb, a.id.lsb);
    attributes::lemma_type_reads_back(UMessageType::Publish);
    attributes::lemma_type_reads_back(UMessageType::Request);
    attributes::lemma_type_reads_back(UMessageType::Response);
    attributes::lemma_type_reads_back(UMessageType::Notification);
    attributes::lemma_priority_reads_back(UPriority::CS0);
    attributes::lemma_priority_reads_back(UPriority::CS1);
    attributes::lemma_priority_reads_back(UPriority::CS2);
    attributes::lemma_priority_reads_back(UPriority::CS3);
    attributes::lemma_priority_reads_back(UPriority::CS4);
    attributes::lemma_priority_reads_back(UPriority::CS5);
    attributes::lemma_priority_reads_back(UPriority::CS6);
    lemma_id_read(packet, a.id);
    lemma_request_id_read(packet, a.request_id);
    lemma_code_read(packet, a.commstatus);
    if reading::attributes_in(packet) is Ok {
        let found = reading::attributes_in(packet)->Ok_0;
        assert(a.id == found.id && a.type_ == found.type_ && a.source == found.source && a.sink
            == found.sink && a.priority == found.priority && a.ttl == found.ttl
            && a.permission_level == found.permission_level && a.commstatus == found.commstatus
            && a.request_id == found.request_id && a.token == found.token && a.traceparent
            == found.traceparent && a.payload_encoding == found.payload_encoding ==> a =~= found);
    }
}

proof fn lemma_id_read(packet: Seq<PropertyView>, id: UUID)
    ensures
        reading::message_id(packet) == Ok::<UUID, StatusView>(id) <==> {
            &&& properties::user_property(packet, "1"@) matches Some(value) && uuid::spells(
                value,
                id,
            )
            &&& (id.msb / 0x1000) % 16 == 7
            &&& id.lsb / 0x4000_0000_0000_0000 == 2
        },
{
    lemma_id_bits(id.msb, id.lsb);
    if properties::user_property(packet, "1"@) is Some {
        let value = properties::user_property(packet, "1"@)->0;
        if uuid::spells(value, id) {
            uuid::lemma_spells_one(value, id, choose|other: UUID| uuid::spells(value, other));
        }
    }
}

proof fn lemma_request_id_read(packet: Seq<PropertyView>, request_id: Option<UUID>)
    ensures
        reading::request_id(packet) == Ok::<Option<UUID>, StatusView>(request_id) <==> match request_id {
            Some(id) => {
                &&& properties::correlation_data(packet) == Some(uuid::uuid_bytes(id))
                &&& (id.msb / 0x1000) % 16 == 7
                &&& id.lsb / 0x4000_0000_0000_0000 == 2
            },
            None => properties::correlation_data(packet) is None,
        },
{
    if request_id is Some {
        let id = request_id->0;
        lemma_id_bits(id.msb, id.lsb);
        if id.is_uprotocol_uuid() {
            uuid::lemma_uuid_bytes_read_back(id);
        }
    }
    if properties::correlation_data(packet) is Some {
        let data = properties::correlation_data(packet)->0;
        if data.len() == 16 {
            let some = lemma_bytes_of_some_id(data);
            assert(data == uuid::uuid_bytes(some));
        }
    }
}

proof fn lemma_code_read(packet: Seq<PropertyView>, code: Option<UCode>)
    ensures
        reading::commstatus(packet) == Ok::<Option<UCode>, StatusView>(code) <==> match code {
            Some(code) => properties::user_property(packet, "8"@) matches Some(value)
                && text::signed_value(value) == Some(status::code_value(code) as int),
            None => properties::user_property(packet, "8"@) is None,
        },
{
    if code is Some {
        status::lemma_code_reads_back(code->0);
    }
}

/// Which packets are accepted, and with which attributes: those whose attributes belong to their
/// type of message and are valid. A request or a response that names no priority gets the class CS4.
/// Nothing else is added, and nothing is left out.
pub proof fn law_packets_that_are_accepted(packet: Seq<PropertyView>, b: AttributesView)
    ensures
        mapping::mapped_attributes(packet) == Ok::<AttributesView, StatusView>(b) <==> {
            &&& reading::attributes_in(packet) matches Ok(a) && {
                &&& a.type_ != UMessageType::Request ==> a.token is None && a.permission_level
                    is None
                &&& a.type_ != UMessageType::Response ==> a.commstatus is None && a.request_id
                    is None
                &&& b.priority == match (a.type_, a.priority) {
                    (UMessageType::Request, None) => Some(UPriority::CS4),
                    (UMessageType::Response, None) => Some(UPriority::CS4),
                    _ => a.priority,
                }
                &&& b.type_ == a.type_
                &&& b.id == a.id
                &&& b.source == a.source
                &&& b.sink == a.sink
                &&& b.ttl == a.ttl
                &&& b.permission_level == a.permission_level
                &&& b.commstatus == a.commstatus
                &&& b.request_id == a.request_id
                &&& b.token == a.token
                &&& b.traceparent == a.traceparent
                &&& b.payload_encoding == a.payload_encoding
            }
            &&& mapping::mapped_properties(b) is Ok
        },
{
    if reading::attributes_in(packet) is Ok {
        let a = reading::attributes_in(packet)->Ok_0;
        let taken = message::taken_over(a);
        if mapping::misplaced(a) is None {
            assert(taken.type_ == a.type_ && taken.id == a.id && taken.source == a.source
                && taken.sink == a.sink && taken.ttl == a.ttl && taken.permission_level
                == a.permission_level && taken.commstatus == a.commstatus && taken.request_id
                == a.request_id && taken.token == a.token && taken.traceparent == a.traceparent
                && taken.payload_encoding == a.payload_encoding);
            assert(AttributesView { payload_encoding: a.payload_encoding, ..taken } =~= taken);
            assert(b.type_ == taken.type_ && b.id == taken.id && b.source == taken.source && b.sink
                == taken.sink && b.priority == taken.priority && b.ttl == taken.ttl
                && b.permission_level == taken.permission_level && b.commstatus
                == taken.commstatus && b.request_id == taken.request_id && b.token == taken.token
                && b.traceparent == taken.traceparent && b.payload_encoding
                == taken.payload_encoding ==> b =~= taken);
        }
    }
}

/// No attribute that a packet names is lost, and none that it does not name is made up, apart from
/// the priority of a request or a response.
pub proof fn law_no_attribute_is_lost(packet: Seq<PropertyView>)
    ensures
        mapping::mapped_attributes(packet) matches Ok(a) ==> {
            &&& a.sink is Some <==> properties::user_property(packet, "4"@) is Some
            &&& properties::user_property(packet, "5"@) is Some ==> a.priority is Some
            &&& a.ttl is Some <==> properties::user_property(packet, "6"@) is Some
                || properties::message_expiry_interval(packet) is Some
            &&& a.permission_level is Some <==> properties::user_property(packet, "7"@) is Some
            &&& a.commstatus is Some <==> properties::user_property(packet, "8"@) is Some
            &&& a.request_id is Some <==> properties::correlation_data(packet) is Some
            &&& a.token == properties::user_property(packet, "10"@)
            &&& a.traceparent == properties::user_property(packet, "11"@)
            &&& a.payload_encoding is Some <==> properties::content_types(packet).len() > 0
        },
{
    if mapping::mapped_attributes(packet) is Ok {
        let a = mapping::mapped_attributes(packet)->Ok_0;
        law_packets_that_are_accepted(packet, a);
        law_attributes_that_are_read(packet, reading::attributes_in(packet)->Ok_0);
    }
}

/// A packet that names an attribute which its type of message cannot have is refused.
pub proof fn law_misplaced_attributes_are_refused(packet: Seq<PropertyView>)
    ensures
        properties::user_property(packet, "2"@) != Some("up-req.v1"@) && (
        properties::user_property(packet, "10"@) is Some || properties::user_property(
            packet,
            "7"@,
        ) is Some) ==> mapping::mapped_attributes(packet) is Err,
        properties::user_property(packet, "2"@) != Some("up-res.v1"@) && (
        properties::user_property(packet, "8"@) is Some || properties::correlation_data(
            packet,
        ) is Some) ==> mapping::mapped_attributes(packet) is Err,
        properties::user_property(packet, "2"@) == Some("up-pub.v1"@) && properties::user_property(
            packet,
            "4"@,
        ) is Some ==> mapping::mapped_attributes(packet) is Err,
{
    law_no_attribute_is_lost(packet);
    attributes::lemma_type_reads_back(UMessageType::Publish);
    if mapping::mapped_attributes(packet) is Ok {
        let b = mapping::mapped_attributes(packet)->Ok_0;
        law_packets_that_are_accepted(packet, b);
        let a = reading::attributes_in(packet)->Ok_0;
        law_attributes_that_are_read(packet, a);
    }
}

/// The time to live of a message is the number that user property 6 of its packet names, whatever
/// that number is. Without that property it is the message expiry interval in milliseconds, as far
/// as 32 bits can hold it, and without either the message has no time to live.
pub proof fn law_time_to_live_is_restored(packet: Seq<PropertyView>)
    ensures
        mapping::mapped_attributes(packet) matches Ok(a) ==> match properties::user_property(
            packet,
            "6"@,
        ) {
            Some(value) => a.ttl matches Some(ttl) && text::unsigned_value(value) == Some(
                ttl as nat,
            ),
            None => match properties::message_expiry_interval(packet) {
                Some(seconds) => a.ttl matches Some(ttl) && ttl <= seconds * 1000 && (ttl
                    == seconds * 1000 || ttl == 0xFFFF_FFFF),
                None => a.ttl is None,
            },
        },
        reading::ttl(packet) is Err <==> (properties::user_property(packet, "6"@) matches Some(
            value,
        ) && (text::unsigned_value(value) matches Some(number) ==> number > 0xFFFF_FFFF)),
{
    if mapping::mapped_attributes(packet) is Ok {
        let a = mapping::mapped_attributes(packet)->Ok_0;
        law_packets_that_are_accepted(packet, a);
        law_attributes_that_are_read(packet, reading::attributes_in(packet)->Ok_0);
    }
}

/// The communication status of a response stands in user property 8 of its packet as the number of
/// its code, and is read from there. The identifier of the request that it answers stands in the
/// correlation data.
pub proof fn law_status_of_a_response_is_carried(a: AttributesView, packet: Seq<PropertyView>)
    ensures
        mapping::mapped_properties(a) matches Ok(written) ==> {
            &&& match a.commstatus {
                Some(code) => properties::user_property(written, "8"@) matches Some(value)
                    && text::signed_value(value) == Some(status::code_value(code) as int),
                None => properties::user_property(written, "8"@) is None,
            }
            &&& match a.request_id {
                Some(id) => properties::correlation_data(written) == Some(uuid::uuid_bytes(id)),
                None => properties::correlation_data(written) is None,
            }
        },
        mapping::mapped_attributes(packet) matches Ok(b) ==> {
            &&& match b.commstatus {
                Some(code) => properties::user_property(packet, "8"@) matches Some(value)
                    && text::signed_value(value) == Some(status::code_value(code) as int),
                None => properties::user_property(packet, "8"@) is None,
            }
            &&& match b.request_id {
                Some(id) => properties::correlation_data(packet) == Some(uuid::uuid_bytes(id)),
                None => properties::correlation_data(packet) is None,
            }
        },
{
    laws::lemma_written(a);
    laws::lemma_written_others(a);
    if a.commstatus is Some {
        text::lemma_decimal_reads_back(status::code_value(a.commstatus->0) as nat);
    }
    if mapping::mapped_attributes(packet) is Ok {
        let b = mapping::mapped_attributes(packet)->Ok_0;
        law_packets_that_are_accepted(packet, b);
        law_attributes_that_are_read(packet, reading::attributes_in(packet)->Ok_0);
    }
}

/// Which properties the packet for attributes has: one for each attribute that is present, holding
/// that attribute, and the version.
pub proof fn law_properties_that_are_written(a: AttributesView)
    ensures
        mapping::mapped_properties(a) matches Ok(packet) ==> {
            &&& properties::user_property(packet, "uP"@) == Some(text::decimal(1))
            &&& properties::user_property(packet, "1"@) == Some(uuid::uuid_text(a.id))
            &&& match a.type_ {
                UMessageType::Publish => properties::user_property(packet, "2"@) == Some(
                    "up-pub.v1"@,
                ),
                UMessageType::Request => properties::user_property(packet, "2"@) == Some(
                    "up-req.v1"@,
                ),
                UMessageType::Response => properties::user_property(packet, "2"@) == Some(
                    "up-res.v1"@,
                ),
                UMessageType::Notification => properties::user_property(packet, "2"@) == Some(
                    "up-not.v1"@,
                ),
            }
            &&& properties::user_property(packet, "3"@) == Some(uri::uri_text(a.source))
            &&& match a.sink {
                Some(sink) => properties::user_property(packet, "4"@) == Some(uri::uri_text(sink)),
                None => properties::user_property(packet, "4"@) is None,
            }
            &&& match a.priority {
                Some(UPriority::CS0) => properties::user_property(packet, "5"@) == Some("CS0"@),
                Some(UPriority::CS1) => properties::user_property(packet, "5"@) == Some("CS1"@),
                Some(UPriority::CS2) => properties::user_property(packet, "5"@) == Some("CS2"@),
                Some(UPriority::CS3) => properties::user_property(packet, "5"@) == Some("CS3"@),
                Some(UPriority::CS4) => properties::user_property(packet, "5"@) == Some("CS4"@),
                Some(UPriority::CS5) => properties::user_property(packet, "5"@) == Some("CS5"@),
                Some(UPriority::CS6) => properties::user_property(packet, "5"@) == Some("CS6"@),
                None => properties::user_property(packet, "5"@) is None,
            }
            &&& match a.ttl {
                Some(ttl) => {
                    &&& properties::message_expiry_interval(packet) matches Some(seconds) && ttl
                        <= seconds * 1000 < ttl + 1000
                    &&& properties::user_property(packet, "6"@) == if ttl % 1000 == 0 {
                        None
                    } else {
                        Some(text::decimal(ttl as nat))
                    }
                },
                None => {
                    &&& properties::message_expiry_interval(packet) is None
                    &&& properties::user_property(packet, "6"@) is None
                },
            }
            &&& match a.permission_level {
                Some(level) => properties::user_property(packet, "7"@) == Some(
                    text::decimal(level as nat),
                ),
                None => properties::user_property(packet, "7"@) is None,
            }
            &&& match a.commstatus {
                Some(code) => properties::user_property(packet, "8"@) == Some(
                    text::decimal(status::code_value(code) as nat),
                ),
                None => properties::user_property(packet, "8"@) is None,
            }
            &&& match a.request_id {
                Some(id) => properties::correlation_data(packet) == Some(uuid::uuid_bytes(id)),
                None => properties::correlation_data(packet) is None,
            }
            &&& properties::user_property(packet, "10"@) == a.token
            &&& properties::user_property(packet, "11"@) == a.traceparent
            &&& match a.payload_encoding {
                Some(id) => properties::content_types(packet) == seq![
                    Some(text::decimal(id as nat)),
                ],
                None => properties::content_types(packet).len() == 0,
            }
        },
{
    laws::lemma_written(a);
    laws::lemma_written_others(a);
}

proof fn lemma_present_from(entries: Seq<Option<PropertyView>>, i: int)
    requires
        0 <= i < writing::present(entries).len(),
    ensures
        exists|j: int|
            0 <= j < entries.len() && #[trigger] entries[j] == Some(writing::present(entries)[i]),
    decreases entries.len(),
{
    let rest = entries.drop_first();
    let first = if entries[0] is Some {
        1int
    } else {
        0int
    };
    if i < first {
        assert(entries[0] == Some(writing::present(entries)[i]));
    } else {
        lemma_present_from(rest, i - first);
        let j = choose|j: int|
            0 <= j < rest.len() && #[trigger] rest[j] == Some(
                writing::present(rest)[i - first],
            );
        assert(entries[j + 1] == Some(writing::present(entries)[i]));
    }
}

/// The packet for attributes has no user property but those of the protocol.
pub proof fn law_nothing_else_is_written(a: AttributesView, i: int)
    ensures
        mapping::mapped_properties(a) matches Ok(packet) ==> (0 <= i < packet.len() ==> (packet[i]
            matches PropertyView::UserProperty(key, _) ==> key == "uP"@ || key == "1"@ || key
            == "2"@ || key == "3"@ || key == "4"@ || key == "5"@ || key == "6"@ || key == "7"@
            || key == "8"@ || key == "10"@ || key == "11"@)),
{
    let packet = writing::properties_of(a);
    if 0 <= i < packet.len() {
        let entries = writing::entries(a);
        lemma_present_from(entries, i);
        let j = choose|j: int| 0 <= j < entries.len() && #[trigger] entries[j] == Some(packet[i]);
        assert(entries.len() == 14);
    }
}

/// When a message is refused for its age: when it has a time to live that is not zero, and that has
/// passed since the point in time that its identifier names. A clock that is set to a point in time
/// before 1970 lets only messages with a time to live of zero pass.
pub proof fn law_messages_are_refused_for_their_age(packet: Seq<PropertyView>, now: nat)
    ensures
        match mapping::mapped_attributes(packet) {
            Ok(a) => {
                &&& mapping::outcome_at(packet, Some(now)) == if a.ttl matches Some(ttl) && ttl > 0
                    && a.id.msb / 0x1_0000 + ttl <= now {
                    Err::<AttributesView, StatusView>(
                        StatusView {
                            code: UCode::DeadlineExceeded,
                            message: "message has expired"@,
                        },
                    )
                } else {
                    Ok::<AttributesView, StatusView>(a)
                }
                &&& mapping::outcome_at(packet, None) == if a.ttl == Some(0u32) {
                    Ok::<AttributesView, StatusView>(a)
                } else {
                    Err::<AttributesView, StatusView>(
                        StatusView {
                            code: UCode::DeadlineExceeded,
                            message: "message has expired"@,
                        },
                    )
                }
            },
            Err(e) => {
                &&& mapping::outcome_at(packet, Some(now)) == Err::<AttributesView, StatusView>(e)
                &&& mapping::outcome_at(packet, None) == Err::<AttributesView, StatusView>(e)
            },
        },
{
    if mapping::mapped_attributes(packet) is Ok {
        let a = mapping::mapped_attributes(packet)->Ok_0;
        lemma_id_bits(a.id.msb, a.id.lsb);
        law_packets_that_are_accepted(packet, a);
        law_attributes_that_are_read(packet, reading::attributes_in(packet)->Ok_0);
    }
}

/// What the age of a message means: an identifier of version 7 and of the RFC 4122 variant names the
/// point in time at which the message was created, in milliseconds since the start of 1970, in its 48
/// most significant bits.
pub proof fn law_age_of_a_message(id: UUID, ttl: Option<u32>, now: nat)
    ensures
        attributes::expired_at(id, ttl, Some(now)) <==> {
            &&& ttl matches Some(ttl) && ttl > 0 && id.msb / 0x1_0000 + ttl <= now
            &&& (id.msb / 0x1000) % 16 == 7
            &&& id.lsb / 0x4000_0000_0000_0000 == 2
        },
        attributes::expired_at(id, ttl, None) <==> ttl != Some(0u32),
        attributes::reading_of(None) is None,
        now <= u64::MAX ==> attributes::reading_of(Some(now as u64)) == Some(now),
{
    lemma_id_bits(id.msb, id.lsb);
}

/// Which message is made from attributes, and when: the attributes that its type cannot have are left
/// out, a request or a response without priority gets the class CS4, and all others are kept. A
/// payload is given if and only if an encoding is named.
pub proof fn law_messages_that_are_made(a: AttributesView, has_payload: bool, b: AttributesView)
    ensures
        message::message_attributes(a, has_payload) == Ok::<AttributesView, StatusView>(b) <==> {
            &&& has_payload <==> a.payload_encoding is Some
            &&& b.type_ == a.type_
            &&& b.id == a.id
            &&& b.source == a.source
            &&& b.sink == if a.type_ == UMessageType::Publish {
                None
            } else {
                a.sink
            }
            &&& b.priority == match (a.type_, a.priority) {
                (UMessageType::Request, None) => Some(UPriority::CS4),
                (UMessageType::Response, None) => Some(UPriority::CS4),
                _ => a.priority,
            }
            &&& b.ttl == a.ttl
            &&& b.permission_level == if a.type_ == UMessageType::Request {
                a.permission_level
            } else {
                None
            }
            &&& b.commstatus == if a.type_ == UMessageType::Response {
                a.commstatus
            } else {
                None
            }
            &&& b.request_id == if a.type_ == UMessageType::Response {
                a.request_id
            } else {
                None
            }
            &&& b.token == if a.type_ == UMessageType::Request {
                a.token
            } else {
                None
            }
            &&& b.traceparent == a.traceparent
            &&& b.payload_encoding == a.payload_encoding
            &&& mapping::mapped_properties(b) is Ok
        },
{
    let taken = message::taken_over(a);
    assert(AttributesView { payload_encoding: a.payload_encoding, ..taken } =~= taken);
    assert(b.type_ == taken.type_ && b.id == taken.id && b.source == taken.source && b.sink
        == taken.sink && b.priority == taken.priority && b.ttl == taken.ttl && b.permission_level
        == taken.permission_level && b.commstatus == taken.commstatus && b.request_id
        == taken.request_id && b.token == taken.token && b.traceparent == taken.traceparent
        && b.payload_encoding == taken.payload_encoding ==> b =~= taken);
}

/// Why no message is made from attributes: the first attribute that is missing, a payload without
/// encoding or an encoding without payload, or attributes that are not valid, in this order.
pub proof fn law_messages_that_are_not_made(a: AttributesView, has_payload: bool)
    ensures
        message::message_attributes(a, has_payload) matches Err(e) ==> {
            &&& e.code == UCode::InvalidArgument
            &&& e.message == if a.type_ != UMessageType::Publish && a.sink is None {
                "message attributes missing required "@ + "sink"@
            } else if a.type_ == UMessageType::Request && a.ttl is None {
                "message attributes missing required "@ + "ttl"@
            } else if a.type_ == UMessageType::Response && a.request_id is None {
                "message attributes missing required "@ + "request id"@
            } else if has_payload && a.payload_encoding is None {
                "message payload has no payload-encoding identifier"@
            } else if !has_payload && a.payload_encoding is Some {
                "message declares a payload-encoding identifier without payload bytes"@
            } else {
                attributes::failure_of(message::taken_over(a)).0
            }
        },
        attributes::failure_of(a) == attributes::failure_of_parts(
            match a.type_ {
                UMessageType::Publish => 1,
                UMessageType::Request => 2,
                UMessageType::Response => 3,
                UMessageType::Notification => 4,
            },
            a.id,
            a.source,
            a.sink,
            match a.priority {
                None => 0,
                Some(UPriority::CS0) => 1,
                Some(UPriority::CS1) => 2,
                Some(UPriority::CS2) => 3,
                Some(UPriority::CS3) => 4,
                Some(UPriority::CS4) => 5,
                Some(UPriority::CS5) => 6,
                Some(UPriority::CS6) => 7,
            },
            a.ttl,
            a.request_id,
            match a.commstatus {
                Some(code) => Some(status::code_value(code)),
                None => None,
            },
        ),
{
    let taken = message::taken_over(a);
    assert(AttributesView { payload_encoding: a.payload_encoding, ..taken } =~= taken);
}

/// What comes of finishing a draft: it is kept as it is, but for the payload encoding.
pub proof fn law_drafts_that_are_finished(
    draft: AttributesView,
    has_payload: bool,
    encoding: Option<u32>,
)
    ensures
        match message::finished(draft, has_payload, encoding) {
            Ok(a) => {
                &&& has_payload <==> encoding is Some
                &&& a == (AttributesView { payload_encoding: encoding, ..draft })
                &&& mapping::mapped_properties(a) is Ok
            },
            Err(e) => {
                &&& e.code == UCode::InvalidArgument
                &&& has_payload && encoding is None ==> e.message
                    == "message payload has no payload-encoding identifier"@
                &&& !has_payload && encoding is Some ==> e.message
                    == "message declares a payload-encoding identifier without payload bytes"@
                &&& (has_payload <==> encoding is Some) ==> {
                    &&& mapping::mapped_properties(
                        AttributesView { payload_encoding: encoding, ..draft },
                    ) is Err
                    &&& e.message == attributes::failure_of(draft).0
                }
            },
        },
{
}

/// What setting the common attributes of a draft does: those that are given replace what the draft
/// has, and nothing else is changed.
pub proof fn law_common_attributes_are_set(
    draft: AttributesView,
    priority: Option<UPriority>,
    ttl: Option<u32>,
    traceparent: Option<Seq<char>>,
)
    ensures
        ({
            let r = message::with_common_attributes(draft, priority, ttl, traceparent);
            &&& priority is Some ==> r.priority == priority
            &&& priority is None ==> r.priority == draft.priority
            &&& ttl is Some ==> r.ttl == ttl
            &&& ttl is None ==> r.ttl == draft.ttl
            &&& traceparent is Some ==> r.traceparent == traceparent
            &&& traceparent is None ==> r.traceparent == draft.traceparent
            &&& r == (AttributesView {
                priority: r.priority,
                ttl: r.ttl,
                traceparent: r.traceparent,
                ..draft
            })
        }),
{
}

/// What a draft starts with: a type, an identifier and a source, and nothing else.
pub proof fn law_drafts_start_bare(type_: UMessageType, id: UUID, source: UriView)
    ensures
        message::bare_attributes(type_, id, source) == (AttributesView {
            type_,
            id,
            source,
            sink: None,
            priority: None,
            ttl: None,
            permission_level: None,
            commstatus: None,
            request_id: None,
            token: None,
            traceparent: None,
            payload_encoding: None,
        }),
{
}

/// What every message keeps: its attributes are valid and hold nothing that its type has no use for,
/// and it has a payload if and only if it names an encoding, which is not the reserved one.
pub proof fn law_what_a_message_keeps(m: MessageView)
    ensures
        message::is_message(m) <==> {
            &&& mapping::mapped_properties(m.attributes) is Ok
            &&& m.attributes.type_ == UMessageType::Publish ==> m.attributes.sink is None
            &&& m.attributes.type_ != UMessageType::Request ==> m.attributes.token is None
                && m.attributes.permission_level is None
            &&& m.attributes.type_ != UMessageType::Response ==> m.attributes.commstatus is None
                && m.attributes.request_id is None
            &&& match m.attributes.payload_encoding {
                Some(id) => id != 0 && m.payload is Some,
                None => m.payload is None,
            }
        },
{
}

/// What comes of checking attributes that were read: a message's attributes that are equal to them,
/// but for the priority of a request or a response that names none.
pub proof fn law_attributes_that_are_checked(a: AttributesView, expired: bool)
    ensures
        match mapping::checked(a) {
            Ok(b) => {
                &&& b == (AttributesView { priority: b.priority, ..a })
                &&& a.priority is Some ==> b.priority == a.priority
                &&& a.priority is None ==> b.priority == if a.type_ == UMessageType::Request
                    || a.type_ == UMessageType::Response {
                    Some(UPriority::CS4)
                } else {
                    None
                }
                &&& mapping::mapped_properties(b) is Ok
                &&& a.type_ != UMessageType::Request ==> a.token is None && a.permission_level
                    is None
                &&& a.type_ != UMessageType::Response ==> a.commstatus is None && a.request_id
                    is None
            },
            Err(e) => {
                &&& e.code == UCode::InvalidArgument
                &&& a.priority is Some ==> {
                    ||| mapping::mapped_properties(a) is Err
                    ||| a.type_ != UMessageType::Request && (a.token is Some
                        || a.permission_level is Some)
                    ||| a.type_ != UMessageType::Response && (a.commstatus is Some || a.request_id
                        is Some)
                }
            },
        },
        mapping::unless_expired(a, expired) == if expired {
            Err::<AttributesView, StatusView>(
                StatusView { code: UCode::DeadlineExceeded, message: "message has expired"@ },
            )
        } else {
            Ok::<AttributesView, StatusView>(a)
        },
{
    let taken = message::taken_over(a);
    assert(AttributesView { payload_encoding: a.payload_encoding, ..taken } =~= taken);
    if mapping::misplaced(a) is None {
        assert(AttributesView { priority: taken.priority, ..a } =~= taken);
        if a.priority is Some {
            assert(taken =~= a);
        }
    }
}

/// Why no attributes are read from a packet: the first thing that is wrong with it, in the order of
/// the retired user properties, the version, the identifier, the type, the source, the sink, the
/// priority, the time to live, the permission level, the communication status, the correlation data
/// and the content type.
pub proof fn law_packets_that_are_not_read(packet: Seq<PropertyView>)
    ensures
        reading::attributes_in(packet) matches Err(e) ==> {
            &&& e.code == UCode::InvalidArgument
            &&& e.message == if properties::user_property(packet, "13"@) is Some {
                "MQTT message contains retired payload metadata UserProperty "@ + "13"@
            } else if properties::user_property(packet, "14"@) is Some {
                "MQTT message contains retired payload metadata UserProperty "@ + "14"@
            } else if properties::user_property(packet, "15"@) is Some {
                "MQTT message contains retired payload metadata UserProperty "@ + "15"@
            } else if properties::user_property(packet, "uP"@) is None {
                "MQTT message does not contain uProtocol version identifier"@
            } else if text::read_u8(properties::user_property(packet, "uP"@)->0) is Err {
                "Failed to map UserProperty uP to uProtocol major version: "@ + text::u8_error(
                    properties::user_property(packet, "uP"@)->0,
                )
            } else if text::unsigned_value(properties::user_property(packet, "uP"@)->0) != Some(1nat) {
                "MQTT message contains unsupported uProtocol major version [expected: 1, found: "@
                    + text::decimal(
                    text::unsigned_value(properties::user_property(packet, "uP"@)->0)->0,
                ) + "]"@
            } else if properties::user_property(packet, "1"@) is None {
                "message attributes missing required "@ + "message id"@
            } else if uuid::read_uuid(properties::user_property(packet, "1"@)->0) is Err {
                "Failed to map UserProperty 1 to Message ID: "@ + uuid::read_uuid(
                    properties::user_property(packet, "1"@)->0,
                )->Err_0
            } else if properties::user_property(packet, "2"@) is None {
                "message attributes missing required "@ + "message type"@
            } else if attributes::type_named(properties::user_property(packet, "2"@)->0) is None {
                "Failed to map UserProperty 2 to Message Type: "@ + (
                "Parsing error: unknown message type: "@ + properties::user_property(packet, "2"@)->0)
            } else if properties::user_property(packet, "3"@) is None {
                "message attributes missing required "@ + "source"@
            } else if uri::parsed_uri(properties::user_property(packet, "3"@)->0) is Err {
                "Failed to map UserProperty 3 to Message Source: "@ + uri::parsed_uri(
                    properties::user_property(packet, "3"@)->0,
                )->Err_0
            } else if properties::user_property(packet, "4"@) matches Some(value)
                && uri::parsed_uri(value) is Err {
                "Failed to map UserProperty 4 to Message Sink: "@ + uri::parsed_uri(
                    properties::user_property(packet, "4"@)->0,
                )->Err_0
            } else if properties::user_property(packet, "5"@) matches Some(value)
                && attributes::priority_named(value) is None {
                "Failed to map UserProperty 5 to Message Priority: "@ + (
                "Parsing error: unknown priority ["@ + properties::user_property(packet, "5"@)->0 + "]"@)
            } else if properties::user_property(packet, "6"@) matches Some(value)
                && text::read_u32(value) is Err {
                "Failed to map UserProperty 6 to Message TTL: "@ + text::u32_error(
                    properties::user_property(packet, "6"@)->0,
                )
            } else if properties::user_property(packet, "7"@) matches Some(value)
                && text::read_u32(value) is Err {
                "Failed to map UserProperty 7 to Permission Level: "@ + text::u32_error(
                    properties::user_property(packet, "7"@)->0,
                )
            } else if properties::user_property(packet, "8"@) matches Some(value)
                && text::read_i32(value) is Err {
                "Failed to map UserProperty 8 to CommStatus: "@ + text::i32_error(
                    properties::user_property(packet, "8"@)->0,
                )
            } else if properties::user_property(packet, "8"@) matches Some(value) && !(0
                <= text::signed_value(value)->0 <= 16) {
                "Failed to map UserProperty 8 to CommStatus: "@ + "unknown status code"@
            } else if properties::correlation_data(packet) matches Some(data)
                && uuid::read_uuid_bytes(data) is Err {
                uuid::read_uuid_bytes(properties::correlation_data(packet)->0)->Err_0
            } else if properties::content_types(packet).len() > 1 {
                "MQTT message contains duplicate Content Type properties"@
            } else if properties::content_types(packet)[0] is None {
                "MQTT Content Type is not a string"@
            } else if text::read_u32(properties::content_types(packet)[0]->0) is Err {
                "Failed to map Content Type to payload-encoding identifier: "@ + text::u32_error(
                    properties::content_types(packet)[0]->0,
                )
            } else {
                "Failed to map Content Type to payload-encoding identifier: "@
                    + "payload-encoding identifier 0 is reserved"@
            }
        },
        mapping::mapped_attributes(packet) == match reading::attributes_in(packet) {
            Ok(a) => mapping::checked(a),
            Err(e) => Err(e),
        },
{
}

/// Which numerals are numbers of a certain width, and which number they are.
pub proof fn law_numbers_that_are_read(value: Seq<char>)
    ensures
        match text::read_u8(value) {
            Ok(n) => text::unsigned_value(value) == Some(n as nat),
            Err(e) => text::unsigned_value(value) matches Some(n) ==> n > 255,
        },
        match text::read_u32(value) {
            Ok(n) => text::unsigned_value(value) == Some(n as nat),
            Err(e) => text::unsigned_value(value) matches Some(n) ==> n > 0xFFFF_FFFF,
        },
        match text::read_i32(value) {
            Ok(n) => text::signed_value(value) == Some(n as int),
            Err(e) => text::signed_value(value) matches Some(n) ==> n > 0x7FFF_FFFF || n
                < -0x8000_0000,
        },
{
}

/// Why attributes that were read make up no message: attributes that the type cannot have come first,
/// then whatever keeps a message from being made.
pub proof fn law_attributes_that_are_not_checked(a: AttributesView)
    ensures
        mapping::checked(a) matches Err(e) ==> {
            if a.type_ != UMessageType::Request && (a.token is Some || a.permission_level is Some) {
                e.message == "token and permission level are only valid for request messages"@
            } else if a.type_ != UMessageType::Response && (a.commstatus is Some || a.request_id
                is Some) {
                e.message
                    == "communication status and request id are only valid for response messages"@
            } else if a.type_ == UMessageType::Publish && a.sink is Some {
                e.message == "publish messages must not contain a sink"@
            } else {
                message::message_attributes(a, a.payload_encoding is Some) == Err::<
                    AttributesView,
                    StatusView,
                >(e)
            }
        },
        a.type_ != UMessageType::Request && (a.token is Some || a.permission_level is Some)
            ==> mapping::checked(a) is Err,
        a.type_ != UMessageType::Response && (a.commstatus is Some || a.request_id is Some)
            ==> mapping::checked(a) is Err,
        a.type_ == UMessageType::Publish && a.sink is Some ==> mapping::checked(a) is Err,
{
}

/// What is said of a property that cannot be added to a packet.
pub proof fn law_properties_that_cannot_be_added(
    key: Seq<char>,
    value: Seq<char>,
    seconds: u32,
    data: Seq<u8>,
    content_type: Option<Seq<char>>,
)
    ensures
        writing::user_property_failure("uP"@)
            == "Failed to add uProtocol major version to MQTT User Properties: "@,
        writing::user_property_failure("6"@)
            == "Failed to add TTL to MQTT User Properties: "@,
        writing::user_property_failure("1"@)
            == "Failed to add message ID to MQTT User Properties: "@,
        writing::user_property_failure("2"@)
            == "Failed to add message type to MQTT User Properties: "@,
        writing::user_property_failure("3"@)
            == "Failed to add message source to MQTT User Properties: "@,
        writing::user_property_failure("4"@)
            == "Failed to add message sink to MQTT User Properties: "@,
        writing::user_property_failure("5"@)
            == "Failed to add message priority to MQTT User Properties: "@,
        writing::user_property_failure("7"@)
            == "Failed to add message permission level to MQTT User Properties: "@,
        writing::user_property_failure("8"@)
            == "Failed to add message comm status to MQTT User Properties: "@,
        writing::user_property_failure("10"@)
            == "Failed to add message token to MQTT User Properties: "@,
        writing::user_property_failure("11"@)
            == "Failed to add message traceparent to MQTT User Properties: "@,
        key != "uP"@ && key != "6"@ && key != "1"@ && key != "2"@ && key != "3"@ && key != "4"@ && key != "5"@ && key != "7"@ && key != "8"@ && key != "10"@ && key != "11"@ ==> writing::user_property_failure(key)
            == "Failed to add property to MQTT User Properties: "@,
        writing::property_failure(PropertyView::UserProperty(key, value))
            == writing::user_property_failure(key),
        writing::property_failure(PropertyView::MessageExpiryInterval(seconds))
            == "Failed to create Message Expiry Interval property: "@,
        writing::property_failure(PropertyView::CorrelationData(data))
            == "Failed to create Correlation Data property: "@,
        writing::property_failure(PropertyView::ContentType(content_type))
            == "Failed to create Content Type property: "@,
{
    crate::keys::lemma_keys_differ();
    let all = crate::keys::all_keys();
    assert(all[0] == "uP"@ && all[1] == "1"@ && all[2] == "2"@ && all[3] == "3"@ && all[4] == "4"@
        && all[5] == "5"@ && all[6] == "6"@ && all[7] == "7"@ && all[8] == "8"@ && all[9] == "10"@
        && all[10] == "11"@);
}

/// What attributes, URIs, failures and properties hold is all that they hold.
pub proof fn law_views_leave_nothing_out(
    a: UAttributes,
    uri: UUri,
    failure: UStatus,
    property: Property,
)
    ensures
        a@.type_ == a.type_,
        a@.id == a.id,
        a@.source == a.source@,
        match a.sink {
            Some(sink) => a@.sink == Some(sink@),
            None => a@.sink is None,
        },
        a@.priority == a.priority,
        a@.ttl == a.ttl,
        a@.permission_level == a.permission_level,
        a@.commstatus == a.commstatus,
        a@.request_id == a.request_id,
        match a.token {
            Some(token) => a@.token == Some(token@),
            None => a@.token is None,
        },
        match a.traceparent {
            Some(traceparent) => a@.traceparent == Some(traceparent@),
            None => a@.traceparent is None,
        },
        match a.payload_encoding {
            Some(encoding) => a@.payload_encoding == Some(encoding@),
            None => a@.payload_encoding is None,
        },
        uri@.authority_name == uri.authority_name@,
        uri@.ue_id == uri.ue_id,
        uri@.ue_version_major == uri.ue_version_major,
        uri@.resource_id == uri.resource_id,
        failure@.code == failure.code,
        failure@.message == failure.message@,
        match property {
            Property::UserProperty(key, value) => property@ == PropertyView::UserProperty(
                key@,
                value@,
            ),
            Property::MessageExpiryInterval(seconds) => property@
                == PropertyView::MessageExpiryInterval(seconds),
            Property::CorrelationData(data) => property@ == PropertyView::CorrelationData(data@),
            Property::ContentType(Some(text)) => property@ == PropertyView::ContentType(
                Some(text@),
            ),
            Property::ContentType(None) => property@ == PropertyView::ContentType(None),
        },
{
}

/// What a payload holds is the bytes that were given.
pub proof fn law_payloads_are_kept(payload: Option<bytes::Bytes>)
    ensures
        match payload {
            Some(bytes) => message::payload_view(payload) == Some(message::content(bytes)),
            None => message::payload_view(payload) is None,
        },
{
}

proof fn lemma_present_len(entries: Seq<Option<PropertyView>>, i: int)
    requires
        0 <= i < entries.len(),
    ensures
        writing::present(entries.skip(i)).len() == writing::present(entries.skip(i + 1)).len() + if (
        entries[i] is Some) {
            1int
        } else {
            0int
        },
{
    assert(entries.skip(i).drop_first() =~= entries.skip(i + 1));
}

/// The packet for attributes has as many properties as there are attributes to name, so that none is
/// named twice. A time to live that is not a whole number of seconds is named in two ways.
pub proof fn law_nothing_is_written_twice(a: AttributesView)
    ensures
        mapping::mapped_properties(a) matches Ok(packet) ==> packet.len() == 4 + (if a.sink is Some {
            1int
        } else {
            0
        }) + (if a.priority is Some {
            1int
        } else {
            0
        }) + (match a.ttl {
            Some(ttl) => if ttl % 1000 == 0 {
                1int
            } else {
                2
            },
            None => 0,
        }) + (if a.permission_level is Some {
            1int
        } else {
            0
        }) + (if a.commstatus is Some {
            1int
        } else {
            0
        }) + (if a.request_id is Some {
            1int
        } else {
            0
        }) + (if a.token is Some {
            1int
        } else {
            0
        }) + (if a.traceparent is Some {
            1int
        } else {
            0
        }) + (if a.payload_encoding is Some {
            1int
        } else {
            0
        }),
{
    let entries = writing::entries(a);
    assert(entries.len() == 14);
    assert(entries.skip(0) =~= entries);
    assert(entries.skip(14).len() == 0);
    lemma_present_len(entries, 0);
    lemma_present_len(entries, 1);
    lemma_present_len(entries, 2);
    lemma_present_len(entries, 3);
    lemma_present_len(entries, 4);
    lemma_present_len(entries, 5);
    lemma_present_len(entries, 6);
    lemma_present_len(entries, 7);
    lemma_present_len(entries, 8);
    lemma_present_len(entries, 9);
    lemma_present_len(entries, 10);
    lemma_present_len(entries, 11);
    lemma_present_len(entries, 12);
    lemma_present_len(entries, 13);
}

/// What digits stand for: the last one counts ones, and those before it count tens. Behind digits
/// nothing but a digit may stand.
pub proof fn law_digits(digits: Seq<char>, last: char)
    requires
        digits.len() > 0,
        forall|i: int| 0 <= i < digits.len() ==> '0' <= #[trigger] digits[i] && digits[i] <= '9',
    ensures
        text::unsigned_value(digits) is Some,
        '0' <= last && last <= '9' ==> text::unsigned_value(digits.push(last)) == Some(
            (text::unsigned_value(digits)->0 * 10 + (last as int - 48)) as nat,
        ),
        !('0' <= last && last <= '9') ==> text::unsigned_value(digits.push(last)) is None,
        !('0' <= last && last <= '9') ==> text::signed_value(digits.push(last)) is None,
{
    let first = digits[0];
    assert('0' <= first && first <= '9');
    assert(text::is_digits(digits));
    let longer = digits.push(last);
    assert(longer[0] == first);
    assert(longer[digits.len() as int] == last);
    if '0' <= last && last <= '9' {
        assert(text::is_digits(longer)) by {
            assert forall|i: int| 0 <= i < longer.len() implies text::is_decimal_digit(
                #[trigger] longer[i],
            ) by {
                if i < digits.len() {
                    assert(longer[i] == digits[i]);
                }
            }
        }
        assert(text::digits_value(longer) == text::digits_value(digits) * 10 + (last as int
            - 48)) by {
            assert(longer.drop_last() =~= digits);
        }
    } else {
        assert(!text::is_decimal_digit(longer[digits.len() as int]));
    }
}

/// What a single character, or none, stands for.
pub proof fn law_single_digits(c: char)
    ensures
        text::unsigned_value(seq![c]) == if '0' <= c && c <= '9' {
            Some((c as int - 48) as nat)
        } else {
            None
        },
        text::unsigned_value(Seq::empty()) is None,
        text::signed_value(Seq::empty()) is None,
{
    let one = seq![c];
    assert(one[0] == c);
    assert(text::digits_value(one) == (c as int - 48) as nat) by {
        assert(one.drop_last() =~= Seq::<char>::empty());
        assert(text::digits_value(Seq::<char>::empty()) == 0);
    }
    if '0' <= c && c <= '9' {
        assert(text::is_digits(one));
    } else {
        assert(!text::is_decimal_digit(one[0]));
        assert(one.skip(1).len() == 0);
    }
}

/// What a sign before digits stands for.
pub proof fn law_signs(digits: Seq<char>)
    requires
        digits.len() > 0,
        forall|i: int| 0 <= i < digits.len() ==> '0' <= #[trigger] digits[i] && digits[i] <= '9',
    ensures
        text::unsigned_value(seq!['+'] + digits) == text::unsigned_value(digits),
        text::signed_value(seq!['+'] + digits) == text::signed_value(digits),
        text::unsigned_value(seq!['-'] + digits) is None,
        text::signed_value(seq!['-'] + digits) == Some(-text::signed_value(digits)->0),
        text::signed_value(digits) == Some(text::unsigned_value(digits)->0 as int),
{
    let first = digits[0];
    assert('0' <= first && first <= '9');
    assert(text::is_digits(digits));
    let plus = seq!['+'] + digits;
    let minus = seq!['-'] + digits;
    assert(plus[0] == '+' && minus[0] == '-');
    assert(plus.skip(1) =~= digits);
    assert(minus.skip(1) =~= digits);
    assert(!text::is_decimal_digit(minus[0]));
}

/// Which numeral a number has: the one without sign and without leading zeros.
pub proof fn law_decimal_numerals(n: nat)
    ensures
        text::unsigned_value(text::decimal(n)) == Some(n),
        text::signed_value(text::decimal(n)) == Some(n as int),
        text::decimal(n).len() > 0,
        text::decimal(n)[0] == '0' ==> n == 0 && text::decimal(n).len() == 1,
        text::decimal(n)[0] != '+' && text::decimal(n)[0] != '-',
{
    text::lemma_decimal_reads_back(n);
    lemma_leading_digit(n);
}

proof fn lemma_leading_digit(n: nat)
    ensures
        text::decimal(n).len() > 0,
        text::decimal(n)[0] == '0' ==> n == 0,
        '0' <= text::decimal(n)[0] && text::decimal(n)[0] <= '9',
    decreases n,
{
    if n >= 10 {
        lemma_leading_digit(n / 10);
        assert(text::decimal(n)[0] == text::decimal(n / 10)[0]);
    }
}

proof fn lemma_low_byte(y: u64)
    by (bit_vector)
    ensures
        y & 0xFF == y % 256,
{
}

proof fn lemma_shifts(x: u64)
    by (bit_vector)
    ensures
        x >> 56 == x / 0x100_0000_0000_0000,
        x >> 48 == x / 0x1_0000_0000_0000,
        x >> 40 == x / 0x100_0000_0000,
        x >> 32 == x / 0x1_0000_0000,
        x >> 24 == x / 0x100_0000,
        x >> 16 == x / 0x1_0000,
        x >> 8 == x / 0x100,
        x >> 0 == x,
{
}

proof fn lemma_byte_values(x: u64)
    ensures
        ((x >> 56) & 0xFF) as u8 == x / 0x100_0000_0000_0000,
        ((x >> 48) & 0xFF) as u8 == (x / 0x1_0000_0000_0000) % 256,
        ((x >> 40) & 0xFF) as u8 == (x / 0x100_0000_0000) % 256,
        ((x >> 32) & 0xFF) as u8 == (x / 0x1_0000_0000) % 256,
        ((x >> 24) & 0xFF) as u8 == (x / 0x100_0000) % 256,
        ((x >> 16) & 0xFF) as u8 == (x / 0x1_0000) % 256,
        ((x >> 8) & 0xFF) as u8 == (x / 0x100) % 256,
        ((x >> 0) & 0xFF) as u8 == x % 256,
{
    lemma_shifts(x);
    lemma_low_byte(x >> 56);
    lemma_low_byte(x >> 48);
    lemma_low_byte(x >> 40);
    lemma_low_byte(x >> 32);
    lemma_low_byte(x >> 24);
    lemma_low_byte(x >> 16);
    lemma_low_byte(x >> 8);
    lemma_low_byte(x >> 0);
}

/// The bytes of an identifier are those of its number, the most significant one first.
pub proof fn law_bytes_of_an_identifier(id: UUID)
    ensures
        uuid::uuid_bytes(id).len() == 16,
        uuid::uuid_bytes(id)[0] == id.msb / 0x100_0000_0000_0000,
        uuid::uuid_bytes(id)[1] == (id.msb / 0x1_0000_0000_0000) % 256,
        uuid::uuid_bytes(id)[2] == (id.msb / 0x100_0000_0000) % 256,
        uuid::uuid_bytes(id)[3] == (id.msb / 0x1_0000_0000) % 256,
        uuid::uuid_bytes(id)[4] == (id.msb / 0x100_0000) % 256,
        uuid::uuid_bytes(id)[5] == (id.msb / 0x1_0000) % 256,
        uuid::uuid_bytes(id)[6] == (id.msb / 0x100) % 256,
        uuid::uuid_bytes(id)[7] == id.msb % 256,
        uuid::uuid_bytes(id)[8] == id.lsb / 0x100_0000_0000_0000,
        uuid::uuid_bytes(id)[9] == (id.lsb / 0x1_0000_0000_0000) % 256,
        uuid::uuid_bytes(id)[10] == (id.lsb / 0x100_0000_0000) % 256,
        uuid::uuid_bytes(id)[11] == (id.lsb / 0x1_0000_0000) % 256,
        uuid::uuid_bytes(id)[12] == (id.lsb / 0x100_0000) % 256,
        uuid::uuid_bytes(id)[13] == (id.lsb / 0x1_0000) % 256,
        uuid::uuid_bytes(id)[14] == (id.lsb / 0x100) % 256,
        uuid::uuid_bytes(id)[15] == id.lsb % 256,
{
    lemma_byte_values(id.msb);
    lemma_byte_values(id.lsb);
}

} // verus!
