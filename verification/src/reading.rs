//! How the attributes of a message are read from the properties of a packet.

use vstd::prelude::*;

use crate::attributes;
use crate::attributes::{AttributesView, PayloadEncoding, UAttributes, UMessageType, UPriority};
use crate::keys;
use crate::properties;
use crate::properties::{Properties, PropertyView};
use crate::status;
use crate::status::{invalid_argument, missing_required_attribute, StatusView, UCode, UStatus};
use crate::text;
use crate::uri;
use crate::uri::{UUri, UriView};
use crate::uuid;
use crate::uuid::UUID;
use crate::writing::CURRENT_UPROTOCOL_MAJOR_VERSION;

verus! {

/// Whether a packet has a user property with a key.
pub open spec fn has_user_property(packet: Seq<PropertyView>, key: Seq<char>) -> bool {
    properties::user_property(packet, key) is Some
}

/// The refusal of a packet that has a user property with a retired key.
pub open spec fn retired_key_error(key: Seq<char>) -> StatusView {
    status::invalid("MQTT message contains retired payload metadata UserProperty "@ + key)
}

/// Whether a packet is free of user properties with retired keys.
pub open spec fn no_retired_keys(packet: Seq<PropertyView>) -> Result<(), StatusView> {
    if has_user_property(packet, keys::RETIRED_PAYLOAD_KEY_13@) {
        Err(retired_key_error(keys::RETIRED_PAYLOAD_KEY_13@))
    } else if has_user_property(packet, keys::RETIRED_PAYLOAD_KEY_14@) {
        Err(retired_key_error(keys::RETIRED_PAYLOAD_KEY_14@))
    } else if has_user_property(packet, keys::RETIRED_PAYLOAD_KEY_15@) {
        Err(retired_key_error(keys::RETIRED_PAYLOAD_KEY_15@))
    } else {
        Ok(())
    }
}

fn check_retired_key(packet: &Properties, key: &str) -> (r: Result<(), UStatus>)
    ensures
        match r {
            Ok(_) => !has_user_property(packet@, key@),
            Err(e) => has_user_property(packet@, key@) && e@ == retired_key_error(key@),
        },
{
    match packet.find_user_property(key) {
        None => Ok(()),
        Some(_) => Err(
            invalid_argument(
                "MQTT message contains retired payload metadata UserProperty ".to_string().concat(
                    key,
                ),
            ),
        ),
    }
}

fn check_retired_keys(packet: &Properties) -> (r: Result<(), UStatus>)
    ensures
        match r {
            Ok(_) => no_retired_keys(packet@) is Ok,
            Err(e) => no_retired_keys(packet@) == Err::<(), StatusView>(e@),
        },
{
    check_retired_key(packet, keys::RETIRED_PAYLOAD_KEY_13)?;
    check_retired_key(packet, keys::RETIRED_PAYLOAD_KEY_14)?;
    check_retired_key(packet, keys::RETIRED_PAYLOAD_KEY_15)
}

/// Whether the major version of uProtocol that a packet names is the one that is mapped.
pub open spec fn version_supported(packet: Seq<PropertyView>) -> Result<(), StatusView> {
    match properties::user_property(packet, keys::KEY_UPROTOCOL_VERSION@) {
        None => Err(
            status::invalid("MQTT message does not contain uProtocol version identifier"@),
        ),
        Some(value) => match text::read_u8(value) {
            Err(e) => Err(
                status::invalid(
                    "Failed to map UserProperty uP to uProtocol major version: "@ + e,
                ),
            ),
            Ok(found) => if found == CURRENT_UPROTOCOL_MAJOR_VERSION {
                Ok(())
            } else {
                Err(unsupported_version_error(found))
            },
        },
    }
}

/// The refusal of a packet that names another major version of uProtocol.
pub open spec fn unsupported_version_error(found: u8) -> StatusView {
    status::invalid(
        "MQTT message contains unsupported uProtocol major version [expected: 1, found: "@
            + text::decimal(found as nat) + "]"@,
    )
}

fn check_version(packet: &Properties) -> (r: Result<(), UStatus>)
    ensures
        match r {
            Ok(_) => version_supported(packet@) is Ok,
            Err(e) => version_supported(packet@) == Err::<(), StatusView>(e@),
        },
{
    match packet.find_user_property(keys::KEY_UPROTOCOL_VERSION) {
        None => Err(
            invalid_argument(
                "MQTT message does not contain uProtocol version identifier".to_string(),
            ),
        ),
        Some(value) => match text::u8_from_text(value.as_str()) {
            Err(e) => Err(
                invalid_argument(
                    "Failed to map UserProperty uP to uProtocol major version: ".to_string().concat(
                        e.as_str(),
                    ),
                ),
            ),
            Ok(found) => if found == CURRENT_UPROTOCOL_MAJOR_VERSION {
                Ok(())
            } else {
                let expected =
                    "MQTT message contains unsupported uProtocol major version [expected: 1, found: ";
                let found = text::u32_to_text(found as u32);
                Err(
                    invalid_argument(
                        expected.to_string().concat(found.as_str()).concat("]"),
                    ),
                )
            },
        },
    }
}

/// The message identifier that a packet names.
pub open spec fn message_id(packet: Seq<PropertyView>) -> Result<UUID, StatusView> {
    match properties::user_property(packet, keys::KEY_MESSAGE_ID@) {
        None => Err(status::missing("message id"@)),
        Some(value) => match uuid::read_uuid(value) {
            Ok(found) => Ok(found),
            Err(e) => Err(status::invalid("Failed to map UserProperty 1 to Message ID: "@ + e)),
        },
    }
}

fn find_message_id(packet: &Properties) -> (r: Result<UUID, UStatus>)
    ensures
        match r {
            Ok(found) => message_id(packet@) == Ok::<UUID, StatusView>(found),
            Err(e) => message_id(packet@) == Err::<UUID, StatusView>(e@),
        },
{
    match packet.find_user_property(keys::KEY_MESSAGE_ID) {
        None => Err(missing_required_attribute("message id")),
        Some(value) => match uuid::uuid_from_text(value.as_str()) {
            Ok(found) => Ok(found),
            Err(e) => Err(
                invalid_argument(
                    "Failed to map UserProperty 1 to Message ID: ".to_string().concat(e.as_str()),
                ),
            ),
        },
    }
}

/// What comes of reading the name of a message type: the type, or the text of the error.
pub open spec fn read_type(name: Seq<char>) -> Result<UMessageType, Seq<char>> {
    match attributes::type_named(name) {
        Some(message_type) => Ok(message_type),
        None => Err("Parsing error: unknown message type: "@ + name),
    }
}

/// The message type that a packet names.
pub open spec fn message_type(packet: Seq<PropertyView>) -> Result<UMessageType, StatusView> {
    match properties::user_property(packet, keys::KEY_TYPE@) {
        None => Err(status::missing("message type"@)),
        Some(value) => match read_type(value) {
            Ok(found) => Ok(found),
            Err(e) => Err(status::invalid("Failed to map UserProperty 2 to Message Type: "@ + e)),
        },
    }
}

fn find_message_type(packet: &Properties) -> (r: Result<UMessageType, UStatus>)
    ensures
        match r {
            Ok(found) => message_type(packet@) == Ok::<UMessageType, StatusView>(found),
            Err(e) => message_type(packet@) == Err::<UMessageType, StatusView>(e@),
        },
{
    match packet.find_user_property(keys::KEY_TYPE) {
        None => Err(missing_required_attribute("message type")),
        Some(value) => match UMessageType::try_from_cloudevent_type(value) {
            Ok(found) => Ok(found),
            Err(e) => Err(
                invalid_argument(
                    "Failed to map UserProperty 2 to Message Type: ".to_string().concat(e.as_str()),
                ),
            ),
        },
    }
}

/// The source that a packet names.
pub open spec fn source(packet: Seq<PropertyView>) -> Result<UriView, StatusView> {
    match properties::user_property(packet, keys::KEY_SOURCE@) {
        None => Err(status::missing("source"@)),
        Some(value) => match uri::parsed_uri(value) {
            Ok(found) => Ok(found),
            Err(e) => Err(status::invalid("Failed to map UserProperty 3 to Message Source: "@ + e)),
        },
    }
}

fn find_source(packet: &Properties) -> (r: Result<UUri, UStatus>)
    ensures
        match r {
            Ok(found) => source(packet@) == Ok::<UriView, StatusView>(found@),
            Err(e) => source(packet@) == Err::<UriView, StatusView>(e@),
        },
        r matches Ok(found) ==> uri::is_canonical(found@),
{
    match packet.find_user_property(keys::KEY_SOURCE) {
        None => Err(missing_required_attribute("source")),
        Some(value) => match uri::uri_from_text(value.as_str()) {
            Ok(found) => Ok(found),
            Err(e) => Err(
                invalid_argument(
                    "Failed to map UserProperty 3 to Message Source: ".to_string().concat(e.as_str()),
                ),
            ),
        },
    }
}

/// The sink that a packet names, where it names one.
pub open spec fn sink(packet: Seq<PropertyView>) -> Result<Option<UriView>, StatusView> {
    match properties::user_property(packet, keys::KEY_SINK@) {
        None => Ok(None),
        Some(value) => match uri::parsed_uri(value) {
            Ok(found) => Ok(Some(found)),
            Err(e) => Err(status::invalid("Failed to map UserProperty 4 to Message Sink: "@ + e)),
        },
    }
}

fn find_sink(packet: &Properties) -> (r: Result<Option<UUri>, UStatus>)
    ensures
        match r {
            Ok(found) => sink(packet@) == Ok::<Option<UriView>, StatusView>(attributes::uri_view(found)),
            Err(e) => sink(packet@) == Err::<Option<UriView>, StatusView>(e@),
        },
        r matches Ok(Some(found)) ==> uri::is_canonical(found@),
{
    match packet.find_user_property(keys::KEY_SINK) {
        None => Ok(None),
        Some(value) => match uri::uri_from_text(value.as_str()) {
            Ok(found) => Ok(Some(found)),
            Err(e) => Err(
                invalid_argument(
                    "Failed to map UserProperty 4 to Message Sink: ".to_string().concat(e.as_str()),
                ),
            ),
        },
    }
}

/// What comes of reading the name of a priority class: the class, or the text of the error.
pub open spec fn read_priority(name: Seq<char>) -> Result<UPriority, Seq<char>> {
    match attributes::priority_named(name) {
        Some(priority) => Ok(priority),
        None => Err("Parsing error: unknown priority ["@ + name + "]"@),
    }
}

/// The priority that a packet names, where it names one.
pub open spec fn priority(packet: Seq<PropertyView>) -> Result<Option<UPriority>, StatusView> {
    match properties::user_property(packet, keys::KEY_PRIORITY@) {
        None => Ok(None),
        Some(value) => match read_priority(value) {
            Ok(found) => Ok(Some(found)),
            Err(e) => Err(status::invalid("Failed to map UserProperty 5 to Message Priority: "@ + e)),
        },
    }
}

fn find_priority(packet: &Properties) -> (r: Result<Option<UPriority>, UStatus>)
    ensures
        match r {
            Ok(found) => priority(packet@) == Ok::<Option<UPriority>, StatusView>(found),
            Err(e) => priority(packet@) == Err::<Option<UPriority>, StatusView>(e@),
        },
{
    match packet.find_user_property(keys::KEY_PRIORITY) {
        None => Ok(None),
        Some(value) => match UPriority::try_from_priority_code(value) {
            Ok(found) => Ok(Some(found)),
            Err(e) => Err(
                invalid_argument(
                    "Failed to map UserProperty 5 to Message Priority: ".to_string().concat(e.as_str()),
                ),
            ),
        },
    }
}

/// A number of seconds in milliseconds, as far as the range of numbers allows.
pub open spec fn whole_ttl(seconds: u32) -> u32 {
    if seconds * 1000 <= u32::MAX {
        (seconds * 1000) as u32
    } else {
        u32::MAX
    }
}

/// The time to live that a packet names, where it names one. What a user property says of it is more
/// exact than the message expiry interval, and prevails.
pub open spec fn ttl(packet: Seq<PropertyView>) -> Result<Option<u32>, StatusView> {
    match properties::user_property(packet, keys::KEY_TTL@) {
        Some(value) => match text::read_u32(value) {
            Ok(found) => Ok(Some(found)),
            Err(e) => Err(status::invalid("Failed to map UserProperty 6 to Message TTL: "@ + e)),
        },
        None => match properties::message_expiry_interval(packet) {
            Some(seconds) => Ok(Some(whole_ttl(seconds))),
            None => Ok(None),
        },
    }
}

fn find_ttl(packet: &Properties) -> (r: Result<Option<u32>, UStatus>)
    ensures
        match r {
            Ok(found) => ttl(packet@) == Ok::<Option<u32>, StatusView>(found),
            Err(e) => ttl(packet@) == Err::<Option<u32>, StatusView>(e@),
        },
{
    match packet.find_user_property(keys::KEY_TTL) {
        Some(value) => match text::u32_from_text(value.as_str()) {
            Ok(found) => Ok(Some(found)),
            Err(e) => Err(
                invalid_argument(
                    "Failed to map UserProperty 6 to Message TTL: ".to_string().concat(e.as_str()),
                ),
            ),
        },
        None => match packet.message_expiry_interval() {
            Some(seconds) => if seconds <= u32::MAX / 1000 {
                Ok(Some(seconds * 1000))
            } else {
                Ok(Some(u32::MAX))
            },
            None => Ok(None),
        },
    }
}

/// The permission level that a packet names, where it names one.
pub open spec fn permission_level(packet: Seq<PropertyView>) -> Result<Option<u32>, StatusView> {
    match properties::user_property(packet, keys::KEY_PERMISSION_LEVEL@) {
        None => Ok(None),
        Some(value) => match text::read_u32(value) {
            Ok(found) => Ok(Some(found)),
            Err(e) => Err(status::invalid("Failed to map UserProperty 7 to Permission Level: "@ + e)),
        },
    }
}

fn find_permission_level(packet: &Properties) -> (r: Result<Option<u32>, UStatus>)
    ensures
        match r {
            Ok(found) => permission_level(packet@) == Ok::<Option<u32>, StatusView>(found),
            Err(e) => permission_level(packet@) == Err::<Option<u32>, StatusView>(e@),
        },
{
    match packet.find_user_property(keys::KEY_PERMISSION_LEVEL) {
        None => Ok(None),
        Some(value) => match text::u32_from_text(value.as_str()) {
            Ok(found) => Ok(Some(found)),
            Err(e) => Err(
                invalid_argument(
                    "Failed to map UserProperty 7 to Permission Level: ".to_string().concat(e.as_str()),
                ),
            ),
        },
    }
}

/// What comes of reading the number of a status code: the code, or the text of the error.
pub open spec fn read_code(value: Seq<char>) -> Result<UCode, Seq<char>> {
    match text::read_i32(value) {
        Ok(number) => match status::code_of(number) {
            Some(code) => Ok(code),
            None => Err("unknown status code"@),
        },
        Err(e) => Err(e),
    }
}

fn code_from_text(value: &str) -> (r: Result<UCode, String>)
    ensures
        match r {
            Ok(code) => read_code(value@) == Ok::<UCode, Seq<char>>(code),
            Err(e) => read_code(value@) == Err::<UCode, Seq<char>>(e@),
        },
{
    match text::i32_from_text(value) {
        Ok(number) => UCode::try_from_i32(number),
        Err(e) => Err(e),
    }
}

/// The communication status that a packet names, where it names one.
pub open spec fn commstatus(packet: Seq<PropertyView>) -> Result<Option<UCode>, StatusView> {
    match properties::user_property(packet, keys::KEY_COMMSTATUS@) {
        None => Ok(None),
        Some(value) => match read_code(value) {
            Ok(found) => Ok(Some(found)),
            Err(e) => Err(status::invalid("Failed to map UserProperty 8 to CommStatus: "@ + e)),
        },
    }
}

fn find_commstatus(packet: &Properties) -> (r: Result<Option<UCode>, UStatus>)
    ensures
        match r {
            Ok(found) => commstatus(packet@) == Ok::<Option<UCode>, StatusView>(found),
            Err(e) => commstatus(packet@) == Err::<Option<UCode>, StatusView>(e@),
        },
{
    match packet.find_user_property(keys::KEY_COMMSTATUS) {
        None => Ok(None),
        Some(value) => match code_from_text(value.as_str()) {
            Ok(found) => Ok(Some(found)),
            Err(e) => Err(
                invalid_argument(
                    "Failed to map UserProperty 8 to CommStatus: ".to_string().concat(e.as_str()),
                ),
            ),
        },
    }
}

/// The identifier of the request that a packet answers, where it names one.
pub open spec fn request_id(packet: Seq<PropertyView>) -> Result<Option<UUID>, StatusView> {
    match properties::correlation_data(packet) {
        None => Ok(None),
        Some(data) => match uuid::read_uuid_bytes(data) {
            Ok(found) => Ok(Some(found)),
            Err(e) => Err(status::invalid(e)),
        },
    }
}

fn find_request_id(packet: &Properties) -> (r: Result<Option<UUID>, UStatus>)
    ensures
        match r {
            Ok(found) => request_id(packet@) == Ok::<Option<UUID>, StatusView>(found),
            Err(e) => request_id(packet@) == Err::<Option<UUID>, StatusView>(e@),
        },
{
    match packet.correlation_data() {
        None => Ok(None),
        Some(data) => match uuid::uuid_from_bytes(data) {
            Ok(found) => Ok(Some(found)),
            Err(e) => Err(invalid_argument(e)),
        },
    }
}

/// What comes of reading the identifier of a payload encoding: the identifier, or the text of the
/// error.
pub open spec fn read_encoding(value: Seq<char>) -> Result<u32, Seq<char>> {
    match text::read_u32(value) {
        Ok(id) => if id == 0 {
            Err(attributes::reserved_encoding_error())
        } else {
            Ok(id)
        },
        Err(e) => Err(e),
    }
}

fn encoding_from_text(value: &str) -> (r: Result<PayloadEncoding, String>)
    ensures
        match r {
            Ok(encoding) => read_encoding(value@) == Ok::<u32, Seq<char>>(encoding@),
            Err(e) => read_encoding(value@) == Err::<u32, Seq<char>>(e@),
        },
{
    match text::u32_from_text(value) {
        Ok(id) => PayloadEncoding::from_id(id),
        Err(e) => Err(e),
    }
}

/// The payload encoding that a packet names, where it names one.
pub open spec fn payload_encoding(packet: Seq<PropertyView>) -> Result<Option<u32>, StatusView> {
    let content_types = properties::content_types(packet);
    if content_types.len() > 1 {
        Err(status::invalid("MQTT message contains duplicate Content Type properties"@))
    } else if content_types.len() == 0 {
        Ok(None)
    } else {
        match content_types[0] {
            None => Err(status::invalid("MQTT Content Type is not a string"@)),
            Some(value) => match read_encoding(value) {
                Ok(id) => Ok(Some(id)),
                Err(e) => Err(
                    status::invalid(
                        "Failed to map Content Type to payload-encoding identifier: "@ + e,
                    ),
                ),
            },
        }
    }
}

fn find_payload_encoding(packet: &Properties) -> (r: Result<Option<PayloadEncoding>, UStatus>)
    ensures
        match r {
            Ok(found) => payload_encoding(packet@) == Ok::<Option<u32>, StatusView>(
                attributes::encoding_view(found),
            ),
            Err(e) => payload_encoding(packet@) == Err::<Option<u32>, StatusView>(e@),
        },
{
    let count: usize = packet.content_type_count();
    if count > 1 {
        return Err(
            invalid_argument(
                "MQTT message contains duplicate Content Type properties".to_string(),
            ),
        );
    }
    if count == 0 {
        return Ok(None);
    }
    match packet.content_type() {
        None => Err(invalid_argument("MQTT Content Type is not a string".to_string())),
        Some(value) => match encoding_from_text(value.as_str()) {
            Ok(encoding) => Ok(Some(encoding)),
            Err(e) => Err(
                invalid_argument(
                    "Failed to map Content Type to payload-encoding identifier: ".to_string().concat(
                        e.as_str(),
                    ),
                ),
            ),
        },
    }
}

/// The first reason, in the order in which the properties of a packet are read, why no attributes
/// can be read from them.
pub open spec fn unreadable(packet: Seq<PropertyView>) -> Option<StatusView> {
    if no_retired_keys(packet) is Err {
        Some(no_retired_keys(packet)->Err_0)
    } else if version_supported(packet) is Err {
        Some(version_supported(packet)->Err_0)
    } else if message_id(packet) is Err {
        Some(message_id(packet)->Err_0)
    } else if message_type(packet) is Err {
        Some(message_type(packet)->Err_0)
    } else if source(packet) is Err {
        Some(source(packet)->Err_0)
    } else if sink(packet) is Err {
        Some(sink(packet)->Err_0)
    } else if priority(packet) is Err {
        Some(priority(packet)->Err_0)
    } else if ttl(packet) is Err {
        Some(ttl(packet)->Err_0)
    } else if permission_level(packet) is Err {
        Some(permission_level(packet)->Err_0)
    } else if commstatus(packet) is Err {
        Some(commstatus(packet)->Err_0)
    } else if request_id(packet) is Err {
        Some(request_id(packet)->Err_0)
    } else if payload_encoding(packet) is Err {
        Some(payload_encoding(packet)->Err_0)
    } else {
        None
    }
}

/// What the properties of a packet say about the attributes of the message: the attributes, or the
/// reason why there are none.
pub open spec fn attributes_in(packet: Seq<PropertyView>) -> Result<AttributesView, StatusView> {
    match unreadable(packet) {
        Some(e) => Err(e),
        None => Ok(
            AttributesView {
                type_: message_type(packet)->Ok_0,
                id: message_id(packet)->Ok_0,
                source: source(packet)->Ok_0,
                sink: sink(packet)->Ok_0,
                priority: priority(packet)->Ok_0,
                ttl: ttl(packet)->Ok_0,
                permission_level: permission_level(packet)->Ok_0,
                commstatus: commstatus(packet)->Ok_0,
                request_id: request_id(packet)->Ok_0,
                token: properties::user_property(packet, keys::KEY_TOKEN@),
                traceparent: properties::user_property(packet, keys::KEY_TRACEPARENT@),
                payload_encoding: payload_encoding(packet)->Ok_0,
            },
        ),
    }
}

/// Whether reading the texts of the URIs in attributes gives back the URIs.
pub open spec fn has_canonical_uris(attributes: AttributesView) -> bool {
    &&& uri::is_canonical(attributes.source)
    &&& attributes.sink matches Some(sink) ==> uri::is_canonical(sink)
}

/// Reads what the properties of a packet say about the attributes of the message.
pub fn read_attributes(packet: &Properties) -> (r: Result<UAttributes, UStatus>)
    ensures
        match r {
            Ok(attributes) => {
                &&& attributes_in(packet@) == Ok::<AttributesView, StatusView>(attributes@)
                &&& has_canonical_uris(attributes@)
            },
            Err(e) => attributes_in(packet@) == Err::<AttributesView, StatusView>(e@),
        },
{
    check_retired_keys(packet)?;
    check_version(packet)?;
    let id = find_message_id(packet)?;
    let type_ = find_message_type(packet)?;
    let source = find_source(packet)?;
    let sink = find_sink(packet)?;
    let priority = find_priority(packet)?;
    let ttl = find_ttl(packet)?;
    let permission_level = find_permission_level(packet)?;
    let commstatus = find_commstatus(packet)?;
    let request_id = find_request_id(packet)?;
    let token = packet.find_user_property(keys::KEY_TOKEN);
    let traceparent = packet.find_user_property(keys::KEY_TRACEPARENT);
    let payload_encoding = find_payload_encoding(packet)?;
    Ok(
        UAttributes {
            type_,
            id,
            source,
            sink,
            priority,
            ttl,
            permission_level,
            commstatus,
            request_id,
            token,
            traceparent,
            payload_encoding,
        },
    )
}

} // verus!
