//! How the attributes of a message are written into the properties of a packet.

use vstd::prelude::*;

use crate::attributes;
use crate::attributes::{AttributesView, UAttributes};
use crate::keys;
use crate::properties::{Properties, Property, PropertyView};
use crate::status;
use crate::status::{StatusView, UCode, UStatus};
use crate::text;
use crate::uri;
use crate::uuid;

verus! {

/// The major version of uProtocol whose messages are mapped.
pub const CURRENT_UPROTOCOL_MAJOR_VERSION: u8 = 1;

/// A time to live in milliseconds as a number of seconds, rounded up.
pub open spec fn expiry_seconds(ttl: u32) -> u32 {
    ((ttl + 999) / 1000) as u32
}

/// The user property for an attribute, where the attribute is present.
pub open spec fn user_entry(key: Seq<char>, value: Option<Seq<char>>) -> Option<PropertyView> {
    match value {
        Some(value) => Some(PropertyView::UserProperty(key, value)),
        None => None,
    }
}

/// The message expiry interval for a time to live, where there is one.
pub open spec fn expiry_entry(ttl: Option<u32>) -> Option<PropertyView> {
    match ttl {
        Some(ttl) => Some(PropertyView::MessageExpiryInterval(expiry_seconds(ttl))),
        None => None,
    }
}

/// The text of a time to live that is not a whole number of seconds.
pub open spec fn ttl_text(ttl: Option<u32>) -> Option<Seq<char>> {
    match ttl {
        Some(ttl) if ttl % 1000 > 0 => Some(text::decimal(ttl as nat)),
        _ => None,
    }
}

/// The text of an optional number.
pub open spec fn number_text(number: Option<u32>) -> Option<Seq<char>> {
    match number {
        Some(number) => Some(text::decimal(number as nat)),
        None => None,
    }
}

/// What the properties of a packet are for attributes, in their order. Each entry stands for one
/// attribute. It is absent if there is nothing to say about the attribute.
pub open spec fn entries(a: AttributesView) -> Seq<Option<PropertyView>> {
    seq![
        user_entry(
            keys::KEY_UPROTOCOL_VERSION@,
            Some(text::decimal(CURRENT_UPROTOCOL_MAJOR_VERSION as nat)),
        ),
        expiry_entry(a.ttl),
        user_entry(keys::KEY_TTL@, ttl_text(a.ttl)),
        user_entry(keys::KEY_MESSAGE_ID@, Some(uuid::uuid_text(a.id))),
        user_entry(keys::KEY_TYPE@, Some(attributes::name_of_type(a.type_))),
        user_entry(keys::KEY_SOURCE@, Some(uri::uri_text(a.source))),
        user_entry(
            keys::KEY_SINK@,
            match a.sink {
                Some(sink) => Some(uri::uri_text(sink)),
                None => None,
            },
        ),
        user_entry(
            keys::KEY_PRIORITY@,
            match a.priority {
                Some(priority) => Some(attributes::priority_name(priority)),
                None => None,
            },
        ),
        user_entry(keys::KEY_PERMISSION_LEVEL@, number_text(a.permission_level)),
        user_entry(
            keys::KEY_COMMSTATUS@,
            match a.commstatus {
                Some(code) => Some(text::decimal(status::code_value(code) as nat)),
                None => None,
            },
        ),
        match a.request_id {
            Some(id) => Some(PropertyView::CorrelationData(uuid::uuid_bytes(id))),
            None => None,
        },
        user_entry(keys::KEY_TOKEN@, a.token),
        user_entry(keys::KEY_TRACEPARENT@, a.traceparent),
        match a.payload_encoding {
            Some(id) => Some(PropertyView::ContentType(Some(text::decimal(id as nat)))),
            None => None,
        },
    ]
}

/// The entries that are present.
pub open spec fn present(entries: Seq<Option<PropertyView>>) -> Seq<PropertyView>
    decreases entries.len(),
{
    if entries.len() == 0 {
        Seq::empty()
    } else {
        let others = present(entries.drop_first());
        match entries[0] {
            Some(property) => seq![property] + others,
            None => others,
        }
    }
}

/// The properties of a packet for attributes.
pub open spec fn properties_of(a: AttributesView) -> Seq<PropertyView> {
    present(entries(a))
}

/// Adds a user property to the properties of a packet.
pub fn add_user_property(properties: &mut Properties, key: &str, value: &str)
    ensures
        final(properties)@ == old(properties)@.push(PropertyView::UserProperty(key@, value@)),
{
    properties.push(Property::UserProperty(key.to_string(), value.to_string()));
}

/// Turning the next entry into a property, if it is present, leaves the others to be turned.
proof fn lemma_entry_done(
    before: Seq<PropertyView>,
    after: Seq<PropertyView>,
    entries: Seq<Option<PropertyView>>,
    i: int,
)
    requires
        0 <= i < entries.len(),
        before + present(entries.skip(i)) == present(entries),
        after == match entries[i] {
            Some(property) => before.push(property),
            None => before,
        },
    ensures
        after + present(entries.skip(i + 1)) == present(entries),
{
    assert(entries.skip(i).drop_first() =~= entries.skip(i + 1));
    assert(after + present(entries.skip(i + 1)) =~= before + present(entries.skip(i)));
}

/// Writes attributes into the properties of a packet.
pub fn write_properties(a: &UAttributes) -> (properties: Properties)
    ensures
        properties@ == properties_of(a@),
{
    let ghost all = entries(a@);
    let mut properties = Properties::new();
    assert(all.skip(0) =~= all);
    assert(properties@ + present(all.skip(0)) =~= present(all));

    let ghost before = properties@;
    let version = text::u32_to_text(CURRENT_UPROTOCOL_MAJOR_VERSION as u32);
    add_user_property(&mut properties, keys::KEY_UPROTOCOL_VERSION, version.as_str());
    proof {
        lemma_entry_done(before, properties@, all, 0);
    }

    let ghost before = properties@;
    if let Some(ttl) = a.ttl {
        let whole: u32 = ttl / 1000;
        let seconds: u32 = if ttl % 1000 > 0 {
            whole + 1
        } else {
            whole
        };
        properties.push(Property::MessageExpiryInterval(seconds));
    }
    proof {
        lemma_entry_done(before, properties@, all, 1);
    }

    let ghost before = properties@;
    if let Some(ttl) = a.ttl {
        if ttl % 1000 > 0 {
            add_user_property(&mut properties, keys::KEY_TTL, text::u32_to_text(ttl).as_str());
        }
    }
    proof {
        lemma_entry_done(before, properties@, all, 2);
    }

    let ghost before = properties@;
    add_user_property(&mut properties, keys::KEY_MESSAGE_ID, uuid::uuid_to_text(a.id).as_str());
    proof {
        lemma_entry_done(before, properties@, all, 3);
    }

    let ghost before = properties@;
    let name = attributes::message_type_name(a.type_);
    add_user_property(&mut properties, keys::KEY_TYPE, name.as_str());
    proof {
        lemma_entry_done(before, properties@, all, 4);
    }

    let ghost before = properties@;
    add_user_property(&mut properties, keys::KEY_SOURCE, uri::uri_to_text(&a.source).as_str());
    proof {
        lemma_entry_done(before, properties@, all, 5);
    }

    let ghost before = properties@;
    if let Some(sink) = &a.sink {
        add_user_property(&mut properties, keys::KEY_SINK, uri::uri_to_text(sink).as_str());
    }
    proof {
        lemma_entry_done(before, properties@, all, 6);
    }

    let ghost before = properties@;
    if let Some(priority) = a.priority {
        let name = attributes::priority_text(priority);
        add_user_property(&mut properties, keys::KEY_PRIORITY, name.as_str());
    }
    proof {
        lemma_entry_done(before, properties@, all, 7);
    }

    let ghost before = properties@;
    if let Some(level) = a.permission_level {
        let level = text::u32_to_text(level);
        add_user_property(&mut properties, keys::KEY_PERMISSION_LEVEL, level.as_str());
    }
    proof {
        lemma_entry_done(before, properties@, all, 8);
    }

    let ghost before = properties@;
    if let Some(code) = a.commstatus {
        let value = text::u32_to_text(code.value() as u32);
        add_user_property(&mut properties, keys::KEY_COMMSTATUS, value.as_str());
    }
    proof {
        lemma_entry_done(before, properties@, all, 9);
    }

    let ghost before = properties@;
    if let Some(id) = a.request_id {
        properties.push(Property::CorrelationData(uuid::uuid_to_bytes(id)));
    }
    proof {
        lemma_entry_done(before, properties@, all, 10);
    }

    let ghost before = properties@;
    if let Some(token) = &a.token {
        add_user_property(&mut properties, keys::KEY_TOKEN, token.as_str());
    }
    proof {
        lemma_entry_done(before, properties@, all, 11);
    }

    let ghost before = properties@;
    if let Some(traceparent) = &a.traceparent {
        add_user_property(&mut properties, keys::KEY_TRACEPARENT, traceparent.as_str());
    }
    proof {
        lemma_entry_done(before, properties@, all, 12);
    }

    let ghost before = properties@;
    if let Some(encoding) = a.payload_encoding {
        properties.push(Property::ContentType(Some(text::u32_to_text(encoding.id()))));
    }
    proof {
        lemma_entry_done(before, properties@, all, 13);
        assert(properties@ + present(all.skip(14)) =~= properties@);
    }
    properties
}

/// What is said of a user property that cannot be added to a packet.
pub open spec fn user_property_failure(key: Seq<char>) -> Seq<char> {
    if key == keys::KEY_UPROTOCOL_VERSION@ {
        "Failed to add uProtocol major version to MQTT User Properties: "@
    } else if key == keys::KEY_TTL@ {
        "Failed to add TTL to MQTT User Properties: "@
    } else if key == keys::KEY_MESSAGE_ID@ {
        "Failed to add message ID to MQTT User Properties: "@
    } else if key == keys::KEY_TYPE@ {
        "Failed to add message type to MQTT User Properties: "@
    } else if key == keys::KEY_SOURCE@ {
        "Failed to add message source to MQTT User Properties: "@
    } else if key == keys::KEY_SINK@ {
        "Failed to add message sink to MQTT User Properties: "@
    } else if key == keys::KEY_PRIORITY@ {
        "Failed to add message priority to MQTT User Properties: "@
    } else if key == keys::KEY_PERMISSION_LEVEL@ {
        "Failed to add message permission level to MQTT User Properties: "@
    } else if key == keys::KEY_COMMSTATUS@ {
        "Failed to add message comm status to MQTT User Properties: "@
    } else if key == keys::KEY_TOKEN@ {
        "Failed to add message token to MQTT User Properties: "@
    } else if key == keys::KEY_TRACEPARENT@ {
        "Failed to add message traceparent to MQTT User Properties: "@
    } else {
        "Failed to add property to MQTT User Properties: "@
    }
}

/// What is said of a property that cannot be added to a packet.
pub open spec fn property_failure(property: PropertyView) -> Seq<char> {
    match property {
        PropertyView::UserProperty(key, _) => user_property_failure(key),
        PropertyView::MessageExpiryInterval(
            _,
        ) => "Failed to create Message Expiry Interval property: "@,
        PropertyView::CorrelationData(_) => "Failed to create Correlation Data property: "@,
        PropertyView::ContentType(_) => "Failed to create Content Type property: "@,
    }
}

fn describe_user_property_failure(key: &String) -> (text: &'static str)
    ensures
        text@ == user_property_failure(key@),
{
    if *key == keys::KEY_UPROTOCOL_VERSION.to_string() {
        "Failed to add uProtocol major version to MQTT User Properties: "
    } else if *key == keys::KEY_TTL.to_string() {
        "Failed to add TTL to MQTT User Properties: "
    } else if *key == keys::KEY_MESSAGE_ID.to_string() {
        "Failed to add message ID to MQTT User Properties: "
    } else if *key == keys::KEY_TYPE.to_string() {
        "Failed to add message type to MQTT User Properties: "
    } else if *key == keys::KEY_SOURCE.to_string() {
        "Failed to add message source to MQTT User Properties: "
    } else if *key == keys::KEY_SINK.to_string() {
        "Failed to add message sink to MQTT User Properties: "
    } else if *key == keys::KEY_PRIORITY.to_string() {
        "Failed to add message priority to MQTT User Properties: "
    } else if *key == keys::KEY_PERMISSION_LEVEL.to_string() {
        "Failed to add message permission level to MQTT User Properties: "
    } else if *key == keys::KEY_COMMSTATUS.to_string() {
        "Failed to add message comm status to MQTT User Properties: "
    } else if *key == keys::KEY_TOKEN.to_string() {
        "Failed to add message token to MQTT User Properties: "
    } else if *key == keys::KEY_TRACEPARENT.to_string() {
        "Failed to add message traceparent to MQTT User Properties: "
    } else {
        "Failed to add property to MQTT User Properties: "
    }
}

/// The failure of an operation that could not add a property to a packet, for a given reason.
pub fn failed_to_add(property: &Property, reason: &str) -> (r: UStatus)
    ensures
        r@ == (StatusView {
            code: UCode::Internal,
            message: property_failure(property@) + reason@,
        }),
{
    let description = match property {
        Property::UserProperty(key, _) => describe_user_property_failure(key),
        Property::MessageExpiryInterval(_) => "Failed to create Message Expiry Interval property: ",
        Property::CorrelationData(_) => "Failed to create Correlation Data property: ",
        Property::ContentType(_) => "Failed to create Content Type property: ",
    };
    UStatus::fail_with_code(UCode::Internal, description.to_string().concat(reason))
}

} // verus!
