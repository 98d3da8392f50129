//! Maps the attributes of a message to the properties of an MQTT 5 PUBLISH packet and back.

use bytes::Bytes;
use vstd::prelude::*;

use crate::attributes;
use crate::attributes::{AttributesView, UAttributes, UMessageType};
use crate::message;
use crate::message::create_umessage_from_uattributes;
use crate::properties::{Properties, PropertyView};
use crate::reading;
use crate::reading::read_attributes;
use crate::status;
use crate::status::{invalid_argument, StatusView, UCode, UStatus};
use crate::writing;
use crate::writing::write_properties;

verus! {

/// A way to represent the attributes of a message by the properties of a packet.
pub trait MessageMapper: Send + Sync {
    /// Creates the properties of a packet from the attributes of a message.
    fn create_mqtt_properties_from_uattributes(&self, attributes: &UAttributes) -> Result<
        Properties,
        UStatus,
    >;

    /// Creates the attributes of a message from the properties of a packet.
    fn create_uattributes_from_mqtt_properties(&self, props: &Properties) -> Result<
        UAttributes,
        UStatus,
    >;
}

/// The mapping that uProtocol defines for MQTT 5.
pub struct DefaultMessageMapper;

/// What comes of mapping attributes: the properties of a packet, or the reason why there are none.
pub open spec fn mapped_properties(attributes: AttributesView) -> Result<
    Seq<PropertyView>,
    StatusView,
> {
    if attributes::valid_attributes(attributes) {
        Ok(writing::properties_of(attributes))
    } else {
        Err(
            status::invalid("Invalid uAttributes, err: "@ + attributes::failure_of(attributes).1),
        )
    }
}

/// The reason why attributes that were read do not go together, where there is one.
pub open spec fn misplaced(attributes: AttributesView) -> Option<StatusView> {
    if attributes.type_ != UMessageType::Request && (attributes.token is Some
        || attributes.permission_level is Some) {
        Some(
            status::invalid("token and permission level are only valid for request messages"@),
        )
    } else if attributes.type_ != UMessageType::Response && (attributes.commstatus is Some
        || attributes.request_id is Some) {
        Some(
            status::invalid(
                "communication status and request id are only valid for response messages"@,
            ),
        )
    } else if attributes.type_ == UMessageType::Publish && attributes.sink is Some {
        Some(status::invalid("publish messages must not contain a sink"@))
    } else {
        None
    }
}

/// What comes of checking attributes that were read: the attributes of the message, or the reason
/// why there is none.
pub open spec fn checked(attributes: AttributesView) -> Result<AttributesView, StatusView> {
    match misplaced(attributes) {
        Some(e) => Err(e),
        None => message::message_attributes(attributes, attributes.payload_encoding is Some),
    }
}

/// What comes of mapping the properties of a packet, whatever the time: the attributes of the
/// message, or the reason why there is none.
pub open spec fn mapped_attributes(packet: Seq<PropertyView>) -> Result<
    AttributesView,
    StatusView,
> {
    match reading::attributes_in(packet) {
        Err(e) => Err(e),
        Ok(attributes) => checked(attributes),
    }
}

/// The refusal of a message that has outlived its time to live.
pub open spec fn expired_error() -> StatusView {
    StatusView { code: UCode::DeadlineExceeded, message: "message has expired"@ }
}

/// What comes of attributes once it is known whether the message has expired.
pub open spec fn unless_expired(attributes: AttributesView, expired: bool) -> Result<
    AttributesView,
    StatusView,
> {
    if expired {
        Err(expired_error())
    } else {
        Ok(attributes)
    }
}

/// What comes of mapping the properties of a packet at a point in time, given in milliseconds since
/// the start of 1970, or absent where the clock is set to an earlier one.
pub open spec fn outcome_at(packet: Seq<PropertyView>, now: Option<nat>) -> Result<
    AttributesView,
    StatusView,
> {
    match mapped_attributes(packet) {
        Err(e) => Err(e),
        Ok(a) => unless_expired(a, attributes::expired_at(a.id, a.ttl, now)),
    }
}

fn check_placement(attributes: &UAttributes) -> (r: Result<(), UStatus>)
    ensures
        match r {
            Ok(_) => misplaced(attributes@) is None,
            Err(e) => misplaced(attributes@) == Some(e@),
        },
{
    if attributes.type_ != UMessageType::Request && (attributes.token.is_some()
        || attributes.permission_level.is_some()) {
        return Err(
            invalid_argument(
                "token and permission level are only valid for request messages".to_string(),
            ),
        );
    }
    if attributes.type_ != UMessageType::Response && (attributes.commstatus.is_some()
        || attributes.request_id.is_some()) {
        return Err(
            invalid_argument(
                "communication status and request id are only valid for response messages".to_string(),
            ),
        );
    }
    if attributes.type_ == UMessageType::Publish && attributes.sink.is_some() {
        return Err(invalid_argument("publish messages must not contain a sink".to_string()));
    }
    Ok(())
}

/// Checks that attributes that were read make up a message, and returns those of the message.
pub fn check_attributes(attributes: &UAttributes) -> (r: Result<UAttributes, UStatus>)
    ensures
        match r {
            Ok(mapped) => checked(attributes@) == Ok::<AttributesView, StatusView>(mapped@),
            Err(e) => checked(attributes@) == Err::<AttributesView, StatusView>(e@),
        },
{
    check_placement(attributes)?;
    let placeholder = match attributes.payload_encoding {
        Some(_) => Some(Bytes::new()),
        None => None,
    };
    let message = create_umessage_from_uattributes(attributes, placeholder)?;
    Ok(message.attributes().clone())
}

/// Maps the properties of a packet to the attributes of a message, whatever the time.
pub fn map_properties(packet: &Properties) -> (r: Result<UAttributes, UStatus>)
    ensures
        match r {
            Ok(mapped) => {
                &&& mapped_attributes(packet@) == Ok::<AttributesView, StatusView>(mapped@)
                &&& reading::has_canonical_uris(mapped@)
            },
            Err(e) => mapped_attributes(packet@) == Err::<AttributesView, StatusView>(e@),
        },
{
    let attributes = read_attributes(packet)?;
    check_attributes(&attributes)
}

/// Refuses a message that is known to have expired.
pub fn reject_expired(attributes: UAttributes, expired: bool) -> (r: Result<UAttributes, UStatus>)
    ensures
        match r {
            Ok(accepted) => {
                &&& unless_expired(attributes@, expired) is Ok
                &&& accepted == attributes
            },
            Err(e) => unless_expired(attributes@, expired) == Err::<AttributesView, StatusView>(
                e@,
            ),
        },
{
    if expired {
        Err(UStatus::fail_with_code(UCode::DeadlineExceeded, "message has expired".to_string()))
    } else {
        Ok(attributes)
    }
}

/// Maps the properties of a packet to the attributes of a message when the clock gives a certain
/// reading, in milliseconds since the start of 1970.
pub fn map_properties_at(packet: &Properties, now: Option<u64>) -> (r: Result<
    UAttributes,
    UStatus,
>)
    ensures
        match r {
            Ok(accepted) => {
                &&& outcome_at(packet@, attributes::reading_of(now)) == Ok::<
                    AttributesView,
                    StatusView,
                >(accepted@)
                &&& reading::has_canonical_uris(accepted@)
            },
            Err(e) => outcome_at(packet@, attributes::reading_of(now)) == Err::<
                AttributesView,
                StatusView,
            >(e@),
        },
{
    let attributes = map_properties(packet)?;
    let expired: bool = attributes.is_expired_at(now);
    reject_expired(attributes, expired)
}

impl MessageMapper for DefaultMessageMapper {
    fn create_mqtt_properties_from_uattributes(&self, attributes: &UAttributes) -> (r: Result<
        Properties,
        UStatus,
    >)
        ensures
            match r {
                Ok(properties) => mapped_properties(attributes@) == Ok::<
                    Seq<PropertyView>,
                    StatusView,
                >(properties@),
                Err(e) => mapped_properties(attributes@) == Err::<Seq<PropertyView>, StatusView>(
                    e@,
                ),
            },
    {
        match attributes.validate() {
            Err(e) => Err(
                invalid_argument("Invalid uAttributes, err: ".to_string().concat(e.1.as_str())),
            ),
            Ok(_) => Ok(write_properties(attributes)),
        }
    }

    fn create_uattributes_from_mqtt_properties(&self, props: &Properties) -> (r: Result<
        UAttributes,
        UStatus,
    >)
        ensures
            exists|now: Option<nat>|
                match r {
                    Ok(accepted) => #[trigger] outcome_at(props@, now) == Ok::<
                        AttributesView,
                        StatusView,
                    >(accepted@),
                    Err(status) => outcome_at(props@, now) == Err::<AttributesView, StatusView>(
                        status@,
                    ),
                },
            r matches Ok(accepted) ==> reading::has_canonical_uris(accepted@),
            match mapped_attributes(props@) {
                Ok(mapped) => match r {
                    Ok(accepted) => {
                        &&& attributes::clock_says(mapped.id, mapped.ttl, false)
                        &&& accepted@ == mapped
                    },
                    Err(status) => {
                        &&& attributes::clock_says(mapped.id, mapped.ttl, true)
                        &&& status@ == expired_error()
                    },
                },
                Err(e) => r matches Err(status) && status@ == e,
            },
    {
        let attributes = match map_properties(props) {
            Ok(attributes) => attributes,
            Err(e) => {
                assert(outcome_at(props@, None) == Err::<AttributesView, StatusView>(e@));
                return Err(e);
            },
        };
        let expired: bool = attributes.is_expired();
        proof {
            let now = choose|now: Option<nat>|
                expired == #[trigger] attributes::expired_at(attributes.id, attributes.ttl, now);
            assert(outcome_at(props@, now) == unless_expired(attributes@, expired));
        }
        reject_expired(attributes, expired)
    }
}

} // verus!
