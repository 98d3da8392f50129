use bytes::Bytes;
use up_transport_mqtt5::attributes::{PayloadEncoding, UAttributes, UMessageType, UPriority};
use up_transport_mqtt5::keys::{
    KEY_COMMSTATUS, KEY_MESSAGE_ID, KEY_PERMISSION_LEVEL, KEY_PRIORITY, KEY_SINK, KEY_SOURCE,
    KEY_TOKEN, KEY_TRACEPARENT, KEY_TTL, KEY_TYPE, KEY_UPROTOCOL_VERSION,
};
use up_transport_mqtt5::mapping::{
    check_attributes, map_properties, reject_expired, DefaultMessageMapper, MessageMapper,
};
use up_transport_mqtt5::message::{
    create_umessage_from_uattributes, finish_message, UMessage, UMessageBuilder,
};
use up_transport_mqtt5::properties::{Properties, Property};
use up_transport_mqtt5::status::{UCode, UStatus};
use up_transport_mqtt5::uri::UUri;
use up_transport_mqtt5::uuid::UUID;
use up_transport_mqtt5::writing::{add_user_property, failed_to_add};

const EVENT_SOURCE: &str = "//vin.vehicles/A8000/2/8A50";
const REPLY_TO: &str = "//vin.vehicles/A8000/2/0";
const METHOD: &str = "//vin.vehicles/B8000/3/1B50";
const TRACEPARENT: &str = "00-4bf92f3577b34da6a3ce929d0e0e4736-00f067aa0ba902b7-01";

/// Identifiers of the permanently assigned encodings.
const JSON: u32 = 3;
const RAW: u32 = 6;
const TEXT: u32 = 7;
const ASSIGNED: [u32; 8] = [1, 2, JSON, 4, 5, RAW, TEXT, 8];

fn new_id() -> UUID {
    let id = up_rust::UUID::build();
    UUID { msb: id.msb, lsb: id.lsb }
}

fn hyphenated(id: UUID) -> String {
    up_rust::UUID { msb: id.msb, lsb: id.lsb, ..Default::default() }.to_hyphenated_string()
}

fn uri(text: &str) -> UUri {
    UUri::from_str(text).expect("URI")
}

fn encoding(id: u32) -> PayloadEncoding {
    PayloadEncoding::from_registry_entry(id)
}

fn finish(builder: UMessageBuilder, payload_encoding: Option<PayloadEncoding>) -> UMessage {
    finish_message(
        builder,
        payload_encoding.map(|_| Bytes::from_static(b"payload")),
        payload_encoding,
    )
    .expect("message")
}

fn build_test_message(
    message_type: UMessageType,
    payload_encoding: Option<PayloadEncoding>,
) -> UMessage {
    match message_type {
        UMessageType::Publish => {
            let mut builder = UMessageBuilder::publish(new_id(), uri(EVENT_SOURCE));
            builder.with_priority(UPriority::CS5);
            builder.with_traceparent(TRACEPARENT.to_string());
            finish(builder, payload_encoding)
        }
        UMessageType::Notification => {
            let mut builder =
                UMessageBuilder::notification(new_id(), uri(EVENT_SOURCE), uri(REPLY_TO));
            builder.with_ttl(2000);
            finish(builder, payload_encoding)
        }
        UMessageType::Request => {
            let mut builder =
                UMessageBuilder::request(new_id(), uri(METHOD), uri(REPLY_TO), 5400);
            builder.with_permission_level(15);
            builder.with_token("token".to_string());
            builder.with_traceparent(TRACEPARENT.to_string());
            finish(builder, payload_encoding)
        }
        UMessageType::Response => {
            let mut builder =
                UMessageBuilder::response(new_id(), uri(REPLY_TO), new_id(), uri(METHOD));
            builder.with_comm_status(UCode::Unimplemented);
            builder.with_traceparent(TRACEPARENT.to_string());
            finish(builder, payload_encoding)
        }
    }
}

fn minimal_publish_properties(id: UUID) -> Properties {
    let mut properties = Properties::new();
    add_user_property(&mut properties, KEY_UPROTOCOL_VERSION, "1");
    add_user_property(&mut properties, KEY_MESSAGE_ID, &hyphenated(id));
    add_user_property(&mut properties, KEY_TYPE, "up-pub.v1");
    add_user_property(&mut properties, KEY_SOURCE, EVENT_SOURCE);
    properties
}

fn content_type(properties: &mut Properties, value: &str) {
    properties.push(Property::ContentType(Some(value.to_string())));
}

fn mapped(properties: &Properties) -> Result<UAttributes, UStatus> {
    DefaultMessageMapper.create_uattributes_from_mqtt_properties(properties)
}

fn refusal(properties: &Properties) -> UStatus {
    mapped(properties).expect_err("refusal")
}

fn assert_invalid(properties: &Properties, message: &str) {
    let status = refusal(properties);
    assert_eq!(status.code(), UCode::InvalidArgument);
    assert_eq!(status.message, message);
}

#[test]
fn attributes_round_trip() {
    for (message_type, payload_encoding) in [
        (UMessageType::Publish, None),
        (UMessageType::Notification, Some(encoding(TEXT))),
        (UMessageType::Request, Some(encoding(RAW))),
        (UMessageType::Response, Some(encoding(JSON))),
        (UMessageType::Publish, Some(encoding(0x1000_0042))),
    ] {
        let message = build_test_message(message_type, payload_encoding);
        let properties = DefaultMessageMapper
            .create_mqtt_properties_from_uattributes(message.attributes())
            .expect("MQTT properties");
        assert_eq!(
            properties.content_type(),
            payload_encoding.map(|encoding| encoding.id().to_string())
        );
        let attributes = mapped(&properties).expect("attributes");
        assert_eq!(&attributes, message.attributes());
    }
}

#[test]
fn malformed_payload_encoding_is_rejected() {
    for value in ["", "text/plain", "-1", "0", "4294967296"] {
        let mut properties = minimal_publish_properties(new_id());
        content_type(&mut properties, value);
        assert!(mapped(&properties).is_err_and(|error| error.code() == UCode::InvalidArgument));
    }
}

#[test]
fn duplicate_payload_encoding_is_rejected() {
    let mut properties = minimal_publish_properties(new_id());
    content_type(&mut properties, "7");
    content_type(&mut properties, "6");
    assert!(mapped(&properties).is_err_and(|error| error.code() == UCode::InvalidArgument));
}

#[test]
fn retired_payload_metadata_is_rejected() {
    for key in ["13", "14", "15"] {
        let mut properties = minimal_publish_properties(new_id());
        add_user_property(&mut properties, key, "legacy");
        assert!(mapped(&properties).is_err_and(|error| error.code() == UCode::InvalidArgument));
    }
}

#[test]
fn arbitrary_nonzero_registry_id_round_trips() {
    let mut properties = minimal_publish_properties(new_id());
    content_type(&mut properties, "66");
    let attributes =
        mapped(&properties).expect("unknown nonzero identifiers remain representable");
    assert_eq!(attributes.payload_encoding, Some(encoding(66)));
}

#[test]
fn permanently_assigned_registry_ids_round_trip() {
    for id in ASSIGNED {
        let mut properties = minimal_publish_properties(new_id());
        content_type(&mut properties, &id.to_string());
        let attributes = mapped(&properties).expect("registered payload encoding");
        assert_eq!(attributes.payload_encoding, Some(encoding(id)));
        let remapped = DefaultMessageMapper
            .create_mqtt_properties_from_uattributes(&attributes)
            .expect("remapped properties");
        assert_eq!(remapped.content_type(), Some(id.to_string()));
    }
}

#[test]
fn payload_presence_matches_encoding_presence() {
    let encoded = build_test_message(UMessageType::Publish, Some(encoding(TEXT)));
    let empty = create_umessage_from_uattributes(encoded.attributes(), Some(Bytes::new()))
        .expect("present empty payload");
    assert_eq!(empty.payload(), Some(&Bytes::new()));
    assert_eq!(empty.attributes().payload_encoding, Some(encoding(TEXT)));
    assert!(create_umessage_from_uattributes(encoded.attributes(), None).is_err());

    let unencoded = build_test_message(UMessageType::Publish, None);
    assert!(create_umessage_from_uattributes(unencoded.attributes(), None).is_ok());
    assert!(create_umessage_from_uattributes(
        unencoded.attributes(),
        Some(Bytes::from_static(b"payload"))
    )
    .is_err());
}

#[test]
fn unsupported_uprotocol_version_is_rejected() {
    let mut properties = Properties::new();
    add_user_property(&mut properties, KEY_UPROTOCOL_VERSION, "2");
    assert!(mapped(&properties).is_err_and(|error| error.code() == UCode::InvalidArgument));
}

#[test]
fn invalid_source_is_rejected() {
    let mut properties = Properties::new();
    add_user_property(&mut properties, KEY_UPROTOCOL_VERSION, "1");
    add_user_property(&mut properties, KEY_MESSAGE_ID, &hyphenated(new_id()));
    add_user_property(&mut properties, KEY_TYPE, "up-pub.v1");
    add_user_property(&mut properties, KEY_SOURCE, "not a URI");
    assert!(mapped(&properties).is_err_and(|error| error.code() == UCode::InvalidArgument));
}

#[test]
fn expired_message_is_rejected() {
    let expired_id = UUID { msb: 0x0000_0000_1000_7000, lsb: 0x8010_1010_1010_1a1a };
    let mut properties = minimal_publish_properties(expired_id);
    add_user_property(&mut properties, KEY_TTL, "12500");
    assert!(mapped(&properties).is_err_and(|error| error.code() == UCode::DeadlineExceeded));
}

#[test]
fn properties_of_a_request() {
    let id = UUID { msb: 0x018D_548E_A8E0_7123, lsb: 0x8000_0000_0000_00ab };
    let mut builder = UMessageBuilder::request(id, uri(METHOD), uri(REPLY_TO), 5400);
    builder.with_priority(UPriority::CS6);
    builder.with_permission_level(15);
    builder.with_token("my token".to_string());
    builder.with_traceparent(TRACEPARENT.to_string());
    let message = finish(builder, Some(encoding(RAW)));
    let properties = DefaultMessageMapper
        .create_mqtt_properties_from_uattributes(message.attributes())
        .expect("MQTT properties");
    let user = |key: &str, value: &str| Property::UserProperty(key.to_string(), value.to_string());
    assert_eq!(
        properties.into_list(),
        vec![
            user("uP", "1"),
            Property::MessageExpiryInterval(6),
            user("6", "5400"),
            user("1", "018d548e-a8e0-7123-8000-0000000000ab"),
            user("2", "up-req.v1"),
            user("3", "//vin.vehicles/A8000/2/0"),
            user("4", "//vin.vehicles/B8000/3/1B50"),
            user("5", "CS6"),
            user("7", "15"),
            user("10", "my token"),
            user("11", TRACEPARENT),
            Property::ContentType(Some("6".to_string())),
        ]
    );
}

#[test]
fn properties_of_a_response() {
    let id = UUID { msb: 0x018D_548E_A8E0_7123, lsb: 0x8000_0000_0000_00ab };
    let request_id = UUID { msb: 0x0001_0203_0405_7607, lsb: 0x88090A0B0C0D0E0F };
    let mut builder = UMessageBuilder::response(id, uri(REPLY_TO), request_id, uri(METHOD));
    builder.with_comm_status(UCode::Unimplemented);
    builder.with_ttl(3000);
    let message = finish(builder, None);
    let properties = DefaultMessageMapper
        .create_mqtt_properties_from_uattributes(message.attributes())
        .expect("MQTT properties");
    let user = |key: &str, value: &str| Property::UserProperty(key.to_string(), value.to_string());
    assert_eq!(
        properties.into_list(),
        vec![
            user("uP", "1"),
            Property::MessageExpiryInterval(3),
            user("1", "018d548e-a8e0-7123-8000-0000000000ab"),
            user("2", "up-res.v1"),
            user("3", "//vin.vehicles/B8000/3/1B50"),
            user("4", "//vin.vehicles/A8000/2/0"),
            user("5", "CS4"),
            user("8", "12"),
            Property::CorrelationData(vec![
                0x00, 0x01, 0x02, 0x03, 0x04, 0x05, 0x76, 0x07, 0x88, 0x09, 0x0A, 0x0B, 0x0C, 0x0D,
                0x0E, 0x0F,
            ]),
        ]
    );
}

#[test]
fn uri_without_authority_round_trips() {
    let message = finish(UMessageBuilder::publish(new_id(), uri("/A8000/2/8A50")), None);
    assert_eq!(message.attributes().source.authority_name, "");
    let properties = DefaultMessageMapper
        .create_mqtt_properties_from_uattributes(message.attributes())
        .expect("MQTT properties");
    assert_eq!(properties.find_user_property(KEY_SOURCE), Some("/A8000/2/8A50".to_string()));
    assert_eq!(&mapped(&properties).expect("attributes"), message.attributes());
}

#[test]
fn invalid_attributes_have_no_properties() {
    let message = build_test_message(UMessageType::Publish, None);
    let mut attributes = message.attributes().clone();
    attributes.sink = Some(uri(REPLY_TO));
    let status = DefaultMessageMapper
        .create_mqtt_properties_from_uattributes(&attributes)
        .expect_err("refusal");
    assert_eq!(status.code(), UCode::InvalidArgument);
    assert_eq!(
        status.message,
        "Invalid uAttributes, err: ValidationError(\"Validation failure: Attributes for a publish \
         message must not contain a sink URI\")"
    );
}

#[test]
fn attributes_of_every_type_are_validated() {
    let wildcard = uri("//*/A8000/2/8A50");
    let bad_id = UUID { msb: 0x0000_0000_0001_C000, lsb: 0x8000_0000_0000_0000 };
    let valid = |message_type| build_test_message(message_type, None).attributes().clone();
    for message_type in [
        UMessageType::Publish,
        UMessageType::Notification,
        UMessageType::Request,
        UMessageType::Response,
    ] {
        assert!(valid(message_type).validate().is_ok());
        assert!(UAttributes { id: bad_id, ..valid(message_type) }.validate().is_err());
        assert!(UAttributes { source: wildcard.clone(), ..valid(message_type) }
            .validate()
            .is_err());
    }
    assert!(UAttributes { source: uri(METHOD), ..valid(UMessageType::Publish) }
        .validate()
        .is_err());
    assert!(UAttributes { sink: None, ..valid(UMessageType::Notification) }
        .validate()
        .is_err());
    assert!(UAttributes { ttl: None, ..valid(UMessageType::Request) }.validate().is_err());
    assert!(UAttributes { ttl: Some(0), ..valid(UMessageType::Request) }.validate().is_err());
    assert!(UAttributes { priority: None, ..valid(UMessageType::Request) }
        .validate()
        .is_err());
    assert!(UAttributes { priority: Some(UPriority::CS3), ..valid(UMessageType::Response) }
        .validate()
        .is_err());
    assert!(UAttributes { priority: Some(UPriority::CS4), ..valid(UMessageType::Response) }
        .validate()
        .is_ok());
    assert!(UAttributes { request_id: None, ..valid(UMessageType::Response) }
        .validate()
        .is_err());
    assert!(UAttributes { request_id: Some(bad_id), ..valid(UMessageType::Response) }
        .validate()
        .is_err());
}

#[test]
fn retired_key_is_named_before_anything_else() {
    let mut properties = Properties::new();
    add_user_property(&mut properties, "15", "x");
    add_user_property(&mut properties, "14", "x");
    assert_invalid(
        &properties,
        "MQTT message contains retired payload metadata UserProperty 14",
    );
}

#[test]
fn version_errors() {
    assert_invalid(
        &Properties::new(),
        "MQTT message does not contain uProtocol version identifier",
    );
    let mut properties = Properties::new();
    add_user_property(&mut properties, KEY_UPROTOCOL_VERSION, "one");
    assert_invalid(
        &properties,
        "Failed to map UserProperty uP to uProtocol major version: invalid digit found in string",
    );
    let mut properties = Properties::new();
    add_user_property(&mut properties, KEY_UPROTOCOL_VERSION, "17");
    assert_invalid(
        &properties,
        "MQTT message contains unsupported uProtocol major version [expected: 1, found: 17]",
    );
}

#[test]
fn missing_properties() {
    let mut properties = Properties::new();
    add_user_property(&mut properties, KEY_UPROTOCOL_VERSION, "1");
    assert_invalid(&properties, "message attributes missing required message id");
    add_user_property(&mut properties, KEY_MESSAGE_ID, &hyphenated(new_id()));
    assert_invalid(&properties, "message attributes missing required message type");
    add_user_property(&mut properties, KEY_TYPE, "up-not.v1");
    assert_invalid(&properties, "message attributes missing required source");
    add_user_property(&mut properties, KEY_SOURCE, EVENT_SOURCE);
    assert_invalid(&properties, "message attributes missing required sink");
    add_user_property(&mut properties, KEY_SINK, REPLY_TO);
    assert!(mapped(&properties).is_ok());
}

#[test]
fn missing_properties_of_requests_and_responses() {
    let rpc = |message_type: &str, source: &str, sink: Option<&str>| {
        let mut properties = Properties::new();
        add_user_property(&mut properties, KEY_UPROTOCOL_VERSION, "1");
        add_user_property(&mut properties, KEY_MESSAGE_ID, &hyphenated(new_id()));
        add_user_property(&mut properties, KEY_TYPE, message_type);
        add_user_property(&mut properties, KEY_SOURCE, source);
        if let Some(sink) = sink {
            add_user_property(&mut properties, KEY_SINK, sink);
        }
        properties
    };
    assert_invalid(
        &rpc("up-req.v1", REPLY_TO, None),
        "message attributes missing required sink",
    );
    let mut request = rpc("up-req.v1", REPLY_TO, Some(METHOD));
    assert_invalid(&request, "message attributes missing required ttl");
    request.push(Property::MessageExpiryInterval(5));
    let attributes = mapped(&request).expect("request");
    assert_eq!(attributes.ttl, Some(5000));
    assert_eq!(attributes.priority, Some(UPriority::CS4));

    assert_invalid(
        &rpc("up-res.v1", METHOD, None),
        "message attributes missing required sink",
    );
    let mut response = rpc("up-res.v1", METHOD, Some(REPLY_TO));
    assert_invalid(&response, "message attributes missing required request id");
    let request_id = new_id();
    let mut data = request_id.msb.to_be_bytes().to_vec();
    data.extend(request_id.lsb.to_be_bytes());
    response.push(Property::CorrelationData(data));
    let attributes = mapped(&response).expect("response");
    assert_eq!(attributes.request_id, Some(request_id));
    assert_eq!(attributes.commstatus, None);
}

#[test]
fn malformed_user_properties() {
    for (key, value, message) in [
        (
            KEY_SINK,
            "/1/2",
            "Failed to map UserProperty 4 to Message Sink: Serialization error: uProtocol URI must \
             contain entity ID, entity version and resource ID",
        ),
        (
            KEY_PRIORITY,
            "CS9",
            "Failed to map UserProperty 5 to Message Priority: Parsing error: unknown priority \
             [CS9]",
        ),
        (
            KEY_TTL,
            "-5",
            "Failed to map UserProperty 6 to Message TTL: invalid digit found in string",
        ),
        (
            KEY_PERMISSION_LEVEL,
            "4294967296",
            "Failed to map UserProperty 7 to Permission Level: number too large to fit in target \
             type",
        ),
        (
            KEY_COMMSTATUS,
            "",
            "Failed to map UserProperty 8 to CommStatus: cannot parse integer from empty string",
        ),
        (
            KEY_COMMSTATUS,
            "-1",
            "Failed to map UserProperty 8 to CommStatus: unknown status code",
        ),
        (
            KEY_COMMSTATUS,
            "17",
            "Failed to map UserProperty 8 to CommStatus: unknown status code",
        ),
    ] {
        let mut properties = minimal_publish_properties(new_id());
        add_user_property(&mut properties, key, value);
        assert_invalid(&properties, message);
    }
}

#[test]
fn malformed_message_ids() {
    for (value, reason) in [
        ("", "UUIDError"),
        ("018d548ea8e0712380000000000000ab", "UUIDError"),
        ("018d548e-a8e0-7123-8000-0000000000ag", "UUIDError"),
        ("018d548e-a8e0-4123-8000-0000000000ab", "not a v7 UUID"),
        ("018d548e-a8e0-7123-4000-0000000000ab", "not an RFC4122 UUID"),
    ] {
        let mut properties = Properties::new();
        add_user_property(&mut properties, KEY_UPROTOCOL_VERSION, "1");
        add_user_property(&mut properties, KEY_MESSAGE_ID, value);
        assert_invalid(
            &properties,
            &format!("Failed to map UserProperty 1 to Message ID: Error converting Uuid: {reason}"),
        );
    }
}

#[test]
fn message_id_is_read_in_either_case() {
    let mut properties = Properties::new();
    add_user_property(&mut properties, KEY_UPROTOCOL_VERSION, "+1");
    add_user_property(&mut properties, KEY_MESSAGE_ID, "018D548E-a8e0-7123-8000-0000000000AB");
    add_user_property(&mut properties, KEY_TYPE, "up-pub.v1");
    add_user_property(&mut properties, KEY_SOURCE, "//vin.vehicles/a8000/2/8a50");
    let attributes = mapped(&properties).expect("attributes");
    assert_eq!(
        attributes.id,
        UUID { msb: 0x018D_548E_A8E0_7123, lsb: 0x8000_0000_0000_00ab }
    );
    assert_eq!(attributes.source, uri(EVENT_SOURCE));
}

#[test]
fn unknown_message_type() {
    let mut properties = Properties::new();
    add_user_property(&mut properties, KEY_UPROTOCOL_VERSION, "1");
    add_user_property(&mut properties, KEY_MESSAGE_ID, &hyphenated(new_id()));
    add_user_property(&mut properties, KEY_TYPE, "up-xyz.v1");
    assert_invalid(
        &properties,
        "Failed to map UserProperty 2 to Message Type: Parsing error: unknown message type: \
         up-xyz.v1",
    );
}

#[test]
fn malformed_correlation_data() {
    for (data, message) in [
        (vec![1, 2, 3], "Error converting Uuid: byte vector length is not 16 bytes"),
        (vec![0; 16], "Error converting Uuid: not a v7 UUID"),
        (
            vec![0, 0, 0, 0, 0, 0, 0x70, 0, 0, 0, 0, 0, 0, 0, 0, 0],
            "Error converting Uuid: not an RFC4122 UUID",
        ),
    ] {
        let mut properties = minimal_publish_properties(new_id());
        properties.push(Property::CorrelationData(data));
        assert_invalid(&properties, message);
    }
}

#[test]
fn content_type_errors() {
    let mut properties = minimal_publish_properties(new_id());
    properties.push(Property::ContentType(None));
    assert_invalid(&properties, "MQTT Content Type is not a string");

    let mut properties = minimal_publish_properties(new_id());
    content_type(&mut properties, "0");
    assert_invalid(
        &properties,
        "Failed to map Content Type to payload-encoding identifier: payload-encoding identifier 0 \
         is reserved",
    );

    let mut properties = minimal_publish_properties(new_id());
    content_type(&mut properties, "text/plain");
    assert_invalid(
        &properties,
        "Failed to map Content Type to payload-encoding identifier: invalid digit found in string",
    );

    let mut properties = minimal_publish_properties(new_id());
    content_type(&mut properties, "7");
    content_type(&mut properties, "7");
    assert_invalid(
        &properties,
        "MQTT message contains duplicate Content Type properties",
    );
}

#[test]
fn misplaced_attributes() {
    let mut properties = minimal_publish_properties(new_id());
    add_user_property(&mut properties, KEY_TOKEN, "token");
    assert_invalid(
        &properties,
        "token and permission level are only valid for request messages",
    );

    let mut properties = minimal_publish_properties(new_id());
    add_user_property(&mut properties, KEY_PERMISSION_LEVEL, "4");
    assert_invalid(
        &properties,
        "token and permission level are only valid for request messages",
    );

    let mut properties = minimal_publish_properties(new_id());
    add_user_property(&mut properties, KEY_COMMSTATUS, "4");
    assert_invalid(
        &properties,
        "communication status and request id are only valid for response messages",
    );

    let mut properties = minimal_publish_properties(new_id());
    add_user_property(&mut properties, KEY_SINK, REPLY_TO);
    assert_invalid(&properties, "publish messages must not contain a sink");
}

#[test]
fn inconsistent_attributes_are_rejected() {
    let mut properties = Properties::new();
    add_user_property(&mut properties, KEY_UPROTOCOL_VERSION, "1");
    add_user_property(&mut properties, KEY_MESSAGE_ID, &hyphenated(new_id()));
    add_user_property(&mut properties, KEY_TYPE, "up-pub.v1");
    add_user_property(&mut properties, KEY_SOURCE, METHOD);
    assert_invalid(
        &properties,
        "Builder state is not consistent with message type: Validation failure: Validation \
         failure: Invalid source URI: Validation error: Resource ID must be >= 0x8000",
    );
}

#[test]
fn ttl_property_prevails_over_expiry_interval() {
    let mut properties = minimal_publish_properties(new_id());
    properties.push(Property::MessageExpiryInterval(7));
    assert_eq!(map_properties(&properties).expect("attributes").ttl, Some(7000));
    add_user_property(&mut properties, KEY_TTL, "6500");
    assert_eq!(map_properties(&properties).expect("attributes").ttl, Some(6500));
    properties.push(Property::MessageExpiryInterval(100));
    assert_eq!(map_properties(&properties).expect("attributes").ttl, Some(6500));
}

#[test]
fn expiry_interval_saturates() {
    let mut properties = minimal_publish_properties(new_id());
    properties.push(Property::MessageExpiryInterval(4_294_968));
    assert_eq!(map_properties(&properties).expect("attributes").ttl, Some(u32::MAX));
    let mut properties = minimal_publish_properties(new_id());
    properties.push(Property::MessageExpiryInterval(4_294_967));
    assert_eq!(map_properties(&properties).expect("attributes").ttl, Some(4_294_967_000));
}

#[test]
fn expiry_interval_is_rounded_up() {
    for (ttl, seconds, exact) in [
        (0, 0, None),
        (1, 1, Some("1")),
        (1000, 1, None),
        (1001, 2, Some("1001")),
        (u32::MAX, 4_294_968, Some("4294967295")),
    ] {
        let mut builder = UMessageBuilder::publish(new_id(), uri(EVENT_SOURCE));
        builder.with_ttl(ttl);
        let message = finish(builder, None);
        let properties = DefaultMessageMapper
            .create_mqtt_properties_from_uattributes(message.attributes())
            .expect("MQTT properties");
        assert_eq!(properties.message_expiry_interval(), Some(seconds));
        assert_eq!(properties.find_user_property(KEY_TTL).as_deref(), exact);
        assert_eq!(&map_properties(&properties).expect("attributes"), message.attributes());
    }
}

#[test]
fn foreign_user_properties_do_not_matter() {
    let id = new_id();
    let mut properties = Properties::new();
    add_user_property(&mut properties, "12", "x");
    add_user_property(&mut properties, "up", "2");
    for property in minimal_publish_properties(id).into_list() {
        properties.push(property);
    }
    add_user_property(&mut properties, "", "y");
    assert_eq!(
        mapped(&properties).expect("attributes"),
        mapped(&minimal_publish_properties(id)).expect("attributes")
    );
}

#[test]
fn first_user_property_counts() {
    let mut properties = minimal_publish_properties(new_id());
    add_user_property(&mut properties, KEY_TRACEPARENT, "first");
    add_user_property(&mut properties, KEY_TRACEPARENT, "second");
    add_user_property(&mut properties, KEY_UPROTOCOL_VERSION, "2");
    let attributes = mapped(&properties).expect("attributes");
    assert_eq!(attributes.traceparent.as_deref(), Some("first"));
}

#[test]
fn mapped_attributes_can_be_sent_on() {
    let mut properties = minimal_publish_properties(new_id());
    add_user_property(&mut properties, KEY_PRIORITY, "CS1");
    content_type(&mut properties, "007");
    let attributes = mapped(&properties).expect("attributes");
    assert_eq!(attributes.priority, Some(UPriority::CS1));
    assert_eq!(attributes.payload_encoding, Some(encoding(TEXT)));
    let sent_on = DefaultMessageMapper
        .create_mqtt_properties_from_uattributes(&attributes)
        .expect("MQTT properties");
    assert_eq!(mapped(&sent_on).expect("attributes"), attributes);
}

#[test]
fn publish_with_a_token_does_not_round_trip() {
    let message = build_test_message(UMessageType::Publish, None);
    let attributes =
        UAttributes { token: Some("token".to_string()), ..message.attributes().clone() };
    let properties = DefaultMessageMapper
        .create_mqtt_properties_from_uattributes(&attributes)
        .expect("MQTT properties");
    assert!(mapped(&properties).is_err());
    assert!(check_attributes(&attributes).is_err());
}

#[test]
fn zero_ttl_never_expires() {
    let old_id = UUID { msb: 0x0000_0000_1000_7000, lsb: 0x8010_1010_1010_1a1a };
    let mut properties = minimal_publish_properties(old_id);
    add_user_property(&mut properties, KEY_TTL, "0");
    let attributes = mapped(&properties).expect("attributes");
    assert!(!attributes.is_expired());
    assert!(reject_expired(attributes.clone(), false).is_ok());
    let status = reject_expired(attributes, true).expect_err("refusal");
    assert_eq!(status.code(), UCode::DeadlineExceeded);
    assert_eq!(status.message, "message has expired");
}

#[test]
fn recent_message_has_not_expired() {
    let mut properties = minimal_publish_properties(new_id());
    properties.push(Property::MessageExpiryInterval(60));
    let attributes = mapped(&properties).expect("attributes");
    assert!(!attributes.is_expired());
    let old_id = UUID { msb: 0x0000_0000_1000_7000, lsb: 0x8010_1010_1010_1a1a };
    assert!(UAttributes { id: old_id, ..attributes }.is_expired());
}

#[test]
fn properties_that_cannot_be_added() {
    let user = |key: &str| Property::UserProperty(key.to_string(), "value".to_string());
    for (property, message) in [
        (user("uP"), "Failed to add uProtocol major version to MQTT User Properties: Failure"),
        (user("1"), "Failed to add message ID to MQTT User Properties: Failure"),
        (user("2"), "Failed to add message type to MQTT User Properties: Failure"),
        (user("3"), "Failed to add message source to MQTT User Properties: Failure"),
        (user("4"), "Failed to add message sink to MQTT User Properties: Failure"),
        (user("5"), "Failed to add message priority to MQTT User Properties: Failure"),
        (user("6"), "Failed to add TTL to MQTT User Properties: Failure"),
        (user("7"), "Failed to add message permission level to MQTT User Properties: Failure"),
        (user("8"), "Failed to add message comm status to MQTT User Properties: Failure"),
        (user("10"), "Failed to add message token to MQTT User Properties: Failure"),
        (user("11"), "Failed to add message traceparent to MQTT User Properties: Failure"),
        (user("x"), "Failed to add property to MQTT User Properties: Failure"),
        (
            Property::MessageExpiryInterval(1),
            "Failed to create Message Expiry Interval property: Failure",
        ),
        (
            Property::CorrelationData(vec![]),
            "Failed to create Correlation Data property: Failure",
        ),
        (
            Property::ContentType(None),
            "Failed to create Content Type property: Failure",
        ),
    ] {
        let status = failed_to_add(&property, "Failure");
        assert_eq!(status.code(), UCode::Internal);
        assert_eq!(status.message, message);
    }
}

#[test]
fn order_of_properties_does_not_matter() {
    for message_type in [UMessageType::Publish, UMessageType::Request, UMessageType::Response] {
        let message = build_test_message(message_type, Some(encoding(TEXT)));
        let list = DefaultMessageMapper
            .create_mqtt_properties_from_uattributes(message.attributes())
            .expect("MQTT properties")
            .into_list();
        let mut reversed = Properties::new();
        for property in list.into_iter().rev() {
            add_user_property(&mut reversed, "foreign", "x");
            reversed.push(property);
        }
        assert_eq!(&mapped(&reversed).expect("attributes"), message.attributes());
    }

    let mut properties = Properties::new();
    add_user_property(&mut properties, "15", "x");
    add_user_property(&mut properties, KEY_UPROTOCOL_VERSION, "2");
    let mut reversed = Properties::new();
    add_user_property(&mut reversed, KEY_UPROTOCOL_VERSION, "2");
    add_user_property(&mut reversed, "15", "x");
    assert_eq!(refusal(&properties), refusal(&reversed));
}

#[test]
fn order_of_repeated_properties_matters() {
    let id = new_id();
    let mut properties = minimal_publish_properties(id);
    properties.push(Property::MessageExpiryInterval(60));
    properties.push(Property::MessageExpiryInterval(70));
    let mut swapped = minimal_publish_properties(id);
    swapped.push(Property::MessageExpiryInterval(70));
    swapped.push(Property::MessageExpiryInterval(60));
    assert_eq!(map_properties(&properties).expect("attributes").ttl, Some(60_000));
    assert_eq!(map_properties(&swapped).expect("attributes").ttl, Some(70_000));
}

#[test]
fn packets_tell_unreadable_uris_apart() {
    let properties = |authority_name: &str, ue_version_major: u32| {
        let source = UUri {
            authority_name: authority_name.to_string(),
            ue_id: 0xA,
            ue_version_major,
            resource_id: 0x8000,
        };
        let id = UUID { msb: 0x018D_548E_A8E0_7123, lsb: 0x8000_0000_0000_00ab };
        let message = finish(UMessageBuilder::publish(id, source), None);
        DefaultMessageMapper
            .create_mqtt_properties_from_uattributes(message.attributes())
            .expect("MQTT properties")
    };
    assert!(mapped(&properties("NO HOST", 0x100)).is_err());
    assert_ne!(properties("NO HOST", 0x100), properties("NO HOST/A", 0x100));
    assert_ne!(properties("NO HOST", 0x100), properties("NO HOST", 0x101));
}
