use bytes::Bytes;
use protobuf::Enum;
use up_transport_mqtt5::attributes::{PayloadEncoding, UMessageType, UPriority};
use up_transport_mqtt5::message::{
    configure_common_attributes, create_umessage_from_uattributes, finish_message, UMessageBuilder,
};
use up_transport_mqtt5::properties::{Properties, Property};
use up_transport_mqtt5::status::{invalid_argument, missing_required_attribute, UCode, UStatus};
use up_transport_mqtt5::transport::listener_topic;
use up_transport_mqtt5::uri::UUri;
use up_transport_mqtt5::uuid::UUID;

const ID: UUID = UUID { msb: 0x018D_548E_A8E0_7123, lsb: 0x8000_0000_0000_00ab };

fn topic() -> UUri {
    UUri::from_str("//vin.vehicles/A8000/2/8A50").expect("URI")
}

fn method() -> UUri {
    UUri::from_str("//vin.vehicles/B8000/3/1B50").expect("URI")
}

fn entity() -> UUri {
    UUri::from_str("//vin.vehicles/A8000/2/0").expect("URI")
}

#[test]
fn status_codes_have_the_numbers_of_the_protocol() {
    for value in -1..=17 {
        match UCode::try_from_i32(value) {
            Ok(code) => {
                assert_eq!(code.value(), value);
                assert!(up_rust::UCode::from_i32(value).is_some());
            }
            Err(e) => {
                assert_eq!(e, "unknown status code");
                assert!(up_rust::UCode::from_i32(value).is_none());
            }
        }
    }
    assert_eq!(UCode::InvalidArgument.value(), up_rust::UCode::INVALID_ARGUMENT.value());
    assert_eq!(UCode::DeadlineExceeded.value(), up_rust::UCode::DEADLINE_EXCEEDED.value());
    assert_eq!(UCode::Internal.value(), up_rust::UCode::INTERNAL.value());
    assert_eq!(UCode::Unauthenticated.value(), up_rust::UCode::UNAUTHENTICATED.value());
}

#[test]
fn failures() {
    let status = invalid_argument("no good".to_string());
    assert_eq!(status, UStatus::fail_with_code(UCode::InvalidArgument, "no good".to_string()));
    assert_eq!(
        missing_required_attribute("sink"),
        invalid_argument("message attributes missing required sink".to_string())
    );
}

#[test]
fn message_types_have_names() {
    for (name, message_type) in [
        ("up-pub.v1", UMessageType::Publish),
        ("up-not.v1", UMessageType::Notification),
        ("up-req.v1", UMessageType::Request),
        ("up-res.v1", UMessageType::Response),
    ] {
        assert_eq!(
            UMessageType::try_from_cloudevent_type(name.to_string()),
            Ok(message_type)
        );
    }
    assert_eq!(
        UMessageType::try_from_cloudevent_type("".to_string()),
        Err("Parsing error: unknown message type: ".to_string())
    );
    assert_eq!(
        UMessageType::Publish.value(),
        up_rust::UMessageType::UMESSAGE_TYPE_PUBLISH.value()
    );
    assert_eq!(
        UMessageType::Request.value(),
        up_rust::UMessageType::UMESSAGE_TYPE_REQUEST.value()
    );
    assert_eq!(
        UMessageType::Response.value(),
        up_rust::UMessageType::UMESSAGE_TYPE_RESPONSE.value()
    );
    assert_eq!(
        UMessageType::Notification.value(),
        up_rust::UMessageType::UMESSAGE_TYPE_NOTIFICATION.value()
    );
}

#[test]
fn priorities_have_names() {
    for (name, priority) in [
        ("CS0", UPriority::CS0),
        ("CS1", UPriority::CS1),
        ("CS2", UPriority::CS2),
        ("CS3", UPriority::CS3),
        ("CS4", UPriority::CS4),
        ("CS5", UPriority::CS5),
        ("CS6", UPriority::CS6),
    ] {
        assert_eq!(UPriority::try_from_priority_code(name.to_string()), Ok(priority));
    }
    assert_eq!(
        UPriority::try_from_priority_code("cs0".to_string()),
        Err("Parsing error: unknown priority [cs0]".to_string())
    );
}

#[test]
fn payload_encodings() {
    assert_eq!(
        PayloadEncoding::from_id(0),
        Err("payload-encoding identifier 0 is reserved".to_string())
    );
    assert_eq!(PayloadEncoding::from_id(7), Ok(PayloadEncoding::from_registry_entry(7)));
    assert_eq!(PayloadEncoding::from_registry_entry(u32::MAX).id(), u32::MAX);
}

#[test]
fn uris_are_read() {
    assert_eq!(
        topic(),
        UUri {
            authority_name: "vin.vehicles".to_string(),
            ue_id: 0xA8000,
            ue_version_major: 2,
            resource_id: 0x8A50,
        }
    );
    assert_eq!(
        UUri::from_str("").unwrap_err(),
        "Serialization error: URI is empty"
    );
    assert_eq!(
        UUri::from_str("//host:80/1/2/3").unwrap_err(),
        "Validation error: uProtocol URI's authority must not contain port"
    );
}

#[test]
fn canonical_uris_survive() {
    for text in [
        "/1/2/3",
        "up://host/1/2/3",
        "///1/2/3",
        "//*/ffff0abc/ff/ffff",
        "//[::1]/A/1/8000",
        "//[::ffff:1.2.3.4]/A/1/8000",
        "//10.0.0.1/+A/1/08000",
        "up:A/1/8000",
        "//host:/A/1/8000",
    ] {
        let uri = UUri::from_str(text).expect("URI");
        let text = up_rust::UUri {
            authority_name: uri.authority_name.clone(),
            ue_id: uri.ue_id,
            ue_version_major: uri.ue_version_major,
            resource_id: uri.resource_id,
            ..Default::default()
        }
        .to_uri(false);
        assert_eq!(UUri::from_str(&text), Ok(uri));
    }
}

#[test]
fn properties_are_looked_up() {
    let mut properties = Properties::new();
    assert_eq!(properties.find_user_property("k"), None);
    assert_eq!(properties.message_expiry_interval(), None);
    assert_eq!(properties.correlation_data(), None);
    assert_eq!(properties.content_type_count(), 0);
    assert_eq!(properties.content_type(), None);
    properties.push(Property::UserProperty("j".to_string(), "0".to_string()));
    properties.push(Property::UserProperty("k".to_string(), "1".to_string()));
    properties.push(Property::UserProperty("k".to_string(), "2".to_string()));
    properties.push(Property::MessageExpiryInterval(3));
    properties.push(Property::MessageExpiryInterval(4));
    properties.push(Property::CorrelationData(vec![5]));
    properties.push(Property::CorrelationData(vec![6]));
    properties.push(Property::ContentType(Some("7".to_string())));
    properties.push(Property::ContentType(None));
    assert_eq!(properties.find_user_property("k"), Some("1".to_string()));
    assert_eq!(properties.find_user_property("K"), None);
    assert_eq!(properties.message_expiry_interval(), Some(3));
    assert_eq!(properties.correlation_data(), Some(vec![5]));
    assert_eq!(properties.content_type_count(), 2);
    assert_eq!(properties.content_type(), Some("7".to_string()));
    assert_eq!(properties.into_list().len(), 9);
}

#[test]
fn common_attributes_are_set_where_given() {
    let mut builder = UMessageBuilder::request(ID, method(), entity(), 1000);
    configure_common_attributes(&mut builder, None, None, &None);
    let message = builder.build().expect("message");
    assert_eq!(message.attributes().priority, Some(UPriority::CS4));
    assert_eq!(message.attributes().ttl, Some(1000));
    assert_eq!(message.attributes().traceparent, None);

    let mut builder = UMessageBuilder::request(ID, method(), entity(), 1000);
    configure_common_attributes(
        &mut builder,
        Some(UPriority::CS5),
        Some(2000),
        &Some("trace".to_string()),
    );
    let message = builder.build().expect("message");
    assert_eq!(message.attributes().priority, Some(UPriority::CS5));
    assert_eq!(message.attributes().ttl, Some(2000));
    assert_eq!(message.attributes().traceparent.as_deref(), Some("trace"));
}

#[test]
fn payload_and_encoding_come_together() {
    let text = PayloadEncoding::from_registry_entry(7);
    let payload = Bytes::from_static(b"payload");
    let draft = || UMessageBuilder::publish(ID, topic());
    let message = finish_message(draft(), Some(payload.clone()), Some(text)).expect("message");
    assert_eq!(message.payload(), Some(&payload));
    assert_eq!(message.attributes().payload_encoding, Some(text));
    let message = finish_message(draft(), None, None).expect("message");
    assert_eq!(message.payload(), None);
    assert_eq!(message.attributes().payload_encoding, None);
    assert_eq!(
        finish_message(draft(), Some(payload), None).unwrap_err(),
        invalid_argument("message payload has no payload-encoding identifier".to_string())
    );
    assert_eq!(
        finish_message(draft(), None, Some(text)).unwrap_err(),
        invalid_argument(
            "message declares a payload-encoding identifier without payload bytes".to_string()
        )
    );
}

#[test]
fn inconsistent_drafts_are_refused() {
    let status = finish_message(UMessageBuilder::publish(ID, entity()), None, None).unwrap_err();
    assert_eq!(status.code(), UCode::InvalidArgument);
    assert_eq!(
        status.message,
        "Builder state is not consistent with message type: Validation failure: Validation \
         failure: Invalid source URI: Validation error: Resource ID must be >= 0x8000"
    );
    let mut builder = UMessageBuilder::request(ID, method(), entity(), 1000);
    builder.with_priority(UPriority::CS3);
    assert_eq!(
        builder.build_with_payload(Bytes::new(), PayloadEncoding::from_registry_entry(1)),
        Err("Builder state is not consistent with message type: Validation failure: Validation \
             failure: RPC message must have a priority of at least CS4"
            .to_string())
    );
}

#[test]
fn message_takes_over_what_its_type_can_have() {
    let message = UMessageBuilder::publish(ID, topic()).build().expect("message");
    let mut attributes = message.attributes().clone();
    attributes.sink = Some(entity());
    attributes.token = Some("token".to_string());
    attributes.permission_level = Some(1);
    attributes.commstatus = Some(UCode::OK);
    attributes.request_id = Some(ID);
    let taken = create_umessage_from_uattributes(&attributes, None).expect("message");
    assert_eq!(taken, message);

    let response =
        UMessageBuilder::response(ID, entity(), ID, method()).build().expect("message");
    let mut attributes = response.attributes().clone();
    attributes.priority = None;
    let taken = create_umessage_from_uattributes(&attributes, None).expect("message");
    assert_eq!(taken, response);
    assert_eq!(taken.attributes().priority, Some(UPriority::CS4));
}

#[test]
fn required_attributes() {
    let notification =
        UMessageBuilder::notification(ID, topic(), entity()).build().expect("message");
    let mut attributes = notification.attributes().clone();
    attributes.sink = None;
    assert_eq!(
        create_umessage_from_uattributes(&attributes, None),
        Err(missing_required_attribute("sink"))
    );

    let request =
        UMessageBuilder::request(ID, method(), entity(), 1000).build().expect("message");
    let mut attributes = request.attributes().clone();
    attributes.ttl = None;
    assert_eq!(
        create_umessage_from_uattributes(&attributes, None),
        Err(missing_required_attribute("ttl"))
    );
    attributes.sink = None;
    assert_eq!(
        create_umessage_from_uattributes(&attributes, None),
        Err(missing_required_attribute("sink"))
    );

    let response =
        UMessageBuilder::response(ID, entity(), ID, method()).build().expect("message");
    let mut attributes = response.attributes().clone();
    attributes.request_id = None;
    assert_eq!(
        create_umessage_from_uattributes(&attributes, None),
        Err(missing_required_attribute("request id"))
    );
    attributes.sink = None;
    assert_eq!(
        create_umessage_from_uattributes(&attributes, None),
        Err(missing_required_attribute("sink"))
    );
}

#[test]
fn topics_of_listeners() {
    assert_eq!(listener_topic(Ok("a/b".to_string())), Ok("a/b".to_string()));
    assert_eq!(
        listener_topic(Err("no topic".to_string())),
        Err(invalid_argument("no topic".to_string()))
    );
}
