//! Holds the library's messages against those of up-rust.

use bytes::Bytes;
use protobuf::Enum;
use up_transport_mqtt5::attributes::{PayloadEncoding, UAttributes, UPriority};
use up_transport_mqtt5::message::{finish_message, UMessageBuilder};
use up_transport_mqtt5::status::UCode;
use up_transport_mqtt5::uri::UUri;
use up_transport_mqtt5::uuid::UUID;

const TOPIC: &str = "//vin.vehicles/A8000/2/8A50";
const ENTITY: &str = "//vin.vehicles/A8000/2/0";
const METHOD: &str = "//vin.vehicles/B8000/3/1B50";

const ID: UUID = UUID { msb: 0x018D_548E_A8E0_7123, lsb: 0x8000_0000_0000_00ab };
const REQUEST_ID: UUID = UUID { msb: 0x018D_548E_A8E0_7124, lsb: 0x8000_0000_0000_00cd };

fn uri(text: &str) -> UUri {
    UUri::from_str(text).expect("URI")
}

fn up_uri(text: &str) -> up_rust::UUri {
    text.parse().expect("URI")
}

fn up_id(id: UUID) -> up_rust::UUID {
    up_rust::UUID { msb: id.msb, lsb: id.lsb, ..Default::default() }
}

fn up_of(uri: &UUri) -> up_rust::UUri {
    up_rust::UUri {
        authority_name: uri.authority_name.clone(),
        ue_id: uri.ue_id,
        ue_version_major: uri.ue_version_major,
        resource_id: uri.resource_id,
        ..Default::default()
    }
}

fn up_priority(priority: UPriority) -> up_rust::UPriority {
    match priority {
        UPriority::CS0 => up_rust::UPriority::UPRIORITY_CS0,
        UPriority::CS1 => up_rust::UPriority::UPRIORITY_CS1,
        UPriority::CS2 => up_rust::UPriority::UPRIORITY_CS2,
        UPriority::CS3 => up_rust::UPriority::UPRIORITY_CS3,
        UPriority::CS4 => up_rust::UPriority::UPRIORITY_CS4,
        UPriority::CS5 => up_rust::UPriority::UPRIORITY_CS5,
        UPriority::CS6 => up_rust::UPriority::UPRIORITY_CS6,
    }
}

fn assert_same(ours: &UAttributes, theirs: &up_rust::UAttributes) {
    assert_eq!(theirs.type_.value(), ours.type_.value());
    assert_eq!(theirs.id(), Some(&up_id(ours.id)));
    assert_eq!(theirs.source(), Some(&up_of(&ours.source)));
    assert_eq!(theirs.sink().cloned(), ours.sink.as_ref().map(up_of));
    // up-rust reads a message without priority as one of its default class
    assert_eq!(
        theirs.priority(),
        Some(up_priority(ours.priority.unwrap_or(UPriority::CS1)))
    );
    assert_eq!(theirs.ttl(), ours.ttl);
    assert_eq!(theirs.permission_level(), ours.permission_level);
    assert_eq!(
        theirs.commstatus().map(|code| code.value()),
        ours.commstatus.map(|code| code.value())
    );
    assert_eq!(theirs.request_id().cloned(), ours.request_id.map(up_id));
    assert_eq!(theirs.token(), ours.token.as_ref());
    assert_eq!(theirs.traceparent(), ours.traceparent.as_ref());
    assert_eq!(
        theirs.payload_format.value() as u32,
        ours.payload_encoding.map_or(0, |encoding| encoding.id())
    );
}

#[test]
fn bare_drafts_agree_with_up_rust() {
    let pairs = [
        (
            UMessageBuilder::publish(ID, uri(TOPIC)),
            up_rust::UMessageBuilder::publish(up_uri(TOPIC)),
        ),
        (
            UMessageBuilder::notification(ID, uri(TOPIC), uri(ENTITY)),
            up_rust::UMessageBuilder::notification(up_uri(TOPIC), up_uri(ENTITY)),
        ),
        (
            UMessageBuilder::request(ID, uri(METHOD), uri(ENTITY), 5400),
            up_rust::UMessageBuilder::request(up_uri(METHOD), up_uri(ENTITY), 5400),
        ),
        (
            UMessageBuilder::response(ID, uri(ENTITY), REQUEST_ID, uri(METHOD)),
            up_rust::UMessageBuilder::response(up_uri(ENTITY), up_id(REQUEST_ID), up_uri(METHOD)),
        ),
    ];
    for (ours, mut theirs) in pairs {
        let theirs = theirs.with_message_id(up_id(ID)).build().expect("message");
        let ours = finish_message(ours, None, None).expect("message");
        assert_same(ours.attributes(), &theirs.attributes);
        assert_eq!(theirs.payload, None);
        assert_eq!(ours.payload(), None);
    }
}

#[test]
fn full_drafts_agree_with_up_rust() {
    let payload = Bytes::from_static(b"payload");
    let raw = PayloadEncoding::from_registry_entry(6);

    let mut ours = UMessageBuilder::request(ID, uri(METHOD), uri(ENTITY), 5400);
    ours.with_priority(UPriority::CS6);
    ours.with_ttl(1234);
    ours.with_traceparent("trace".to_string());
    ours.with_token("token".to_string());
    ours.with_permission_level(15);
    let ours = ours.build_with_payload(payload.clone(), raw).expect("message");
    let theirs = up_rust::UMessageBuilder::request(up_uri(METHOD), up_uri(ENTITY), 5400)
        .with_message_id(up_id(ID))
        .with_priority(up_rust::UPriority::UPRIORITY_CS6)
        .with_ttl(1234)
        .with_traceparent("trace")
        .with_token("token")
        .with_permission_level(15)
        .build_with_payload(payload.clone(), up_rust::UPayloadFormat::UPAYLOAD_FORMAT_RAW)
        .expect("message");
    assert_same(ours.attributes(), &theirs.attributes);
    assert_eq!(ours.payload(), theirs.payload.as_ref());

    let mut ours = UMessageBuilder::response(ID, uri(ENTITY), REQUEST_ID, uri(METHOD));
    ours.with_comm_status(UCode::Unimplemented);
    let ours = ours.build().expect("message");
    let theirs =
        up_rust::UMessageBuilder::response(up_uri(ENTITY), up_id(REQUEST_ID), up_uri(METHOD))
            .with_message_id(up_id(ID))
            .with_comm_status(up_rust::UCode::UNIMPLEMENTED)
            .build()
            .expect("message");
    assert_same(ours.attributes(), &theirs.attributes);
}

#[test]
fn priorities_of_drafts_agree_with_up_rust() {
    for priority in [
        UPriority::CS0,
        UPriority::CS1,
        UPriority::CS2,
        UPriority::CS3,
        UPriority::CS4,
        UPriority::CS5,
        UPriority::CS6,
    ] {
        let mut ours = UMessageBuilder::publish(ID, uri(TOPIC));
        ours.with_priority(priority);
        let ours = ours.build().expect("message");
        let theirs = up_rust::UMessageBuilder::publish(up_uri(TOPIC))
            .with_message_id(up_id(ID))
            .with_priority(up_priority(priority))
            .build()
            .expect("message");
        assert_same(ours.attributes(), &theirs.attributes);
    }
}

#[test]
fn refusals_of_drafts_agree_with_up_rust() {
    let pairs = [
        (
            UMessageBuilder::publish(ID, uri(METHOD)),
            up_rust::UMessageBuilder::publish(up_uri(METHOD)),
        ),
        (
            UMessageBuilder::publish(ID, uri("//*/A8000/2/8A50")),
            up_rust::UMessageBuilder::publish(up_uri("//*/A8000/2/8A50")),
        ),
        (
            UMessageBuilder::notification(ID, uri(ENTITY), uri(TOPIC)),
            up_rust::UMessageBuilder::notification(up_uri(ENTITY), up_uri(TOPIC)),
        ),
        (
            UMessageBuilder::request(ID, uri(TOPIC), uri(METHOD), 0),
            up_rust::UMessageBuilder::request(up_uri(TOPIC), up_uri(METHOD), 0),
        ),
        (
            UMessageBuilder::response(ID, uri(ENTITY), UUID { msb: 1, lsb: 2 }, uri(METHOD)),
            up_rust::UMessageBuilder::response(
                up_uri(ENTITY),
                up_id(UUID { msb: 1, lsb: 2 }),
                up_uri(METHOD),
            ),
        ),
    ];
    for (ours, mut theirs) in pairs {
        let theirs = theirs.with_message_id(up_id(ID)).build().expect_err("refusal");
        let ours = ours.build().expect_err("refusal");
        assert_eq!(ours, theirs.to_string());
    }
}
