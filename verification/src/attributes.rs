//! The attributes of a uProtocol message: everything but its payload.

use protobuf::{EnumOrUnknown, MessageField};
use up_rust::{
    UAttributes as ProtoAttributes, UAttributesValidators, UMessageError,
    UMessageType as ProtoMessageType, UPriority as ProtoPriority, UUri as ProtoUri,
    UUID as ProtoId,
};
use vstd::prelude::*;

use crate::status::UCode;
use crate::uri::{UUri, UriView};
use crate::uuid::UUID;

verus! {

/// What a message is for.
#[derive(Clone, Copy, Debug, PartialEq, Eq, Hash, Structural)]
pub enum UMessageType {
    Publish,
    Notification,
    Request,
    Response,
}

/// The number of a message type.
pub open spec fn type_code(message_type: UMessageType) -> i32 {
    match message_type {
        UMessageType::Publish => 1,
        UMessageType::Request => 2,
        UMessageType::Response => 3,
        UMessageType::Notification => 4,
    }
}

/// The name of a message type.
pub open spec fn name_of_type(message_type: UMessageType) -> Seq<char> {
    match message_type {
        UMessageType::Publish => "up-pub.v1"@,
        UMessageType::Request => "up-req.v1"@,
        UMessageType::Response => "up-res.v1"@,
        UMessageType::Notification => "up-not.v1"@,
    }
}

/// The message type with a name, where there is one.
pub open spec fn type_named(name: Seq<char>) -> Option<UMessageType> {
    if name == name_of_type(UMessageType::Publish) {
        Some(UMessageType::Publish)
    } else if name == name_of_type(UMessageType::Request) {
        Some(UMessageType::Request)
    } else if name == name_of_type(UMessageType::Response) {
        Some(UMessageType::Response)
    } else if name == name_of_type(UMessageType::Notification) {
        Some(UMessageType::Notification)
    } else {
        None
    }
}

/// No two message types have the same name.
pub proof fn lemma_type_reads_back(message_type: UMessageType)
    ensures
        type_named(name_of_type(message_type)) == Some(message_type),
{
    reveal_strlit("up-pub.v1");
    reveal_strlit("up-req.v1");
    reveal_strlit("up-res.v1");
    reveal_strlit("up-not.v1");
    let name = name_of_type(message_type);
    assert(name[3] != 'p' ==> name != "up-pub.v1"@);
    assert(name[5] != 'q' ==> name != "up-req.v1"@);
    assert(name[5] != 's' ==> name != "up-res.v1"@);
    assert(name[3] != 'n' ==> name != "up-not.v1"@);
}

impl UMessageType {
    /// The number of this message type.
    pub fn value(self) -> (code: i32)
        ensures
            code == type_code(self),
    {
        match self {
            UMessageType::Publish => 1,
            UMessageType::Request => 2,
            UMessageType::Response => 3,
            UMessageType::Notification => 4,
        }
    }

    /// The message type with a name.
    pub fn try_from_cloudevent_type(name: String) -> (r: Result<UMessageType, String>)
        ensures
            match r {
                Ok(message_type) => type_named(name@) == Some(message_type),
                Err(e) => {
                    &&& type_named(name@) is None
                    &&& e@ == "Parsing error: unknown message type: "@ + name@
                },
            },
    {
        match message_type_code(name) {
            Ok(code) => match code {
                1 => Ok(UMessageType::Publish),
                2 => Ok(UMessageType::Request),
                3 => Ok(UMessageType::Response),
                _ => Ok(UMessageType::Notification),
            },
            Err(e) => Err(e),
        }
    }
}

/// Calls `up_rust::UMessageType::try_from_cloudevent_type`. It returns the message type with the
/// given name, and reports an error with a stated text for any other name.
#[verifier::external_body]
fn message_type_code(name: String) -> (r: Result<i32, String>)
    ensures
        match r {
            Ok(code) => type_named(name@) matches Some(message_type) && type_code(message_type)
                == code,
            Err(e) => {
                &&& type_named(name@) is None
                &&& e@ == "Parsing error: unknown message type: "@ + name@
            },
        },
{
    match ProtoMessageType::try_from_cloudevent_type(name) {
        Ok(message_type) => Ok(message_type as i32),
        Err(e) => Err(e.to_string()),
    }
}

/// Calls `up_rust::UMessageType::to_cloudevent_type`, which returns the name of a message type.
#[verifier::external_body]
pub(crate) fn message_type_name(message_type: UMessageType) -> (name: String)
    ensures
        name@ == name_of_type(message_type),
{
    match message_type {
        UMessageType::Publish => ProtoMessageType::UMESSAGE_TYPE_PUBLISH,
        UMessageType::Request => ProtoMessageType::UMESSAGE_TYPE_REQUEST,
        UMessageType::Response => ProtoMessageType::UMESSAGE_TYPE_RESPONSE,
        UMessageType::Notification => ProtoMessageType::UMESSAGE_TYPE_NOTIFICATION,
    }.to_cloudevent_type()
}

/// How urgently a message is to be delivered, from the least to the most urgent class.
#[derive(Clone, Copy, Debug, PartialEq, Eq, Hash, Structural)]
pub enum UPriority {
    CS0,
    CS1,
    CS2,
    CS3,
    CS4,
    CS5,
    CS6,
}

/// The number of a priority class. The number 0 stands for the absence of a priority.
pub open spec fn priority_code(priority: Option<UPriority>) -> i32 {
    match priority {
        None => 0,
        Some(UPriority::CS0) => 1,
        Some(UPriority::CS1) => 2,
        Some(UPriority::CS2) => 3,
        Some(UPriority::CS3) => 4,
        Some(UPriority::CS4) => 5,
        Some(UPriority::CS5) => 6,
        Some(UPriority::CS6) => 7,
    }
}

/// The name of a priority class.
pub open spec fn priority_name(priority: UPriority) -> Seq<char> {
    match priority {
        UPriority::CS0 => "CS0"@,
        UPriority::CS1 => "CS1"@,
        UPriority::CS2 => "CS2"@,
        UPriority::CS3 => "CS3"@,
        UPriority::CS4 => "CS4"@,
        UPriority::CS5 => "CS5"@,
        UPriority::CS6 => "CS6"@,
    }
}

/// The priority class with a name, where there is one.
pub open spec fn priority_named(name: Seq<char>) -> Option<UPriority> {
    if name == priority_name(UPriority::CS0) {
        Some(UPriority::CS0)
    } else if name == priority_name(UPriority::CS1) {
        Some(UPriority::CS1)
    } else if name == priority_name(UPriority::CS2) {
        Some(UPriority::CS2)
    } else if name == priority_name(UPriority::CS3) {
        Some(UPriority::CS3)
    } else if name == priority_name(UPriority::CS4) {
        Some(UPriority::CS4)
    } else if name == priority_name(UPriority::CS5) {
        Some(UPriority::CS5)
    } else if name == priority_name(UPriority::CS6) {
        Some(UPriority::CS6)
    } else {
        None
    }
}

/// No two priority classes have the same name.
pub proof fn lemma_priority_reads_back(priority: UPriority)
    ensures
        priority_named(priority_name(priority)) == Some(priority),
{
    reveal_strlit("CS0");
    reveal_strlit("CS1");
    reveal_strlit("CS2");
    reveal_strlit("CS3");
    reveal_strlit("CS4");
    reveal_strlit("CS5");
    reveal_strlit("CS6");
    let name = priority_name(priority);
    assert(name[2] != '0' ==> name != "CS0"@);
    assert(name[2] != '1' ==> name != "CS1"@);
    assert(name[2] != '2' ==> name != "CS2"@);
    assert(name[2] != '3' ==> name != "CS3"@);
    assert(name[2] != '4' ==> name != "CS4"@);
    assert(name[2] != '5' ==> name != "CS5"@);
    assert(name[2] != '6' ==> name != "CS6"@);
}

impl UPriority {
    /// The priority class with a name.
    pub fn try_from_priority_code(name: String) -> (r: Result<UPriority, String>)
        ensures
            match r {
                Ok(priority) => priority_named(name@) == Some(priority),
                Err(e) => {
                    &&& priority_named(name@) is None
                    &&& e@ == "Parsing error: unknown priority ["@ + name@ + "]"@
                },
            },
    {
        match named_priority_code(name) {
            Ok(code) => match code {
                1 => Ok(UPriority::CS0),
                2 => Ok(UPriority::CS1),
                3 => Ok(UPriority::CS2),
                4 => Ok(UPriority::CS3),
                5 => Ok(UPriority::CS4),
                6 => Ok(UPriority::CS5),
                _ => Ok(UPriority::CS6),
            },
            Err(e) => Err(e),
        }
    }
}

/// The number of a priority class. The number 0 stands for the absence of a priority.
fn priority_number(priority: Option<UPriority>) -> (code: i32)
    ensures
        code == priority_code(priority),
{
    match priority {
        None => 0,
        Some(UPriority::CS0) => 1,
        Some(UPriority::CS1) => 2,
        Some(UPriority::CS2) => 3,
        Some(UPriority::CS3) => 4,
        Some(UPriority::CS4) => 5,
        Some(UPriority::CS5) => 6,
        Some(UPriority::CS6) => 7,
    }
}

/// Calls `up_rust::UPriority::try_from_priority_code`. It returns the priority class with the given
/// name, and reports an error with a stated text for any other name.
#[verifier::external_body]
fn named_priority_code(name: String) -> (r: Result<i32, String>)
    ensures
        match r {
            Ok(code) => {
                &&& priority_named(name@) is Some
                &&& priority_code(priority_named(name@)) == code
            },
            Err(e) => {
                &&& priority_named(name@) is None
                &&& e@ == "Parsing error: unknown priority ["@ + name@ + "]"@
            },
        },
{
    match ProtoPriority::try_from_priority_code(name) {
        Ok(priority) => Ok(priority as i32),
        Err(e) => Err(e.to_string()),
    }
}

/// Calls `up_rust::UPriority::to_priority_code`, which returns the name of a priority class.
#[verifier::external_body]
pub(crate) fn priority_text(priority: UPriority) -> (name: String)
    ensures
        name@ == priority_name(priority),
{
    match priority {
        UPriority::CS0 => ProtoPriority::UPRIORITY_CS0,
        UPriority::CS1 => ProtoPriority::UPRIORITY_CS1,
        UPriority::CS2 => ProtoPriority::UPRIORITY_CS2,
        UPriority::CS3 => ProtoPriority::UPRIORITY_CS3,
        UPriority::CS4 => ProtoPriority::UPRIORITY_CS4,
        UPriority::CS5 => ProtoPriority::UPRIORITY_CS5,
        UPriority::CS6 => ProtoPriority::UPRIORITY_CS6,
    }.to_priority_code()
}

/// The identifier of a payload encoding in the registry of encodings. Zero is reserved.
#[derive(Clone, Copy, Debug, PartialEq, Eq, Hash, Structural)]
pub struct PayloadEncoding {
    id: u32,
}

impl View for PayloadEncoding {
    type V = u32;

    closed spec fn view(&self) -> u32 {
        self.id
    }
}

impl PayloadEncoding {
    /// Whether the identifier is not the reserved one.
    #[verifier::type_invariant]
    pub open spec fn is_assignable(self) -> bool {
        self@ != 0
    }

    /// The encoding with an identifier that may be the reserved one.
    pub fn from_id(id: u32) -> (r: Result<PayloadEncoding, String>)
        ensures
            match r {
                Ok(encoding) => id != 0 && encoding@ == id,
                Err(e) => id == 0 && e@ == reserved_encoding_error(),
            },
    {
        if id == 0 {
            Err("payload-encoding identifier 0 is reserved".to_string())
        } else {
            Ok(PayloadEncoding { id })
        }
    }

    /// The encoding with an identifier out of the registry, which holds no entry for zero.
    pub fn from_registry_entry(id: u32) -> (encoding: PayloadEncoding)
        requires
            id != 0,
        ensures
            encoding@ == id,
    {
        PayloadEncoding { id }
    }

    /// The identifier of this encoding.
    pub fn id(self) -> (id: u32)
        ensures
            id == self@,
            id != 0,
    {
        proof {
            use_type_invariant(self);
        }
        self.id
    }
}

/// The text of the error that is reported for the reserved identifier.
pub open spec fn reserved_encoding_error() -> Seq<char> {
    "payload-encoding identifier 0 is reserved"@
}

/// The attributes of a message.
#[derive(Debug, PartialEq, Eq)]
pub struct UAttributes {
    pub type_: UMessageType,
    pub id: UUID,
    pub source: UUri,
    pub sink: Option<UUri>,
    pub priority: Option<UPriority>,
    /// The time to live, in milliseconds.
    pub ttl: Option<u32>,
    pub permission_level: Option<u32>,
    pub commstatus: Option<UCode>,
    pub request_id: Option<UUID>,
    pub token: Option<String>,
    pub traceparent: Option<String>,
    pub payload_encoding: Option<PayloadEncoding>,
}

/// What [`UAttributes`] hold.
#[verifier::ext_equal]
pub struct AttributesView {
    pub type_: UMessageType,
    pub id: UUID,
    pub source: UriView,
    pub sink: Option<UriView>,
    pub priority: Option<UPriority>,
    pub ttl: Option<u32>,
    pub permission_level: Option<u32>,
    pub commstatus: Option<UCode>,
    pub request_id: Option<UUID>,
    pub token: Option<Seq<char>>,
    pub traceparent: Option<Seq<char>>,
    pub payload_encoding: Option<u32>,
}

/// What an optional URI holds.
pub open spec fn uri_view(uri: Option<UUri>) -> Option<UriView> {
    match uri {
        Some(uri) => Some(uri@),
        None => None,
    }
}

/// What an optional text holds.
pub open spec fn text_view(text: Option<String>) -> Option<Seq<char>> {
    match text {
        Some(text) => Some(text@),
        None => None,
    }
}

/// What an optional payload encoding holds.
pub open spec fn encoding_view(encoding: Option<PayloadEncoding>) -> Option<u32> {
    match encoding {
        Some(encoding) => Some(encoding@),
        None => None,
    }
}

impl View for UAttributes {
    type V = AttributesView;

    open spec fn view(&self) -> AttributesView {
        AttributesView {
            type_: self.type_,
            id: self.id,
            source: self.source@,
            sink: uri_view(self.sink),
            priority: self.priority,
            ttl: self.ttl,
            permission_level: self.permission_level,
            commstatus: self.commstatus,
            request_id: self.request_id,
            token: text_view(self.token),
            traceparent: text_view(self.traceparent),
            payload_encoding: encoding_view(self.payload_encoding),
        }
    }
}

impl Clone for UAttributes {
    fn clone(&self) -> (r: Self)
        ensures
            r == *self,
    {
        UAttributes {
            type_: self.type_,
            id: self.id,
            source: self.source.clone(),
            sink: self.sink.clone(),
            priority: self.priority,
            ttl: self.ttl,
            permission_level: self.permission_level,
            commstatus: self.commstatus,
            request_id: self.request_id,
            token: self.token.clone(),
            traceparent: self.traceparent.clone(),
            payload_encoding: self.payload_encoding,
        }
    }
}

/// Whether no part of a URI is a wildcard.
pub open spec fn no_wildcards(uri: UriView) -> bool {
    &&& uri.authority_name != seq!['*']
    &&& uri.ue_id & 0xFFFF_0000 != 0xFFFF_0000
    &&& uri.ue_id & 0xFFFF != 0xFFFF
    &&& uri.ue_version_major != 0xFF
    &&& uri.resource_id != 0xFFFF
}

/// Whether a URI addresses a topic that events are published to.
pub open spec fn is_topic(uri: UriView) -> bool {
    uri.resource_id >= 0x8000 && no_wildcards(uri)
}

/// Whether a URI addresses a method that can be invoked.
pub open spec fn is_method(uri: UriView) -> bool {
    0 < uri.resource_id < 0x8000 && no_wildcards(uri)
}

/// Whether a URI addresses an entity as a whole, as the destination of a notification and the
/// reply-to address of a request do.
pub open spec fn is_entity(uri: UriView) -> bool {
    uri.resource_id == 0 && no_wildcards(uri)
}

/// Whether the attributes that are subject to rules are consistent with the type of the message.
/// Types and priorities are given by their numbers.
pub open spec fn valid_parts(
    type_: i32,
    id: UUID,
    source: UriView,
    sink: Option<UriView>,
    priority: i32,
    ttl: Option<u32>,
    request_id: Option<UUID>,
) -> bool {
    &&& id.is_uprotocol_uuid()
    &&& if type_ == type_code(UMessageType::Publish) {
        is_topic(source) && sink is None
    } else if type_ == type_code(UMessageType::Notification) {
        &&& source.resource_id != 0
        &&& no_wildcards(source)
        &&& sink is Some
        &&& is_entity(sink->0)
    } else if type_ == type_code(UMessageType::Request) {
        &&& is_entity(source)
        &&& sink is Some
        &&& is_method(sink->0)
        &&& ttl is Some
        &&& ttl->0 > 0
        &&& priority >= priority_code(Some(UPriority::CS4))
    } else {
        &&& is_method(source)
        &&& sink is Some
        &&& is_entity(sink->0)
        &&& request_id is Some
        &&& request_id->0.is_uprotocol_uuid()
        &&& priority >= priority_code(Some(UPriority::CS4))
    }
}

/// Whether attributes are consistent with the type of their message.
pub open spec fn valid_attributes(attributes: AttributesView) -> bool {
    valid_parts(
        type_code(attributes.type_),
        attributes.id,
        attributes.source,
        attributes.sink,
        priority_code(attributes.priority),
        attributes.ttl,
        attributes.request_id,
    )
}

/// The number of an optional communication status.
pub open spec fn commstatus_code(code: Option<UCode>) -> Option<i32> {
    match code {
        Some(code) => Some(crate::status::code_value(code)),
        None => None,
    }
}

/// What `up_rust` says of attributes that are not consistent with the type of their message, in two
/// texts: that no message can be built with them, and the details for developers. The first is the
/// `Display` form of the `UMessageError`, the second the `Debug` form of the `UAttributesError`.
pub uninterp spec fn failure_of_parts(
    type_: i32,
    id: UUID,
    source: UriView,
    sink: Option<UriView>,
    priority: i32,
    ttl: Option<u32>,
    request_id: Option<UUID>,
    commstatus: Option<i32>,
) -> (Seq<char>, Seq<char>);

/// What is said of attributes that are not consistent with the type of their message: that no
/// message can be built with them, and the details for developers.
pub open spec fn failure_of(attributes: AttributesView) -> (Seq<char>, Seq<char>) {
    failure_of_parts(
        type_code(attributes.type_),
        attributes.id,
        attributes.source,
        attributes.sink,
        priority_code(attributes.priority),
        attributes.ttl,
        attributes.request_id,
        commstatus_code(attributes.commstatus),
    )
}

/// Calls the validator that `up_rust::UAttributesValidators` has for a type of message. It accepts
/// exactly the attributes that satisfy `valid_parts`. For others it reports an error. The text of
/// that error, and the text of the `up_rust::UMessageError` that it is turned into, are functions of
/// the arguments. Of a communication status the validator only asks that there is such a code.
#[verifier::external_body]
fn validate_parts(
    type_: i32,
    id: UUID,
    source: UUri,
    sink: Option<UUri>,
    priority: i32,
    ttl: Option<u32>,
    request_id: Option<UUID>,
    commstatus: Option<i32>,
) -> (r: Result<(), (String, String)>)
    requires
        1 <= type_ <= 4,
        0 <= priority <= 7,
        commstatus matches Some(code) ==> 0 <= code <= 16,
    ensures
        r is Ok <==> valid_parts(
            type_,
            id,
            source@,
            uri_view(sink),
            priority,
            ttl,
            request_id,
        ),
        r matches Err(e) ==> (e.0@, e.1@) == failure_of_parts(
            type_,
            id,
            source@,
            uri_view(sink),
            priority,
            ttl,
            request_id,
            commstatus,
        ),
{
    let uri = |UUri { authority_name, ue_id, ue_version_major, resource_id }|
        ProtoUri { authority_name, ue_id, ue_version_major, resource_id, ..Default::default() };
    let uuid = |UUID { msb, lsb }| ProtoId { msb, lsb, ..Default::default() };
    let attributes = ProtoAttributes {
        type_: EnumOrUnknown::from_i32(type_), id: MessageField::some(uuid(id)),
        source: MessageField::some(uri(source)), sink: sink.map(uri).into(),
        priority: EnumOrUnknown::from_i32(priority), ttl, reqid: request_id.map(uuid).into(),
        commstatus: commstatus.map(EnumOrUnknown::from_i32), ..Default::default()
    };
    UAttributesValidators::get_validator_for_attributes(&attributes).validate(&attributes)
        .map_err(|e| { let debug = format!("{e:?}"); (UMessageError::from(e).to_string(), debug) })
}

/// Whether a message with an identifier and a time to live has outlived it at a point in time,
/// given in milliseconds since the start of 1970. A clock that is set to an earlier point in time
/// gives no reading. A time to live of zero never ends.
pub open spec fn expired_at(id: UUID, ttl: Option<u32>, now: Option<nat>) -> bool {
    match now {
        Some(now) => match ttl {
            Some(ttl) => ttl > 0 && id.is_uprotocol_uuid() && (id.msb >> 16) + ttl <= now,
            None => false,
        },
        None => ttl != Some(0u32),
    }
}

/// A reading of the clock as a number, where there is one.
pub open spec fn reading_of(now: Option<u64>) -> Option<nat> {
    match now {
        Some(now) => Some(now as nat),
        None => None,
    }
}

/// Calls `up_rust::UAttributes::check_expired`, which looks at the clock. What is stated holds
/// whatever the clock reads: there is a reading that explains the result.
#[verifier::external_body]
fn has_expired(id: UUID, ttl: Option<u32>) -> (expired: bool)
    ensures
        exists|now: Option<nat>| expired == #[trigger] expired_at(id, ttl, now),
{
    ProtoAttributes {
        id: MessageField::some(ProtoId { msb: id.msb, lsb: id.lsb, ..Default::default() }),
        ttl,
        ..Default::default()
    }.check_expired().is_err()
}

/// Whether `up_rust` can give this answer when it is asked, about a message with exactly this
/// identifier and exactly this time to live, whether the message has expired. The answer to the
/// question about another identifier or another time to live says nothing about this one.
pub closed spec fn clock_says(id: UUID, ttl: Option<u32>, expired: bool) -> bool {
    call_ensures(has_expired, (id, ttl), expired)
}

/// An answer about a message is one that `has_expired` gives for its identifier and its time to live,
/// and there is a reading of the clock that explains it.
proof fn law_clock_is_asked_about_the_message(id: UUID, ttl: Option<u32>, expired: bool)
    ensures
        clock_says(id, ttl, expired) <==> call_ensures(has_expired, (id, ttl), expired),
        clock_says(id, ttl, expired) ==> exists|now: Option<nat>|
            expired == #[trigger] expired_at(id, ttl, now),
        clock_says(id, ttl, expired) && ttl == Some(0u32) ==> !expired,
{
}

/// Asks a question about an identifier and a time to live.
fn ask<F: Fn(UUID, Option<u32>) -> bool>(question: F, id: UUID, ttl: Option<u32>) -> (answer: bool)
    requires
        call_requires(question, (id, ttl)),
    ensures
        call_ensures(question, (id, ttl), answer),
{
    question(id, ttl)
}

impl UAttributes {
    /// Checks that these attributes are consistent with the type of their message. Otherwise
    /// returns two texts: that no message can be built with them, and the details for developers.
    pub fn validate(&self) -> (r: Result<(), (String, String)>)
        ensures
            r is Ok <==> valid_attributes(self@),
            r matches Err(e) ==> (e.0@, e.1@) == failure_of(self@),
    {
        validate_parts(
            self.type_.value(),
            self.id,
            self.source.clone(),
            self.sink.clone(),
            priority_number(self.priority),
            self.ttl,
            self.request_id,
            match self.commstatus {
                Some(code) => Some(code.value()),
                None => None,
            },
        )
    }

    /// Whether the message has outlived its time to live when the clock gives a certain reading, in
    /// milliseconds since the start of 1970.
    pub fn is_expired_at(&self, now: Option<u64>) -> (expired: bool)
        ensures
            expired == expired_at(self.id, self.ttl, reading_of(now)),
    {
        match (now, self.ttl) {
            (None, ttl) => match ttl {
                Some(ttl) => ttl != 0,
                None => true,
            },
            (Some(_), None) => false,
            (Some(now), Some(ttl)) => {
                let created: u64 = self.id.msb >> 16;
                let msb: u64 = self.id.msb;
                assert(msb >> 16 < 0x1_0000_0000_0000) by (bit_vector);
                ttl > 0 && self.id.msb & 0xF000 == 0x7000 && self.id.lsb & 0xC000_0000_0000_0000
                    == 0x8000_0000_0000_0000 && created + ttl as u64 <= now
            },
        }
    }

    /// Whether the message has outlived its time to live.
    pub fn is_expired(&self) -> (expired: bool)
        ensures
            clock_says(self.id, self.ttl, expired),
            exists|now: Option<nat>| expired == #[trigger] expired_at(self.id, self.ttl, now),
    {
        ask(has_expired, self.id, self.ttl)
    }
}

} // verus!
