//! Messages, and how they are put together from attributes and a payload.

use bytes::Bytes;
use vstd::prelude::*;

use crate::attributes;
use crate::attributes::{AttributesView, PayloadEncoding, UAttributes, UMessageType, UPriority};
use crate::status;
use crate::status::{invalid_argument, missing_required_attribute, StatusView, UCode, UStatus};
use crate::uri::UUri;
use crate::uuid::UUID;

verus! {

/// `bytes::Bytes`, which holds the payload of a message.
#[verifier::external_type_specification]
#[verifier::external_body]
pub struct ExBytes(bytes::Bytes);

/// The bytes that a `bytes::Bytes` holds.
pub uninterp spec fn content(bytes: bytes::Bytes) -> Seq<u8>;

/// `bytes::Bytes::new` makes a value that holds no bytes.
pub assume_specification[ bytes::Bytes::new ]() -> (bytes: bytes::Bytes)
    ensures
        content(bytes) == Seq::<u8>::empty(),
;

/// What an optional payload holds.
pub open spec fn payload_view(payload: Option<Bytes>) -> Option<Seq<u8>> {
    match payload {
        Some(bytes) => Some(content(bytes)),
        None => None,
    }
}

/// A message: attributes that are consistent with its type and hold nothing else, and a payload if
/// and only if the attributes say how it is encoded.
#[derive(Debug, PartialEq, Eq)]
pub struct UMessage {
    attributes: UAttributes,
    payload: Option<Bytes>,
}

/// What a [`UMessage`] holds.
#[verifier::ext_equal]
pub struct MessageView {
    pub attributes: AttributesView,
    pub payload: Option<Seq<u8>>,
}

impl View for UMessage {
    type V = MessageView;

    closed spec fn view(&self) -> MessageView {
        MessageView { attributes: self.attributes@, payload: payload_view(self.payload) }
    }
}

/// Whether attributes hold nothing that their type of message has no use for.
pub open spec fn well_placed(attributes: AttributesView) -> bool {
    &&& attributes.type_ == UMessageType::Publish ==> attributes.sink is None
    &&& attributes.type_ != UMessageType::Request ==> {
        &&& attributes.token is None
        &&& attributes.permission_level is None
    }
    &&& attributes.type_ != UMessageType::Response ==> {
        &&& attributes.commstatus is None
        &&& attributes.request_id is None
    }
}

/// Whether attributes and a payload make up a message.
pub open spec fn is_message(message: MessageView) -> bool {
    &&& attributes::valid_attributes(message.attributes)
    &&& well_placed(message.attributes)
    &&& message.attributes.payload_encoding != Some(0u32)
    &&& message.payload is Some <==> message.attributes.payload_encoding is Some
}

impl UMessage {
    #[verifier::type_invariant]
    spec fn is_consistent(self) -> bool {
        is_message(self@)
    }

    /// The attributes of this message.
    pub fn attributes(&self) -> (r: &UAttributes)
        ensures
            r@ == self@.attributes,
            is_message(self@),
    {
        proof {
            use_type_invariant(self);
        }
        &self.attributes
    }

    /// The payload of this message.
    pub fn payload(&self) -> (r: Option<&Bytes>)
        ensures
            match r {
                Some(bytes) => self@.payload == Some(content(*bytes)),
                None => self@.payload is None,
            },
            is_message(self@),
    {
        proof {
            use_type_invariant(self);
        }
        self.payload.as_ref()
    }
}

/// A message in the making.
pub struct UMessageBuilder {
    attributes: UAttributes,
}

impl View for UMessageBuilder {
    type V = AttributesView;

    closed spec fn view(&self) -> AttributesView {
        self.attributes@
    }
}

/// The attributes of a message that has a type, an identifier and a source, and nothing else.
pub open spec fn bare_attributes(
    type_: UMessageType,
    id: UUID,
    source: crate::uri::UriView,
) -> AttributesView {
    AttributesView {
        type_,
        id,
        source,
        sink: None,
        priority: None,
        ttl: None,
        permission_level: None,
        commstatus: None,
        request_id: None,
        token: None,
        traceparent: None,
        payload_encoding: None,
    }
}

impl UMessageBuilder {
    #[verifier::type_invariant]
    spec fn is_well_placed(self) -> bool {
        well_placed(self.attributes@)
    }

    fn bare(type_: UMessageType, id: UUID, source: UUri) -> (r: UMessageBuilder)
        ensures
            r@ == bare_attributes(type_, id, source@),
    {
        UMessageBuilder {
            attributes: UAttributes {
                type_,
                id,
                source,
                sink: None,
                priority: None,
                ttl: None,
                permission_level: None,
                commstatus: None,
                request_id: None,
                token: None,
                traceparent: None,
                payload_encoding: None,
            },
        }
    }

    /// Starts an event that is published to a topic.
    pub fn publish(id: UUID, topic: UUri) -> (r: UMessageBuilder)
        ensures
            r@ == bare_attributes(UMessageType::Publish, id, topic@),
    {
        UMessageBuilder::bare(UMessageType::Publish, id, topic)
    }

    /// Starts a notification from an origin to a destination.
    pub fn notification(id: UUID, origin: UUri, destination: UUri) -> (r: UMessageBuilder)
        ensures
            r@ == (AttributesView {
                sink: Some(destination@),
                ..bare_attributes(UMessageType::Notification, id, origin@)
            }),
    {
        let mut builder = UMessageBuilder::bare(UMessageType::Notification, id, origin);
        builder.attributes.sink = Some(destination);
        builder
    }

    /// Starts the invocation of a method. It has the lowest priority that an invocation can have.
    pub fn request(id: UUID, method: UUri, reply_to: UUri, ttl: u32) -> (r: UMessageBuilder)
        ensures
            r@ == (AttributesView {
                sink: Some(method@),
                ttl: Some(ttl),
                priority: Some(UPriority::CS4),
                ..bare_attributes(UMessageType::Request, id, reply_to@)
            }),
    {
        let mut builder = UMessageBuilder::bare(UMessageType::Request, id, reply_to);
        builder.attributes.sink = Some(method);
        builder.attributes.ttl = Some(ttl);
        builder.attributes.priority = Some(UPriority::CS4);
        builder
    }

    /// Starts the answer to a request. It has the lowest priority that an answer can have.
    pub fn response(id: UUID, reply_to: UUri, request_id: UUID, method: UUri) -> (r:
        UMessageBuilder)
        ensures
            r@ == (AttributesView {
                sink: Some(reply_to@),
                request_id: Some(request_id),
                priority: Some(UPriority::CS4),
                ..bare_attributes(UMessageType::Response, id, method@)
            }),
    {
        let mut builder = UMessageBuilder::bare(UMessageType::Response, id, method);
        builder.attributes.sink = Some(reply_to);
        builder.attributes.request_id = Some(request_id);
        builder.attributes.priority = Some(UPriority::CS4);
        builder
    }

    /// Sets the priority.
    pub fn with_priority(&mut self, priority: UPriority)
        ensures
            final(self)@ == (AttributesView { priority: Some(priority), ..old(self)@ }),
    {
        proof {
            use_type_invariant(&*self);
        }
        self.attributes.priority = Some(priority);
    }

    /// Sets the time to live, in milliseconds.
    pub fn with_ttl(&mut self, ttl: u32)
        ensures
            final(self)@ == (AttributesView { ttl: Some(ttl), ..old(self)@ }),
    {
        proof {
            use_type_invariant(&*self);
        }
        self.attributes.ttl = Some(ttl);
    }

    /// Sets the trace context.
    pub fn with_traceparent(&mut self, traceparent: String)
        ensures
            final(self)@ == (AttributesView { traceparent: Some(traceparent@), ..old(self)@ }),
    {
        proof {
            use_type_invariant(&*self);
        }
        self.attributes.traceparent = Some(traceparent);
    }

    /// Sets the access token of a request.
    pub fn with_token(&mut self, token: String)
        requires
            old(self)@.type_ == UMessageType::Request,
        ensures
            final(self)@ == (AttributesView { token: Some(token@), ..old(self)@ }),
    {
        proof {
            use_type_invariant(&*self);
        }
        self.attributes.token = Some(token);
    }

    /// Sets the permission level of a request.
    pub fn with_permission_level(&mut self, level: u32)
        requires
            old(self)@.type_ == UMessageType::Request,
        ensures
            final(self)@ == (AttributesView { permission_level: Some(level), ..old(self)@ }),
    {
        proof {
            use_type_invariant(&*self);
        }
        self.attributes.permission_level = Some(level);
    }

    /// Sets the outcome of the invocation that a response answers.
    pub fn with_comm_status(&mut self, code: UCode)
        requires
            old(self)@.type_ == UMessageType::Response,
        ensures
            final(self)@ == (AttributesView { commstatus: Some(code), ..old(self)@ }),
    {
        proof {
            use_type_invariant(&*self);
        }
        self.attributes.commstatus = Some(code);
    }

    /// Finishes a message without payload. The error is a text that says why the attributes are
    /// not consistent with the type of the message.
    pub fn build(self) -> (r: Result<UMessage, String>)
        ensures
            ({
                let attributes = AttributesView { payload_encoding: None, ..self@ };
                match r {
                    Ok(message) => {
                        &&& attributes::valid_attributes(attributes)
                        &&& message@ == (MessageView { attributes, payload: None })
                    },
                    Err(e) => {
                        &&& !attributes::valid_attributes(attributes)
                        &&& e@ == attributes::failure_of(attributes).0
                    },
                }
            }),
    {
        proof {
            use_type_invariant(&self);
        }
        let mut attributes = self.attributes;
        attributes.payload_encoding = None;
        match attributes.validate() {
            Ok(_) => Ok(UMessage { attributes, payload: None }),
            Err(e) => Err(e.0),
        }
    }

    /// Finishes a message with a payload. The error is a text that says why the attributes are not
    /// consistent with the type of the message.
    pub fn build_with_payload(self, payload: Bytes, encoding: PayloadEncoding) -> (r: Result<
        UMessage,
        String,
    >)
        ensures
            ({
                let attributes = AttributesView { payload_encoding: Some(encoding@), ..self@ };
                match r {
                    Ok(message) => {
                        &&& attributes::valid_attributes(attributes)
                        &&& message@ == (MessageView {
                            attributes,
                            payload: Some(content(payload)),
                        })
                    },
                    Err(e) => {
                        &&& !attributes::valid_attributes(attributes)
                        &&& e@ == attributes::failure_of(attributes).0
                    },
                }
            }),
    {
        proof {
            use_type_invariant(&self);
            use_type_invariant(encoding);
        }
        let mut attributes = self.attributes;
        attributes.payload_encoding = Some(encoding);
        match attributes.validate() {
            Ok(_) => Ok(UMessage { attributes, payload: Some(payload) }),
            Err(e) => Err(e.0),
        }
    }
}

/// A draft with the attributes set that any type of message can have, where they are given.
pub open spec fn with_common_attributes(
    draft: AttributesView,
    priority: Option<UPriority>,
    ttl: Option<u32>,
    traceparent: Option<Seq<char>>,
) -> AttributesView {
    AttributesView {
        priority: if priority is Some {
            priority
        } else {
            draft.priority
        },
        ttl: if ttl is Some {
            ttl
        } else {
            draft.ttl
        },
        traceparent: if traceparent is Some {
            traceparent
        } else {
            draft.traceparent
        },
        ..draft
    }
}

/// Sets the attributes that any type of message can have, where they are given.
pub fn configure_common_attributes(
    builder: &mut UMessageBuilder,
    priority: Option<UPriority>,
    ttl: Option<u32>,
    traceparent: &Option<String>,
)
    ensures
        final(builder)@ == with_common_attributes(
            old(builder)@,
            priority,
            ttl,
            attributes::text_view(*traceparent),
        ),
{
    if let Some(priority) = priority {
        builder.with_priority(priority);
    }
    if let Some(ttl) = ttl {
        builder.with_ttl(ttl);
    }
    if let Some(traceparent) = traceparent {
        builder.with_traceparent(traceparent.clone());
    }
}

/// What comes of finishing a draft: the attributes of the message, or the reason why there is none.
pub open spec fn finished(
    draft: AttributesView,
    has_payload: bool,
    payload_encoding: Option<u32>,
) -> Result<AttributesView, StatusView> {
    let attributes = AttributesView { payload_encoding, ..draft };
    if has_payload && payload_encoding is None {
        Err(status::invalid("message payload has no payload-encoding identifier"@))
    } else if !has_payload && payload_encoding is Some {
        Err(
            status::invalid(
                "message declares a payload-encoding identifier without payload bytes"@,
            ),
        )
    } else if !attributes::valid_attributes(attributes) {
        Err(status::invalid(attributes::failure_of(attributes).0))
    } else {
        Ok(attributes)
    }
}

/// Finishes a message. A payload and the identifier of its encoding come together or not at all.
pub fn finish_message(
    builder: UMessageBuilder,
    payload: Option<Bytes>,
    payload_encoding: Option<PayloadEncoding>,
) -> (r: Result<UMessage, UStatus>)
    ensures
        ({
            let outcome = finished(
                builder@,
                payload is Some,
                attributes::encoding_view(payload_encoding),
            );
            match r {
                Ok(message) => {
                    &&& outcome == Ok::<AttributesView, StatusView>(message@.attributes)
                    &&& message@.payload == payload_view(payload)
                },
                Err(e) => outcome == Err::<AttributesView, StatusView>(e@),
            }
        }),
{
    let built = match (payload, payload_encoding) {
        (None, None) => builder.build(),
        (Some(payload), Some(payload_encoding)) => builder.build_with_payload(
            payload,
            payload_encoding,
        ),
        (Some(_), None) => {
            return Err(
                invalid_argument("message payload has no payload-encoding identifier".to_string()),
            );
        },
        (None, Some(_)) => {
            return Err(
                invalid_argument(
                    "message declares a payload-encoding identifier without payload bytes".to_string(),
                ),
            );
        },
    };
    match built {
        Ok(message) => Ok(message),
        Err(e) => Err(invalid_argument(e)),
    }
}

/// What a message takes over from attributes: those that its type can have. A request or a response
/// without priority gets the lowest one that it can have.
pub open spec fn taken_over(attributes: AttributesView) -> AttributesView {
    let rpc_priority = if attributes.priority is Some {
        attributes.priority
    } else {
        Some(UPriority::CS4)
    };
    match attributes.type_ {
        UMessageType::Publish => AttributesView {
            sink: None,
            permission_level: None,
            commstatus: None,
            request_id: None,
            token: None,
            ..attributes
        },
        UMessageType::Notification => AttributesView {
            permission_level: None,
            commstatus: None,
            request_id: None,
            token: None,
            ..attributes
        },
        UMessageType::Request => AttributesView {
            priority: rpc_priority,
            commstatus: None,
            request_id: None,
            ..attributes
        },
        UMessageType::Response => AttributesView {
            priority: rpc_priority,
            permission_level: None,
            token: None,
            ..attributes
        },
    }
}

/// The name of the first attribute that a type of message requires and that is missing.
pub open spec fn first_missing(attributes: AttributesView) -> Option<Seq<char>> {
    if attributes.type_ != UMessageType::Publish && attributes.sink is None {
        Some("sink"@)
    } else if attributes.type_ == UMessageType::Request && attributes.ttl is None {
        Some("ttl"@)
    } else if attributes.type_ == UMessageType::Response && attributes.request_id is None {
        Some("request id"@)
    } else {
        None
    }
}

/// What comes of making a message from attributes: the attributes of the message, or the reason why
/// there is none.
pub open spec fn message_attributes(attributes: AttributesView, has_payload: bool) -> Result<
    AttributesView,
    StatusView,
> {
    match first_missing(attributes) {
        Some(name) => Err(status::missing(name)),
        None => finished(taken_over(attributes), has_payload, attributes.payload_encoding),
    }
}

/// Makes a message from attributes and a payload.
pub fn create_umessage_from_uattributes(attributes: &UAttributes, payload: Option<Bytes>) -> (r:
    Result<UMessage, UStatus>)
    ensures
        match r {
            Ok(message) => {
                &&& message_attributes(attributes@, payload is Some) == Ok::<
                    AttributesView,
                    StatusView,
                >(message@.attributes)
                &&& message@.payload == payload_view(payload)
            },
            Err(e) => message_attributes(attributes@, payload is Some) == Err::<
                AttributesView,
                StatusView,
            >(e@),
        },
{
    let mut builder = match attributes.type_ {
        UMessageType::Publish => UMessageBuilder::publish(
            attributes.id,
            attributes.source.clone(),
        ),
        UMessageType::Notification => match &attributes.sink {
            None => {
                return Err(missing_required_attribute("sink"));
            },
            Some(sink) => UMessageBuilder::notification(
                attributes.id,
                attributes.source.clone(),
                sink.clone(),
            ),
        },
        UMessageType::Request => match (&attributes.sink, attributes.ttl) {
            (None, _) => {
                return Err(missing_required_attribute("sink"));
            },
            (Some(_), None) => {
                return Err(missing_required_attribute("ttl"));
            },
            (Some(sink), Some(ttl)) => UMessageBuilder::request(
                attributes.id,
                sink.clone(),
                attributes.source.clone(),
                ttl,
            ),
        },
        UMessageType::Response => match (&attributes.sink, attributes.request_id) {
            (None, _) => {
                return Err(missing_required_attribute("sink"));
            },
            (Some(_), None) => {
                return Err(missing_required_attribute("request id"));
            },
            (Some(sink), Some(request_id)) => UMessageBuilder::response(
                attributes.id,
                sink.clone(),
                request_id,
                attributes.source.clone(),
            ),
        },
    };
    configure_common_attributes(
        &mut builder,
        attributes.priority,
        attributes.ttl,
        &attributes.traceparent,
    );
    if attributes.type_ == UMessageType::Request {
        if let Some(token) = &attributes.token {
            builder.with_token(token.clone());
        }
        if let Some(permission_level) = attributes.permission_level {
            builder.with_permission_level(permission_level);
        }
    }
    if attributes.type_ == UMessageType::Response {
        if let Some(commstatus) = attributes.commstatus {
            builder.with_comm_status(commstatus);
        }
    }
    assert(AttributesView { payload_encoding: attributes@.payload_encoding, ..builder@ }
        == taken_over(attributes@));
    finish_message(builder, payload, attributes.payload_encoding)
}

} // verus!
