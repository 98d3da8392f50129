# uProtocol over MQTT 5

Maps the attributes of [uProtocol](https://github.com/eclipse-uprotocol) messages to the properties
of MQTT 5 PUBLISH packets and back. The mapping is written in [Verus](https://github.com/verus-lang/verus):
what it does is stated in contracts, and proved.

- `src/mapping.rs` is the mapping, in both directions.
- `src/writing.rs` and `src/reading.rs` say which property holds which attribute.
- `src/message.rs` puts messages together from attributes and a payload.
- `src/attributes.rs`, `src/uri.rs`, `src/uuid.rs`, `src/status.rs`, `src/properties.rs` and
  `src/text.rs` hold the data that is mapped.
- `src/laws.rs` states what holds of the mapping as a whole, such as that a message can be read back
  from its packet.
- `src/transport.rs` holds a decision of the transport that needs no connection to a broker.
- `app/` connects the library to up-rust and to the Paho MQTT client.

Identifiers, URIs, names and the rules for valid attributes come from up-rust. What the proofs rely
on is stated at the functions that call it.
