//! Maps uProtocol messages to MQTT 5 PUBLISH packets and back.

pub mod attributes;
pub mod keys;
pub mod laws;
pub mod mapping;
pub mod message;
pub mod properties;
pub mod reading;
pub mod rules;
pub mod status;
pub mod text;
pub mod transport;
pub mod uri;
pub mod uuid;
pub mod writing;
