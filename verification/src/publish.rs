//! What is handed to the broker: one message per record, and the settings of
//! the producer that sends it.

use vstd::prelude::*;
use vstd::utf8::encode_utf8;

verus! {

/// How long the broker may take to acknowledge one message, in milliseconds.
pub const ACK_TIMEOUT_MS: u64 = 1000;

/// The partition number that leaves the choice of partition to the routing
/// key.
pub const PARTITION_BY_KEY: i32 = -1;

/// How many replicas must have a message before the broker acknowledges it.
#[derive(Clone, Copy, Debug, PartialEq, Eq, Structural)]
pub enum RequiredAcks {
    /// None: the producer does not wait.
    Unacknowledged,
    /// The replica that received the message has written it.
    One,
    /// All in-sync replicas have it.
    All,
}

/// One message for the broker. On the wire, key and payload are the UTF-8
/// bytes of their texts.
#[derive(Clone, Debug, PartialEq, Eq)]
pub struct Message {
    pub topic: String,
    pub key: String,
    pub payload: String,
    pub partition: i32,
}

/// A `Message` with its texts as sequences of characters.
pub struct MessageView {
    pub topic: Seq<char>,
    pub key: Seq<char>,
    pub payload: Seq<char>,
    pub partition: i32,
}

impl View for Message {
    type V = MessageView;

    open spec fn view(&self) -> MessageView {
        MessageView {
            topic: self.topic@,
            key: self.key@,
            payload: self.payload@,
            partition: self.partition,
        }
    }
}

/// The message that carries `record` to `topic` under `key`.
pub open spec fn message_for(record: Seq<char>, topic: Seq<char>, key: Seq<char>) -> MessageView {
    MessageView { topic, key, payload: record, partition: PARTITION_BY_KEY }
}

impl Message {
    /// The message that carries `record` to `topic`, routed by `key`.
    pub fn new(record: &str, topic: &str, key: &str) -> (message: Message)
        ensures
            message@ == message_for(record@, topic@, key@),
    {
        Message {
            topic: topic.to_owned(),
            key: key.to_owned(),
            payload: record.to_owned(),
            partition: PARTITION_BY_KEY,
        }
    }

    /// A copy of the message.
    pub fn duplicate(&self) -> (copy: Message)
        ensures
            copy@ == self@,
    {
        Message {
            topic: self.topic.clone(),
            key: self.key.clone(),
            payload: self.payload.clone(),
            partition: self.partition,
        }
    }

    /// The routing key as sent: the UTF-8 bytes of the key text.
    pub fn key_bytes(&self) -> (bytes: &[u8])
        ensures
            bytes@ == encode_utf8(self@.key),
    {
        self.key.as_str().as_bytes()
    }

    /// The payload as sent: the UTF-8 bytes of the record.
    pub fn payload_bytes(&self) -> (bytes: &[u8])
        ensures
            bytes@ == encode_utf8(self@.payload),
    {
        self.payload.as_str().as_bytes()
    }
}

/// How the producer is set up before the first message is sent.
#[derive(Clone, Debug, PartialEq, Eq)]
pub struct PublisherSettings {
    /// Address of the broker to connect to.
    pub broker: String,
    /// The name under which the producer introduces itself to the broker.
    pub client_id: String,
    /// Longest wait for an acknowledgment, in milliseconds.
    pub ack_timeout_ms: u64,
    pub required_acks: RequiredAcks,
}

/// A `PublisherSettings` with its texts as sequences of characters.
pub struct PublisherSettingsView {
    pub broker: Seq<char>,
    pub client_id: Seq<char>,
    pub ack_timeout_ms: u64,
    pub required_acks: RequiredAcks,
}

impl View for PublisherSettings {
    type V = PublisherSettingsView;

    open spec fn view(&self) -> PublisherSettingsView {
        PublisherSettingsView {
            broker: self.broker@,
            client_id: self.client_id@,
            ack_timeout_ms: self.ack_timeout_ms,
            required_acks: self.required_acks,
        }
    }
}

/// The settings of a producer that talks to `broker` and routes by `key`.
pub open spec fn settings_for(broker: Seq<char>, key: Seq<char>) -> PublisherSettingsView {
    PublisherSettingsView {
        broker,
        client_id: key,
        ack_timeout_ms: ACK_TIMEOUT_MS,
        required_acks: RequiredAcks::One,
    }
}

impl PublisherSettings {
    /// The settings for a producer that talks to `broker`: it introduces itself
    /// by the routing key, and takes a message as delivered once one replica
    /// has acknowledged it within a second.
    pub fn new(broker: &str, key: &str) -> (settings: PublisherSettings)
        ensures
            settings@ == settings_for(broker@, key@),
    {
        PublisherSettings {
            broker: broker.to_owned(),
            client_id: key.to_owned(),
            ack_timeout_ms: ACK_TIMEOUT_MS,
            required_acks: RequiredAcks::One,
        }
    }
}

} // verus!
