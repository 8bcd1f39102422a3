//! The decisions of a receiver unit: what each inbound event of a
//! connection becomes. A publish is decoded with the schema bound to its
//! topic; a malformed payload is reported and the unit goes on; every other
//! event is only observed.
use crate::reading::{
    topic_name, topic_named, Humidity, ReadingModel, Temperature, Topic, HUMIDITY_TOPIC,
    TEMPERATURE_TOPIC,
};
use crate::wire::{decode_reading, decoding_of, encoding_of, lemma_round_trip, PayloadError};
use vstd::prelude::*;
use vstd::utf8::encode_utf8;

verus! {

/// An event that a connection's driver hands to its receiver.
pub enum InboundEvent {
    Publish { topic: String, payload: Vec<u8> },
    ConnAck,
    PingResponse,
    Disconnect,
    Other,
}

/// What the receiver surfaces for one event.
pub enum Received {
    Temperature(Temperature),
    Humidity(Humidity),
    /// A publish on a known topic whose payload does not decode.
    Malformed { topic: Topic, error: PayloadError },
    /// A publish on a topic outside the two channels.
    UnknownTopic,
    /// Any event other than a publish.
    Observed,
}

/// What a received event amounts to.
pub enum Delivery {
    Temperature(ReadingModel),
    Humidity(ReadingModel),
    Malformed(Topic),
    UnknownTopic,
    Observed,
}

impl View for Received {
    type V = Delivery;

    open spec fn view(&self) -> Delivery {
        match self {
            Received::Temperature(t) => Delivery::Temperature(t.reading@),
            Received::Humidity(h) => Delivery::Humidity(h.reading@),
            Received::Malformed { topic, .. } => Delivery::Malformed(*topic),
            Received::UnknownTopic => Delivery::UnknownTopic,
            Received::Observed => Delivery::Observed,
        }
    }
}

/// The reading `r` on channel `t`.
pub open spec fn delivered_on(t: Topic, r: ReadingModel) -> Delivery {
    match t {
        Topic::Temperature => Delivery::Temperature(r),
        Topic::Humidity => Delivery::Humidity(r),
    }
}

/// What a publish of `payload` on `topic` amounts to: the topic picks the
/// schema, and only that schema is tried.
pub open spec fn delivery_of(topic: Seq<char>, payload: Seq<u8>) -> Delivery {
    match topic_named(topic) {
        Some(t) => match decoding_of(payload) {
            Some(r) => delivered_on(t, r),
            None => Delivery::Malformed(t),
        },
        None => Delivery::UnknownTopic,
    }
}

/// Handles one inbound event.
pub fn handle_event(ev: &InboundEvent) -> (r: Received)
    ensures
        match ev {
            InboundEvent::Publish { topic, payload } => r@ == delivery_of(topic@, payload@),
            _ => r is Observed,
        },
        r matches Received::Malformed { error, .. } ==> error == PayloadError::Malformed,
{
    match ev {
        InboundEvent::Publish { topic, payload } => {
            match Topic::from_name(topic.as_str()) {
                Some(Topic::Temperature) => match decode_reading(payload.as_slice()) {
                    Ok(reading) => Received::Temperature(Temperature { reading }),
                    Err(error) => Received::Malformed { topic: Topic::Temperature, error },
                },
                Some(Topic::Humidity) => match decode_reading(payload.as_slice()) {
                    Ok(reading) => Received::Humidity(Humidity { reading }),
                    Err(error) => Received::Malformed { topic: Topic::Humidity, error },
                },
                None => Received::UnknownTopic,
            }
        },
        _ => Received::Observed,
    }
}

/// The two topic names differ.
pub proof fn lemma_topic_names_distinct()
    ensures
        TEMPERATURE_TOPIC@ != HUMIDITY_TOPIC@,
        topic_named(topic_name(Topic::Temperature)) == Some(Topic::Temperature),
        topic_named(topic_name(Topic::Humidity)) == Some(Topic::Humidity),
{
    reveal_strlit("monitoring/temperature");
    reveal_strlit("monitoring/humidity");
    assert(TEMPERATURE_TOPIC@[11] != HUMIDITY_TOPIC@[11]);
}

/// A publish on the temperature topic is never read as humidity, and one on
/// the humidity topic never as temperature.
pub proof fn lemma_topic_binds_schema(payload: Seq<u8>)
    ensures
        !(delivery_of(TEMPERATURE_TOPIC@, payload) is Humidity),
        !(delivery_of(HUMIDITY_TOPIC@, payload) is Temperature),
{
    lemma_topic_names_distinct();
}

/// A reading published on channel `t` and handed to the receiver unchanged
/// is surfaced as that same reading on that same channel.
pub proof fn lemma_published_reading_received(t: Topic, r: ReadingModel)
    requires
        encode_utf8(r.device_id).len() <= u64::MAX,
    ensures
        delivery_of(topic_name(t), encoding_of(r)) == delivered_on(t, r),
{
    lemma_topic_names_distinct();
    lemma_round_trip(r);
}

} // verus!
