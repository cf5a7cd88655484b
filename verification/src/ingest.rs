//! The decisions of the ingestor: what to put out for an item of the inbound
//! stream, and what the item does to the store.
//!
//! Items are taken one at a time, in the order in which they arrive. An item
//! without a message is a signal to go on waiting and changes nothing.

use crate::classify::{classified, classify};
use crate::json::{decode_lossy, lossy_text};
use crate::store::{upserted, StoreModel, TopicStore};
use vstd::prelude::*;
use vstd::string::StrSliceExecFns;
use vstd::utf8::encode_utf8;

verus! {

/// One message of the inbound stream.
#[derive(Debug, PartialEq)]
pub struct InboundMessage {
    pub topic: String,
    pub payload: Vec<u8>,
}

/// What the ingestor puts out for one item of the stream.
#[derive(Debug, PartialEq)]
pub enum Output {
    /// The stream gave no message: a warning is logged.
    Warning,
    /// The message goes to the file sink, as these writes in this order.
    Sink { writes: Vec<Vec<u8>> },
    /// The message goes to the console: the topic and the payload's text.
    Console { topic: String, text: String },
}

/// The mathematical content of an `Output`.
pub ghost enum OutputModel {
    Warning,
    Sink { writes: Seq<Seq<u8>> },
    Console { topic: Seq<char>, text: Seq<char> },
}

impl View for Output {
    type V = OutputModel;

    open spec fn view(&self) -> OutputModel {
        match self {
            Output::Warning => OutputModel::Warning,
            Output::Sink { writes } => OutputModel::Sink {
                writes: writes@.map_values(|write: Vec<u8>| write@),
            },
            Output::Console { topic, text } => OutputModel::Console { topic: topic@, text: text@ },
        }
    }
}

/// The bytes between topic and payload in the sink: a space, a hyphen, a
/// space.
pub open spec fn separator() -> Seq<u8> {
    seq![0x20u8, 0x2Du8, 0x20u8]
}

/// The bytes that end a record in the sink: one line feed.
pub open spec fn terminator() -> Seq<u8> {
    seq![0x0Au8]
}

/// The writes that put one message into the sink: the topic's bytes, the
/// separator, the payload's bytes, the terminator.
pub open spec fn sink_record(topic: Seq<char>, payload: Seq<u8>) -> Seq<Seq<u8>> {
    seq![encode_utf8(topic), separator(), payload, terminator()]
}

/// What is put out for an item of the stream: a warning where it holds no
/// message; else the sink's writes where a sink is configured, and the topic
/// with the payload's text for the console where none is.
pub open spec fn planned_output(
    item: Option<(Seq<char>, Seq<u8>)>,
    sink_configured: bool,
) -> OutputModel {
    match item {
        None => OutputModel::Warning,
        Some((topic, payload)) => if sink_configured {
            OutputModel::Sink { writes: sink_record(topic, payload) }
        } else {
            OutputModel::Console { topic, text: lossy_text(payload) }
        },
    }
}

/// The store after an item of the stream: unchanged where the item holds no
/// message, else with the message's classified payload written under its
/// topic.
pub open spec fn absorbed(store: StoreModel, item: Option<(Seq<char>, Seq<u8>)>) -> StoreModel {
    match item {
        None => store,
        Some((topic, payload)) => upserted(store, topic, classified(payload)),
    }
}

/// An item of the stream as contracts speak of it.
pub open spec fn item_model(item: Option<InboundMessage>) -> Option<(Seq<char>, Seq<u8>)> {
    match item {
        None => None,
        Some(message) => Some((message.topic@, message.payload@)),
    }
}

/// A copy of `bytes`.
pub fn copy_bytes(bytes: &[u8]) -> (copy: Vec<u8>)
    ensures
        copy@ == bytes@,
{
    let mut copy: Vec<u8> = Vec::new();
    let mut i: usize = 0;
    while i < bytes.len()
        invariant
            i <= bytes.len(),
            copy@ == bytes@.take(i as int),
        decreases bytes.len() - i,
    {
        copy.push(bytes[i]);
        assert(bytes@.take(i + 1) =~= bytes@.take(i as int).push(bytes[i as int]));
        i += 1;
    }
    assert(bytes@.take(i as int) =~= bytes@);
    copy
}

/// The writes that put `message` into the sink.
pub fn sink_writes(message: &InboundMessage) -> (writes: Vec<Vec<u8>>)
    ensures
        writes@.map_values(|write: Vec<u8>| write@) == sink_record(
            message.topic@,
            message.payload@,
        ),
{
    let mut writes: Vec<Vec<u8>> = Vec::new();
    writes.push(message.topic.as_str().as_bytes_vec());
    let mut between: Vec<u8> = Vec::new();
    between.push(0x20u8);
    between.push(0x2Du8);
    between.push(0x20u8);
    assert(between@ =~= separator());
    writes.push(between);
    writes.push(copy_bytes(message.payload.as_slice()));
    let mut end: Vec<u8> = Vec::new();
    end.push(0x0Au8);
    assert(end@ =~= terminator());
    writes.push(end);
    assert(writes@.map_values(|write: Vec<u8>| write@) =~= sink_record(
        message.topic@,
        message.payload@,
    ));
    writes
}

/// Decides what is put out for an item of the stream.
pub fn output_for(item: &Option<InboundMessage>, sink_configured: bool) -> (output: Output)
    ensures
        output@ == planned_output(item_model(*item), sink_configured),
{
    match item {
        None => Output::Warning,
        Some(message) => {
            if sink_configured {
                Output::Sink { writes: sink_writes(message) }
            } else {
                Output::Console {
                    topic: message.topic.clone(),
                    text: decode_lossy(message.payload.as_slice()),
                }
            }
        },
    }
}

/// Takes an item of the stream into the store: a message's payload is
/// classified and written under its topic, over whatever the topic held.
pub fn absorb(store: &mut TopicStore, item: Option<InboundMessage>)
    ensures
        final(store)@ == absorbed(old(store)@, item_model(item)),
{
    match item {
        None => {},
        Some(message) => {
            let value = classify(message.payload.as_slice());
            store.upsert(message.topic, value);
        },
    }
}

/// Items that hold no message leave the store as it is, and of two messages
/// on one topic the later one decides what the store holds for it.
pub proof fn lemma_arrival_order_decides(
    store: StoreModel,
    topic: Seq<char>,
    earlier: Seq<u8>,
    later: Seq<u8>,
)
    ensures
        absorbed(store, None) == store,
        absorbed(absorbed(store, Some((topic, earlier))), Some((topic, later))) == absorbed(
            store,
            Some((topic, later)),
        ),
        absorbed(absorbed(store, Some((topic, earlier))), Some((topic, later)))[topic]
            == classified(later),
{
    assert(absorbed(absorbed(store, Some((topic, earlier))), Some((topic, later))) =~= absorbed(
        store,
        Some((topic, later)),
    ));
}

} // verus!
