//! The JSON envelope: an object with the fields `clientMsgId`, `payloadType`
//! and `payload`, in a text message.
//!
//! `serde_json` parses and prints. The library builds the envelope from its
//! parts and reads the parts back; it does not look into the payload. What
//! this file says of `serde_json` is believed, not proved: the names that
//! stand for what its functions return, and the contracts of the functions
//! that call it.

use crate::error::CTraderError;
use vstd::prelude::*;
use vstd::string::StringExecFns;

verus! {

/// `serde_json::Value`, a JSON value.
#[verifier::external_type_specification]
#[verifier::external_body]
pub struct ExJsonValue(serde_json::Value);

/// `serde_json::Map`, the entries of a JSON object.
#[verifier::external_type_specification]
#[verifier::external_body]
#[verifier::reject_recursive_types(K)]
#[verifier::reject_recursive_types(V)]
pub struct ExJsonMap<K, V>(serde_json::Map<K, V>);

/// A JSON object.
pub type JsonObject = serde_json::Map<String, serde_json::Value>;

/// The entries that a JSON object holds, by key.
pub uninterp spec fn json_entries(object: JsonObject) -> Map<Seq<char>, serde_json::Value>;

/// What `Value::as_object` gives: the object that a value is, if it is one.
pub uninterp spec fn json_as_object(value: serde_json::Value) -> Option<JsonObject>;

/// What `Value::as_u64` gives: the number that a value is, if it is an
/// integer that is not negative and fits in 64 bits.
pub uninterp spec fn json_as_u64(value: serde_json::Value) -> Option<u64>;

/// What `Value::as_str` gives: the text that a value is, if it is a string.
pub uninterp spec fn json_as_text(value: serde_json::Value) -> Option<Seq<char>>;

/// What `serde_json::to_string` gives for a value: the text that it prints
/// to.
pub uninterp spec fn json_printed(value: serde_json::Value) -> Seq<char>;

/// The object that holds exactly these entries. An object is a map from keys
/// to values and nothing more, so its entries say which object it is.
pub uninterp spec fn json_object_of(entries: Map<Seq<char>, serde_json::Value>) -> JsonObject;

/// What `Value::from` gives for a `u32`: the value that is that number.
pub uninterp spec fn json_u32_value(number: u32) -> serde_json::Value;

/// What `Value::String` gives: the value that is that text.
pub uninterp spec fn json_text_value(text: Seq<char>) -> serde_json::Value;

/// What `Value::Object` gives: the value that is that object.
pub uninterp spec fn json_object_value(object: JsonObject) -> serde_json::Value;

/// What `serde_json::from_str` gives for a text: the value that it parses to,
/// or none where the parser refuses the text.
pub uninterp spec fn json_parsed(text: Seq<char>) -> Option<serde_json::Value>;

/// No entries.
pub open spec fn no_entries() -> Map<Seq<char>, serde_json::Value> {
    Map::empty()
}

/// The entry of an object under a key, if it has one.
pub open spec fn entry_of(object: JsonObject, key: Seq<char>) -> Option<serde_json::Value> {
    if json_entries(object).contains_key(key) {
        Some(json_entries(object)[key])
    } else {
        None
    }
}

/// `Map::new`: the object without entries.
#[verifier::external_body]
pub(crate) fn json_object_new() -> (object: JsonObject)
    ensures
        json_entries(object) == no_entries(),
        object == json_object_of(no_entries()),
{
    serde_json::Map::new()
}

/// `Map::insert`: the object holds `value` under `key`, in place of what it
/// held there, and every other entry as before. It is the object of those
/// entries.
#[verifier::external_body]
pub(crate) fn json_object_insert(object: &mut JsonObject, key: String, value: serde_json::Value)
    ensures
        json_entries(*final(object)) == json_entries(*old(object)).insert(key@, value),
        *final(object) == json_object_of(json_entries(*old(object)).insert(key@, value)),
{
    object.insert(key, value);
}

/// `Map::remove`: hands out the entry under `key`, if there is one, and leaves
/// the object without it, every other entry as before.
#[verifier::external_body]
pub(crate) fn json_object_remove(object: &mut JsonObject, key: &str) -> (entry: Option<
    serde_json::Value,
>)
    ensures
        entry == entry_of(*old(object), key@),
        json_entries(*final(object)) == json_entries(*old(object)).remove(key@),
{
    object.remove(key)
}

/// `Value::from` for a `u32`: the value that is that number.
#[verifier::external_body]
pub(crate) fn json_from_u32(number: u32) -> (value: serde_json::Value)
    ensures
        value == json_u32_value(number),
        json_as_u64(value) == Some(number as u64),
{
    serde_json::Value::from(number)
}

/// `Value::String`: the value that is that text.
#[verifier::external_body]
pub(crate) fn json_from_string(text: String) -> (value: serde_json::Value)
    ensures
        value == json_text_value(text@),
        json_as_text(value) == Some(text@),
{
    serde_json::Value::String(text)
}

/// `Value::Object`: the value that is that object.
#[verifier::external_body]
pub(crate) fn json_from_object(object: JsonObject) -> (value: serde_json::Value)
    ensures
        value == json_object_value(object),
        json_as_object(value) == Some(object),
{
    serde_json::Value::Object(object)
}

/// The variant `Value::Object` taken apart: the object that `as_object` would
/// lend, handed over.
#[verifier::external_body]
pub(crate) fn json_into_object(value: serde_json::Value) -> (object: Option<JsonObject>)
    ensures
        object == json_as_object(value),
{
    match value {
        serde_json::Value::Object(entries) => Some(entries),
        _ => None,
    }
}

/// The variant `Value::String` taken apart: the text that `as_str` would
/// lend, handed over.
#[verifier::external_body]
pub(crate) fn json_into_text(value: serde_json::Value) -> (text: Option<String>)
    ensures
        text is Some <==> json_as_text(value) is Some,
        text matches Some(owned) ==> json_as_text(value) == Some(owned@),
{
    match value {
        serde_json::Value::String(owned) => Some(owned),
        _ => None,
    }
}

/// `Value::as_u64`.
#[verifier::external_body]
pub(crate) fn json_to_u64(value: &serde_json::Value) -> (number: Option<u64>)
    ensures
        number == json_as_u64(*value),
{
    value.as_u64()
}

/// `serde_json::to_string` on a value: it succeeds, with the text that the
/// value prints to. Printing fails only where the writer fails or a part of
/// the input refuses to be printed; here the text goes into memory, and a
/// value has no such part: its keys are strings, and a number that is not
/// finite is printed as `null`.
#[verifier::external_body]
pub(crate) fn json_print(value: &serde_json::Value) -> (printed: Result<String, serde_json::Error>)
    ensures
        printed is Ok,
        printed matches Ok(text) ==> text@ == json_printed(*value),
{
    serde_json::to_string(value)
}

/// `serde_json::from_str` for a value: it succeeds on the texts that parse,
/// with the value that the text parses to, and fails on every other text.
#[verifier::external_body]
pub(crate) fn json_parse(text: &str) -> (parsed: Result<serde_json::Value, serde_json::Error>)
    ensures
        parsed matches Ok(value) ==> json_parsed(text@) == Some(value),
        parsed is Err ==> json_parsed(text@) is None,
{
    serde_json::from_str::<serde_json::Value>(text)
}

/// An envelope that was read: the three fields of the object.
#[derive(Debug)]
pub struct JsonEnvelope {
    /// The id that the sender gave the message, if it gave one. The client
    /// does not match answers to requests by it.
    pub client_msg_id: Option<String>,
    /// The id of the message type.
    pub payload_type: u32,
    /// The payload, whose fields depend on the message type.
    pub payload: JsonObject,
}

/// The parts of an envelope, as plain values.
pub struct EnvelopeParts {
    pub client_msg_id: Option<Seq<char>>,
    pub payload_type: u32,
    pub payload: JsonObject,
}

/// Why a text is not an envelope.
#[derive(Debug)]
pub enum EnvelopeError {
    /// The parser refused the text.
    Syntax(serde_json::Error),
    /// The text is JSON, and not an object.
    NotAnObject,
    /// `payloadType` is missing, or is not a number that fits in 32 bits.
    PayloadType,
    /// `payload` is missing, or is not an object.
    Payload,
    /// `clientMsgId` is there, and is not a string.
    ClientMsgId,
}

impl JsonEnvelope {
    /// The parts of the envelope, as plain values.
    pub open spec fn parts(&self) -> EnvelopeParts {
        EnvelopeParts {
            client_msg_id: match self.client_msg_id {
                Some(id) => Some(id@),
                None => None,
            },
            payload_type: self.payload_type,
            payload: self.payload,
        }
    }
}

/// The parts that an envelope is built from, as plain values.
pub open spec fn parts_of(
    payload_type: u32,
    payload: JsonObject,
    client_msg_id: Option<String>,
) -> EnvelopeParts {
    EnvelopeParts {
        client_msg_id: match client_msg_id {
            Some(id) => Some(id@),
            None => None,
        },
        payload_type,
        payload,
    }
}

/// The entries of the envelope of some parts.
pub open spec fn envelope_entries(parts: EnvelopeParts) -> Map<Seq<char>, serde_json::Value> {
    let named = match parts.client_msg_id {
        Some(id) => no_entries().insert("clientMsgId"@, json_text_value(id)),
        None => no_entries(),
    };
    named.insert("payloadType"@, json_u32_value(parts.payload_type)).insert(
        "payload"@,
        json_object_value(parts.payload),
    )
}

/// The envelope of some parts: the one value that is built from them.
pub open spec fn envelope_of(parts: EnvelopeParts) -> serde_json::Value {
    json_object_value(json_object_of(envelope_entries(parts)))
}

/// Whether `value` is the envelope of these parts: an object that holds the
/// payload type as a number, the payload as an object, the id as a string
/// where there is one, and no other entry.
pub open spec fn is_envelope_of(value: serde_json::Value, parts: EnvelopeParts) -> bool {
    json_as_object(value) matches Some(object) && {
        let entries = json_entries(object);
        &&& entries.contains_key("payloadType"@)
        &&& json_as_u64(entries["payloadType"@]) == Some(parts.payload_type as u64)
        &&& entries.contains_key("payload"@)
        &&& json_as_object(entries["payload"@]) == Some(parts.payload)
        &&& match parts.client_msg_id {
            Some(id) => entries.contains_key("clientMsgId"@) && json_as_text(
                entries["clientMsgId"@],
            ) == Some(id),
            None => !entries.contains_key("clientMsgId"@),
        }
        &&& forall|key: Seq<char>| #[trigger]
            entries.contains_key(key) ==> key == "payloadType"@ || key == "payload"@ || key
                == "clientMsgId"@
    }
}

/// What an object is read as: the parts of the envelope, or the first thing
/// that is wrong with it. Entries under other keys are passed over.
pub open spec fn envelope_of_object(object: JsonObject) -> Result<EnvelopeParts, EnvelopeError> {
    match entry_of(object, "payloadType"@) {
        None => Err(EnvelopeError::PayloadType),
        Some(type_entry) => match json_as_u64(type_entry) {
            None => Err(EnvelopeError::PayloadType),
            Some(number) => if number > u32::MAX {
                Err(EnvelopeError::PayloadType)
            } else {
                match entry_of(object, "payload"@) {
                    None => Err(EnvelopeError::Payload),
                    Some(payload_entry) => match json_as_object(payload_entry) {
                        None => Err(EnvelopeError::Payload),
                        Some(payload) => match entry_of(object, "clientMsgId"@) {
                            None => Ok(
                                EnvelopeParts {
                                    client_msg_id: None,
                                    payload_type: number as u32,
                                    payload,
                                },
                            ),
                            Some(id_entry) => match json_as_text(id_entry) {
                                None => Err(EnvelopeError::ClientMsgId),
                                Some(id) => Ok(
                                    EnvelopeParts {
                                        client_msg_id: Some(id),
                                        payload_type: number as u32,
                                        payload,
                                    },
                                ),
                            },
                        },
                    },
                }
            },
        },
    }
}

/// What a value is read as: the parts of the envelope, or the first thing that
/// is wrong with it.
pub open spec fn envelope_of_value(value: serde_json::Value) -> Result<
    EnvelopeParts,
    EnvelopeError,
> {
    match json_as_object(value) {
        None => Err(EnvelopeError::NotAnObject),
        Some(object) => envelope_of_object(object),
    }
}

/// The three keys of an envelope are three different texts.
pub proof fn lemma_keys_differ()
    ensures
        "payloadType"@ != "payload"@,
        "payloadType"@ != "clientMsgId"@,
        "payload"@ != "clientMsgId"@,
{
    reveal_strlit("payloadType");
    reveal_strlit("payload");
    reveal_strlit("clientMsgId");
    assert("payload"@.len() == 7);
    assert("clientMsgId"@[0] == 'c');
}

/// The envelope of a message: an object with the payload type, the payload,
/// and the id of the message where there is one.
pub fn envelope_value(payload_type: u32, payload: JsonObject, client_msg_id: Option<String>) -> (value:
    serde_json::Value)
    ensures
        value == envelope_of(parts_of(payload_type, payload, client_msg_id)),
        is_envelope_of(value, parts_of(payload_type, payload, client_msg_id)),
{
    proof {
        lemma_keys_differ();
    }
    let mut object = json_object_new();
    match client_msg_id {
        Some(id) => {
            json_object_insert(&mut object, String::from_str("clientMsgId"), json_from_string(id));
        },
        None => {},
    }
    json_object_insert(&mut object, String::from_str("payloadType"), json_from_u32(payload_type));
    json_object_insert(&mut object, String::from_str("payload"), json_from_object(payload));
    json_from_object(object)
}

/// Reads a value as an envelope.
pub fn read_envelope(value: serde_json::Value) -> (envelope: Result<JsonEnvelope, EnvelopeError>)
    ensures
        match envelope_of_value(value) {
            Ok(parts) => envelope matches Ok(read) && read.parts() == parts,
            Err(reason) => envelope matches Err(found) && found == reason,
        },
{
    proof {
        lemma_keys_differ();
    }
    let mut object = match json_into_object(value) {
        Some(object) => object,
        None => {
            return Err(EnvelopeError::NotAnObject);
        },
    };
    let payload_type: u32 = match json_object_remove(&mut object, "payloadType") {
        Some(entry) => match json_to_u64(&entry) {
            Some(number) => {
                if number > 0xFFFF_FFFF {
                    return Err(EnvelopeError::PayloadType);
                }
                number as u32
            },
            None => {
                return Err(EnvelopeError::PayloadType);
            },
        },
        None => {
            return Err(EnvelopeError::PayloadType);
        },
    };
    let payload = match json_object_remove(&mut object, "payload") {
        Some(entry) => match json_into_object(entry) {
            Some(payload) => payload,
            None => {
                return Err(EnvelopeError::Payload);
            },
        },
        None => {
            return Err(EnvelopeError::Payload);
        },
    };
    let client_msg_id = match json_object_remove(&mut object, "clientMsgId") {
        Some(entry) => match json_into_text(entry) {
            Some(id) => Some(id),
            None => {
                return Err(EnvelopeError::ClientMsgId);
            },
        },
        None => None,
    };
    Ok(JsonEnvelope { client_msg_id, payload_type, payload })
}

/// The envelope of a message as text: the text that the envelope of the parts
/// prints to. It is owed for every input, and the same parts give the same
/// text.
pub fn encode_json(payload_type: u32, payload: JsonObject, client_msg_id: Option<String>) -> (text:
    Result<String, CTraderError>)
    ensures
        text matches Ok(printed) && printed@ == json_printed(
            envelope_of(parts_of(payload_type, payload, client_msg_id)),
        ),
        is_envelope_of(
            envelope_of(parts_of(payload_type, payload, client_msg_id)),
            parts_of(payload_type, payload, client_msg_id),
        ),
{
    let value = envelope_value(payload_type, payload, client_msg_id);
    match json_print(&value) {
        Ok(printed) => Ok(printed),
        Err(error) => Err(CTraderError::from(error)),
    }
}

/// What a text decodes to: the parts of the envelope, or none where the
/// parser refuses the text or the value is not an envelope.
pub open spec fn decoded(text: Seq<char>) -> Option<EnvelopeParts> {
    match json_parsed(text) {
        None => None,
        Some(value) => match envelope_of_value(value) {
            Ok(parts) => Some(parts),
            Err(_) => None,
        },
    }
}

/// Reads a text as an envelope.
pub fn decode_json(text: &str) -> (envelope: Result<JsonEnvelope, EnvelopeError>)
    ensures
        match json_parsed(text@) {
            None => envelope matches Err(EnvelopeError::Syntax(_)),
            Some(value) => match envelope_of_value(value) {
                Ok(parts) => envelope matches Ok(read) && read.parts() == parts,
                Err(reason) => envelope matches Err(found) && found == reason,
            },
        },
        envelope matches Ok(read) ==> decoded(text@) == Some(read.parts()),
        envelope is Err ==> decoded(text@) is None,
{
    match json_parse(text) {
        Ok(value) => read_envelope(value),
        Err(error) => Err(EnvelopeError::Syntax(error)),
    }
}

/// Reading undoes building: the envelope of some parts is read as those
/// parts.
pub proof fn lemma_envelope_roundtrip(value: serde_json::Value, parts: EnvelopeParts)
    requires
        is_envelope_of(value, parts),
    ensures
        envelope_of_value(value) == Ok::<EnvelopeParts, EnvelopeError>(parts),
{
}

/// Decoding undoes encoding, for every envelope that `serde_json` parses back
/// from what it printed: the text of the envelope of some parts decodes to
/// those parts.
pub proof fn lemma_json_roundtrip(value: serde_json::Value, parts: EnvelopeParts)
    requires
        is_envelope_of(value, parts),
        json_parsed(json_printed(value)) == Some(value),
    ensures
        decoded(json_printed(value)) == Some(parts),
{
    lemma_envelope_roundtrip(value, parts);
}

} // verus!
