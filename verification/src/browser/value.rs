//! Values that cross the boundary to the host, and the slots that the host fills in.

use crate::failure::Failure;
use crate::failure::Payload;
use crate::text::join2;
use vstd::prelude::*;

verus! {

/// A JSON value of serde_json. Nothing is known of what it holds.
#[verifier::external_type_specification]
#[verifier::external_body]
pub struct ExJson(serde_json::Value);

/// An error of serde_json. Nothing is known of what it holds.
#[verifier::external_type_specification]
#[verifier::external_body]
pub struct ExJsonError(serde_json::Error);

/// The JSON string that holds `text`.
pub uninterp spec fn json_string(text: Seq<char>) -> serde_json::Value;

/// Makes the JSON string that holds `text`: the variant `String` of
/// `serde_json::Value`, built around the given text.
#[verifier::external_body]
fn json_from_string(text: String) -> (json: serde_json::Value)
    ensures
        json == json_string(text@),
{
    serde_json::Value::String(text)
}

/// The compact JSON text of a JSON value.
pub uninterp spec fn json_text(json: serde_json::Value) -> Seq<char>;

/// Makes JSON null: the variant `Null` of `serde_json::Value`, which is
/// written as `null`.
#[verifier::external_body]
fn json_null() -> (json: serde_json::Value)
    ensures
        json_text(json) == "null"@,
{
    serde_json::Value::Null
}

/// Copies a JSON value with `Clone::clone` of `serde_json::Value`; the copy is
/// the same value.
#[verifier::external_body]
fn json_clone(json: &serde_json::Value) -> (copy: serde_json::Value)
    ensures
        copy == *json,
{
    json.clone()
}

/// Writes a JSON value as compact JSON text, as `Display` of `serde_json::Value`
/// does. The text depends on the value alone.
#[verifier::external_body]
fn json_to_text(json: &serde_json::Value) -> (text: String)
    ensures
        text@ == json_text(*json),
{
    json.to_string()
}

/// Turns a value into JSON with `serde_json::to_value`. Whether this succeeds
/// is up to the value's own `Serialize`, so nothing is claimed of the result.
#[verifier::external_body]
fn json_serialize<T: serde::Serialize>(value: T) -> Result<serde_json::Value, serde_json::Error> {
    serde_json::to_value(value)
}

/// The message of an error of serde_json, as its `Display` gives it. Nothing is
/// claimed of the text.
#[verifier::external_body]
fn json_error_text(error: &serde_json::Error) -> String {
    error.to_string()
}

/// Reads a value out of JSON with `serde_json::from_value`. Whether this
/// succeeds is up to the target's own `Deserialize`, so nothing is claimed of
/// the result.
#[verifier::external_body]
fn json_deserialize<T: serde::de::DeserializeOwned>(json: serde_json::Value) -> Result<
    T,
    serde_json::Error,
> {
    serde_json::from_value(json)
}

/// A JSON value on its way to or from the host.
#[derive(Debug, PartialEq)]
pub struct JsonValue(serde_json::Value);

impl View for JsonValue {
    type V = serde_json::Value;

    closed spec fn view(&self) -> serde_json::Value {
        self.0
    }
}

impl Clone for JsonValue {
    fn clone(&self) -> (copy: Self)
        ensures
            copy@ == self@,
    {
        JsonValue(json_clone(&self.0))
    }
}

impl Default for JsonValue {
    /// JSON null: the value that is written as `null`.
    fn default() -> (value: Self)
        ensures
            json_text(value@) == "null"@,
    {
        JsonValue::empty()
    }
}

/// What a value that failed to serialize is replaced by: a JSON string that
/// holds the reason.
pub open spec fn serialize_failure(reason: Seq<char>) -> serde_json::Value {
    json_string("Failed to serialize value: "@ + reason)
}

impl JsonValue {
    /// Wraps a JSON value.
    pub fn from_json(json: serde_json::Value) -> (value: JsonValue)
        ensures
            value@ == json,
    {
        JsonValue(json)
    }

    /// Unwraps the JSON value.
    pub fn into_json(self) -> (json: serde_json::Value)
        ensures
            json == self@,
    {
        self.0
    }

    /// The value that a finished serialization stands for: the JSON it gave, or a
    /// JSON string that holds the reason why it gave none.
    pub fn from_serialized(result: Result<serde_json::Value, String>) -> (value: JsonValue)
        ensures
            result matches Ok(json) ==> value@ == json,
            result matches Err(reason) ==> value@ == serialize_failure(reason@),
    {
        match result {
            Ok(json) => JsonValue(json),
            Err(reason) => JsonValue(
                json_from_string(join2("Failed to serialize value: ", reason.as_str())),
            ),
        }
    }

    /// Reads the value as a `T`. Whether the value has the shape of a `T` is up to
    /// `T`; what is returned is what `JsonValue::parsed` makes of the outcome.
    pub fn parse<T: serde::de::DeserializeOwned>(&self) -> (r: Result<T, Failure>)
        ensures
            r matches Err(failure) ==> failure matches Failure::Decode { payload, reason }
                && payload == Payload::Value,
    {
        match json_deserialize(json_clone(&self.0)) {
            Ok(value) => JsonValue::parsed(Ok(value)),
            Err(error) => JsonValue::parsed(Err(json_error_text(&error))),
        }
    }

    /// JSON null: the value that is written as `null`.
    pub fn empty() -> (value: JsonValue)
        ensures
            json_text(value@) == "null"@,
    {
        JsonValue(json_null())
    }

    /// The value as compact JSON text.
    pub fn to_string(&self) -> (text: String)
        ensures
            text@ == json_text(self@),
    {
        json_to_text(&self.0)
    }

    /// What a finished reading stands for: the value that it gave, or the failure
    /// that holds the reason why it gave none.
    pub fn parsed<T>(outcome: Result<T, String>) -> (r: Result<T, Failure>)
        ensures
            outcome matches Ok(value) ==> r matches Ok(read) && read == value,
            outcome matches Err(reason) ==> r matches Err(
                Failure::Decode { payload, reason: given },
            ) && payload == Payload::Value && given == reason,
    {
        match outcome {
            Ok(value) => Ok(value),
            Err(reason) => Err(Failure::Decode { payload: Payload::Value, reason }),
        }
    }
}

/// Turns any serializable value into a `JsonValue`. A value that cannot be
/// serialized becomes a JSON string that says so, as `JsonValue::from_serialized` has it.
pub fn to_value<T: serde::Serialize>(value: T) -> JsonValue {
    match json_serialize(value) {
        Ok(json) => JsonValue::from_serialized(Ok(json)),
        Err(error) => JsonValue::from_serialized(Err(json_error_text(&error))),
    }
}

/// The text that stands on the wire for a slot that the host has yet to fill.
pub const CAPTURE_PLACEHOLDER: &'static str = "$CAPTURE_VALUE";

/// Whether `value` is what `T::default()` may return.
pub open spec fn is_default<T: Default>(value: T) -> bool {
    call_ensures(T::default, (), value)
}

/// Whether `to_msg` can be called on every value that `T::default()` may return.
pub open spec fn accepts_default<T: Default, Msg, ToMsg: Fn(T) -> Msg>(to_msg: ToMsg) -> bool {
    forall|slot: T| is_default::<T>(slot) ==> to_msg.requires((slot,))
}

/// Whether `msg` is what `to_msg` may return for a value that `T::default()` may return.
pub open spec fn made_from_default<T: Default, Msg, ToMsg: Fn(T) -> Msg>(
    to_msg: ToMsg,
    msg: Msg,
) -> bool {
    exists|slot: T| is_default::<T>(slot) && to_msg.ensures((slot,), msg)
}

/// Makes the message whose slot is still to be filled: `to_msg` applied to the default.
pub fn pending_msg<T: Default, Msg, ToMsg: Fn(T) -> Msg>(to_msg: ToMsg) -> (msg: Msg)
    requires
        accepts_default::<T, Msg, ToMsg>(to_msg),
    ensures
        made_from_default::<T, Msg, ToMsg>(to_msg, msg),
{
    let slot = T::default();
    let ghost pending = slot;
    assert(is_default::<T>(pending));
    let msg = to_msg(slot);
    assert(to_msg.ensures((pending,), msg));
    msg
}

/// A slot in a message that the host fills in after it has performed the effect
/// that the message is paired with. Until then the slot holds a default.
#[derive(Debug, PartialEq, Eq)]
pub struct Capture<T>(T);

impl<T> View for Capture<T> {
    type V = T;

    closed spec fn view(&self) -> T {
        self.0
    }
}

impl<T> Capture<T> {
    /// A slot that holds `value`.
    pub fn new(value: T) -> (capture: Capture<T>)
        ensures
            capture@ == value,
    {
        Capture(value)
    }

    /// What stands for the slot on the way to the host: the placeholder, whatever
    /// the slot holds.
    pub fn placeholder(&self) -> (token: &'static str)
        ensures
            token@ == CAPTURE_PLACEHOLDER@,
    {
        CAPTURE_PLACEHOLDER
    }
}

impl<T: Clone> Capture<T> {
    pub fn into_value(self) -> (value: T)
        ensures
            value == self@,
    {
        self.0
    }

    pub fn value(&self) -> (value: T)
        ensures
            cloned(self@, value),
    {
        self.0.clone()
    }

    pub fn value_ref(&self) -> (value: &T)
        ensures
            *value == self@,
    {
        &self.0
    }
}

impl<T: Clone> Clone for Capture<T> {
    fn clone(&self) -> (copy: Self)
        ensures
            cloned(self@, copy@),
    {
        Capture(self.0.clone())
    }
}

impl<T: Default> Default for Capture<T> {
    fn default() -> (capture: Self)
        ensures
            is_default::<T>(capture@),
    {
        Capture(T::default())
    }
}

} // verus!
