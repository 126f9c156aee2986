//! The ways in which a call of the host can fail.

use crate::text::join2;
use vstd::prelude::*;

verus! {

/// What crosses the boundary to the host.
#[derive(Clone, Copy, Debug, PartialEq, Eq, Structural)]
pub enum Payload {
    Model,
    Msg,
    ModelAndEffects,
    Subscriptions,
    /// A single value, such as the outcome of an effect.
    Value,
}

impl Payload {
    /// The payload's name in a failure's text.
    pub open spec fn text(&self) -> Seq<char> {
        match self {
            Payload::Model => "model"@,
            Payload::Msg => "msg"@,
            Payload::ModelAndEffects => "model and effects"@,
            Payload::Subscriptions => "subscriptions"@,
            Payload::Value => "value"@,
        }
    }

    /// The payload's name in a failure's text.
    pub fn to_string(&self) -> (text: String)
        ensures
            text@ == self.text(),
    {
        match self {
            Payload::Model => String::from_str("model"),
            Payload::Msg => String::from_str("msg"),
            Payload::ModelAndEffects => String::from_str("model and effects"),
            Payload::Subscriptions => String::from_str("subscriptions"),
            Payload::Value => String::from_str("value"),
        }
    }
}

/// Why a call of the host did not go through. A failure ends that call and no
/// other; nothing is tried again.
#[derive(Clone, Debug, PartialEq, Eq)]
pub enum Failure {
    /// What the host sent does not have the shape of the payload.
    Decode { payload: Payload, reason: String },
    /// The page itself refused, for the reason it gave.
    Update { reason: String },
    /// The payload cannot be written for the host.
    Encode { payload: Payload, reason: String },
}

impl Failure {
    /// The failure as the host is told it.
    pub open spec fn text(&self) -> Seq<char> {
        match self {
            Failure::Decode { payload, reason } => "Failed to decode "@ + payload.text() + ": "@
                + reason@,
            Failure::Update { reason } => reason@,
            Failure::Encode { payload, reason } => "Failed to encode "@ + payload.text() + ": "@
                + reason@,
        }
    }

    /// The failure as the host is told it.
    pub fn to_string(&self) -> (text: String)
        ensures
            text@ == self.text(),
    {
        match self {
            Failure::Decode { payload, reason } => {
                let mut text = join2("Failed to decode ", payload.to_string().as_str());
                text.append(": ");
                text.append(reason.as_str());
                text
            },
            Failure::Update { reason } => reason.clone(),
            Failure::Encode { payload, reason } => {
                let mut text = join2("Failed to encode ", payload.to_string().as_str());
                text.append(": ");
                text.append(reason.as_str());
                text
            },
        }
    }
}

} // verus!
