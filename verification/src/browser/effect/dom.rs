//! Reading from and acting on the document.

use crate::browser::dom_id::DomId;
use crate::browser::effect::Effect;
use crate::browser::event::EventTarget;
use crate::browser::selector::Selector;
use vstd::prelude::*;

verus! {

#[derive(Clone, Debug, PartialEq)]
pub enum Dom {
    FocusElement { element_id: String },
    SelectInputText { element_id: String },
    GetElementValue { element_id: String, parse_as_json: bool },
    GetRadioGroupValue { selector: Selector, parse_as_json: bool },
    GetTargetDataValue { name: String, parse_as_json: bool },
    GetFiles { element_id: String },
    GetWindowSize,
    DispatchEvent { event_target: EventTarget, event_type: String, bubbles: bool, cancelable: bool },
}

/// Whether `effect` reads the value of the element with the given id, as JSON or as text.
pub open spec fn reads_element_value<Msg>(effect: Effect<Msg>, id: Seq<char>, as_json: bool) -> bool {
    effect matches Effect::Dom(Dom::GetElementValue { element_id, parse_as_json }) && element_id@
        == id && parse_as_json == as_json
}

/// Whether `effect` reads the checked value of the radio group that `selector`
/// finds, as JSON or as text.
pub open spec fn reads_radio_group_value<Msg>(
    effect: Effect<Msg>,
    selector: Seq<char>,
    as_json: bool,
) -> bool {
    effect matches Effect::Dom(Dom::GetRadioGroupValue { selector: group, parse_as_json })
        && group@ == selector && parse_as_json == as_json
}

/// Whether `effect` reads the data attribute `name` of the event's target, as
/// JSON or as text.
pub open spec fn reads_target_data_value<Msg>(
    effect: Effect<Msg>,
    name: Seq<char>,
    as_json: bool,
) -> bool {
    effect matches Effect::Dom(Dom::GetTargetDataValue { name: attribute, parse_as_json })
        && attribute@ == name && parse_as_json == as_json
}

/// Moves the focus to the element.
pub fn focus_element<Msg>(id: &DomId) -> (effect: Effect<Msg>)
    ensures
        effect matches Effect::Dom(Dom::FocusElement { element_id }) && element_id@ == id@,
{
    Effect::Dom(Dom::FocusElement { element_id: id.to_string() })
}

/// Selects the text in the input element.
pub fn select_input_text<Msg>(id: &DomId) -> (effect: Effect<Msg>)
    ensures
        effect matches Effect::Dom(Dom::SelectInputText { element_id }) && element_id@ == id@,
{
    Effect::Dom(Dom::SelectInputText { element_id: id.to_string() })
}

/// Reads the element's value and parses it as JSON.
pub fn get_element_json_value<Msg>(id: &DomId) -> (effect: Effect<Msg>)
    ensures
        reads_element_value(effect, id@, true),
{
    Effect::Dom(Dom::GetElementValue { element_id: id.to_string(), parse_as_json: true })
}

/// Reads the element's value as text.
pub fn get_element_string_value<Msg>(id: &DomId) -> (effect: Effect<Msg>)
    ensures
        reads_element_value(effect, id@, false),
{
    Effect::Dom(Dom::GetElementValue { element_id: id.to_string(), parse_as_json: false })
}

/// Reads the value of the checked button of a radio group and parses it as JSON.
pub fn get_radio_group_json_value<Msg>(selector: &Selector) -> (effect: Effect<Msg>)
    ensures
        reads_radio_group_value(effect, selector@, true),
{
    Effect::Dom(
        Dom::GetRadioGroupValue {
            selector: Selector::new(selector.to_string().as_str()),
            parse_as_json: true,
        },
    )
}

/// Reads the value of the checked button of a radio group as text.
pub fn get_radio_group_string_value<Msg>(selector: &Selector) -> (effect: Effect<Msg>)
    ensures
        reads_radio_group_value(effect, selector@, false),
{
    Effect::Dom(
        Dom::GetRadioGroupValue {
            selector: Selector::new(selector.to_string().as_str()),
            parse_as_json: false,
        },
    )
}

/// Reads which files the user picked in the file input.
pub fn get_files<Msg>(id: &DomId) -> (effect: Effect<Msg>)
    ensures
        effect matches Effect::Dom(Dom::GetFiles { element_id }) && element_id@ == id@,
{
    Effect::Dom(Dom::GetFiles { element_id: id.to_string() })
}

/// Reads the data attribute `name` of the event's target as text.
pub fn get_target_data_string_value<Msg>(name: &str) -> (effect: Effect<Msg>)
    ensures
        reads_target_data_value(effect, name@, false),
{
    Effect::Dom(Dom::GetTargetDataValue { name: String::from_str(name), parse_as_json: false })
}

/// Reads the data attribute `name` of the event's target and parses it as JSON.
pub fn get_target_data_json_value<Msg>(name: &str) -> (effect: Effect<Msg>)
    ensures
        reads_target_data_value(effect, name@, true),
{
    Effect::Dom(Dom::GetTargetDataValue { name: String::from_str(name), parse_as_json: true })
}

/// Reads the size of the window.
pub fn window_size<Msg>() -> (effect: Effect<Msg>)
    ensures
        effect is Dom,
        effect->Dom_0 is GetWindowSize,
{
    Effect::Dom(Dom::GetWindowSize)
}

/// Whether `effect` dispatches an event of the given type, which neither bubbles
/// nor can be cancelled.
pub open spec fn dispatches_plain_event<Msg>(effect: Effect<Msg>, event_type: Seq<char>) -> bool {
    effect matches Effect::Dom(Dom::DispatchEvent { event_target, event_type: sent, bubbles, cancelable })
        && sent@ == event_type && !bubbles && !cancelable
}

/// Dispatches an event on the window.
pub fn dispatch_window_event<Msg>(event_type: &str) -> (effect: Effect<Msg>)
    ensures
        dispatches_plain_event(effect, event_type@),
        effect->Dom_0->event_target is Window,
{
    Effect::Dom(
        Dom::DispatchEvent {
            event_target: EventTarget::Window,
            event_type: String::from_str(event_type),
            bubbles: false,
            cancelable: false,
        },
    )
}

/// Dispatches an event on the document.
pub fn dispatch_document_event<Msg>(event_type: &str) -> (effect: Effect<Msg>)
    ensures
        dispatches_plain_event(effect, event_type@),
        effect->Dom_0->event_target is Document,
{
    Effect::Dom(
        Dom::DispatchEvent {
            event_target: EventTarget::Document,
            event_type: String::from_str(event_type),
            bubbles: false,
            cancelable: false,
        },
    )
}

/// Dispatches an event on the element.
pub fn dispatch_element_event<Msg>(id: &DomId, event_type: &str) -> (effect: Effect<Msg>)
    ensures
        dispatches_plain_event(effect, event_type@),
        effect->Dom_0->event_target matches EventTarget::Element { element_id } && element_id@
            == id@,
{
    Effect::Dom(
        Dom::DispatchEvent {
            event_target: EventTarget::Element { element_id: id.to_string() },
            event_type: String::from_str(event_type),
            bubbles: false,
            cancelable: false,
        },
    )
}

} // verus!
