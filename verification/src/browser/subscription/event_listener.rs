//! Listeners for the events of the document and the window.

use crate::browser::dom_id::DomId;
use crate::browser::effect::dom::get_element_json_value;
use crate::browser::effect::dom::get_element_string_value;
use crate::browser::effect::dom::get_radio_group_json_value;
use crate::browser::effect::dom::get_radio_group_string_value;
use crate::browser::effect::dom::get_target_data_string_value;
use crate::browser::effect::dom::reads_element_value;
use crate::browser::effect::dom::reads_radio_group_value;
use crate::browser::effect::dom::reads_target_data_value;
use crate::browser::effect::dom::window_size;
use crate::browser::effect::dom::Dom;
use crate::browser::effect::Effect;
use crate::browser::keyboard::Key;
use crate::browser::mouse::Button;
use crate::browser::queue_strategy::QueueStrategy;
use crate::browser::selector::data_selector;
use crate::browser::selector::id_selector;
use crate::browser::selector::radio_group_selector;
use crate::browser::selector::Selector;
use crate::browser::subscription::listener_id::id_of;
use crate::browser::subscription::listener_id::lemma_ids_tell_apart;
use crate::browser::subscription::listener_id::listener_id;
use crate::browser::subscription::Subscription;
use crate::browser::subscription::SubscriptionMsg;
use crate::browser::value::accepts_default;
use crate::browser::value::made_from_default;
use crate::browser::value::Capture;
use vstd::prelude::*;

verus! {

/// The object that a listener is attached to.
#[derive(Clone, Copy, Debug, PartialEq, Eq, Structural)]
pub enum ListenTarget {
    Window,
    Document,
}

/// The kinds of event that can be listened for.
#[derive(Clone, Copy, Debug, PartialEq, Eq, Structural)]
pub enum EventType {
    Click,
    Mousedown,
    Input,
    Change,
    Submit,
    Keyup,
    Keydown,
    Resize,
}

/// What the host does with an event once a listener has taken it.
#[derive(Clone, Copy, Debug, PartialEq, Eq, Structural)]
pub struct EventPropagation {
    pub stop_propagation: bool,
    pub prevent_default: bool,
}

/// One condition that an event has to meet. The matchers of a listener must all hold.
#[derive(Clone, Debug, PartialEq, Eq)]
pub enum EventMatcher {
    /// The element that the event happened on satisfies the selector.
    ExactSelector { selector: Selector },
    /// The element that the event happened on, or one that it lies in, satisfies
    /// the selector.
    ClosestSelector { selector: Selector },
    MouseButton { button: Button },
    /// The key is the given one, and Ctrl and Meta are held or not exactly as required.
    KeyboardKey { key: Key, requires_ctrl: bool, requires_meta: bool },
}

/// What a matcher demands, with its texts as plain sequences of characters.
pub enum Demand {
    ExactSelector { selector: Seq<char> },
    ClosestSelector { selector: Seq<char> },
    MouseButton { button: Button },
    KeyboardKey { key: Seq<char>, requires_ctrl: bool, requires_meta: bool },
}

impl View for EventMatcher {
    type V = Demand;

    open spec fn view(&self) -> Demand {
        match self {
            EventMatcher::ExactSelector { selector } => Demand::ExactSelector {
                selector: selector@,
            },
            EventMatcher::ClosestSelector { selector } => Demand::ClosestSelector {
                selector: selector@,
            },
            EventMatcher::MouseButton { button } => Demand::MouseButton { button: *button },
            EventMatcher::KeyboardKey { key, requires_ctrl, requires_meta } => Demand::KeyboardKey {
                key: key.text(),
                requires_ctrl: *requires_ctrl,
                requires_meta: *requires_meta,
            },
        }
    }
}

/// What each of a row of matchers demands.
pub open spec fn demands(matchers: Seq<EventMatcher>) -> Seq<Demand> {
    Seq::new(matchers.len(), |i: int| matchers[i]@)
}

/// The modifier keys that a keyboard listener wants held.
#[derive(Debug, PartialEq, Eq)]
pub enum ModifierKey {
    NoModifier,
    Ctrl,
    Meta,
    Multiple(Vec<ModifierKey>),
}

impl Clone for ModifierKey {
    fn clone(&self) -> (copy: Self)
        decreases self,
    {
        match self {
            ModifierKey::NoModifier => ModifierKey::NoModifier,
            ModifierKey::Ctrl => ModifierKey::Ctrl,
            ModifierKey::Meta => ModifierKey::Meta,
            ModifierKey::Multiple(keys) => {
                let mut copies: Vec<ModifierKey> = Vec::new();
                let mut i: usize = 0;
                while i < keys.len()
                    invariant
                        i <= keys.len(),
                        self matches ModifierKey::Multiple(members) && members == keys,
                    decreases keys.len() - i,
                {
                    proof {
                        vstd::std_specs::vec::axiom_vec_index_decreases(*keys, i as int);
                    }
                    copies.push(keys[i].clone());
                    i += 1;
                }
                ModifierKey::Multiple(copies)
            },
        }
    }
}

/// The names of the first `n` of `keys`, with a hyphen between neighbours.
pub open spec fn joined_texts(keys: Seq<ModifierKey>, n: nat) -> Seq<char>
    decreases keys, n,
{
    if n == 0 || n > keys.len() {
        Seq::empty()
    } else if n == 1 {
        keys[0].text()
    } else {
        joined_texts(keys, (n - 1) as nat) + "-"@ + keys[n - 1].text()
    }
}

impl ModifierKey {
    /// Whether Ctrl is among the wanted keys.
    pub open spec fn wants_ctrl(&self) -> bool
        decreases self,
    {
        match self {
            ModifierKey::Ctrl => true,
            ModifierKey::Multiple(keys) => exists|i: int|
                0 <= i < keys.len() && (#[trigger] keys[i]).wants_ctrl(),
            _ => false,
        }
    }

    /// Whether Meta is among the wanted keys.
    pub open spec fn wants_meta(&self) -> bool
        decreases self,
    {
        match self {
            ModifierKey::Meta => true,
            ModifierKey::Multiple(keys) => exists|i: int|
                0 <= i < keys.len() && (#[trigger] keys[i]).wants_meta(),
            _ => false,
        }
    }

    /// The name of the modifier as it appears in a listener's id.
    pub open spec fn text(&self) -> Seq<char>
        decreases self, 0nat,
    {
        match self {
            ModifierKey::NoModifier => "no-modifier"@,
            ModifierKey::Ctrl => "ctrl"@,
            ModifierKey::Meta => "meta"@,
            ModifierKey::Multiple(keys) => joined_texts(keys@, keys@.len()),
        }
    }

    pub fn requires_ctrl(&self) -> (r: bool)
        ensures
            r == self.wants_ctrl(),
        decreases self,
    {
        match self {
            ModifierKey::Ctrl => true,
            ModifierKey::Multiple(keys) => {
                let mut i: usize = 0;
                while i < keys.len()
                    invariant
                        i <= keys.len(),
                        self matches ModifierKey::Multiple(members) && members == keys,
                        forall|j: int| 0 <= j < i ==> !(#[trigger] keys[j]).wants_ctrl(),
                    decreases keys.len() - i,
                {
                    proof {
                        vstd::std_specs::vec::axiom_vec_index_decreases(*keys, i as int);
                    }
                    if keys[i].requires_ctrl() {
                        assert(keys[i as int].wants_ctrl());
                        return true;
                    }
                    i += 1;
                }
                false
            },
            _ => false,
        }
    }

    pub fn requires_meta(&self) -> (r: bool)
        ensures
            r == self.wants_meta(),
        decreases self,
    {
        match self {
            ModifierKey::Meta => true,
            ModifierKey::Multiple(keys) => {
                let mut i: usize = 0;
                while i < keys.len()
                    invariant
                        i <= keys.len(),
                        self matches ModifierKey::Multiple(members) && members == keys,
                        forall|j: int| 0 <= j < i ==> !(#[trigger] keys[j]).wants_meta(),
                    decreases keys.len() - i,
                {
                    proof {
                        vstd::std_specs::vec::axiom_vec_index_decreases(*keys, i as int);
                    }
                    if keys[i].requires_meta() {
                        assert(keys[i as int].wants_meta());
                        return true;
                    }
                    i += 1;
                }
                false
            },
            _ => false,
        }
    }

    /// The name of the modifier as it appears in a listener's id.
    pub fn to_string(&self) -> (text: String)
        ensures
            text@ == self.text(),
        decreases self,
    {
        match self {
            ModifierKey::NoModifier => String::from_str("no-modifier"),
            ModifierKey::Ctrl => String::from_str("ctrl"),
            ModifierKey::Meta => String::from_str("meta"),
            ModifierKey::Multiple(keys) => {
                let mut text = String::new();
                let mut i: usize = 0;
                while i < keys.len()
                    invariant
                        i <= keys.len(),
                        self matches ModifierKey::Multiple(members) && members == keys,
                        text@ == joined_texts(keys@, i as nat),
                    decreases keys.len() - i,
                {
                    proof {
                        vstd::std_specs::vec::axiom_vec_index_decreases(*keys, i as int);
                    }
                    if i > 0 {
                        text.append("-");
                    }
                    let name = keys[i].to_string();
                    text.append(name.as_str());
                    proof {
                        assert(Seq::<char>::empty() + keys[i as int].text() =~= keys[i as int].text());
                    }
                    i += 1;
                }
                text
            },
        }
    }
}

/// A listener: which events it takes, and what it delivers for each.
#[derive(Debug, PartialEq)]
pub struct EventListener<Msg> {
    /// Tells the listener apart from every other. It depends on the listen
    /// target, the kind of event and the matchers, and not on `msg`, so a
    /// listener keeps its id when the model changes what it delivers.
    pub id: String,
    pub listen_target: ListenTarget,
    pub event_type: EventType,
    pub matchers: Vec<EventMatcher>,
    pub msg: SubscriptionMsg<Msg>,
    pub propagation: EventPropagation,
    pub queue_strategy: QueueStrategy,
}

impl<Msg: Clone> Clone for EventListener<Msg> {
    fn clone(&self) -> (copy: Self) {
        EventListener {
            id: self.id.clone(),
            listen_target: self.listen_target,
            event_type: self.event_type,
            matchers: self.matchers.clone(),
            msg: self.msg.clone(),
            propagation: self.propagation,
            queue_strategy: self.queue_strategy,
        }
    }
}

/// A listener without the message that it delivers.
pub struct Description {
    pub id: Seq<char>,
    pub listen_target: ListenTarget,
    pub event_type: EventType,
    pub matchers: Seq<Demand>,
    pub propagation: EventPropagation,
    pub queue_strategy: QueueStrategy,
}

impl<Msg> EventListener<Msg> {
    /// Whether the listener goes by the id that belongs to what it listens on, for
    /// which kind of event, and what it demands.
    pub open spec fn is_identified(&self) -> bool {
        self.id@ == id_of(self.listen_target, self.event_type, demands(self.matchers@))
    }

    /// The listener without its message.
    pub open spec fn description(&self) -> Description {
        Description {
            id: self.id@,
            listen_target: self.listen_target,
            event_type: self.event_type,
            matchers: demands(self.matchers@),
            propagation: self.propagation,
            queue_strategy: self.queue_strategy,
        }
    }
}

/// How occurrences of a kind of event are queued: clicks, presses of a mouse
/// button and submissions each count; of the others only the latest matters.
pub open spec fn strategy_for(event_type: EventType) -> QueueStrategy {
    match event_type {
        EventType::Click | EventType::Mousedown | EventType::Submit => QueueStrategy::Fifo,
        _ => QueueStrategy::DropOlder,
    }
}

/// The event is kept from the rest of the page.
pub open spec fn contained() -> EventPropagation {
    EventPropagation { stop_propagation: true, prevent_default: true }
}

/// The event goes on to the rest of the page.
pub open spec fn passed_on() -> EventPropagation {
    EventPropagation { stop_propagation: false, prevent_default: false }
}

/// The listener on `listen_target` for `event_type` with the given demands,
/// but for its message: its id is the one that belongs to these three, and
/// its queue strategy the one of its kind of event.
pub open spec fn outlined(
    listen_target: ListenTarget,
    event_type: EventType,
    matchers: Seq<Demand>,
    propagation: EventPropagation,
) -> Description {
    Description {
        id: id_of(listen_target, event_type, matchers),
        listen_target,
        event_type,
        matchers,
        propagation,
        queue_strategy: strategy_for(event_type),
    }
}

/// The ways in which this module makes a listener.
pub enum Recipe {
    /// Events of one kind on the element with the given id, or also on what lies in it.
    Element { id: Seq<char>, event_type: EventType, closest: bool },
    /// Presses of the main mouse button on the element with the given id.
    MouseDown { id: Seq<char> },
    /// Clicks on the elements that satisfy a selector, or also on what lies in them.
    ClickSelector { selector: Seq<char>, closest: bool },
    /// Changes of the elements that satisfy a selector.
    ChangeSelector { selector: Seq<char> },
    /// Clicks on the elements that carry a data attribute, or also on what lies in them.
    ClickData { name: Seq<char>, closest: bool },
    /// Changes of the radio buttons that share a name.
    RadioChange { name: Seq<char> },
    /// Releases of a key, anywhere in the document.
    Keyup { key: Seq<char> },
    /// Presses of a key together with modifiers, anywhere in the document.
    Keydown { key: Seq<char>, modifier: ModifierKey, propagation: EventPropagation },
    /// Changes of the window's size.
    WindowResize,
}

/// The matcher for a selector, exact or closest.
pub open spec fn selector_demand(selector: Seq<char>, closest: bool) -> Demand {
    if closest {
        Demand::ClosestSelector { selector }
    } else {
        Demand::ExactSelector { selector }
    }
}

/// The listener that a recipe gives, but for its message.
pub open spec fn describe(recipe: Recipe) -> Description {
    match recipe {
        Recipe::Element { id, event_type, closest } => outlined(
            ListenTarget::Document,
            event_type,
            seq![selector_demand(id_selector(id), closest)],
            contained(),
        ),
        Recipe::MouseDown { id } => outlined(
            ListenTarget::Document,
            EventType::Mousedown,
            seq![
                selector_demand(id_selector(id), false),
                Demand::MouseButton { button: Button::Main },
            ],
            contained(),
        ),
        Recipe::ClickSelector { selector, closest } => outlined(
            ListenTarget::Document,
            EventType::Click,
            seq![selector_demand(selector, closest)],
            contained(),
        ),
        Recipe::ChangeSelector { selector } => outlined(
            ListenTarget::Document,
            EventType::Change,
            seq![selector_demand(selector, false)],
            contained(),
        ),
        Recipe::ClickData { name, closest } => outlined(
            ListenTarget::Document,
            EventType::Click,
            seq![selector_demand(data_selector(name), closest)],
            contained(),
        ),
        Recipe::RadioChange { name } => outlined(
            ListenTarget::Document,
            EventType::Change,
            seq![selector_demand(radio_group_selector(name), false)],
            contained(),
        ),
        Recipe::Keyup { key } => outlined(
            ListenTarget::Document,
            EventType::Keyup,
            seq![Demand::KeyboardKey { key, requires_ctrl: false, requires_meta: false }],
            passed_on(),
        ),
        Recipe::Keydown { key, modifier, propagation } => outlined(
            ListenTarget::Document,
            EventType::Keydown,
            seq![
                Demand::KeyboardKey {
                    key,
                    requires_ctrl: modifier.wants_ctrl(),
                    requires_meta: modifier.wants_meta(),
                },
            ],
            propagation,
        ),
        Recipe::WindowResize => outlined(
            ListenTarget::Window,
            EventType::Resize,
            Seq::empty(),
            passed_on(),
        ),
    }
}

/// Whether `subscription` is the listener that `recipe` gives.
pub open spec fn follows<Msg>(subscription: Subscription<Msg>, recipe: Recipe) -> bool {
    subscription matches Subscription::EventListener(listener) && listener.description()
        == describe(recipe)
}

/// Whether `subscription` is a listener that delivers `msg` as it stands.
pub open spec fn delivers<Msg>(subscription: Subscription<Msg>, msg: Msg) -> bool {
    subscription matches Subscription::EventListener(listener) && listener.msg
        == SubscriptionMsg::Pure(msg)
}

/// Whether `subscription` is a listener that delivers what `to_msg` makes of a
/// slot that is still to be filled, paired with an effect.
pub open spec fn delivers_effectful<Msg, ToMsg: Fn(T) -> Msg, T: Default>(
    subscription: Subscription<Msg>,
    to_msg: ToMsg,
) -> bool {
    subscription matches Subscription::EventListener(listener) && (listener.msg
        matches SubscriptionMsg::Effectful { msg, effect } && made_from_default::<T, Msg, ToMsg>(
        to_msg,
        msg,
    ))
}

/// The effect that an effectful listener is paired with.
pub open spec fn paired_effect<Msg>(subscription: Subscription<Msg>) -> Effect<Msg>
    recommends
        subscription is EventListener,
        subscription->EventListener_0.msg is Effectful,
{
    subscription->EventListener_0.msg->effect
}

/// Every listener that this module makes has the id that belongs to what it
/// listens on, for which kind of event, and what it demands.
pub proof fn lemma_followers_are_identified<Msg>(subscription: Subscription<Msg>, recipe: Recipe)
    requires
        follows(subscription, recipe),
    ensures
        subscription->EventListener_0.is_identified(),
{
}

/// The id of a listener does not depend on what it delivers: two listeners on
/// the same object, for the same kind of event and with the same demands have
/// the same id.
pub proof fn lemma_id_ignores_msg<Msg>(first: EventListener<Msg>, second: EventListener<Msg>)
    requires
        first.is_identified(),
        second.is_identified(),
        first.listen_target == second.listen_target,
        first.event_type == second.event_type,
        demands(first.matchers@) == demands(second.matchers@),
    ensures
        first.id@ == second.id@,
{
}

/// Different listeners have different ids: two listeners with one id listen on
/// the same object, for the same kind of event, with the same demands.
pub proof fn lemma_ids_tell_listeners_apart<Msg>(
    first: EventListener<Msg>,
    second: EventListener<Msg>,
)
    requires
        first.is_identified(),
        second.is_identified(),
        first.id@ == second.id@,
    ensures
        first.listen_target == second.listen_target,
        first.event_type == second.event_type,
        demands(first.matchers@) == demands(second.matchers@),
{
    lemma_ids_tell_apart(
        first.listen_target,
        first.event_type,
        demands(first.matchers@),
        second.listen_target,
        second.event_type,
        demands(second.matchers@),
    );
}

/// A listener for input into an element goes by the element's id, unless that
/// id starts with `@`.
pub proof fn lemma_input_goes_by_element_id(id: Seq<char>)
    requires
        id.len() == 0 || id[0] != '@',
    ensures
        describe(Recipe::Element { id, event_type: EventType::Input, closest: false }).id == id,
{
    reveal_strlit("#");
    let selector = id_selector(id);
    assert(selector.len() == id.len() + 1);
    assert(selector[0] == '#');
    if id.len() > 0 {
        assert(selector[1] == id[0]);
    }
    assert(selector.subrange(1, selector.len() as int) =~= id);
}

fn propagation_contained() -> (propagation: EventPropagation)
    ensures
        propagation == contained(),
{
    EventPropagation { stop_propagation: true, prevent_default: true }
}

fn propagation_passed_on() -> (propagation: EventPropagation)
    ensures
        propagation == passed_on(),
{
    EventPropagation { stop_propagation: false, prevent_default: false }
}

fn queue_strategy_for(event_type: EventType) -> (strategy: QueueStrategy)
    ensures
        strategy == strategy_for(event_type),
{
    match event_type {
        EventType::Click | EventType::Mousedown | EventType::Submit => QueueStrategy::Fifo,
        _ => QueueStrategy::DropOlder,
    }
}

fn selector_matcher(selector: Selector, closest: bool) -> (matcher: EventMatcher)
    ensures
        matcher@ == selector_demand(selector@, closest),
{
    if closest {
        EventMatcher::ClosestSelector { selector }
    } else {
        EventMatcher::ExactSelector { selector }
    }
}

fn one_matcher(matcher: EventMatcher) -> (matchers: Vec<EventMatcher>)
    ensures
        demands(matchers@) == seq![matcher@],
{
    let mut matchers = Vec::new();
    matchers.push(matcher);
    assert(demands(matchers@) =~= seq![matcher@]);
    matchers
}

/// Makes the listener on `listen_target` for `event_type` with the given
/// matchers: the id is the one that belongs to these three.
fn listener<Msg>(
    listen_target: ListenTarget,
    event_type: EventType,
    matchers: Vec<EventMatcher>,
    msg: SubscriptionMsg<Msg>,
    propagation: EventPropagation,
) -> (subscription: Subscription<Msg>)
    ensures
        subscription matches Subscription::EventListener(made) && made.description() == outlined(
            listen_target,
            event_type,
            demands(matchers@),
            propagation,
        ) && made.msg == msg,
{
    Subscription::EventListener(
        EventListener {
            id: listener_id(listen_target, event_type, &matchers),
            listen_target,
            event_type,
            matchers,
            msg,
            propagation,
            queue_strategy: queue_strategy_for(event_type),
        },
    )
}

fn element_listener<Msg>(
    id: &DomId,
    event_type: EventType,
    closest: bool,
    msg: SubscriptionMsg<Msg>,
) -> (subscription: Subscription<Msg>)
    ensures
        follows(subscription, Recipe::Element { id: id@, event_type, closest }),
        subscription->EventListener_0.msg == msg,
{
    listener(
        ListenTarget::Document,
        event_type,
        one_matcher(selector_matcher(id.selector(), closest)),
        msg,
        propagation_contained(),
    )
}

fn selector_listener<Msg>(
    selector: Selector,
    event_type: EventType,
    closest: bool,
    msg: SubscriptionMsg<Msg>,
) -> (subscription: Subscription<Msg>)
    ensures
        subscription matches Subscription::EventListener(made) && made.description() == outlined(
            ListenTarget::Document,
            event_type,
            seq![selector_demand(selector@, closest)],
            contained(),
        ) && made.msg == msg,
{
    listener(
        ListenTarget::Document,
        event_type,
        one_matcher(selector_matcher(selector, closest)),
        msg,
        propagation_contained(),
    )
}

/// Delivers `msg` for every click on the element.
pub fn on_click<Msg>(id: &DomId, msg: Msg) -> (subscription: Subscription<Msg>)
    ensures
        follows(
            subscription,
            Recipe::Element { id: id@, event_type: EventType::Click, closest: false },
        ),
        delivers(subscription, msg),
{
    element_listener(id, EventType::Click, false, SubscriptionMsg::pure(msg))
}

/// Delivers `msg` for every click on the element or on what lies in it.
pub fn on_click_closest<Msg>(id: &DomId, msg: Msg) -> (subscription: Subscription<Msg>)
    ensures
        follows(
            subscription,
            Recipe::Element { id: id@, event_type: EventType::Click, closest: true },
        ),
        delivers(subscription, msg),
{
    element_listener(id, EventType::Click, true, SubscriptionMsg::pure(msg))
}

/// For every click on an element that satisfies `selector`, performs `effect` and
/// delivers the message that `to_msg` makes, with the outcome in its slot.
pub fn on_click_selector<Msg, ToMsg, T>(selector: Selector, effect: Effect<Msg>, to_msg: ToMsg) -> (subscription: Subscription<Msg>) where ToMsg: Fn(Capture<T>) -> Msg, T: Default
    requires
        accepts_default::<Capture<T>, Msg, ToMsg>(to_msg),
    ensures
        follows(subscription, Recipe::ClickSelector { selector: selector@, closest: false }),
        delivers_effectful::<Msg, ToMsg, Capture<T>>(subscription, to_msg),
        paired_effect(subscription) == effect,
{
    selector_listener(
        selector,
        EventType::Click,
        false,
        SubscriptionMsg::effectful(to_msg, effect),
    )
}

/// For every click on an element that satisfies `selector`, or on what lies in
/// it, performs `effect` and delivers the message that `to_msg` makes, with the
/// outcome in its slot.
pub fn on_click_selector_closest<Msg, ToMsg, T>(
    selector: Selector,
    effect: Effect<Msg>,
    to_msg: ToMsg,
) -> (subscription: Subscription<Msg>) where ToMsg: Fn(Capture<T>) -> Msg, T: Default
    requires
        accepts_default::<Capture<T>, Msg, ToMsg>(to_msg),
    ensures
        follows(subscription, Recipe::ClickSelector { selector: selector@, closest: true }),
        delivers_effectful::<Msg, ToMsg, Capture<T>>(subscription, to_msg),
        paired_effect(subscription) == effect,
{
    selector_listener(selector, EventType::Click, true, SubscriptionMsg::effectful(to_msg, effect))
}

/// For every click on an element that carries the data attribute `name`, reads
/// the attribute as text and delivers the message that `to_msg` makes of it.
pub fn on_click_data_string<Msg, ToMsg>(name: &str, to_msg: ToMsg) -> (subscription: Subscription<
    Msg,
>) where ToMsg: Fn(Capture<String>) -> Msg
    requires
        accepts_default::<Capture<String>, Msg, ToMsg>(to_msg),
    ensures
        follows(subscription, Recipe::ClickData { name: name@, closest: false }),
        delivers_effectful::<Msg, ToMsg, Capture<String>>(subscription, to_msg),
        reads_target_data_value(paired_effect(subscription), name@, false),
{
    let effect = get_target_data_string_value(name);
    selector_listener(
        Selector::data(name),
        EventType::Click,
        false,
        SubscriptionMsg::effectful(to_msg, effect),
    )
}

/// For every click on an element that carries the data attribute `name`, or on
/// what lies in it, reads the attribute as text and delivers the message that
/// `to_msg` makes of it.
pub fn on_click_closest_data_string<Msg, ToMsg>(name: &str, to_msg: ToMsg) -> (subscription:
    Subscription<Msg>) where ToMsg: Fn(Capture<String>) -> Msg
    requires
        accepts_default::<Capture<String>, Msg, ToMsg>(to_msg),
    ensures
        follows(subscription, Recipe::ClickData { name: name@, closest: true }),
        delivers_effectful::<Msg, ToMsg, Capture<String>>(subscription, to_msg),
        reads_target_data_value(paired_effect(subscription), name@, false),
{
    let effect = get_target_data_string_value(name);
    selector_listener(
        Selector::data(name),
        EventType::Click,
        true,
        SubscriptionMsg::effectful(to_msg, effect),
    )
}

/// Delivers `msg` for every press of the main mouse button on the element.
pub fn on_mouse_down<Msg>(id: &DomId, msg: Msg) -> (subscription: Subscription<Msg>)
    ensures
        follows(subscription, Recipe::MouseDown { id: id@ }),
        delivers(subscription, msg),
{
    let mut matchers = Vec::new();
    matchers.push(EventMatcher::ExactSelector { selector: id.selector() });
    matchers.push(EventMatcher::MouseButton { button: Button::Main });
    assert(demands(matchers@) =~= seq![
        selector_demand(id_selector(id@), false),
        Demand::MouseButton { button: Button::Main },
    ]);
    listener(
        ListenTarget::Document,
        EventType::Mousedown,
        matchers,
        SubscriptionMsg::pure(msg),
        propagation_contained(),
    )
}

/// For every input into the element, reads its value as text and delivers the
/// message that `to_msg` makes of it.
pub fn on_input<Msg, ToMsg>(id: &DomId, to_msg: ToMsg) -> (subscription: Subscription<Msg>) where
    ToMsg: Fn(Capture<String>) -> Msg,

    requires
        accepts_default::<Capture<String>, Msg, ToMsg>(to_msg),
    ensures
        follows(
            subscription,
            Recipe::Element { id: id@, event_type: EventType::Input, closest: false },
        ),
        delivers_effectful::<Msg, ToMsg, Capture<String>>(subscription, to_msg),
        reads_element_value(paired_effect(subscription), id@, false),
{
    let msg = SubscriptionMsg::effectful(to_msg, get_element_string_value(id));
    element_listener(id, EventType::Input, false, msg)
}

/// For every change of the element, reads its value as JSON and delivers the
/// message that `to_msg` makes of it.
pub fn on_change<Msg, ToMsg, T>(id: &DomId, to_msg: ToMsg) -> (subscription: Subscription<
    Msg,
>) where ToMsg: Fn(Capture<T>) -> Msg, T: Default
    requires
        accepts_default::<Capture<T>, Msg, ToMsg>(to_msg),
    ensures
        follows(
            subscription,
            Recipe::Element { id: id@, event_type: EventType::Change, closest: false },
        ),
        delivers_effectful::<Msg, ToMsg, Capture<T>>(subscription, to_msg),
        reads_element_value(paired_effect(subscription), id@, true),
{
    let msg = SubscriptionMsg::effectful(to_msg, get_element_json_value(id));
    element_listener(id, EventType::Change, false, msg)
}

/// For every change of the element, reads its value as text and delivers the
/// message that `to_msg` makes of it.
pub fn on_change_string<Msg, ToMsg>(id: &DomId, to_msg: ToMsg) -> (subscription: Subscription<
    Msg,
>) where ToMsg: Fn(Capture<String>) -> Msg
    requires
        accepts_default::<Capture<String>, Msg, ToMsg>(to_msg),
    ensures
        follows(
            subscription,
            Recipe::Element { id: id@, event_type: EventType::Change, closest: false },
        ),
        delivers_effectful::<Msg, ToMsg, Capture<String>>(subscription, to_msg),
        reads_element_value(paired_effect(subscription), id@, false),
{
    let msg = SubscriptionMsg::effectful(to_msg, get_element_string_value(id));
    element_listener(id, EventType::Change, false, msg)
}

/// For every change of an element that satisfies `selector`, performs `effect`
/// and delivers the message that `to_msg` makes, with the outcome in its slot.
pub fn on_change_selector<Msg, ToMsg, T>(selector: Selector, to_msg: ToMsg, effect: Effect<Msg>) -> (subscription: Subscription<Msg>) where ToMsg: Fn(Capture<T>) -> Msg, T: Default
    requires
        accepts_default::<Capture<T>, Msg, ToMsg>(to_msg),
    ensures
        follows(subscription, Recipe::ChangeSelector { selector: selector@ }),
        delivers_effectful::<Msg, ToMsg, Capture<T>>(subscription, to_msg),
        paired_effect(subscription) == effect,
{
    selector_listener(
        selector,
        EventType::Change,
        false,
        SubscriptionMsg::effectful(to_msg, effect),
    )
}

/// For every change of the radio group `name`, reads the value of its checked
/// button as text and delivers the message that `to_msg` makes of it.
pub fn on_radio_change_string<Msg, ToMsg>(name: &str, to_msg: ToMsg) -> (subscription: Subscription<
    Msg,
>) where ToMsg: Fn(Capture<String>) -> Msg
    requires
        accepts_default::<Capture<String>, Msg, ToMsg>(to_msg),
    ensures
        follows(subscription, Recipe::RadioChange { name: name@ }),
        delivers_effectful::<Msg, ToMsg, Capture<String>>(subscription, to_msg),
        reads_radio_group_value(paired_effect(subscription), radio_group_selector(name@), false),
{
    let selector = Selector::radio_group(name);
    let effect = get_radio_group_string_value(&selector);
    selector_listener(
        selector,
        EventType::Change,
        false,
        SubscriptionMsg::effectful(to_msg, effect),
    )
}

/// For every change of the radio group `name`, reads the value of its checked
/// button as JSON and delivers the message that `to_msg` makes of it.
pub fn on_radio_change_json<Msg, ToMsg>(name: &str, to_msg: ToMsg) -> (subscription: Subscription<
    Msg,
>) where ToMsg: Fn(Capture<String>) -> Msg
    requires
        accepts_default::<Capture<String>, Msg, ToMsg>(to_msg),
    ensures
        follows(subscription, Recipe::RadioChange { name: name@ }),
        delivers_effectful::<Msg, ToMsg, Capture<String>>(subscription, to_msg),
        reads_radio_group_value(paired_effect(subscription), radio_group_selector(name@), true),
{
    let selector = Selector::radio_group(name);
    let effect = get_radio_group_json_value(&selector);
    selector_listener(
        selector,
        EventType::Change,
        false,
        SubscriptionMsg::effectful(to_msg, effect),
    )
}

/// Delivers `msg` for every submission of the form.
pub fn on_submit<Msg>(id: &DomId, msg: Msg) -> (subscription: Subscription<Msg>)
    ensures
        follows(
            subscription,
            Recipe::Element { id: id@, event_type: EventType::Submit, closest: false },
        ),
        delivers(subscription, msg),
{
    element_listener(id, EventType::Submit, false, SubscriptionMsg::pure(msg))
}

/// For every release of a key in the element, reads the element's value as text
/// and delivers the message that `to_msg` makes of it.
pub fn on_keyup_element<Msg, ToMsg>(id: &DomId, to_msg: ToMsg) -> (subscription: Subscription<
    Msg,
>) where ToMsg: Fn(Capture<String>) -> Msg
    requires
        accepts_default::<Capture<String>, Msg, ToMsg>(to_msg),
    ensures
        follows(
            subscription,
            Recipe::Element { id: id@, event_type: EventType::Keyup, closest: false },
        ),
        delivers_effectful::<Msg, ToMsg, Capture<String>>(subscription, to_msg),
        reads_element_value(paired_effect(subscription), id@, false),
{
    let msg = SubscriptionMsg::effectful(to_msg, get_element_string_value(id));
    element_listener(id, EventType::Keyup, false, msg)
}

/// Delivers `msg` for every release of `key` while neither Ctrl nor Meta is held.
pub fn on_keyup<Msg>(key: Key, msg: Msg) -> (subscription: Subscription<Msg>)
    ensures
        follows(subscription, Recipe::Keyup { key: key.text() }),
        delivers(subscription, msg),
{
    listener(
        ListenTarget::Document,
        EventType::Keyup,
        one_matcher(EventMatcher::KeyboardKey { key, requires_ctrl: false, requires_meta: false }),
        SubscriptionMsg::pure(msg),
        propagation_passed_on(),
    )
}

/// Delivers `msg` for every press of `key` with exactly the modifiers of
/// `modifier` held.
pub fn on_keydown<Msg>(key: Key, modifier: ModifierKey, msg: Msg) -> (subscription: Subscription<
    Msg,
>)
    ensures
        follows(
            subscription,
            Recipe::Keydown { key: key.text(), modifier, propagation: passed_on() },
        ),
        delivers(subscription, msg),
{
    on_keydown_with_options(key, modifier, propagation_passed_on(), msg)
}

/// Delivers `msg` for every press of `key` with exactly the modifiers of
/// `modifier` held, and treats the event as `propagation` says.
pub fn on_keydown_with_options<Msg>(
    key: Key,
    modifier: ModifierKey,
    propagation: EventPropagation,
    msg: Msg,
) -> (subscription: Subscription<Msg>)
    ensures
        follows(subscription, Recipe::Keydown { key: key.text(), modifier, propagation }),
        delivers(subscription, msg),
{
    let requires_ctrl = modifier.requires_ctrl();
    let requires_meta = modifier.requires_meta();
    listener(
        ListenTarget::Document,
        EventType::Keydown,
        one_matcher(EventMatcher::KeyboardKey { key, requires_ctrl, requires_meta }),
        SubscriptionMsg::pure(msg),
        propagation,
    )
}

/// For every change of the window's size, reads the size and delivers the
/// message that `to_msg` makes of it.
pub fn on_window_resize<Msg, ToMsg, T>(to_msg: ToMsg) -> (subscription: Subscription<Msg>) where
    ToMsg: Fn(Capture<T>) -> Msg,
    T: Default,

    requires
        accepts_default::<Capture<T>, Msg, ToMsg>(to_msg),
    ensures
        follows(subscription, Recipe::WindowResize),
        delivers_effectful::<Msg, ToMsg, Capture<T>>(subscription, to_msg),
        paired_effect(subscription) matches Effect::Dom(Dom::GetWindowSize),
{
    let matchers: Vec<EventMatcher> = Vec::new();
    assert(demands(matchers@) =~= Seq::empty());
    listener(
        ListenTarget::Window,
        EventType::Resize,
        matchers,
        SubscriptionMsg::effectful(to_msg, window_size()),
        propagation_passed_on(),
    )
}

} // verus!
