use poly::browser::dom_id::DomId;
use poly::browser::keyboard::Key;
use poly::browser::matching::fired_listeners;
use poly::browser::matching::firing_listeners;
use poly::browser::matching::Element;
use poly::browser::matching::RawEvent;
use poly::browser::mouse::Button;
use poly::browser::queue_strategy::QueueStrategy;
use poly::browser::selector::Selector;
use poly::browser::subscription;
use poly::browser::subscription::event_listener::on_click;
use poly::browser::subscription::event_listener::on_click_closest;
use poly::browser::subscription::event_listener::on_input;
use poly::browser::subscription::event_listener::on_keydown;
use poly::browser::subscription::event_listener::on_keyup;
use poly::browser::subscription::event_listener::on_mouse_down;
use poly::browser::subscription::event_listener::on_window_resize;
use poly::browser::subscription::event_listener::EventListener;
use poly::browser::subscription::event_listener::EventMatcher;
use poly::browser::subscription::event_listener::EventPropagation;
use poly::browser::subscription::event_listener::EventType;
use poly::browser::subscription::event_listener::ListenTarget;
use poly::browser::subscription::event_listener::ModifierKey;
use poly::browser::subscription::interval::interval;
use poly::browser::subscription::Subscription;
use poly::browser::subscription::SubscriptionMsg;
use poly::browser::value::Capture;
use poly::browser::WindowSize;

#[derive(Debug, PartialEq)]
enum Msg {
    A,
    B,
    C,
    Text(Capture<String>),
    Size(Capture<WindowSize>),
}

fn element(selectors: &[&str]) -> Element {
    Element { selectors: selectors.iter().map(|s| Selector::new(s)).collect() }
}

fn span_b() -> Element {
    element(&["span", "#b"])
}

fn div_a() -> Element {
    element(&["div", "#a"])
}

fn click(path: Vec<Element>) -> RawEvent {
    RawEvent {
        listen_target: ListenTarget::Document,
        event_type: EventType::Click,
        target_path: path,
        button: Some(Button::Main),
        key: None,
        ctrl_pressed: false,
        meta_pressed: false,
    }
}

fn key_event(event_type: EventType, key: &str, ctrl: bool, meta: bool) -> RawEvent {
    RawEvent {
        listen_target: ListenTarget::Document,
        event_type,
        target_path: vec![element(&["body"])],
        button: None,
        key: Some(key.to_string()),
        ctrl_pressed: ctrl,
        meta_pressed: meta,
    }
}

fn listener(subscription: Subscription<Msg>) -> EventListener<Msg> {
    match subscription {
        Subscription::EventListener(listener) => listener,
        _ => panic!("not a listener"),
    }
}

#[test]
fn exact_selector_fires_only_for_the_raw_target() {
    let exact_b = listener(on_click(&DomId::new("b"), Msg::A));
    // The click happened on span#b, which lies in div#a.
    assert!(click(vec![span_b(), div_a()]).reaches(&exact_b));
    // The click happened on div#a itself.
    assert!(!click(vec![div_a()]).reaches(&exact_b));
    // span#b is an ancestor only: the raw target is something else.
    assert!(!click(vec![element(&["i"]), span_b(), div_a()]).reaches(&exact_b));

    let exact_a = listener(on_click(&DomId::new("a"), Msg::A));
    assert!(!click(vec![span_b(), div_a()]).reaches(&exact_a));
    assert!(click(vec![div_a()]).reaches(&exact_a));
}

#[test]
fn closest_selector_fires_for_target_or_ancestor() {
    let closest_a = listener(on_click_closest(&DomId::new("a"), Msg::A));
    // Raw target #b, inside #a.
    assert!(click(vec![span_b(), div_a()]).reaches(&closest_a));
    // Raw target #a.
    assert!(click(vec![div_a()]).reaches(&closest_a));
    // Far up the chain.
    assert!(click(vec![element(&["i"]), span_b(), element(&["p"]), div_a()]).reaches(&closest_a));
    // Nowhere on the path.
    assert!(!click(vec![span_b(), element(&["body"])]).reaches(&closest_a));
    assert!(!click(vec![]).reaches(&closest_a));
}

#[test]
fn exact_selector_needs_a_target() {
    let exact_b = listener(on_click(&DomId::new("b"), Msg::A));
    assert!(!click(vec![]).reaches(&exact_b));
}

#[test]
fn listener_needs_the_same_event_type_and_target() {
    let exact_b = listener(on_click(&DomId::new("b"), Msg::A));
    let mut event = click(vec![span_b()]);
    assert!(event.reaches(&exact_b));
    event.event_type = EventType::Mousedown;
    assert!(!event.reaches(&exact_b));
    event.event_type = EventType::Click;
    event.listen_target = ListenTarget::Window;
    assert!(!event.reaches(&exact_b));
}

#[test]
fn mouse_button_must_be_the_configured_one() {
    let down = listener(on_mouse_down(&DomId::new("b"), Msg::A));
    let mut event = click(vec![span_b()]);
    event.event_type = EventType::Mousedown;
    assert!(event.reaches(&down));
    event.button = Some(Button::Secondary);
    assert!(!event.reaches(&down));
    event.button = None;
    assert!(!event.reaches(&down));
    // All matchers must hold: the right button on another element does not do.
    let mut elsewhere = click(vec![div_a()]);
    elsewhere.event_type = EventType::Mousedown;
    assert!(!elsewhere.reaches(&down));
}

#[test]
fn keyboard_key_must_be_equal() {
    let escape = listener(on_keyup(Key::Escape, Msg::A));
    assert!(key_event(EventType::Keyup, "escape", false, false).reaches(&escape));
    assert!(!key_event(EventType::Keyup, "enter", false, false).reaches(&escape));
    assert!(!key_event(EventType::Keydown, "escape", false, false).reaches(&escape));
    let mut no_key = key_event(EventType::Keyup, "escape", false, false);
    no_key.key = None;
    assert!(!no_key.reaches(&escape));
    let named = listener(on_keyup(Key::Key("k".to_string()), Msg::A));
    assert!(key_event(EventType::Keyup, "k", false, false).reaches(&named));
    assert!(!key_event(EventType::Keyup, "K", false, false).reaches(&named));
}

#[test]
fn keyboard_any_is_a_wildcard() {
    let any = listener(on_keyup(Key::Any, Msg::A));
    assert!(key_event(EventType::Keyup, "escape", false, false).reaches(&any));
    assert!(key_event(EventType::Keyup, "x", false, false).reaches(&any));
    assert!(!key_event(EventType::Keyup, "x", true, false).reaches(&any));
    let mut no_key = key_event(EventType::Keyup, "x", false, false);
    no_key.key = None;
    assert!(no_key.reaches(&any));
}

#[test]
fn modifier_flags_must_be_exactly_as_required() {
    let ctrl_s = listener(on_keydown(Key::Key("s".to_string()), ModifierKey::Ctrl, Msg::A));
    assert!(key_event(EventType::Keydown, "s", true, false).reaches(&ctrl_s));
    // Not "at least": Meta held as well does not match.
    assert!(!key_event(EventType::Keydown, "s", true, true).reaches(&ctrl_s));
    assert!(!key_event(EventType::Keydown, "s", false, false).reaches(&ctrl_s));
    assert!(!key_event(EventType::Keydown, "s", false, true).reaches(&ctrl_s));

    let plain = listener(on_keydown(Key::Enter, ModifierKey::NoModifier, Msg::A));
    assert!(key_event(EventType::Keydown, "enter", false, false).reaches(&plain));
    assert!(!key_event(EventType::Keydown, "enter", true, false).reaches(&plain));
    assert!(!key_event(EventType::Keydown, "enter", false, true).reaches(&plain));

    let both = listener(on_keydown(
        Key::Enter,
        ModifierKey::Multiple(vec![ModifierKey::Meta, ModifierKey::Ctrl]),
        Msg::A,
    ));
    assert!(key_event(EventType::Keydown, "enter", true, true).reaches(&both));
    assert!(!key_event(EventType::Keydown, "enter", true, false).reaches(&both));
}

#[test]
fn empty_matcher_list_always_succeeds() {
    let resize = listener(on_window_resize(Msg::Size));
    let event = RawEvent {
        listen_target: ListenTarget::Window,
        event_type: EventType::Resize,
        target_path: vec![],
        button: None,
        key: None,
        ctrl_pressed: false,
        meta_pressed: false,
    };
    assert!(event.reaches(&resize));
    let mut on_document = event.clone();
    on_document.listen_target = ListenTarget::Document;
    assert!(!on_document.reaches(&resize));
}

#[test]
fn meets_decides_on_one_matcher() {
    let event = click(vec![span_b(), div_a()]);
    assert!(event.meets(&EventMatcher::ExactSelector { selector: Selector::id("b") }));
    assert!(!event.meets(&EventMatcher::ExactSelector { selector: Selector::id("a") }));
    assert!(event.meets(&EventMatcher::ClosestSelector { selector: Selector::id("a") }));
    assert!(event.meets(&EventMatcher::ClosestSelector { selector: Selector::new("span") }));
    assert!(!event.meets(&EventMatcher::ClosestSelector { selector: Selector::new("ul") }));
    assert!(event.meets(&EventMatcher::MouseButton { button: Button::Main }));
    assert!(!event.meets(&EventMatcher::MouseButton { button: Button::Auxiliary }));
    assert!(event.closest_satisfies(&Selector::new("div")));
    assert!(span_b().satisfies(&Selector::new("#b")));
    assert!(!span_b().satisfies(&Selector::new("#a")));
}

#[test]
fn all_matching_listeners_fire_in_registration_order() {
    let tree: Subscription<Msg> = subscription::batch(vec![
        on_click_closest(&DomId::new("a"), Msg::A),
        subscription::none(),
        subscription::batch(vec![
            on_input(&DomId::new("b"), Msg::Text),
            on_click(&DomId::new("b"), Msg::B),
            interval("tick", 10, Msg::C),
        ]),
        on_click(&DomId::new("a"), Msg::C),
        on_click_closest(&DomId::new("b"), Msg::C),
    ]);
    let leaves = tree.into_vec();
    assert_eq!(leaves.len(), 7);
    let event = click(vec![span_b(), div_a()]);
    assert_eq!(firing_listeners(&leaves, &event), vec![0, 3, 6]);

    let fired = fired_listeners(leaves, &event);
    assert_eq!(fired.len(), 3);
    assert_eq!(fired[0].id, "@document/click/closest/2:#a");
    assert_eq!(fired[0].msg, SubscriptionMsg::Pure(Msg::A));
    assert_eq!(fired[1].id, "@document/click/exact/2:#b");
    assert_eq!(fired[1].msg, SubscriptionMsg::Pure(Msg::B));
    assert_eq!(fired[1].queue_strategy, QueueStrategy::Fifo);
    assert_eq!(
        fired[1].propagation,
        EventPropagation { stop_propagation: true, prevent_default: true }
    );
    assert_eq!(fired[2].id, "@document/click/closest/2:#b");
    assert_eq!(fired[2].msg, SubscriptionMsg::Pure(Msg::C));
}

#[test]
fn nothing_fires_without_listeners() {
    let leaves: Vec<Subscription<Msg>> = vec![];
    let event = click(vec![span_b()]);
    assert_eq!(firing_listeners(&leaves, &event), Vec::<usize>::new());
    assert_eq!(fired_listeners(leaves, &event).len(), 0);
    let only_others: Vec<Subscription<Msg>> =
        vec![subscription::none(), interval("tick", 5, Msg::A)];
    assert_eq!(firing_listeners(&only_others, &event), Vec::<usize>::new());
}

#[test]
fn effectful_listener_hands_out_its_effect() {
    let leaves: Vec<Subscription<Msg>> = vec![on_input(&DomId::new("b"), Msg::Text)];
    let mut event = click(vec![span_b()]);
    event.event_type = EventType::Input;
    let fired = fired_listeners(leaves, &event);
    assert_eq!(fired.len(), 1);
    match &fired[0].msg {
        SubscriptionMsg::Effectful { msg, effect } => {
            assert_eq!(*msg, Msg::Text(Capture::new(String::new())));
            assert_eq!(
                *effect,
                poly::browser::effect::dom::get_element_string_value(&DomId::new("b"))
            );
        }
        _ => panic!("not effectful"),
    }
}
