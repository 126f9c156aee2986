use poly::browser::dom_id::DomId;
use poly::browser::effect::dom::Dom;
use poly::browser::effect::dom::get_target_data_json_value;
use poly::browser::effect::Effect;
use poly::browser::keyboard::Key;
use poly::browser::mouse::Button;
use poly::browser::queue_strategy::QueueStrategy;
use poly::browser::selector::Selector;
use poly::browser::subscription::event_listener::on_change;
use poly::browser::subscription::event_listener::on_change_selector;
use poly::browser::subscription::event_listener::on_change_string;
use poly::browser::subscription::event_listener::on_click;
use poly::browser::subscription::event_listener::on_click_closest;
use poly::browser::subscription::event_listener::on_click_closest_data_string;
use poly::browser::subscription::event_listener::on_click_data_string;
use poly::browser::subscription::event_listener::on_click_selector;
use poly::browser::subscription::event_listener::on_click_selector_closest;
use poly::browser::subscription::event_listener::on_input;
use poly::browser::subscription::event_listener::on_keydown;
use poly::browser::subscription::event_listener::on_keydown_with_options;
use poly::browser::subscription::event_listener::on_keyup;
use poly::browser::subscription::event_listener::on_keyup_element;
use poly::browser::subscription::event_listener::on_mouse_down;
use poly::browser::subscription::event_listener::on_radio_change_json;
use poly::browser::subscription::event_listener::on_radio_change_string;
use poly::browser::subscription::event_listener::on_submit;
use poly::browser::subscription::event_listener::on_window_resize;
use poly::browser::subscription::event_listener::EventListener;
use poly::browser::subscription::event_listener::EventMatcher;
use poly::browser::subscription::event_listener::EventPropagation;
use poly::browser::subscription::event_listener::EventType;
use poly::browser::subscription::event_listener::ListenTarget;
use poly::browser::subscription::event_listener::ModifierKey;
use poly::browser::subscription::interval::interval;
use poly::browser::subscription::interval::interval_effect;
use poly::browser::subscription::Subscription;
use poly::browser::subscription::SubscriptionMsg;
use poly::browser::value::Capture;
use poly::browser::WindowSize;

#[derive(Debug, PartialEq)]
enum Msg {
    Clicked,
    Other,
    Text(Capture<String>),
    Number(Capture<u32>),
    Size(Capture<WindowSize>),
}

fn listener(subscription: Subscription<Msg>) -> EventListener<Msg> {
    match subscription {
        Subscription::EventListener(listener) => listener,
        _ => panic!("not a listener"),
    }
}

const CONTAINED: EventPropagation = EventPropagation { stop_propagation: true, prevent_default: true };
const PASSED_ON: EventPropagation =
    EventPropagation { stop_propagation: false, prevent_default: false };

fn exact(selector: &str) -> EventMatcher {
    EventMatcher::ExactSelector { selector: Selector::new(selector) }
}

fn closest(selector: &str) -> EventMatcher {
    EventMatcher::ClosestSelector { selector: Selector::new(selector) }
}

fn reads_element(id: &str, as_json: bool) -> Effect<Msg> {
    Effect::Dom(Dom::GetElementValue { element_id: id.to_string(), parse_as_json: as_json })
}

fn pending_text(msg: &SubscriptionMsg<Msg>) -> &Effect<Msg> {
    match msg {
        SubscriptionMsg::Effectful { msg, effect } => {
            assert_eq!(*msg, Msg::Text(Capture::new(String::new())));
            effect
        }
        _ => panic!("not effectful"),
    }
}

#[test]
fn on_click_listens_for_clicks_on_the_element() {
    let l = listener(on_click(&DomId::new("save"), Msg::Clicked));
    assert_eq!(l.id, "@document/click/exact/5:#save");
    assert_eq!(l.listen_target, ListenTarget::Document);
    assert_eq!(l.event_type, EventType::Click);
    assert_eq!(l.matchers, vec![exact("#save")]);
    assert_eq!(l.msg, SubscriptionMsg::Pure(Msg::Clicked));
    assert_eq!(l.propagation, CONTAINED);
    assert_eq!(l.queue_strategy, QueueStrategy::Fifo);
}

#[test]
fn on_click_closest_uses_the_closest_matcher() {
    let l = listener(on_click_closest(&DomId::new("row"), Msg::Clicked));
    assert_eq!(l.id, "@document/click/closest/4:#row");
    assert_eq!(l.event_type, EventType::Click);
    assert_eq!(l.matchers, vec![closest("#row")]);
    assert_eq!(l.msg, SubscriptionMsg::Pure(Msg::Clicked));
    assert_eq!(l.propagation, CONTAINED);
    assert_eq!(l.queue_strategy, QueueStrategy::Fifo);
}

#[test]
fn on_click_selector_names_itself_after_the_selector() {
    let effect = get_target_data_json_value("id");
    let l = listener(on_click_selector(Selector::new(".item"), effect, Msg::Number));
    assert_eq!(l.id, "@document/click/exact/5:.item");
    assert_eq!(l.listen_target, ListenTarget::Document);
    assert_eq!(l.event_type, EventType::Click);
    assert_eq!(l.matchers, vec![exact(".item")]);
    assert_eq!(
        l.msg,
        SubscriptionMsg::Effectful {
            msg: Msg::Number(Capture::new(0)),
            effect: get_target_data_json_value("id"),
        }
    );
    assert_eq!(l.propagation, CONTAINED);
    assert_eq!(l.queue_strategy, QueueStrategy::Fifo);
}

#[test]
fn on_click_selector_closest_names_itself_after_the_selector() {
    let effect = get_target_data_json_value("id");
    let l = listener(on_click_selector_closest(Selector::new(".item"), effect, Msg::Number));
    assert_eq!(l.id, "@document/click/closest/5:.item");
    assert_eq!(l.event_type, EventType::Click);
    assert_eq!(l.matchers, vec![closest(".item")]);
    assert_eq!(l.queue_strategy, QueueStrategy::Fifo);
}

#[test]
fn on_click_data_string_reads_the_data_attribute() {
    let l = listener(on_click_data_string("page", Msg::Text));
    assert_eq!(l.id, "@document/click/exact/11:[data-page]");
    assert_eq!(l.event_type, EventType::Click);
    assert_eq!(l.matchers, vec![exact("[data-page]")]);
    assert_eq!(
        *pending_text(&l.msg),
        Effect::Dom(Dom::GetTargetDataValue { name: "page".to_string(), parse_as_json: false })
    );
    assert_eq!(l.queue_strategy, QueueStrategy::Fifo);
    let c = listener(on_click_closest_data_string("page", Msg::Text));
    assert_eq!(c.id, "@document/click/closest/11:[data-page]");
    assert_eq!(c.matchers, vec![closest("[data-page]")]);
}

#[test]
fn on_mouse_down_wants_the_main_button() {
    let l = listener(on_mouse_down(&DomId::new("pad"), Msg::Clicked));
    assert_eq!(l.id, "@document/mousedown/exact/4:#padbutton/main/");
    assert_eq!(l.event_type, EventType::Mousedown);
    assert_eq!(
        l.matchers,
        vec![exact("#pad"), EventMatcher::MouseButton { button: Button::Main }]
    );
    assert_eq!(l.msg, SubscriptionMsg::Pure(Msg::Clicked));
    assert_eq!(l.propagation, CONTAINED);
    assert_eq!(l.queue_strategy, QueueStrategy::Fifo);
}

#[test]
fn on_input_reads_the_value_and_keeps_the_latest() {
    let l = listener(on_input(&DomId::new("search"), Msg::Text));
    assert_eq!(l.id, "search");
    assert_eq!(l.listen_target, ListenTarget::Document);
    assert_eq!(l.event_type, EventType::Input);
    assert_eq!(l.matchers, vec![exact("#search")]);
    assert_eq!(*pending_text(&l.msg), reads_element("search", false));
    assert_eq!(l.propagation, CONTAINED);
    assert_eq!(l.queue_strategy, QueueStrategy::DropOlder);
}

#[test]
fn on_change_reads_the_value_as_json() {
    let l = listener(on_change(&DomId::new("age"), Msg::Number));
    assert_eq!(l.id, "@document/change/exact/4:#age");
    assert_eq!(l.event_type, EventType::Change);
    assert_eq!(l.matchers, vec![exact("#age")]);
    assert_eq!(
        l.msg,
        SubscriptionMsg::Effectful {
            msg: Msg::Number(Capture::new(0)),
            effect: reads_element("age", true),
        }
    );
    assert_eq!(l.queue_strategy, QueueStrategy::DropOlder);
}

#[test]
fn on_change_string_reads_the_value_as_text() {
    let l = listener(on_change_string(&DomId::new("name"), Msg::Text));
    assert_eq!(l.id, "@document/change/exact/5:#name");
    assert_eq!(l.event_type, EventType::Change);
    assert_eq!(*pending_text(&l.msg), reads_element("name", false));
    assert_eq!(l.queue_strategy, QueueStrategy::DropOlder);
}

#[test]
fn on_change_selector_names_itself_after_the_selector() {
    let l = listener(on_change_selector(
        Selector::new("select.lang"),
        Msg::Text,
        reads_element("lang", false),
    ));
    assert_eq!(l.id, "@document/change/exact/11:select.lang");
    assert_eq!(l.event_type, EventType::Change);
    assert_eq!(l.matchers, vec![exact("select.lang")]);
    assert_eq!(*pending_text(&l.msg), reads_element("lang", false));
    assert_eq!(l.queue_strategy, QueueStrategy::DropOlder);
}

#[test]
fn on_radio_change_listens_on_the_group() {
    let l = listener(on_radio_change_string("color", Msg::Text));
    assert_eq!(l.id, "@document/change/exact/29:input[type=radio][name=color]");
    assert_eq!(l.event_type, EventType::Change);
    assert_eq!(l.matchers, vec![exact("input[type=radio][name=color]")]);
    assert_eq!(
        *pending_text(&l.msg),
        Effect::Dom(Dom::GetRadioGroupValue {
            selector: Selector::radio_group("color"),
            parse_as_json: false,
        })
    );
    assert_eq!(l.queue_strategy, QueueStrategy::DropOlder);
    let j = listener(on_radio_change_json("color", Msg::Text));
    assert_eq!(j.id, "@document/change/exact/29:input[type=radio][name=color]");
    assert_eq!(
        *pending_text(&j.msg),
        Effect::Dom(Dom::GetRadioGroupValue {
            selector: Selector::radio_group("color"),
            parse_as_json: true,
        })
    );
}

#[test]
fn on_submit_counts_every_submission() {
    let l = listener(on_submit(&DomId::new("form"), Msg::Clicked));
    assert_eq!(l.id, "@document/submit/exact/5:#form");
    assert_eq!(l.event_type, EventType::Submit);
    assert_eq!(l.matchers, vec![exact("#form")]);
    assert_eq!(l.propagation, CONTAINED);
    assert_eq!(l.queue_strategy, QueueStrategy::Fifo);
}

#[test]
fn on_keyup_element_reads_the_value() {
    let l = listener(on_keyup_element(&DomId::new("box"), Msg::Text));
    assert_eq!(l.id, "@document/keyup/exact/4:#box");
    assert_eq!(l.event_type, EventType::Keyup);
    assert_eq!(l.matchers, vec![exact("#box")]);
    assert_eq!(*pending_text(&l.msg), reads_element("box", false));
    assert_eq!(l.propagation, CONTAINED);
    assert_eq!(l.queue_strategy, QueueStrategy::DropOlder);
}

#[test]
fn on_keyup_listens_in_the_whole_document() {
    let l = listener(on_keyup(Key::Escape, Msg::Clicked));
    assert_eq!(l.id, "@document/keyup/key/no-modifier/6:escape");
    assert_eq!(l.listen_target, ListenTarget::Document);
    assert_eq!(l.event_type, EventType::Keyup);
    assert_eq!(
        l.matchers,
        vec![EventMatcher::KeyboardKey {
            key: Key::Escape,
            requires_ctrl: false,
            requires_meta: false,
        }]
    );
    assert_eq!(l.propagation, PASSED_ON);
    assert_eq!(l.queue_strategy, QueueStrategy::DropOlder);
}

#[test]
fn on_keydown_spells_out_key_and_modifier() {
    let l = listener(on_keydown(Key::Key("s".to_string()), ModifierKey::Ctrl, Msg::Clicked));
    assert_eq!(l.id, "@document/keydown/key/ctrl/1:s");
    assert_eq!(l.event_type, EventType::Keydown);
    assert_eq!(
        l.matchers,
        vec![EventMatcher::KeyboardKey {
            key: Key::Key("s".to_string()),
            requires_ctrl: true,
            requires_meta: false,
        }]
    );
    assert_eq!(l.propagation, PASSED_ON);
    assert_eq!(l.queue_strategy, QueueStrategy::DropOlder);

    let plain = listener(on_keydown(Key::Enter, ModifierKey::NoModifier, Msg::Clicked));
    assert_eq!(plain.id, "@document/keydown/key/no-modifier/5:enter");
    let any = listener(on_keydown(Key::Any, ModifierKey::Meta, Msg::Clicked));
    assert_eq!(any.id, "@document/keydown/key/meta/3:any");
    assert_eq!(
        any.matchers,
        vec![EventMatcher::KeyboardKey { key: Key::Any, requires_ctrl: false, requires_meta: true }]
    );
}

#[test]
fn on_keydown_with_options_takes_the_propagation() {
    let both = ModifierKey::Multiple(vec![ModifierKey::Ctrl, ModifierKey::Meta]);
    let l = listener(on_keydown_with_options(Key::Enter, both, CONTAINED, Msg::Clicked));
    assert_eq!(l.id, "@document/keydown/key/ctrl-meta/5:enter");
    assert_eq!(
        l.matchers,
        vec![EventMatcher::KeyboardKey { key: Key::Enter, requires_ctrl: true, requires_meta: true }]
    );
    assert_eq!(l.propagation, CONTAINED);
}

#[test]
fn on_window_resize_listens_on_the_window() {
    let l = listener(on_window_resize(Msg::Size));
    assert_eq!(l.id, "@window/resize/");
    assert_eq!(l.listen_target, ListenTarget::Window);
    assert_eq!(l.event_type, EventType::Resize);
    assert_eq!(l.matchers, vec![]);
    assert_eq!(
        l.msg,
        SubscriptionMsg::Effectful {
            msg: Msg::Size(Capture::new(WindowSize { width: 0, height: 0 })),
            effect: Effect::Dom(Dom::GetWindowSize),
        }
    );
    assert_eq!(l.propagation, PASSED_ON);
    assert_eq!(l.queue_strategy, QueueStrategy::DropOlder);
}

#[test]
fn id_does_not_depend_on_the_message() {
    let id = DomId::new("save");
    let first = listener(on_click(&id, Msg::Clicked));
    let second = listener(on_click(&id, Msg::Other));
    assert_eq!(first.listen_target, second.listen_target);
    assert_eq!(first.event_type, second.event_type);
    assert_eq!(first.matchers, second.matchers);
    assert!(first.msg != second.msg);
    assert_eq!(first.id, second.id);

    let a = listener(on_keydown(Key::Enter, ModifierKey::Ctrl, Msg::Clicked));
    let b = listener(on_keydown(Key::Enter, ModifierKey::Ctrl, Msg::Other));
    assert_eq!(a.matchers, b.matchers);
    assert_eq!(a.id, b.id);
}

#[test]
fn id_goes_by_the_required_modifiers_not_by_how_they_are_written() {
    let written = [
        ModifierKey::Multiple(vec![ModifierKey::Ctrl, ModifierKey::Meta]),
        ModifierKey::Multiple(vec![ModifierKey::Meta, ModifierKey::Ctrl]),
        ModifierKey::Multiple(vec![
            ModifierKey::Meta,
            ModifierKey::Multiple(vec![ModifierKey::Ctrl, ModifierKey::Ctrl]),
            ModifierKey::NoModifier,
        ]),
    ];
    for modifier in written {
        let l = listener(on_keydown(Key::Enter, modifier, Msg::Clicked));
        assert_eq!(l.id, "@document/keydown/key/ctrl-meta/5:enter");
    }
    let ctrl_twice = ModifierKey::Multiple(vec![ModifierKey::Ctrl, ModifierKey::Ctrl]);
    assert_eq!(
        listener(on_keydown(Key::Enter, ctrl_twice, Msg::Clicked)).id,
        listener(on_keydown(Key::Enter, ModifierKey::Ctrl, Msg::Other)).id
    );
    let none_written = ModifierKey::Multiple(vec![]);
    assert_eq!(
        listener(on_keydown(Key::Enter, none_written, Msg::Clicked)).id,
        listener(on_keydown(Key::Enter, ModifierKey::NoModifier, Msg::Other)).id
    );
}

#[test]
fn same_way_of_listening_same_id_whoever_made_it() {
    let by_id = listener(on_click(&DomId::new("a"), Msg::Clicked));
    let by_selector =
        listener(on_click_selector(Selector::id("a"), get_target_data_json_value("x"), Msg::Number));
    assert_eq!(by_id.matchers, by_selector.matchers);
    assert_eq!(by_id.id, by_selector.id);

    let by_name = listener(on_click_data_string("page", Msg::Text));
    let by_data_selector = listener(on_click_selector(
        Selector::data("page"),
        get_target_data_json_value("x"),
        Msg::Number,
    ));
    assert_eq!(by_name.id, by_data_selector.id);

    let changed = listener(on_change_string(&DomId::new("a"), Msg::Text));
    let changed_by_selector = listener(on_change_selector(
        Selector::id("a"),
        Msg::Text,
        reads_element("a", false),
    ));
    assert_eq!(changed.id, changed_by_selector.id);
}

#[test]
fn different_ways_of_listening_have_different_ids() {
    let id = DomId::new("search");
    let all = vec![
        listener(on_click(&id, Msg::Clicked)).id,
        listener(on_click_closest(&id, Msg::Clicked)).id,
        listener(on_mouse_down(&id, Msg::Clicked)).id,
        listener(on_input(&id, Msg::Text)).id,
        listener(on_change_string(&id, Msg::Text)).id,
        listener(on_submit(&id, Msg::Clicked)).id,
        listener(on_keyup_element(&id, Msg::Text)).id,
        listener(on_keyup(Key::Key("search".to_string()), Msg::Clicked)).id,
        listener(on_keydown(Key::Key("search".to_string()), ModifierKey::NoModifier, Msg::Clicked))
            .id,
        listener(on_keydown(Key::Key("search".to_string()), ModifierKey::Ctrl, Msg::Clicked)).id,
        listener(on_click_data_string("search", Msg::Text)).id,
        listener(on_click_closest_data_string("search", Msg::Text)).id,
        listener(on_radio_change_string("search", Msg::Text)).id,
        listener(on_window_resize(Msg::Size)).id,
    ];
    for (i, first) in all.iter().enumerate() {
        for second in all.iter().skip(i + 1) {
            assert_ne!(first, second);
        }
    }
}

#[test]
fn ids_of_awkward_texts_stay_apart() {
    // A key whose name looks like a key with a modifier.
    let a = listener(on_keydown(Key::Key("a-ctrl".to_string()), ModifierKey::Meta, Msg::Clicked));
    let b = listener(on_keydown(
        Key::Key("a".to_string()),
        ModifierKey::Multiple(vec![ModifierKey::Ctrl, ModifierKey::Meta]),
        Msg::Clicked,
    ));
    assert_eq!(a.id, "@document/keydown/key/meta/6:a-ctrl");
    assert_eq!(b.id, "@document/keydown/key/ctrl-meta/1:a");

    // An element whose id looks like a spelled-out listener id.
    let click = listener(on_click(&DomId::new("x"), Msg::Clicked));
    let input = listener(on_input(&DomId::new(&click.id), Msg::Text));
    assert_ne!(input.id, click.id);
    assert_eq!(input.id, "@document/input/exact/27:#@document/click/exact/2:#x");

    // The empty element id, and one of a single character.
    assert_eq!(listener(on_input(&DomId::new(""), Msg::Text)).id, "");
    assert_eq!(listener(on_input(&DomId::new("@"), Msg::Text)).id, "@document/input/exact/2:#@");
    assert_eq!(listener(on_input(&DomId::new("é@"), Msg::Text)).id, "é@");
    assert_eq!(listener(on_click(&DomId::new("é"), Msg::Clicked)).id, "@document/click/exact/2:#é");
}

#[test]
fn modifier_key_requires_what_it_holds() {
    assert!(!ModifierKey::NoModifier.requires_ctrl());
    assert!(!ModifierKey::NoModifier.requires_meta());
    assert!(ModifierKey::Ctrl.requires_ctrl());
    assert!(!ModifierKey::Ctrl.requires_meta());
    assert!(ModifierKey::Meta.requires_meta());
    assert!(!ModifierKey::Meta.requires_ctrl());
    let nested = ModifierKey::Multiple(vec![
        ModifierKey::NoModifier,
        ModifierKey::Multiple(vec![ModifierKey::Meta]),
    ]);
    assert!(nested.requires_meta());
    assert!(!nested.requires_ctrl());
    let empty = ModifierKey::Multiple(vec![]);
    assert!(!empty.requires_ctrl());
    assert!(!empty.requires_meta());
}

#[test]
fn modifier_key_clone_keeps_the_members() {
    let nested = ModifierKey::Multiple(vec![
        ModifierKey::Ctrl,
        ModifierKey::Multiple(vec![ModifierKey::Meta, ModifierKey::NoModifier]),
    ]);
    assert_eq!(nested.clone(), nested);
    assert_eq!(nested.clone().to_string(), "ctrl-meta-no-modifier");
}

#[test]
fn modifier_key_text_joins_with_hyphens() {
    assert_eq!(ModifierKey::NoModifier.to_string(), "no-modifier");
    assert_eq!(ModifierKey::Ctrl.to_string(), "ctrl");
    assert_eq!(ModifierKey::Meta.to_string(), "meta");
    assert_eq!(ModifierKey::Multiple(vec![]).to_string(), "");
    assert_eq!(ModifierKey::Multiple(vec![ModifierKey::Ctrl]).to_string(), "ctrl");
    assert_eq!(
        ModifierKey::Multiple(vec![
            ModifierKey::Ctrl,
            ModifierKey::Multiple(vec![ModifierKey::Meta, ModifierKey::NoModifier]),
            ModifierKey::Meta,
        ])
        .to_string(),
        "ctrl-meta-no-modifier-meta"
    );
}

#[test]
fn interval_id_joins_namespace_and_duration() {
    let sub: Subscription<Msg> = interval("clock", 1000, Msg::Clicked);
    match sub {
        Subscription::Interval(timer) => {
            assert_eq!(timer.id, "clock-1000");
            assert_eq!(timer.duration, 1000);
            assert_eq!(timer.msg, SubscriptionMsg::Pure(Msg::Clicked));
            assert_eq!(timer.queue_strategy, QueueStrategy::DropOlder);
        }
        _ => panic!("not an interval"),
    }
}

#[test]
fn interval_effect_pairs_the_effect() {
    let sub: Subscription<Msg> =
        interval_effect("poll", 0, Msg::Text, reads_element("status", false));
    match sub {
        Subscription::Interval(timer) => {
            assert_eq!(timer.id, "poll-0");
            assert_eq!(timer.duration, 0);
            assert_eq!(*pending_text(&timer.msg), reads_element("status", false));
            assert_eq!(timer.queue_strategy, QueueStrategy::DropOlder);
        }
        _ => panic!("not an interval"),
    }
    let far: Subscription<Msg> = interval("far", u64::MAX, Msg::Clicked);
    match far {
        Subscription::Interval(timer) => assert_eq!(timer.id, "far-18446744073709551615"),
        _ => panic!("not an interval"),
    }
}
