//! The ids of listeners: one id for each way of listening, and no id for two.

use crate::browser::mouse::Button;
use crate::browser::subscription::event_listener::demands;
use crate::browser::subscription::event_listener::Demand;
use crate::browser::subscription::event_listener::EventMatcher;
use crate::browser::subscription::event_listener::EventType;
use crate::browser::subscription::event_listener::ListenTarget;
use crate::text::decimal;
use crate::text::decimal_string;
use crate::text::free_of;
use crate::text::lemma_cut_at_mark;
use crate::text::lemma_decimal_is_digits;
use crate::text::lemma_decimal_is_injective;
use crate::text::lemma_same_start;
use vstd::prelude::*;

verus! {

/// The name of a listen target in an id.
pub open spec fn target_word(listen_target: ListenTarget) -> Seq<char> {
    match listen_target {
        ListenTarget::Window => "window"@,
        ListenTarget::Document => "document"@,
    }
}

/// The name of a kind of event in an id.
pub open spec fn type_word(event_type: EventType) -> Seq<char> {
    match event_type {
        EventType::Click => "click"@,
        EventType::Mousedown => "mousedown"@,
        EventType::Input => "input"@,
        EventType::Change => "change"@,
        EventType::Submit => "submit"@,
        EventType::Keyup => "keyup"@,
        EventType::Keydown => "keydown"@,
        EventType::Resize => "resize"@,
    }
}

/// The name in an id of the modifiers that a keyboard matcher requires.
pub open spec fn modifier_word(requires_ctrl: bool, requires_meta: bool) -> Seq<char> {
    if requires_ctrl && requires_meta {
        "ctrl-meta"@
    } else if requires_ctrl {
        "ctrl"@
    } else if requires_meta {
        "meta"@
    } else {
        "no-modifier"@
    }
}

/// A word as a part of an id: the word, then a slash.
pub open spec fn part(word: Seq<char>) -> Seq<char> {
    word + seq!['/']
}

/// A free text as a part of an id: the number of its characters, a colon, and
/// the text.
pub open spec fn sized(text: Seq<char>) -> Seq<char> {
    decimal(text.len()) + seq![':'] + text
}

/// What stands in an id for one demand of a listener.
pub open spec fn demand_code(demand: Demand) -> Seq<char> {
    match demand {
        Demand::ExactSelector { selector } => part("exact"@) + sized(selector),
        Demand::ClosestSelector { selector } => part("closest"@) + sized(selector),
        Demand::MouseButton { button } => part("button"@) + part(button.text()),
        Demand::KeyboardKey { key, requires_ctrl, requires_meta } => part("key"@) + part(
            modifier_word(requires_ctrl, requires_meta),
        ) + sized(key),
    }
}

/// What stands in an id for the demands of a listener, one after the other.
pub open spec fn demand_codes(matchers: Seq<Demand>) -> Seq<char>
    decreases matchers.len(),
{
    if matchers.len() == 0 {
        Seq::empty()
    } else {
        demand_code(matchers[0]) + demand_codes(matchers.subrange(1, matchers.len() as int))
    }
}

/// The id that spells out what a listener listens on, for which kind of event,
/// and what it demands. It starts with `@`.
pub open spec fn spelled_id(
    listen_target: ListenTarget,
    event_type: EventType,
    matchers: Seq<Demand>,
) -> Seq<char> {
    seq!['@'] + part(target_word(listen_target)) + part(type_word(event_type)) + demand_codes(
        matchers,
    )
}

/// The element id that is the listener's own id: that of a listener for input
/// into the one element with that id, unless the element id starts with `@`.
pub open spec fn short_id(
    listen_target: ListenTarget,
    event_type: EventType,
    matchers: Seq<Demand>,
) -> Option<Seq<char>> {
    if listen_target == ListenTarget::Document && event_type == EventType::Input && matchers.len()
        == 1 {
        match matchers[0] {
            Demand::ExactSelector { selector } => if selector.len() >= 1 && selector[0] == '#' && (
            selector.len() == 1 || selector[1] != '@') {
                Some(selector.subrange(1, selector.len() as int))
            } else {
                None
            },
            _ => None,
        }
    } else {
        None
    }
}

/// The id of the listener that listens on `listen_target` for `event_type` with
/// the given demands. A listener for input into an element goes by the
/// element's id; every other listener goes by an id that spells it out.
pub open spec fn id_of(
    listen_target: ListenTarget,
    event_type: EventType,
    matchers: Seq<Demand>,
) -> Seq<char> {
    match short_id(listen_target, event_type, matchers) {
        Some(name) => name,
        None => spelled_id(listen_target, event_type, matchers),
    }
}

proof fn lemma_words_have_no_slash()
    ensures
        forall|listen_target: ListenTarget| free_of(#[trigger] target_word(listen_target), '/'),
        forall|event_type: EventType| free_of(#[trigger] type_word(event_type), '/'),
        forall|button: Button| free_of(#[trigger] button.text(), '/'),
        forall|ctrl: bool, meta: bool| free_of(#[trigger] modifier_word(ctrl, meta), '/'),
        free_of("exact"@, '/'),
        free_of("closest"@, '/'),
        free_of("button"@, '/'),
        free_of("key"@, '/'),
{
    reveal_strlit("window");
    reveal_strlit("document");
    reveal_strlit("click");
    reveal_strlit("mousedown");
    reveal_strlit("input");
    reveal_strlit("change");
    reveal_strlit("submit");
    reveal_strlit("keyup");
    reveal_strlit("keydown");
    reveal_strlit("resize");
    reveal_strlit("main");
    reveal_strlit("auxiliary");
    reveal_strlit("secondary");
    reveal_strlit("fourth");
    reveal_strlit("fifth");
    reveal_strlit("ctrl-meta");
    reveal_strlit("ctrl");
    reveal_strlit("meta");
    reveal_strlit("no-modifier");
    reveal_strlit("exact");
    reveal_strlit("closest");
    reveal_strlit("button");
    reveal_strlit("key");
}

proof fn lemma_words_differ()
    ensures
        forall|a: ListenTarget, b: ListenTarget| #[trigger]
            target_word(a) == #[trigger] target_word(b) ==> a == b,
        forall|a: EventType, b: EventType| #[trigger]
            type_word(a) == #[trigger] type_word(b) ==> a == b,
        forall|a: Button, b: Button| #[trigger] a.text() == #[trigger] b.text() ==> a == b,
        forall|c: bool, m: bool, d: bool, n: bool| #[trigger]
            modifier_word(c, m) == #[trigger] modifier_word(d, n) ==> c == d && m == n,
        "exact"@ != "closest"@,
        "exact"@ != "button"@,
        "exact"@ != "key"@,
        "closest"@ != "button"@,
        "closest"@ != "key"@,
        "button"@ != "key"@,
{
    reveal_strlit("window");
    reveal_strlit("document");
    reveal_strlit("click");
    reveal_strlit("mousedown");
    reveal_strlit("input");
    reveal_strlit("change");
    reveal_strlit("submit");
    reveal_strlit("keyup");
    reveal_strlit("keydown");
    reveal_strlit("resize");
    reveal_strlit("main");
    reveal_strlit("auxiliary");
    reveal_strlit("secondary");
    reveal_strlit("fourth");
    reveal_strlit("fifth");
    reveal_strlit("ctrl-meta");
    reveal_strlit("ctrl");
    reveal_strlit("meta");
    reveal_strlit("no-modifier");
    reveal_strlit("exact");
    reveal_strlit("closest");
    reveal_strlit("button");
    reveal_strlit("key");
    assert("window"@.len() == 6 && "document"@.len() == 8);
    assert("click"@.len() == 5 && "mousedown"@.len() == 9 && "input"@.len() == 5 && "change"@.len()
        == 6 && "submit"@.len() == 6 && "keyup"@.len() == 5 && "keydown"@.len() == 7
        && "resize"@.len() == 6);
    assert("main"@.len() == 4 && "auxiliary"@.len() == 9 && "secondary"@.len() == 9
        && "fourth"@.len() == 6 && "fifth"@.len() == 5);
    assert("auxiliary"@[0] != "secondary"@[0]);
    assert("ctrl-meta"@.len() == 9 && "ctrl"@.len() == 4 && "meta"@.len() == 4
        && "no-modifier"@.len() == 11);
    assert("ctrl"@[0] != "meta"@[0]);
    assert("click"@[0] != "input"@[0] && "click"@[0] != "keyup"@[0] && "input"@[0] != "keyup"@[0]);
    assert("change"@[0] != "submit"@[0] && "change"@[0] != "resize"@[0] && "submit"@[0]
        != "resize"@[0]);
    assert("fourth"@[1] != "fifth"@[1]);
    assert("exact"@[0] != "closest"@[0] && "exact"@[0] != "button"@[0] && "exact"@[0] != "key"@[0]
        && "closest"@[0] != "button"@[0] && "closest"@[0] != "key"@[0] && "button"@[0]
        != "key"@[0]);
    assert forall|a: ListenTarget, b: ListenTarget| #[trigger]
        target_word(a) == #[trigger] target_word(b) implies a == b by {
        assert(target_word(a).len() == target_word(b).len());
    }
    assert forall|a: EventType, b: EventType| #[trigger]
        type_word(a) == #[trigger] type_word(b) implies a == b by {
        assert(type_word(a).len() == type_word(b).len());
        assert(type_word(a)[0] == type_word(b)[0]);
    }
    assert forall|a: Button, b: Button| #[trigger] a.text() == #[trigger] b.text() implies a
        == b by {
        assert(a.text().len() == b.text().len());
        assert(a.text()[0] == b.text()[0]);
    }
    assert forall|c: bool, m: bool, d: bool, n: bool| #[trigger]
        modifier_word(c, m) == #[trigger] modifier_word(d, n) implies c == d && m == n by {
        assert(modifier_word(c, m).len() == modifier_word(d, n).len());
        assert(modifier_word(c, m)[0] == modifier_word(d, n)[0]);
    }
}

proof fn lemma_demand_code_is_not_empty(demand: Demand)
    ensures
        demand_code(demand).len() > 0,
{
}

proof fn lemma_cut_part(word: Seq<char>, rest: Seq<char>, other_word: Seq<char>, other_rest: Seq<char>)
    requires
        free_of(word, '/'),
        free_of(other_word, '/'),
        part(word) + rest == part(other_word) + other_rest,
    ensures
        word == other_word,
        rest == other_rest,
{
    lemma_cut_at_mark(word, rest, other_word, other_rest, '/');
}

proof fn lemma_cut_sized(text: Seq<char>, rest: Seq<char>, other_text: Seq<char>, other_rest: Seq<char>)
    requires
        sized(text) + rest == sized(other_text) + other_rest,
    ensures
        text == other_text,
        rest == other_rest,
{
    lemma_decimal_is_digits(text.len());
    lemma_decimal_is_digits(other_text.len());
    assert(sized(text) + rest =~= decimal(text.len()) + seq![':'] + (text + rest));
    assert(sized(other_text) + other_rest =~= decimal(other_text.len()) + seq![':'] + (other_text
        + other_rest));
    lemma_cut_at_mark(
        decimal(text.len()),
        text + rest,
        decimal(other_text.len()),
        other_text + other_rest,
        ':',
    );
    lemma_decimal_is_injective(text.len(), other_text.len());
    let whole = text + rest;
    let n = text.len() as int;
    assert(text =~= whole.subrange(0, n));
    assert(other_text =~= (other_text + other_rest).subrange(0, n));
    assert(whole.len() == n + rest.len());
    assert((other_text + other_rest).len() == n + other_rest.len());
    assert(rest =~= whole.subrange(n, whole.len() as int));
    assert(other_rest =~= (other_text + other_rest).subrange(n, whole.len() as int));
}

/// The kind of a demand as it is spelled in an id, and what follows it there.
spec fn kind_word(demand: Demand) -> Seq<char> {
    match demand {
        Demand::ExactSelector { .. } => "exact"@,
        Demand::ClosestSelector { .. } => "closest"@,
        Demand::MouseButton { .. } => "button"@,
        Demand::KeyboardKey { .. } => "key"@,
    }
}

spec fn after_kind(demand: Demand) -> Seq<char> {
    match demand {
        Demand::ExactSelector { selector } => sized(selector),
        Demand::ClosestSelector { selector } => sized(selector),
        Demand::MouseButton { button } => part(button.text()),
        Demand::KeyboardKey { key, requires_ctrl, requires_meta } => part(
            modifier_word(requires_ctrl, requires_meta),
        ) + sized(key),
    }
}

proof fn lemma_cut_demand(demand: Demand, rest: Seq<char>, other: Demand, other_rest: Seq<char>)
    requires
        demand_code(demand) + rest == demand_code(other) + other_rest,
    ensures
        demand == other,
        rest == other_rest,
{
    lemma_words_have_no_slash();
    lemma_words_differ();
    assert(demand_code(demand) =~= part(kind_word(demand)) + after_kind(demand));
    assert(demand_code(other) =~= part(kind_word(other)) + after_kind(other));
    assert(demand_code(demand) + rest =~= part(kind_word(demand)) + (after_kind(demand) + rest));
    assert(demand_code(other) + other_rest =~= part(kind_word(other)) + (after_kind(other)
        + other_rest));
    lemma_cut_part(
        kind_word(demand),
        after_kind(demand) + rest,
        kind_word(other),
        after_kind(other) + other_rest,
    );
    match demand {
        Demand::ExactSelector { selector } => {
            lemma_cut_sized(selector, rest, other->ExactSelector_selector, other_rest);
        },
        Demand::ClosestSelector { selector } => {
            lemma_cut_sized(selector, rest, other->ClosestSelector_selector, other_rest);
        },
        Demand::MouseButton { button } => {
            lemma_cut_part(button.text(), rest, other->MouseButton_button.text(), other_rest);
        },
        Demand::KeyboardKey { key, requires_ctrl, requires_meta } => {
            let word = modifier_word(requires_ctrl, requires_meta);
            let other_word = modifier_word(
                other->KeyboardKey_requires_ctrl,
                other->KeyboardKey_requires_meta,
            );
            let other_key = other->KeyboardKey_key;
            assert(after_kind(demand) + rest =~= part(word) + (sized(key) + rest));
            assert(after_kind(other) + other_rest =~= part(other_word) + (sized(other_key)
                + other_rest));
            lemma_cut_part(word, sized(key) + rest, other_word, sized(other_key) + other_rest);
            lemma_cut_sized(key, rest, other_key, other_rest);
        },
    }
}

proof fn lemma_demand_codes_tell_apart(matchers: Seq<Demand>, others: Seq<Demand>)
    requires
        demand_codes(matchers) == demand_codes(others),
    ensures
        matchers == others,
    decreases matchers.len(),
{
    if matchers.len() == 0 || others.len() == 0 {
        if matchers.len() > 0 {
            lemma_demand_code_is_not_empty(matchers[0]);
            assert(demand_codes(matchers).len() > 0);
        }
        if others.len() > 0 {
            lemma_demand_code_is_not_empty(others[0]);
            assert(demand_codes(others).len() > 0);
        }
        assert(matchers =~= others);
    } else {
        let rest = matchers.subrange(1, matchers.len() as int);
        let other_rest = others.subrange(1, others.len() as int);
        assert(demand_codes(matchers) == demand_code(matchers[0]) + demand_codes(rest));
        assert(demand_codes(others) == demand_code(others[0]) + demand_codes(other_rest));
        lemma_cut_demand(matchers[0], demand_codes(rest), others[0], demand_codes(other_rest));
        lemma_demand_codes_tell_apart(rest, other_rest);
        assert(matchers =~= seq![matchers[0]] + rest);
        assert(others =~= seq![others[0]] + other_rest);
    }
}

proof fn lemma_spelled_ids_tell_apart(
    listen_target: ListenTarget,
    event_type: EventType,
    matchers: Seq<Demand>,
    other_target: ListenTarget,
    other_type: EventType,
    others: Seq<Demand>,
)
    requires
        spelled_id(listen_target, event_type, matchers) == spelled_id(
            other_target,
            other_type,
            others,
        ),
    ensures
        listen_target == other_target,
        event_type == other_type,
        matchers == others,
{
    lemma_words_have_no_slash();
    lemma_words_differ();
    let tail = part(target_word(listen_target)) + (part(type_word(event_type)) + demand_codes(
        matchers,
    ));
    let other_tail = part(target_word(other_target)) + (part(type_word(other_type)) + demand_codes(
        others,
    ));
    assert(spelled_id(listen_target, event_type, matchers) =~= seq!['@'] + tail);
    assert(spelled_id(other_target, other_type, others) =~= seq!['@'] + other_tail);
    lemma_same_start(seq!['@'], tail, other_tail);
    lemma_cut_part(
        target_word(listen_target),
        part(type_word(event_type)) + demand_codes(matchers),
        target_word(other_target),
        part(type_word(other_type)) + demand_codes(others),
    );
    lemma_cut_part(
        type_word(event_type),
        demand_codes(matchers),
        type_word(other_type),
        demand_codes(others),
    );
    lemma_demand_codes_tell_apart(matchers, others);
}

/// No two ways of listening have one id: where the ids are equal, the listen
/// targets are, the kinds of event are, and the demands are.
pub proof fn lemma_ids_tell_apart(
    listen_target: ListenTarget,
    event_type: EventType,
    matchers: Seq<Demand>,
    other_target: ListenTarget,
    other_type: EventType,
    others: Seq<Demand>,
)
    requires
        id_of(listen_target, event_type, matchers) == id_of(other_target, other_type, others),
    ensures
        listen_target == other_target,
        event_type == other_type,
        matchers == others,
{
    let short = short_id(listen_target, event_type, matchers);
    let other_short = short_id(other_target, other_type, others);
    let spelled = spelled_id(listen_target, event_type, matchers);
    let other_spelled = spelled_id(other_target, other_type, others);
    assert(spelled.len() > 0 && spelled[0] == '@');
    assert(other_spelled.len() > 0 && other_spelled[0] == '@');
    if short is Some && other_short is Some {
        let selector = matchers[0]->ExactSelector_selector;
        let other_selector = others[0]->ExactSelector_selector;
        assert(selector =~= seq!['#'] + short->Some_0);
        assert(other_selector =~= seq!['#'] + other_short->Some_0);
        assert(matchers =~= others);
    } else if short is Some {
        let selector = matchers[0]->ExactSelector_selector;
        assert(short->Some_0 == other_spelled);
        assert(selector[1] == short->Some_0[0]);
    } else if other_short is Some {
        let other_selector = others[0]->ExactSelector_selector;
        assert(other_short->Some_0 == spelled);
        assert(other_selector[1] == other_short->Some_0[0]);
    } else {
        lemma_spelled_ids_tell_apart(
            listen_target,
            event_type,
            matchers,
            other_target,
            other_type,
            others,
        );
    }
}

fn target_str(listen_target: ListenTarget) -> (word: &'static str)
    ensures
        word@ == target_word(listen_target),
{
    match listen_target {
        ListenTarget::Window => "window",
        ListenTarget::Document => "document",
    }
}

fn type_str(event_type: EventType) -> (word: &'static str)
    ensures
        word@ == type_word(event_type),
{
    match event_type {
        EventType::Click => "click",
        EventType::Mousedown => "mousedown",
        EventType::Input => "input",
        EventType::Change => "change",
        EventType::Submit => "submit",
        EventType::Keyup => "keyup",
        EventType::Keydown => "keydown",
        EventType::Resize => "resize",
    }
}

fn modifier_str(requires_ctrl: bool, requires_meta: bool) -> (word: &'static str)
    ensures
        word@ == modifier_word(requires_ctrl, requires_meta),
{
    if requires_ctrl && requires_meta {
        "ctrl-meta"
    } else if requires_ctrl {
        "ctrl"
    } else if requires_meta {
        "meta"
    } else {
        "no-modifier"
    }
}

fn push_part(text: &mut String, word: &str)
    ensures
        final(text)@ == old(text)@ + part(word@),
{
    proof {
        reveal_strlit("/");
    }
    text.append(word);
    text.append("/");
    assert(text@ =~= old(text)@ + part(word@));
}

fn push_sized(text: &mut String, free: &str)
    ensures
        final(text)@ == old(text)@ + sized(free@),
{
    proof {
        reveal_strlit(":");
    }
    let length = free.unicode_len();
    text.append(decimal_string(length as u64).as_str());
    text.append(":");
    text.append(free);
    assert(text@ =~= old(text)@ + sized(free@));
}

fn push_demand(text: &mut String, matcher: &EventMatcher)
    ensures
        final(text)@ == old(text)@ + demand_code(matcher@),
{
    match matcher {
        EventMatcher::ExactSelector { selector } => {
            push_part(text, "exact");
            push_sized(text, selector.as_str());
        },
        EventMatcher::ClosestSelector { selector } => {
            push_part(text, "closest");
            push_sized(text, selector.as_str());
        },
        EventMatcher::MouseButton { button } => {
            push_part(text, "button");
            push_part(text, button.to_string().as_str());
        },
        EventMatcher::KeyboardKey { key, requires_ctrl, requires_meta } => {
            push_part(text, "key");
            push_part(text, modifier_str(*requires_ctrl, *requires_meta));
            push_sized(text, key.to_string().as_str());
        },
    }
    assert(text@ =~= old(text)@ + demand_code(matcher@));
}

/// The element id by which a listener for input into one element goes, if the
/// listener is one.
fn short_id_for(
    listen_target: ListenTarget,
    event_type: EventType,
    matchers: &Vec<EventMatcher>,
) -> (name: Option<String>)
    ensures
        match short_id(listen_target, event_type, demands(matchers@)) {
            Some(expected) => name matches Some(found) && found@ == expected,
            None => name is None,
        },
{
    if listen_target == ListenTarget::Document && event_type == EventType::Input && matchers.len()
        == 1 {
        match &matchers[0] {
            EventMatcher::ExactSelector { selector } => {
                let text = selector.as_str();
                let length = text.unicode_len();
                if length >= 1 && text.get_char(0) == '#' && (length == 1 || text.get_char(1)
                    != '@') {
                    Some(String::from_str(text.substring_char(1, length)))
                } else {
                    None
                }
            },
            _ => None,
        }
    } else {
        None
    }
}

/// Makes the id of the listener that listens on `listen_target` for
/// `event_type` with the given matchers.
pub fn listener_id(
    listen_target: ListenTarget,
    event_type: EventType,
    matchers: &Vec<EventMatcher>,
) -> (id: String)
    ensures
        id@ == id_of(listen_target, event_type, demands(matchers@)),
{
    match short_id_for(listen_target, event_type, matchers) {
        Some(name) => name,
        None => {
            proof {
                reveal_strlit("@");
            }
            let mut id = String::from_str("@");
            push_part(&mut id, target_str(listen_target));
            push_part(&mut id, type_str(event_type));
            let ghost head = id@;
            let ghost all = demands(matchers@);
            let mut i: usize = 0;
            assert(all.subrange(0, all.len() as int) =~= all);
            while i < matchers.len()
                invariant
                    i <= matchers.len(),
                    all == demands(matchers@),
                    id@ + demand_codes(all.subrange(i as int, all.len() as int)) == head
                        + demand_codes(all),
                decreases matchers.len() - i,
            {
                let ghost before = id@;
                let ghost left = all.subrange(i as int, all.len() as int);
                push_demand(&mut id, &matchers[i]);
                proof {
                    assert(left[0] == matchers@[i as int]@);
                    assert(left.subrange(1, left.len() as int) =~= all.subrange(
                        i + 1,
                        all.len() as int,
                    ));
                    assert(id@ + demand_codes(all.subrange(i + 1, all.len() as int)) =~= before
                        + demand_codes(left));
                }
                i += 1;
            }
            assert(id@ =~= head + demand_codes(all));
            id
        },
    }
}

} // verus!
