//! Deciding which listeners an event of the host reaches.

use crate::browser::keyboard::is_wildcard_name;
use crate::browser::mouse::Button;
use crate::browser::selector::Selector;
use crate::browser::subscription::event_listener::demands;
use crate::browser::subscription::event_listener::Demand;
use crate::browser::subscription::event_listener::Description;
use crate::browser::subscription::event_listener::EventListener;
use crate::browser::subscription::event_listener::EventMatcher;
use crate::browser::subscription::event_listener::EventType;
use crate::browser::subscription::event_listener::ListenTarget;
use crate::browser::subscription::Subscription;
use crate::text::same_text;
use vstd::prelude::*;

verus! {

/// An element on the way from an event's target to the root of the document.
/// Whether an element satisfies a selector is for the host to find out: of the
/// selectors that the installed listeners name, it lists here those that the
/// element satisfies.
#[derive(Clone, Debug, PartialEq, Eq)]
pub struct Element {
    pub selectors: Vec<Selector>,
}

impl View for Element {
    type V = Seq<Seq<char>>;

    open spec fn view(&self) -> Seq<Seq<char>> {
        Seq::new(self.selectors@.len(), |i: int| self.selectors@[i]@)
    }
}

/// An event as the host reports it.
#[derive(Clone, Debug, PartialEq, Eq)]
pub struct RawEvent {
    /// The object on which the host caught the event.
    pub listen_target: ListenTarget,
    pub event_type: EventType,
    /// The element that the event happened on, then the elements that it lies in,
    /// from the nearest to the root.
    pub target_path: Vec<Element>,
    /// The mouse button, for an event of the mouse.
    pub button: Option<Button>,
    /// The name of the key, for an event of the keyboard.
    pub key: Option<String>,
    /// Whether Ctrl was held; `false` for an event that does not say.
    pub ctrl_pressed: bool,
    /// Whether Meta was held; `false` for an event that does not say.
    pub meta_pressed: bool,
}

/// An event with its texts as plain sequences of characters.
pub struct EventView {
    pub listen_target: ListenTarget,
    pub event_type: EventType,
    pub target_path: Seq<Seq<Seq<char>>>,
    pub button: Option<Button>,
    pub key: Option<Seq<char>>,
    pub ctrl_pressed: bool,
    pub meta_pressed: bool,
}

impl View for RawEvent {
    type V = EventView;

    open spec fn view(&self) -> EventView {
        EventView {
            listen_target: self.listen_target,
            event_type: self.event_type,
            target_path: Seq::new(self.target_path@.len(), |i: int| self.target_path@[i]@),
            button: self.button,
            key: match self.key {
                Some(key) => Some(key@),
                None => None,
            },
            ctrl_pressed: self.ctrl_pressed,
            meta_pressed: self.meta_pressed,
        }
    }
}

/// Whether some element of the path, from `from` on, satisfies the selector.
pub open spec fn satisfied_from(path: Seq<Seq<Seq<char>>>, selector: Seq<char>, from: int) -> bool {
    exists|i: int| from <= i < path.len() && (#[trigger] path[i]).contains(selector)
}

/// Whether an event meets one demand of a listener.
pub open spec fn holds(demand: Demand, event: EventView) -> bool {
    match demand {
        Demand::ExactSelector { selector } => event.target_path.len() > 0
            && event.target_path[0].contains(selector),
        Demand::ClosestSelector { selector } => satisfied_from(event.target_path, selector, 0),
        Demand::MouseButton { button } => event.button == Some(button),
        Demand::KeyboardKey { key, requires_ctrl, requires_meta } => {
            &&& is_wildcard_name(key) || event.key == Some(key)
            &&& event.ctrl_pressed == requires_ctrl
            &&& event.meta_pressed == requires_meta
        },
    }
}

/// Whether an event meets each of the first `n` demands.
pub open spec fn all_hold(matchers: Seq<Demand>, event: EventView, n: int) -> bool {
    forall|i: int| 0 <= i < n && i < matchers.len() ==> holds(#[trigger] matchers[i], event)
}

/// Whether a listener fires for an event: it listens on the object and for the
/// kind of the event, and the event meets all its demands.
pub open spec fn fires(listener: Description, event: EventView) -> bool {
    &&& listener.listen_target == event.listen_target
    &&& listener.event_type == event.event_type
    &&& all_hold(listener.matchers, event, listener.matchers.len() as int)
}

/// Whether a leaf of the subscriptions is a listener that fires for an event.
pub open spec fn leaf_fires<Msg>(subscription: Subscription<Msg>, event: EventView) -> bool {
    subscription matches Subscription::EventListener(listener) && fires(
        listener.description(),
        event,
    )
}

/// The places, among the first `n` subscriptions, of the listeners that fire for
/// an event, in rising order.
pub open spec fn firing<Msg>(
    subscriptions: Seq<Subscription<Msg>>,
    event: EventView,
    n: int,
) -> Seq<int>
    decreases n,
{
    if n <= 0 {
        Seq::empty()
    } else if n <= subscriptions.len() && leaf_fires(subscriptions[n - 1], event) {
        firing(subscriptions, event, n - 1).push(n - 1)
    } else {
        firing(subscriptions, event, n - 1)
    }
}

/// Every listener that fires has its place in the result, no other place is
/// there, and the places rise: the listeners fire in the order of registration.
pub proof fn lemma_firing_is_complete_and_ordered<Msg>(
    subscriptions: Seq<Subscription<Msg>>,
    event: EventView,
    n: int,
)
    requires
        0 <= n <= subscriptions.len(),
    ensures
        forall|k: int|
            firing(subscriptions, event, n).contains(k) <==> 0 <= k < n && leaf_fires(
                #[trigger] subscriptions[k],
                event,
            ),
        forall|i: int, j: int|
            0 <= i < j < firing(subscriptions, event, n).len() ==> firing(subscriptions, event, n)[i]
                < firing(subscriptions, event, n)[j],
        forall|i: int|
            0 <= i < firing(subscriptions, event, n).len() ==> 0 <= #[trigger] firing(
                subscriptions,
                event,
                n,
            )[i] < n,
    decreases n,
{
    if n > 0 {
        lemma_firing_is_complete_and_ordered(subscriptions, event, n - 1);
        let before = firing(subscriptions, event, n - 1);
        let now = firing(subscriptions, event, n);
        if leaf_fires(subscriptions[n - 1], event) {
            assert(now == before.push(n - 1));
            assert(now[before.len() as int] == n - 1);
            assert forall|k: int| now.contains(k) <==> 0 <= k < n && leaf_fires(
                #[trigger] subscriptions[k],
                event,
            ) by {
                if now.contains(k) {
                    let i = choose|i: int| 0 <= i < now.len() && now[i] == k;
                    if i < before.len() {
                        assert(before[i] == k);
                        assert(before.contains(k));
                    }
                }
                if 0 <= k < n && leaf_fires(subscriptions[k], event) {
                    if k < n - 1 {
                        assert(before.contains(k));
                        let i = choose|i: int| 0 <= i < before.len() && before[i] == k;
                        assert(now[i] == k);
                    } else {
                        assert(now[before.len() as int] == k);
                    }
                }
            }
        } else {
            assert(now == before);
        }
    } else {
        assert(firing(subscriptions, event, n) =~= Seq::empty());
    }
}

impl Element {
    /// Whether the host found the element to satisfy the selector.
    pub fn satisfies(&self, selector: &Selector) -> (r: bool)
        ensures
            r == self@.contains(selector@),
    {
        let mut i: usize = 0;
        while i < self.selectors.len()
            invariant
                i <= self.selectors.len(),
                forall|j: int| 0 <= j < i ==> self@[j] != selector@,
            decreases self.selectors.len() - i,
        {
            if self.selectors[i].same_as(selector) {
                assert(self@[i as int] == selector@);
                return true;
            }
            i += 1;
        }
        false
    }
}

impl RawEvent {
    /// Whether the element that the event happened on, or one that it lies in,
    /// satisfies the selector. The nearest element is asked first.
    pub fn closest_satisfies(&self, selector: &Selector) -> (r: bool)
        ensures
            r == satisfied_from(self@.target_path, selector@, 0),
    {
        let mut i: usize = 0;
        while i < self.target_path.len()
            invariant
                i <= self.target_path.len(),
                forall|j: int| 0 <= j < i ==> !(#[trigger] self@.target_path[j]).contains(selector@),
            decreases self.target_path.len() - i,
        {
            if self.target_path[i].satisfies(selector) {
                assert(self@.target_path[i as int].contains(selector@));
                return true;
            }
            i += 1;
        }
        false
    }

    /// Whether the event meets what the matcher demands.
    pub fn meets(&self, matcher: &EventMatcher) -> (r: bool)
        ensures
            r == holds(matcher@, self@),
    {
        match matcher {
            EventMatcher::ExactSelector { selector } => {
                if self.target_path.len() > 0 {
                    let r = self.target_path[0].satisfies(selector);
                    assert(self@.target_path[0] == self.target_path[0]@);
                    r
                } else {
                    false
                }
            },
            EventMatcher::ClosestSelector { selector } => self.closest_satisfies(selector),
            EventMatcher::MouseButton { button } => match self.button {
                Some(pressed) => pressed == *button,
                None => false,
            },
            EventMatcher::KeyboardKey { key, requires_ctrl, requires_meta } => {
                let name = key.to_string();
                let key_fits = same_text(name.as_str(), "any") || match &self.key {
                    Some(pressed) => same_text(pressed.as_str(), name.as_str()),
                    None => false,
                };
                key_fits && self.ctrl_pressed == *requires_ctrl && self.meta_pressed
                    == *requires_meta
            },
        }
    }

    /// Whether the listener fires for the event.
    pub fn reaches<Msg>(&self, listener: &EventListener<Msg>) -> (r: bool)
        ensures
            r == fires(listener.description(), self@),
    {
        if !(listener.listen_target == self.listen_target && listener.event_type
            == self.event_type) {
            return false;
        }
        let mut i: usize = 0;
        while i < listener.matchers.len()
            invariant
                i <= listener.matchers.len(),
                all_hold(demands(listener.matchers@), self@, i as int),
            decreases listener.matchers.len() - i,
        {
            if !self.meets(&listener.matchers[i]) {
                assert(!holds(demands(listener.matchers@)[i as int], self@));
                return false;
            }
            i += 1;
        }
        true
    }
}

/// The places, in a flattened row of subscriptions, of the listeners that fire
/// for `event`. Every listener that fires is there, in the order of registration.
pub fn firing_listeners<Msg>(subscriptions: &Vec<Subscription<Msg>>, event: &RawEvent) -> (fired:
    Vec<usize>)
    ensures
        fired@.map_values(|place: usize| place as int) == firing(
            subscriptions@,
            event@,
            subscriptions@.len() as int,
        ),
{
    let mut fired: Vec<usize> = Vec::new();
    let mut i: usize = 0;
    assert(fired@.map_values(|place: usize| place as int) =~= firing(subscriptions@, event@, 0));
    while i < subscriptions.len()
        invariant
            i <= subscriptions.len(),
            fired@.map_values(|place: usize| place as int) == firing(
                subscriptions@,
                event@,
                i as int,
            ),
        decreases subscriptions.len() - i,
    {
        let ghost before = fired@;
        let fires_here = match &subscriptions[i] {
            Subscription::EventListener(listener) => event.reaches(listener),
            _ => false,
        };
        if fires_here {
            fired.push(i);
            assert(fired@.map_values(|place: usize| place as int) =~= before.map_values(
                |place: usize| place as int,
            ).push(i as int));
        }
        i += 1;
    }
    fired
}

/// The listeners, among the first `n` subscriptions, that fire for an event, in
/// the order of registration.
pub open spec fn fired<Msg>(
    subscriptions: Seq<Subscription<Msg>>,
    event: EventView,
    n: int,
) -> Seq<EventListener<Msg>>
    decreases n,
{
    if n <= 0 {
        Seq::empty()
    } else if n <= subscriptions.len() && leaf_fires(subscriptions[n - 1], event) {
        fired(subscriptions, event, n - 1).push(subscriptions[n - 1]->EventListener_0)
    } else {
        fired(subscriptions, event, n - 1)
    }
}

/// The listeners that fire are those at the places that fire, place by place.
pub proof fn lemma_fired_at_firing_places<Msg>(
    subscriptions: Seq<Subscription<Msg>>,
    event: EventView,
    n: int,
)
    requires
        0 <= n <= subscriptions.len(),
    ensures
        fired(subscriptions, event, n).len() == firing(subscriptions, event, n).len(),
        forall|i: int|
            0 <= i < fired(subscriptions, event, n).len() ==> {
                let place = firing(subscriptions, event, n)[i];
                &&& 0 <= place < n
                &&& subscriptions[place] is EventListener
                &&& #[trigger] fired(subscriptions, event, n)[i]
                    == subscriptions[place]->EventListener_0
                &&& fires(fired(subscriptions, event, n)[i].description(), event)
            },
    decreases n,
{
    if n > 0 {
        lemma_fired_at_firing_places(subscriptions, event, n - 1);
    }
}

/// The listeners, in a flattened row of subscriptions, that fire for `event`:
/// every one of them, in the order of registration, each with what it delivers.
pub fn fired_listeners<Msg>(subscriptions: Vec<Subscription<Msg>>, event: &RawEvent) -> (listeners:
    Vec<EventListener<Msg>>)
    ensures
        listeners@ == fired(subscriptions@, event@, subscriptions@.len() as int),
{
    let ghost all = subscriptions@;
    let mut rest = subscriptions;
    let mut listeners: Vec<EventListener<Msg>> = Vec::new();
    let mut i: usize = 0;
    while i < rest.len()
        invariant
            i <= rest.len(),
            rest.len() == all.len(),
            forall|j: int| i <= j < rest.len() ==> rest@[j] == all[j],
            listeners@ == fired(all, event@, i as int),
        decreases rest.len() - i,
    {
        let mut taken = Subscription::NoOp;
        rest.set_and_swap(i, &mut taken);
        assert(taken == all[i as int]);
        match taken {
            Subscription::EventListener(listener) => {
                if event.reaches(&listener) {
                    listeners.push(listener);
                }
            },
            _ => {},
        }
        i += 1;
    }
    listeners
}

} // verus!
