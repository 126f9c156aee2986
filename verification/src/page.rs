//! Pages: the application's side of the update loop, and the entry points
//! through which the host drives it.

use crate::browser::dom_id::DomId;
use crate::browser::effect::none;
use crate::browser::effect::Effect;
use crate::browser::subscription::Subscription;
use crate::browser::value::JsonValue;
use crate::failure::Failure;
use vstd::prelude::*;

pub mod program;

verus! {

/// A message that the host made up itself, outside the application's own messages.
#[derive(Clone, Debug, PartialEq)]
pub struct JsMsg {
    pub type_: String,
    pub data: JsonValue,
}

/// The markup of a page, head and body apart.
#[derive(Clone, Debug, PartialEq)]
pub struct PageMarkup<Html> {
    pub head: Html,
    pub body: Html,
}

/// A page of the application. The library promises nothing of what these
/// methods return: its own contracts speak of what a call may return.
pub trait Page<Model, Msg, Markup> {
    fn id(&self) -> DomId;

    /// The first model and the effects to perform at the start, or the reason why
    /// the page cannot start.
    fn init(&self) -> Result<(Model, Effect<Msg>), String>;

    /// The event sources that the page wants alive while the model is `model`.
    fn subscriptions(&self, model: &Model) -> Subscription<Msg>;

    /// Takes in `msg`: changes the model and returns the effects to perform next,
    /// or the reason why the message is refused.
    fn update(&self, msg: &Msg, model: &mut Model) -> Result<Effect<Msg>, String>;

    /// Takes in a message that the host made up itself, as `update` does. A page
    /// that knows no such message leaves the model alone and asks for nothing.
    fn update_from_js(&self, msg: JsMsg, model: &mut Model) -> (r: Result<Effect<Msg>, String>)
        default_ensures
            *final(model) == *old(model),
            r matches Ok(effect) && effect is NoOp,
    {
        Ok(none())
    }

    fn view(&self, model: &Model) -> PageMarkup<Markup>;

    fn render(&self, markup: Markup) -> String;

    fn render_page(&self, markup: PageMarkup<Markup>) -> String;
}

/// A model together with the effects that the host is to perform next, leaf by leaf.
#[derive(Clone, Debug, PartialEq)]
pub struct ModelAndEffects<Model, Msg> {
    pub model: Model,
    pub effects: Vec<Effect<Msg>>,
}

/// Whether `outcome` is what `page.init()` may return.
pub open spec fn may_init<P: Page<Model, Msg, Markup>, Model, Msg, Markup>(
    page: &P,
    outcome: Result<(Model, Effect<Msg>), String>,
) -> bool {
    call_ensures(P::init, (page,), outcome)
}

/// Whether `subscription` is what `page.subscriptions(&model)` may return.
pub open spec fn may_subscribe<P: Page<Model, Msg, Markup>, Model, Msg, Markup>(
    page: &P,
    model: Model,
    subscription: Subscription<Msg>,
) -> bool {
    call_ensures(P::subscriptions, (page, &model), subscription)
}

/// Whether `html` is what the page may render for the model: the whole page
/// where `whole` is set, else its body.
pub open spec fn may_show<P: Page<Model, Msg, Markup>, Model, Msg, Markup>(
    page: &P,
    model: Model,
    whole: bool,
    html: String,
) -> bool {
    exists|markup: PageMarkup<Markup>| #[trigger]
        call_ensures(P::view, (page, &model), markup) && if whole {
            call_ensures(P::render_page, (page, markup), html)
        } else {
            call_ensures(P::render, (page, markup.body), html)
        }
}

/// What the host is handed for an outcome of the page: the model with the
/// flattened effects, or the page's refusal.
pub open spec fn handed_over<Model, Msg>(
    r: Result<ModelAndEffects<Model, Msg>, Failure>,
    model: Model,
    outcome: Result<Effect<Msg>, String>,
) -> bool {
    match outcome {
        Ok(effect) => r matches Ok(both) && both.model == model && both.effects@
            == effect.flatten(),
        Err(reason) => r matches Err(Failure::Update { reason: given }) && given == reason,
    }
}

/// What the host is handed for an outcome of `init`.
pub open spec fn started<Model, Msg>(
    r: Result<ModelAndEffects<Model, Msg>, Failure>,
    outcome: Result<(Model, Effect<Msg>), String>,
) -> bool {
    match outcome {
        Ok((model, effect)) => handed_over(r, model, Ok(effect)),
        Err(reason) => r matches Err(Failure::Update { reason: given }) && given == reason,
    }
}

/// Makes of an outcome of the page what the host is handed: the model as the
/// page left it with the effects flattened, or the page's refusal.
pub fn hand_over<Model, Msg>(model: Model, outcome: Result<Effect<Msg>, String>) -> (r: Result<
    ModelAndEffects<Model, Msg>,
    Failure,
>)
    ensures
        handed_over(r, model, outcome),
{
    match outcome {
        Ok(effect) => Ok(ModelAndEffects { model, effects: effect.into_vec() }),
        Err(reason) => Err(Failure::Update { reason }),
    }
}

/// Starts the page: hands over the first model and the effects to perform at
/// the start, flattened, or the page's refusal.
pub fn init<P, Model, Msg, Markup>(page: &P) -> (r: Result<ModelAndEffects<Model, Msg>, Failure>) where
    P: Page<Model, Msg, Markup>,

    ensures
        exists|outcome: Result<(Model, Effect<Msg>), String>| #[trigger]
            may_init(page, outcome) && started(r, outcome),
{
    let outcome = page.init();
    assert(may_init(page, outcome));
    match outcome {
        Ok((model, effect)) => hand_over(model, Ok(effect)),
        Err(reason) => Err(Failure::Update { reason }),
    }
}

/// The page as markup, head and body, for the given model.
pub fn view<P, Model, Msg, Markup>(page: &P, model: &Model) -> (html: String) where
    P: Page<Model, Msg, Markup>,

    ensures
        may_show(page, *model, true, html),
{
    let markup = page.view(model);
    page.render_page(markup)
}

/// The body of the page as markup, for the given model.
pub fn view_body<P, Model, Msg, Markup>(page: &P, model: &Model) -> (html: String) where
    P: Page<Model, Msg, Markup>,

    ensures
        may_show(page, *model, false, html),
{
    let markup = page.view(model);
    page.render(markup.body)
}

/// The event sources that the page wants alive for the given model, leaf by
/// leaf in the order of registration.
pub fn get_subscriptions<P, Model, Msg, Markup>(page: &P, model: &Model) -> (subscriptions: Vec<
    Subscription<Msg>,
>) where P: Page<Model, Msg, Markup>
    ensures
        exists|subscription: Subscription<Msg>| #[trigger]
            may_subscribe(page, *model, subscription) && subscriptions@ == subscription.flatten(),
{
    let subscription = page.subscriptions(model);
    assert(may_subscribe(page, *model, subscription));
    subscription.into_vec()
}

/// Lets the page take in `msg`. The page works on `model`, which is the caller's
/// copy of the state; the state itself changes only when the caller puts the
/// returned model in its place. What is handed over is what `hand_over` makes of
/// the model as `Page::update` left it and of what that call returned.
pub fn update<P, Model, Msg, Markup>(page: &P, msg: &Msg, model: Model) -> (r: Result<
    ModelAndEffects<Model, Msg>,
    Failure,
>) where P: Page<Model, Msg, Markup>
    ensures
        exists|worked_on: &mut Model, outcome: Result<Effect<Msg>, String>|
            *worked_on == model && #[trigger] call_ensures(
                P::update,
                (page, msg, worked_on),
                outcome,
            ) && handed_over(r, *final(worked_on), outcome),
{
    let mut worked_on = model;
    let outcome = page.update(msg, &mut worked_on);
    hand_over(worked_on, outcome)
}

/// Lets the page take in a message that the host made up itself. The page works
/// on `model` as in `update`.
pub fn update_from_js<P, Model, Msg, Markup>(page: &P, msg: JsMsg, model: Model) -> (r: Result<
    ModelAndEffects<Model, Msg>,
    Failure,
>) where P: Page<Model, Msg, Markup>
    ensures
        exists|worked_on: &mut Model, outcome: Result<Effect<Msg>, String>|
            *worked_on == model && #[trigger] call_ensures(
                P::update_from_js,
                (page, msg, worked_on),
                outcome,
            ) && handed_over(r, *final(worked_on), outcome),
{
    let mut worked_on = model;
    let outcome = page.update_from_js(msg, &mut worked_on);
    hand_over(worked_on, outcome)
}

} // verus!
