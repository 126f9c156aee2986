use poly::browser::dom_id::DomId;
use poly::browser::effect;
use poly::browser::effect::console::log;
use poly::browser::effect::console::Console;
use poly::browser::effect::Effect;
use poly::browser::subscription;
use poly::browser::subscription::event_listener::on_click;
use poly::browser::subscription::interval::interval;
use poly::browser::subscription::Subscription;

fn message(leaf: &Effect<u32>) -> String {
    match leaf {
        Effect::Console(Console::Log { message }) => message.clone(),
        Effect::NoOp => "<none>".to_string(),
        _ => panic!("unexpected leaf"),
    }
}

fn messages(leaves: &Vec<Effect<u32>>) -> Vec<String> {
    leaves.iter().map(message).collect()
}

#[test]
fn flatten_nested_batches_in_order() {
    let tree = effect::batch(vec![effect::batch(vec![log("a"), log("b")]), log("c")]);
    let leaves = tree.into_vec();
    assert_eq!(messages(&leaves), vec!["a", "b", "c"]);
}

#[test]
fn flatten_leaf_gives_itself() {
    let leaves: Vec<Effect<u32>> = log("only").into_vec();
    assert_eq!(leaves, vec![log("only")]);
}

#[test]
fn flatten_keeps_none_leaves_in_place() {
    let tree = effect::batch(vec![
        effect::none(),
        log("a"),
        effect::batch(vec![effect::none(), log("b")]),
        effect::none(),
    ]);
    let leaves = tree.into_vec();
    assert_eq!(messages(&leaves), vec!["<none>", "a", "<none>", "b", "<none>"]);
}

#[test]
fn flatten_none_alone_is_one_leaf() {
    let leaves: Vec<Effect<u32>> = effect::none().into_vec();
    assert_eq!(leaves, vec![Effect::NoOp]);
}

#[test]
fn flatten_empty_batches_give_no_leaves() {
    let empty: Effect<u32> = effect::batch(vec![]);
    assert_eq!(empty.into_vec().len(), 0);
    let tree: Effect<u32> = effect::batch(vec![
        effect::batch(vec![]),
        log("x"),
        effect::batch(vec![effect::batch(vec![])]),
    ]);
    assert_eq!(messages(&tree.into_vec()), vec!["x"]);
}

#[test]
fn flatten_is_depth_first() {
    let tree = effect::batch(vec![
        log("1"),
        effect::batch(vec![log("2"), effect::batch(vec![log("3"), log("4")]), log("5")]),
        log("6"),
    ]);
    assert_eq!(messages(&tree.into_vec()), vec!["1", "2", "3", "4", "5", "6"]);
}

#[test]
fn flatten_does_not_open_paired_effects() {
    let inner: Effect<u32> = effect::batch(vec![log("a"), log("b")]);
    let paired = effect::effectful_msg::effectful_msg(7, inner);
    let leaves = effect::batch(vec![paired]).into_vec();
    assert_eq!(leaves.len(), 1);
    match &leaves[0] {
        Effect::EffectfulMsg(pair) => {
            assert_eq!(pair.msg, 7);
            assert!(matches!(pair.effect, Effect::Batch(_)));
        }
        _ => panic!("not a paired effect"),
    }
}

#[test]
fn flatten_handles_deep_nesting() {
    let mut tree: Effect<u32> = log("leaf");
    for _ in 0..2000 {
        tree = effect::batch(vec![effect::none(), tree]);
    }
    let leaves = tree.into_vec();
    assert_eq!(leaves.len(), 2001);
    assert_eq!(message(&leaves[2000]), "leaf");
    assert_eq!(message(&leaves[0]), "<none>");
}

#[test]
fn flatten_result_holds_no_batch() {
    let tree: Effect<u32> =
        effect::batch(vec![effect::batch(vec![log("a")]), effect::batch(vec![])]);
    for leaf in tree.into_vec() {
        assert!(!matches!(leaf, Effect::Batch(_)));
    }
}

#[test]
fn flatten_subscriptions_in_registration_order() {
    let a = DomId::new("a");
    let b = DomId::new("b");
    let tree: Subscription<u32> = subscription::batch(vec![
        subscription::batch(vec![on_click(&a, 1), subscription::none()]),
        interval("tick", 1000, 2),
        subscription::batch(vec![]),
        on_click(&b, 3),
    ]);
    let leaves = tree.into_vec();
    assert_eq!(leaves.len(), 4);
    let ids: Vec<String> = leaves
        .iter()
        .map(|leaf| match leaf {
            Subscription::EventListener(listener) => listener.id.clone(),
            Subscription::Interval(timer) => timer.id.clone(),
            Subscription::NoOp => "<none>".to_string(),
            Subscription::Batch(_) => panic!("a batch is no leaf"),
        })
        .collect();
    assert_eq!(
        ids,
        vec![
            "@document/click/exact/2:#a",
            "<none>",
            "tick-1000",
            "@document/click/exact/2:#b",
        ]
    );
}

#[test]
fn batch_keeps_its_members() {
    let tree: Effect<u32> = effect::batch(vec![log("a"), effect::none()]);
    assert_eq!(tree, Effect::Batch(vec![log("a"), Effect::NoOp]));
    let subs: Subscription<u32> = subscription::batch(vec![subscription::none()]);
    assert_eq!(subs, Subscription::Batch(vec![Subscription::NoOp]));
}

#[test]
fn clones_are_equal_to_what_they_copy() {
    let tree: Effect<u32> = effect::batch(vec![
        effect::batch(vec![log("a"), effect::none()]),
        effect::effectful_msg::effectful_msg(7, effect::batch(vec![log("b")])),
    ]);
    assert_eq!(tree.clone(), tree);
    let subs: Subscription<u32> = subscription::batch(vec![
        on_click(&DomId::new("a"), 1),
        subscription::batch(vec![interval("tick", 1000, 2), subscription::none()]),
    ]);
    assert_eq!(subs.clone(), subs);
    assert_eq!(subs.clone().into_vec(), subs.into_vec());
}
