use poly::browser::dom_id::DomId;
use poly::browser::subscription;
use poly::browser::subscription::diff::diff;
use poly::browser::subscription::diff::has_id;
use poly::browser::subscription::diff::source_ids;
use poly::browser::subscription::diff::Changes;
use poly::browser::subscription::event_listener::on_click;
use poly::browser::subscription::event_listener::on_submit;
use poly::browser::subscription::interval::interval;
use poly::browser::subscription::Subscription;

fn ids(list: &[&str]) -> Vec<String> {
    list.iter().map(|id| id.to_string()).collect()
}

#[test]
fn source_ids_skip_what_names_no_source() {
    let tree: Subscription<u8> = subscription::batch(vec![
        subscription::none(),
        on_click(&DomId::new("save"), 1),
        subscription::batch(vec![interval("tick", 250, 2), subscription::none()]),
        on_submit(&DomId::new("form"), 3),
    ]);
    assert_eq!(
        source_ids(&tree.into_vec()),
        ids(&["@document/click/exact/5:#save", "tick-250", "@document/submit/exact/5:#form"])
    );
    let nothing: Vec<Subscription<u8>> = vec![subscription::none()];
    assert_eq!(source_ids(&nothing), ids(&[]));
}

#[test]
fn diff_installs_the_new_and_tears_down_the_missing() {
    let changes = diff(&ids(&["a", "b", "c"]), &ids(&["b", "d"]));
    assert_eq!(changes, Changes { install: ids(&["d"]), tear_down: ids(&["a", "c"]) });
}

#[test]
fn diff_leaves_unchanged_ids_alone() {
    let same = ids(&["search", "@window/resize/"]);
    assert_eq!(diff(&same, &same), Changes { install: vec![], tear_down: vec![] });
    let reordered = ids(&["@window/resize/", "search"]);
    assert_eq!(diff(&same, &reordered), Changes { install: vec![], tear_down: vec![] });
}

#[test]
fn diff_from_and_to_nothing() {
    assert_eq!(
        diff(&ids(&[]), &ids(&["a", "b"])),
        Changes { install: ids(&["a", "b"]), tear_down: vec![] }
    );
    assert_eq!(
        diff(&ids(&["a", "b"]), &ids(&[])),
        Changes { install: vec![], tear_down: ids(&["a", "b"]) }
    );
    assert_eq!(diff(&ids(&[]), &ids(&[])), Changes { install: vec![], tear_down: vec![] });
}

#[test]
fn diff_keeps_the_order_of_each_side() {
    let changes = diff(&ids(&["z", "y", "x"]), &ids(&["c", "y", "a", "b"]));
    assert_eq!(changes.install, ids(&["c", "a", "b"]));
    assert_eq!(changes.tear_down, ids(&["z", "x"]));
}

#[test]
fn a_new_message_changes_no_id() {
    let before: Vec<Subscription<u8>> = vec![on_click(&DomId::new("save"), 1)];
    let after: Vec<Subscription<u8>> = vec![on_click(&DomId::new("save"), 2)];
    let changes = diff(&source_ids(&before), &source_ids(&after));
    assert_eq!(changes, Changes { install: vec![], tear_down: vec![] });
}

#[test]
fn has_id_compares_whole_ids() {
    let list = ids(&["save", "form"]);
    assert!(has_id(&list, "save"));
    assert!(has_id(&list, "form"));
    assert!(!has_id(&list, "sav"));
    assert!(!has_id(&list, ""));
    assert!(!has_id(&ids(&[]), "save"));
}
