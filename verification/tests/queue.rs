use poly::browser::queue::MsgQueue;
use poly::browser::queue::Occurrence;
use poly::browser::queue_strategy::QueueStrategy;

fn drain(queue: &mut MsgQueue<String>) -> Vec<(String, String)> {
    let mut out = Vec::new();
    while let Some(Occurrence { id, msg }) = queue.dequeue() {
        out.push((id, msg));
    }
    out
}

fn pair(id: &str, msg: &str) -> (String, String) {
    (id.to_string(), msg.to_string())
}

#[test]
fn new_queue_is_empty() {
    let mut queue: MsgQueue<String> = MsgQueue::new();
    assert!(queue.is_empty());
    assert_eq!(queue.len(), 0);
    assert_eq!(queue.dequeue(), None);
    assert!(queue.is_empty());
}

#[test]
fn drop_older_keeps_only_the_latest() {
    let mut queue = MsgQueue::new();
    queue.enqueue("search", QueueStrategy::DropOlder, "f".to_string());
    queue.enqueue("search", QueueStrategy::DropOlder, "fo".to_string());
    assert_eq!(queue.len(), 1);
    assert_eq!(drain(&mut queue), vec![pair("search", "fo")]);
    assert!(queue.is_empty());
}

#[test]
fn fifo_keeps_every_occurrence_in_order() {
    let mut queue = MsgQueue::new();
    queue.enqueue("save", QueueStrategy::Fifo, "click 1".to_string());
    queue.enqueue("save", QueueStrategy::Fifo, "click 2".to_string());
    assert_eq!(queue.len(), 2);
    assert_eq!(drain(&mut queue), vec![pair("save", "click 1"), pair("save", "click 2")]);
}

#[test]
fn drop_older_after_drain_queues_again() {
    let mut queue = MsgQueue::new();
    queue.enqueue("search", QueueStrategy::DropOlder, "f".to_string());
    assert_eq!(queue.dequeue(), Some(Occurrence { id: "search".to_string(), msg: "f".to_string() }));
    queue.enqueue("search", QueueStrategy::DropOlder, "fo".to_string());
    assert_eq!(drain(&mut queue), vec![pair("search", "fo")]);
}

#[test]
fn different_ids_never_share_a_slot() {
    let mut queue = MsgQueue::new();
    queue.enqueue("a", QueueStrategy::DropOlder, "a1".to_string());
    queue.enqueue("b", QueueStrategy::DropOlder, "b1".to_string());
    queue.enqueue("c", QueueStrategy::Fifo, "c1".to_string());
    queue.enqueue("a", QueueStrategy::DropOlder, "a2".to_string());
    queue.enqueue("c", QueueStrategy::Fifo, "c2".to_string());
    queue.enqueue("b", QueueStrategy::DropOlder, "b2".to_string());
    assert_eq!(queue.len(), 4);
    assert_eq!(
        drain(&mut queue),
        vec![pair("a", "a2"), pair("b", "b2"), pair("c", "c1"), pair("c", "c2")]
    );
}

#[test]
fn replaced_occurrence_keeps_its_place() {
    let mut queue = MsgQueue::new();
    queue.enqueue("resize", QueueStrategy::DropOlder, "800".to_string());
    queue.enqueue("save", QueueStrategy::Fifo, "click".to_string());
    queue.enqueue("resize", QueueStrategy::DropOlder, "801".to_string());
    assert_eq!(drain(&mut queue), vec![pair("resize", "801"), pair("save", "click")]);
}

#[test]
fn drop_older_replaces_the_oldest_of_several() {
    let mut queue = MsgQueue::new();
    queue.enqueue("x", QueueStrategy::Fifo, "1".to_string());
    queue.enqueue("x", QueueStrategy::Fifo, "2".to_string());
    queue.enqueue("x", QueueStrategy::DropOlder, "3".to_string());
    assert_eq!(drain(&mut queue), vec![pair("x", "3"), pair("x", "2")]);
}

#[test]
fn ids_are_compared_as_whole_texts() {
    let mut queue = MsgQueue::new();
    queue.enqueue("a", QueueStrategy::DropOlder, "1".to_string());
    queue.enqueue("ab", QueueStrategy::DropOlder, "2".to_string());
    queue.enqueue("", QueueStrategy::DropOlder, "3".to_string());
    queue.enqueue("", QueueStrategy::DropOlder, "4".to_string());
    assert_eq!(drain(&mut queue), vec![pair("a", "1"), pair("ab", "2"), pair("", "4")]);
}
