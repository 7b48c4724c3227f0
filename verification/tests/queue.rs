use tandem_chess::message_queue::MessageQueue;

#[test]
fn consume_on_empty_returns_none() {
    let mut q: MessageQueue<String> = MessageQueue::new();
    assert!(q.consume().is_none());
}

#[test]
fn messages_come_out_in_fifo_order() {
    let mut q: MessageQueue<String> = MessageQueue::new();
    q.produce("a".to_string());
    q.produce("b".to_string());
    q.produce("c".to_string());
    assert_eq!(q.consume().unwrap(), "a");
    assert_eq!(q.consume().unwrap(), "b");
    assert_eq!(q.consume().unwrap(), "c");
    assert!(q.consume().is_none());
}

#[test]
fn overflow_drops_the_oldest_message_first() {
    let mut q: MessageQueue<String> = MessageQueue::new();
    for i in 0..1002 {
        q.produce(format!("m{}", i));
    }
    // the 1002nd enqueue found 1001 waiting and evicted the very first
    assert_eq!(q.consume().unwrap(), "m1");
    let mut last = String::new();
    let mut count: usize = 1;
    while let Some(m) = q.consume() {
        last = m;
        count += 1;
    }
    assert_eq!(count, 1001);
    assert_eq!(last, "m1001");
}

#[test]
fn clone_copies_the_pending_messages() {
    let mut q: MessageQueue<String> = MessageQueue::new();
    q.produce("x".to_string());
    let mut c = q.clone();
    assert_eq!(c.consume().unwrap(), "x");
    assert!(c.consume().is_none());
    assert_eq!(q.consume().unwrap(), "x");
}
