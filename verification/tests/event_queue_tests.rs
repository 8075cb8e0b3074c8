use creature_battle::creature::CreatureId;
use creature_battle::event::BattleEvent;
use creature_battle::event_queue::EventQueue;

#[test]
fn push_and_pop_event() {
    let mut queue = EventQueue::new();
    let source = CreatureId::new();
    let target = CreatureId::new();

    queue.push(BattleEvent::Damage {
        source,
        target,
        amount: 15,
    });

    assert_eq!(queue.len(), 1);

    let event = queue.pop().unwrap();
    match event {
        BattleEvent::Damage { amount, .. } => assert_eq!(amount, 15),
        _ => panic!("Expected Damage event"),
    }

    assert!(queue.is_empty());
}

#[test]
fn drain_events() {
    let mut queue = EventQueue::new();
    queue.push(BattleEvent::Custom {
        description: "First".to_string(),
    });
    queue.push(BattleEvent::Custom {
        description: "Second".to_string(),
    });

    let drained = queue.drain();
    assert_eq!(drained.len(), 2);
    assert!(queue.is_empty());
}

#[test]
fn drain_preserves_order() {
    let mut queue = EventQueue::new();
    queue.push(BattleEvent::Custom {
        description: "First".to_string(),
    });
    queue.push(BattleEvent::Custom {
        description: "Second".to_string(),
    });

    let drained = queue.drain();
    match &drained[0] {
        BattleEvent::Custom { description } => assert_eq!(description, "First"),
        _ => panic!("Expected Custom event"),
    }
    match &drained[1] {
        BattleEvent::Custom { description } => assert_eq!(description, "Second"),
        _ => panic!("Expected Custom event"),
    }
}

#[test]
fn drain_of_empty_queue_is_noop() {
    let mut queue = EventQueue::new();
    let drained = queue.drain();
    assert!(drained.is_empty());
    assert!(queue.is_empty());
    assert_eq!(queue.len(), 0);
}
