use engine_core::events::{EngineEvent, Event, EventResult, Priority};
use engine_core::queue::EventQueue;
use engine_core::{apply_force_event_creation, object_creation};

type Ev = EngineEvent<(i32, i32), i32, u8>;

fn simple(id: usize, priority: Priority) -> Ev {
    EngineEvent::Simple { event: Event::ApplyForce { object_id: id, velocity: (0, 0) }, priority }
}

fn id_of(e: &Ev) -> usize {
    match e.event() {
        Event::ApplyForce { object_id, .. } => object_id,
        Event::ObjectCreation { .. } => usize::MAX,
    }
}

#[test]
fn priority_levels() {
    assert_eq!(Priority::Low.level(), 0);
    assert_eq!(Priority::Medium.level(), 1);
    assert_eq!(Priority::High.level(), 2);
    assert!(Priority::Low < Priority::Medium && Priority::Medium < Priority::High);
}

#[test]
fn creation_is_high_and_force_is_medium() {
    let c: Ev = object_creation((1, 2), 3, 4, 9u8);
    assert_eq!(c.priority(), Priority::High);
    match c {
        EngineEvent::WithResponse { event: Event::ObjectCreation { position, radius, mass }, response_tx, .. } => {
            assert_eq!((position, radius, mass, response_tx), ((1, 2), 3, 4, 9));
        }
        _ => panic!("object_creation must expect an answer"),
    }
    let f: Ev = apply_force_event_creation(5, (6, 7));
    assert_eq!(f.priority(), Priority::Medium);
    match f.event() {
        Event::ApplyForce { object_id, velocity } => assert_eq!((object_id, velocity), (5, (6, 7))),
        _ => panic!("wrong event"),
    }
    // Within one round, forces are dispatched before creations.
    assert!(f.precedes(&c));
    assert!(!c.precedes(&f));
    assert!(!f.same_priority(&c));
}

#[test]
fn queue_hands_out_lowest_priority_first() {
    let mut q: EventQueue<(i32, i32), i32, u8> = EventQueue::new();
    assert!(q.is_empty());
    q.push(simple(1, Priority::High));
    q.push(simple(2, Priority::Low));
    q.push(simple(3, Priority::Medium));
    q.push(simple(4, Priority::Low));
    q.push(simple(5, Priority::High));
    assert_eq!(q.len(), 5);
    let mut order = Vec::new();
    while let Some(e) = q.pop() {
        order.push(id_of(&e));
    }
    assert_eq!(order, vec![2, 4, 3, 1, 5]);
    assert!(q.pop().is_none());
}

#[test]
fn drain_gives_dispatch_order() {
    let mut q: EventQueue<(i32, i32), i32, u8> = EventQueue::new();
    q.push(simple(1, Priority::Medium));
    q.push(simple(2, Priority::High));
    q.push(simple(3, Priority::Medium));
    q.push(simple(4, Priority::Low));
    let order: Vec<usize> = q.drain().iter().map(id_of).collect();
    assert_eq!(order, vec![4, 1, 3, 2]);
    assert_eq!(q.len(), 0);
}

#[test]
fn selection_follows_created_objects() {
    assert_eq!(EventResult::ObjectCreated { id: 4 }.selected_object(-1), 4);
    assert_eq!(EventResult::Nothing.selected_object(-1), -1);
    assert_eq!(EventResult::Nothing.selected_object(3), 3);
    assert_eq!(EventResult::ObjectCreated { id: usize::MAX }.selected_object(0), -1);
}

#[test]
fn a_round_dispatches_every_event_once_low_first() {
    let mut q: EventQueue<(i32, i32), i32, u8> = EventQueue::new();
    let pushed = [
        (1, Priority::High),
        (2, Priority::Medium),
        (3, Priority::Low),
        (4, Priority::High),
        (5, Priority::Medium),
        (6, Priority::Low),
    ];
    for (id, p) in pushed {
        q.push(simple(id, p));
    }
    let drained = q.drain();
    let levels: Vec<u8> = drained.iter().map(|e| e.priority().level()).collect();
    assert_eq!(levels, vec![0, 0, 1, 1, 2, 2]);
    let order: Vec<usize> = drained.iter().map(id_of).collect();
    assert_eq!(order, vec![3, 6, 2, 5, 1, 4]);
}
