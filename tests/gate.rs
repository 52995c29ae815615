use envicutor::gate::{BoxIdAllocator, ConcurrencyGate, MAX_BOX_ID};
use envicutor::lifecycle::{handle_step, HandleAction, HandleEvent, HandleState};

#[test]
fn box_ids_cycle_through_every_slot() {
    let mut a = BoxIdAllocator { counter: 5 };
    let mut seen = vec![false; MAX_BOX_ID as usize];
    for _ in 0..MAX_BOX_ID {
        let id = a.next_box_id();
        assert!(!seen[id as usize]);
        seen[id as usize] = true;
    }
    assert!(seen.iter().all(|s| *s));
    assert_eq!(a.next_box_id(), 5);
}

#[test]
fn box_ids_start_at_zero_and_wrap() {
    let mut a = BoxIdAllocator::new();
    assert_eq!(a.next_box_id(), 0);
    assert_eq!(a.next_box_id(), 1);
    let mut b = BoxIdAllocator { counter: u64::MAX };
    assert_eq!(b.next_box_id(), u64::MAX % 900);
    assert_eq!(b.counter, 0);
    assert_eq!(b.next_box_id(), 0);
}

#[test]
fn gate_admits_at_most_capacity() {
    let mut g = ConcurrencyGate::new(2);
    assert!(g.try_acquire());
    assert!(g.try_acquire());
    assert!(!g.try_acquire());
    assert_eq!(g.active, 2);
    g.release();
    assert!(g.try_acquire());
    assert!(!g.try_acquire());
}

#[test]
fn gate_with_no_capacity_admits_nobody() {
    let mut g = ConcurrencyGate::new(0);
    assert!(!g.try_acquire());
}

#[test]
fn dropping_a_handle_cleans_up_once() {
    let s = HandleState::Initialized { box_id: 7 };
    let (s, a) = handle_step(s, HandleEvent::RunFinished { ok: false });
    assert!(matches!(a, HandleAction::Nothing));
    let (s, a) = handle_step(s, HandleEvent::Dropped);
    assert!(matches!(a, HandleAction::Cleanup { box_id: 7 }));
    assert!(matches!(s, HandleState::CleanedUp));
    let (_, a) = handle_step(s, HandleEvent::Dropped);
    assert!(matches!(a, HandleAction::Nothing));
}
