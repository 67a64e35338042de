use sync_no_std::lazy_box::{LazyBox, LazyInit};

struct Probe {
    tag: u32,
}

impl LazyInit for Probe {
    type Allocator = u32;

    // The ghost freshness predicate; the compiled trait still carries it,
    // but nothing ever calls it at run time.
    fn is_fresh(_x: &Probe) -> bool {
        true
    }

    fn init(allocator: u32) -> Probe {
        Probe { tag: allocator }
    }

    fn cancel_init(_x: Probe) {}

    fn destroy(_x: Probe) {}
}

#[test]
fn new_slot_is_empty_and_keeps_its_allocator() {
    let slot: LazyBox<Probe> = LazyBox::new_in(7);
    assert!(slot.get().is_none());
    assert_eq!(*LazyBox::allocator(&slot), 7);
    // An empty slot was never filled, so normal teardown never runs.
    assert!(!slot.destroy());
}

#[test]
fn racing_installs_have_a_single_winner() {
    let mut slot: LazyBox<Probe> = LazyBox::new_in(0);
    let outcomes = [
        slot.install(Probe { tag: 1 }),
        slot.install(Probe { tag: 2 }),
        slot.install(Probe { tag: 3 }),
    ];
    assert_eq!(outcomes, [true, false, false]);
    assert_eq!(outcomes.iter().filter(|won| **won).count(), 1);
    assert_eq!(slot.get().unwrap().tag, 1);
    // Normal teardown runs exactly once, on the single survivor.
    assert!(slot.destroy());
}

#[test]
fn force_fills_once_and_then_reuses() {
    let mut slot: LazyBox<Probe> = LazyBox::new_in(9);
    slot.force();
    assert_eq!(slot.get().unwrap().tag, 9);
    slot.value_mut().tag = 11;
    slot.force();
    assert_eq!(slot.get().unwrap().tag, 11);
    assert!(slot.destroy());
}
