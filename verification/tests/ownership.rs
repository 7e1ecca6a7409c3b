use cidre::arc::{Pool, Rar};
use cidre::blocks;
use cidre::ns::error::Error;

#[test]
fn factory_handle_is_live() {
    let mut pool = Pool::new();
    let h = pool.allocate();
    assert!(pool.is_live(h.slot));
    assert_eq!(pool.retain_count(h.slot), 1);
    pool.release(h);
}

#[test]
fn shared_release_keeps_other_owner() {
    // Retain for sharing, release one owner: the other owner's handle
    // still reaches a live object; the last release deallocates.
    let mut pool = Pool::new();
    let first = pool.allocate();
    let second = pool.retain(&first);
    assert_eq!(pool.retain_count(first.slot), 2);

    let slot = second.slot;
    pool.release(second);
    assert!(pool.is_live(slot));
    assert_eq!(pool.retain_count(slot), 1);

    pool.release(first);
    assert!(!pool.is_live(slot));
}

#[test]
fn autoreleased_dies_at_drain_unless_retained() {
    let mut pool = Pool::new();
    let kept = pool.allocate_autoreleased();
    let lost = pool.allocate_autoreleased();
    let owner = pool.retain_autoreleased(&kept);
    let kept_slot = kept.slot;
    let lost_slot = lost.slot;

    pool.drain();
    assert!(pool.is_live(kept_slot));
    assert!(!pool.is_live(lost_slot));

    pool.release(owner);
    assert!(!pool.is_live(kept_slot));
}

#[test]
fn unowned_reference_confers_nothing() {
    let mut pool = Pool::new();
    let owner = pool.allocate();
    let weak = pool.borrow_unowned(&owner);
    assert_eq!(weak.slot, owner.slot);
    assert_eq!(pool.retain_count(weak.slot), 1);
    pool.release(owner);
}

#[test]
fn rar_retain_hands_over_value() {
    let wrapped = Rar::autoreleased(41usize);
    assert_eq!(wrapped.retain(), 41);
    let some = Rar::option_retain(Some(Rar::autoreleased(7u8)));
    assert_eq!(some, Some(7));
    let none: Option<u8> = Rar::option_retain(None);
    assert!(none.is_none());
}

#[test]
fn future_resolves_exactly_once() {
    let mut f = blocks::ok();
    assert!(!f.is_resolved());
    f.resolve(Err(Error::new(9, -1)));
    assert!(f.is_resolved());
    assert_eq!(f.wait(), Err(Error::new(9, -1)));

    let mut g = blocks::result::<u32>();
    g.resolve(Ok(5));
    assert_eq!(g.wait(), Ok(5));
}
