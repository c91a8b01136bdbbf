use kernel::init::{pin_init_from_closure, write_on_success, PinInit, Slot};
use std::cell::Cell;

#[test]
fn new_slot_is_vacant_at_its_address() {
    let slot: Slot<u32> = Slot::new(0x40);
    assert_eq!(slot.addr(), 0x40);
    assert!(!slot.is_init());
    assert_eq!(slot.get(), None);
}

#[test]
fn written_slot_holds_the_value_at_the_same_address() {
    let mut slot: Slot<String> = Slot::new(0x40);
    slot.write(String::from("pinned"));
    assert!(slot.is_init());
    assert_eq!(slot.get().map(|s| s.as_str()), Some("pinned"));
    assert_eq!(slot.addr(), 0x40);
}

#[test]
fn write_on_success_writes_a_value() {
    let mut slot: Slot<u64> = Slot::new(8);
    let r: Result<(), u8> = write_on_success(Ok(99), &mut slot);
    assert_eq!(r, Ok(()));
    assert_eq!(slot.get(), Some(&99));
    assert_eq!(slot.addr(), 8);
}

#[test]
fn write_on_success_hands_an_error_on_and_writes_nothing() {
    let mut slot: Slot<u64> = Slot::new(8);
    let r: Result<(), &str> = write_on_success(Err("no"), &mut slot);
    assert_eq!(r, Err("no"));
    assert_eq!(slot.get(), None);
    assert!(!slot.is_init());
    assert_eq!(slot.addr(), 8);
}

#[test]
fn closure_recipe_fills_the_slot() {
    let init = pin_init_from_closure(|slot: &mut Slot<Vec<u8>>| -> Result<(), u8> {
        slot.write(vec![1, 2, 3]);
        Ok(())
    });
    let mut slot: Slot<Vec<u8>> = Slot::new(0x100);
    assert_eq!(init.__pinned_init(&mut slot), Ok(()));
    assert_eq!(slot.get(), Some(&vec![1, 2, 3]));
}

#[test]
fn closure_recipe_that_fails_leaves_the_slot_vacant() {
    let init = pin_init_from_closure(|_slot: &mut Slot<Vec<u8>>| -> Result<(), u8> { Err(12) });
    let mut slot: Slot<Vec<u8>> = Slot::new(0x100);
    assert_eq!(init.__pinned_init(&mut slot), Err(12));
    assert!(!slot.is_init());
    assert_eq!(slot.get(), None);
    assert_eq!(slot.addr(), 0x100);
}

#[test]
fn closure_is_not_called_before_the_recipe_runs_and_once_when_it_does() {
    let calls = Cell::new(0u32);
    let init = pin_init_from_closure(|slot: &mut Slot<u32>| -> Result<(), u8> {
        calls.set(calls.get() + 1);
        slot.write(calls.get());
        Ok(())
    });
    assert_eq!(calls.get(), 0);
    let mut slot: Slot<u32> = Slot::new(0x100);
    assert_eq!(init.__pinned_init(&mut slot), Ok(()));
    assert_eq!(calls.get(), 1);
    assert_eq!(slot.get(), Some(&1));
}

#[test]
fn closure_sees_the_address_of_the_destination() {
    let init = pin_init_from_closure(|slot: &mut Slot<(usize, usize)>| -> Result<(), u8> {
        let here = slot.addr();
        slot.write((here, here + 8));
        Ok(())
    });
    let mut slot: Slot<(usize, usize)> = Slot::new(0x7f00);
    assert_eq!(init.__pinned_init(&mut slot), Ok(()));
    assert_eq!(slot.get(), Some(&(0x7f00, 0x7f08)));
}

#[test]
fn closure_decides_by_what_it_captured() {
    for limit in [0u8, 1, 200] {
        let init = pin_init_from_closure(move |slot: &mut Slot<u8>| -> Result<(), u8> {
            if limit == 0 {
                Err(limit)
            } else {
                slot.write(limit);
                Ok(())
            }
        });
        let mut slot: Slot<u8> = Slot::new(1);
        let r = init.__pinned_init(&mut slot);
        if limit == 0 {
            assert_eq!(r, Err(0));
            assert_eq!(slot.get(), None);
        } else {
            assert_eq!(r, Ok(()));
            assert_eq!(slot.get(), Some(&limit));
        }
    }
}
