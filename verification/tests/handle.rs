use kernel::ThisModule;

fn assert_shareable<T: Sync + Send>() {}

#[test]
fn as_ptr_returns_the_address_given_to_from_ptr() {
    let addresses: [usize; 5] = [0, 1, 0x1000, 0xffff_8000, usize::MAX];
    for p in addresses {
        assert_eq!(ThisModule::from_ptr(p).as_ptr(), p);
    }
}

#[test]
fn as_ptr_can_be_taken_again_and_again() {
    let module = ThisModule::from_ptr(0xdead_b000);
    assert_eq!(module.as_ptr(), 0xdead_b000);
    assert_eq!(module.as_ptr(), 0xdead_b000);
    let again = ThisModule::from_ptr(module.as_ptr());
    assert_eq!(again.as_ptr(), module.as_ptr());
}

#[test]
fn handle_may_be_shared_between_threads_of_the_host() {
    assert_shareable::<ThisModule>();
    assert_shareable::<&'static ThisModule>();
}
