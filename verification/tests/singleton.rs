use minits::singleton::{Singleton, SingletonState};

#[test]
fn singleton_lifecycle() {
    let mut s: Singleton<u32> = Singleton::uninitialized();
    s.initialize(|| 7);
    assert_eq!(*s.get(), 7);
    *s.get_mut() = 8;
    assert_eq!(*s.get(), 8);
    s.finalize();
    s.initialize(|| 9);
    assert_eq!(*s.get(), 9);
    s.finalize();
}

#[test]
fn singleton_state_values() {
    assert_ne!(SingletonState::Initialized, SingletonState::Uninitialized);
}
