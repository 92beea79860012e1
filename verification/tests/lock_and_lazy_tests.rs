use kernel::Cell;
use kernel::Spinlock;
use kernel::SyncLazy;

#[test]
fn lock_hands_out_and_takes_back_the_value() {
    let mut lock = Spinlock::new(5u32);
    let guard = lock.lock();
    assert_eq!(guard.data, 5);
    guard.release(&mut lock);
    assert_eq!(*lock.get(), 5);
}

#[test]
fn mutation_under_the_lock_is_kept() {
    let mut lock = Spinlock::new(String::from("a"));
    let mut guard = lock.lock();
    guard.data.push('b');
    guard.release(&mut lock);
    let guard = lock.lock();
    assert_eq!(guard.data, "ab");
    guard.release(&mut lock);
}

#[test]
fn cell_stores_and_overwrites() {
    let mut cell = Cell::new(3u8);
    assert_eq!(*cell.get(), 3);
    cell.set(9);
    assert_eq!(*cell.get(), 9);
}

#[test]
fn lazy_initializes_on_first_access() {
    let mut lazy: SyncLazy<u32, fn() -> u32> = SyncLazy::new(|| 42);
    assert_eq!(*lazy.force(), 42);
    assert_eq!(*lazy.force(), 42);
}

#[test]
fn lazy_runs_the_initializer_exactly_once() {
    let counter = std::cell::Cell::new(0u32);
    let mut lazy = SyncLazy::new(|| {
        counter.set(counter.get() + 1);
        7u32
    });
    let first = *lazy.force();
    let second = *lazy.force();
    let third = *lazy.force();
    assert_eq!(first, 7);
    assert_eq!(second, 7);
    assert_eq!(third, 7);
    assert_eq!(counter.get(), 1);
}

#[test]
fn lazy_value_can_be_worked_on_in_place() {
    let mut lazy: SyncLazy<Vec<u8>, fn() -> Vec<u8>> = SyncLazy::new(Vec::new);
    lazy.force_mut().push(1);
    lazy.force_mut().push(2);
    assert_eq!(*lazy.force(), vec![1, 2]);
}
