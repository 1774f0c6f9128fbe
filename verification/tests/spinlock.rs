use kfs::spinlock::Spinlock;

#[test]
fn new_lock_is_free() {
    let lock = Spinlock::new(5u32);
    assert!(!lock.is_locked());
}

#[test]
fn guard_reads_and_writes_the_data() {
    let mut lock = Spinlock::new(vec![1, 2, 3]);
    let mut guard = lock.lock();
    assert_eq!(*guard, vec![1, 2, 3]);
    guard.push(4);
    assert_eq!(guard.len(), 4);
    guard.release();
    assert!(!lock.is_locked());
    let guard = lock.lock();
    assert_eq!(*guard, vec![1, 2, 3, 4]);
    guard.release();
}

#[test]
fn lock_is_held_until_the_guard_is_released() {
    let mut lock = Spinlock::new(0u8);
    let guard = lock.lock();
    assert!(*guard.lock);
    guard.release();
    assert!(!lock.is_locked());
    // A guard that goes away without being released leaves the lock held.
    let guard = lock.lock();
    let _ = guard;
    assert!(lock.is_locked());
}

#[test]
fn release_on_an_early_exit_frees_the_lock() {
    fn find(lock: &mut Spinlock<Vec<u32>>, wanted: u32) -> Option<usize> {
        let guard = lock.lock();
        for (i, v) in guard.iter().enumerate() {
            if *v == wanted {
                guard.release();
                return Some(i);
            }
        }
        guard.release();
        None
    }
    let mut lock = Spinlock::new(vec![7, 8, 9]);
    assert_eq!(find(&mut lock, 8), Some(1));
    assert!(!lock.is_locked());
    assert_eq!(find(&mut lock, 1), None);
    assert!(!lock.is_locked());
}

#[test]
fn contenders_lose_no_update() {
    const CONTENDERS: u64 = 8;
    const CYCLES: u64 = 1000;
    let mut lock = Spinlock::new(0u64);
    // The contenders take turns, one cycle each, until each has had its share.
    for _ in 0..CYCLES {
        for _ in 0..CONTENDERS {
            assert!(!lock.is_locked());
            let mut guard = lock.lock();
            *guard += 1;
            guard.release();
        }
    }
    assert!(!lock.is_locked());
    let guard = lock.lock();
    assert_eq!(*guard, CONTENDERS * CYCLES);
    guard.release();
}

#[test]
fn contenders_one_after_the_other_lose_no_update() {
    let mut lock = Spinlock::new(10u64);
    for contender in 0..5u64 {
        for _ in 0..7 {
            let mut guard = lock.lock();
            let seen = *guard;
            *guard = seen + 1;
            guard.release();
        }
        let guard = lock.lock();
        assert_eq!(*guard, 10 + (contender + 1) * 7);
        guard.release();
    }
}
