use std::sync::atomic::{AtomicUsize, Ordering};
use std::sync::Mutex;
use wipe_on_fork::utils::{update_generations, GenerationCounter};
use wipe_on_fork::{WipeOnForkLazyLock, WipeOnForkOnceLock};

static CALLED: AtomicUsize = AtomicUsize::new(0);

struct Foo(u8);

impl Default for Foo {
    fn default() -> Self {
        CALLED.fetch_add(1, Ordering::SeqCst);
        Foo(42)
    }
}

fn assert_traits<T: Send + Sync>() {}

fn xs(cell: &mut WipeOnForkOnceLock<Vec<i32>>, generation: u64) -> &Vec<i32> {
    cell.get_or_init(generation, || {
        let mut xs = Vec::new();
        xs.push(1);
        xs.push(2);
        xs.push(3);
        xs
    })
}

#[test]
fn sync_lazy_new() {
    let called = AtomicUsize::new(0);
    let mut counter = GenerationCounter::new();
    let mut sync_lazy = WipeOnForkLazyLock::new(|| {
        called.fetch_add(1, Ordering::SeqCst);
        92
    });

    assert_eq!(called.load(Ordering::SeqCst), 0);

    let y = *WipeOnForkLazyLock::force(&mut sync_lazy, counter.get()) - 30;
    assert_eq!(y, 62);
    assert_eq!(called.load(Ordering::SeqCst), 1);

    let y = *WipeOnForkLazyLock::force(&mut sync_lazy, counter.get()) - 30;
    assert_eq!(y, 62);
    assert_eq!(called.load(Ordering::SeqCst), 1);
}

#[test]
fn sync_lazy_default() {
    let mut counter = GenerationCounter::new();
    let mut lazy: WipeOnForkLazyLock<Mutex<Foo>> = WipeOnForkLazyLock::new(Mutex::<Foo>::default);

    assert_eq!(CALLED.load(Ordering::SeqCst), 0);

    assert_eq!(WipeOnForkLazyLock::force(&mut lazy, counter.get()).lock().unwrap().0, 42);
    assert_eq!(CALLED.load(Ordering::SeqCst), 1);

    WipeOnForkLazyLock::force(&mut lazy, counter.get()).lock().unwrap().0 = 21;

    assert_eq!(WipeOnForkLazyLock::force(&mut lazy, counter.get()).lock().unwrap().0, 21);
    assert_eq!(CALLED.load(Ordering::SeqCst), 1);
}

#[test]
fn static_sync_lazy() {
    let mut counter = GenerationCounter::new();
    let mut lazy_xs = WipeOnForkLazyLock::new(|| {
        let mut xs = Vec::new();
        xs.push(1);
        xs.push(2);
        xs.push(3);
        xs
    });

    assert_eq!(WipeOnForkLazyLock::force(&mut lazy_xs, counter.get()), &vec![1, 2, 3]);
    assert_eq!(WipeOnForkLazyLock::force(&mut lazy_xs, counter.get()), &vec![1, 2, 3]);
}

#[test]
fn static_sync_lazy_via_fn() {
    let mut counter = GenerationCounter::new();
    let mut cell = WipeOnForkOnceLock::new();
    assert_eq!(xs(&mut cell, counter.get()), &vec![1, 2, 3]);
}

#[test]
fn lazy_lock_is_sync_send() {
    assert_traits::<WipeOnForkLazyLock<String>>();
}

#[test]
fn lazy_lock_wipe_on_fork() {
    let pid = AtomicUsize::new(100);
    let mut counter = GenerationCounter::new();
    let mut a = WipeOnForkLazyLock::new(|| pid.load(Ordering::SeqCst));

    assert_eq!(*WipeOnForkLazyLock::force(&mut a, counter.get()), 100);

    // the fork: the child gets a new process id and a new generation
    update_generations(&mut counter);
    pid.store(101, Ordering::SeqCst);
    assert_eq!(a.get(counter.get()), None);
    assert_eq!(*WipeOnForkLazyLock::force(&mut a, counter.get()), 101);
    assert_eq!(a.get(counter.get()), Some(&101));

    // no fork: a changed process id goes unnoticed
    pid.store(102, Ordering::SeqCst);
    assert_eq!(*WipeOnForkLazyLock::force(&mut a, counter.get()), 101);
}

#[test]
fn lazy_lock_runs_its_initializer_once_per_generation() {
    let calls = AtomicUsize::new(0);
    let mut lazy = WipeOnForkLazyLock::new(|| {
        calls.fetch_add(1, Ordering::SeqCst);
        92
    });
    assert_eq!(lazy.get(0), None);
    for _ in 0..3 {
        assert_eq!(WipeOnForkLazyLock::force(&mut lazy, 0), &92);
    }
    assert_eq!(calls.load(Ordering::SeqCst), 1);
    for _ in 0..3 {
        assert_eq!(WipeOnForkLazyLock::force(&mut lazy, 1), &92);
    }
    assert_eq!(calls.load(Ordering::SeqCst), 2);
    assert_eq!(lazy.get(1), Some(&92));
    assert_eq!(lazy.get(2), None);
    assert_eq!(calls.load(Ordering::SeqCst), 2);
}

#[test]
fn lazy_lock_into_inner() {
    let hello = "Hello, World!".to_string();

    let mut lazy = WipeOnForkLazyLock::new(|| hello.to_uppercase());
    assert_eq!(WipeOnForkLazyLock::force(&mut lazy, 0), "HELLO, WORLD!");
    assert_eq!(
        WipeOnForkLazyLock::into_inner(lazy, 0).ok(),
        Some("HELLO, WORLD!".to_string())
    );

    let lazy = WipeOnForkLazyLock::new(|| hello.to_uppercase());
    let mut init = WipeOnForkLazyLock::into_inner(lazy, 0).err().unwrap();
    assert_eq!(init(), "HELLO, WORLD!");

    let mut lazy = WipeOnForkLazyLock::new(|| hello.to_lowercase());
    assert_eq!(WipeOnForkLazyLock::force(&mut lazy, 0), "hello, world!");
    let mut init = WipeOnForkLazyLock::into_inner(lazy, 1).err().unwrap();
    assert_eq!(init(), "hello, world!");
}

#[test]
fn lazy_lock_is_not_poisoned_by_initializers_that_return() {
    let mut lazy = WipeOnForkLazyLock::new(|| 92);
    assert!(!lazy.is_poisoned());
    assert_eq!(WipeOnForkLazyLock::force(&mut lazy, 0), &92);
    assert!(!lazy.is_poisoned());
    assert_eq!(lazy.get(0), Some(&92));
    assert_eq!(lazy.get(1), None);
    assert!(!lazy.is_poisoned());
    assert_eq!(lazy.get(0), None);
}

#[test]
fn lazy_lock_accepts_an_initializer_with_state() {
    let mut made = 0;
    let mut lazy = WipeOnForkLazyLock::new(move || {
        made += 1;
        made
    });
    assert_eq!(WipeOnForkLazyLock::force(&mut lazy, 0), &1);
    assert_eq!(WipeOnForkLazyLock::force(&mut lazy, 0), &1);
    assert_eq!(WipeOnForkLazyLock::force(&mut lazy, 1), &2);
    assert_eq!(WipeOnForkLazyLock::force(&mut lazy, 1), &2);
    assert_eq!(WipeOnForkLazyLock::into_inner(lazy, 1).ok(), Some(2));
}
