use wipe_on_fork::utils::{update_generations, GenerationCounter};

/// What a forked child inherits: a copy of the parent's counter, moved on by
/// the child-side fork handler.
fn fork(parent: &GenerationCounter) -> GenerationCounter {
    let mut child = parent.clone();
    update_generations(&mut child);
    child
}

#[test]
fn generation_test() {
    let mut father = GenerationCounter::new();
    assert_eq!(father.get(), 0);

    let mut son = fork(&father);
    let mut grandson = fork(&son);

    assert_eq!(grandson.get(), 2);
    assert_eq!(son.get(), 1);
    assert_eq!(father.get(), 0);
}

#[test]
fn first_read_installs_the_handler() {
    let mut counter = GenerationCounter::new();
    assert!(!counter.is_installed());
    assert_eq!(counter.get(), 0);
    assert!(counter.is_installed());
    assert_eq!(counter.get(), 0);
    assert!(counter.is_installed());
}

#[test]
fn each_fork_adds_one() {
    let mut counter = GenerationCounter::new();
    assert_eq!(counter.get(), 0);
    for expected in 1..=5u64 {
        update_generations(&mut counter);
        assert_eq!(counter.get(), expected);
        assert_eq!(counter.get(), expected);
    }
}

#[test]
fn a_copy_starts_where_its_source_is() {
    let mut counter = GenerationCounter::new();
    let mut unread = counter.clone();
    assert!(!unread.is_installed());
    assert_eq!(counter.get(), 0);
    update_generations(&mut counter);
    let mut copy = counter.clone();
    assert!(copy.is_installed());
    assert_eq!(copy.get(), 1);
    assert_eq!(unread.get(), 0);
}
