use std::cell::OnceCell;
use wipe_on_fork::utils::{update_generations, GenerationCounter};
use wipe_on_fork::WipeOnForkOnceCell;

/// What a forked child inherits: a copy of the parent's counter, moved on by
/// the child-side fork handler.
fn fork(parent: &GenerationCounter) -> GenerationCounter {
    let mut child = parent.clone();
    update_generations(&mut child);
    child
}

#[test]
fn test_once_cell() {
    let mut counter = GenerationCounter::new();
    let mut a = WipeOnForkOnceCell::<u32>::new();
    a.set(counter.get(), 1).unwrap();
    assert_eq!(*a.get(counter.get()).unwrap(), 1);
}

#[should_panic]
#[test]
fn test_once_cell_write_twice() {
    let mut counter = GenerationCounter::new();
    let mut a = WipeOnForkOnceCell::<u32>::new();
    a.set(counter.get(), 1).unwrap();
    a.set(counter.get(), 1).unwrap();
}

#[test]
fn once_cell_wipe_on_fork() {
    let mut counter = GenerationCounter::new();
    let mut a = WipeOnForkOnceCell::<u32>::new();
    let b = OnceCell::<u32>::new();

    let _ = a.get_or_init(counter.get(), || 1u32);
    let _ = b.get_or_init(|| 1u32);

    // child
    let mut child_counter = fork(&counter);
    let mut child_a = a.clone();
    {
        let mut expected_flag = 0u8;

        if !child_a.get(child_counter.get()).is_none() {
            expected_flag = 1u8;
        }

        if !b.get().is_some() {
            expected_flag = 1u8;
        }

        let _ = child_a.get_or_init(child_counter.get(), || 2u32);
        let _ = b.get_or_init(|| 2u32);

        if *child_a.get(child_counter.get()).unwrap() != 2 {
            expected_flag = 1u8;
        }
        if *b.get().unwrap() != 1 {
            expected_flag = 1u8;
        }

        assert_eq!(expected_flag, 0u8);
    }

    // parent
    assert_eq!(*a.get(counter.get()).unwrap(), 1);
    assert_eq!(*b.get().unwrap(), 1);
}

#[test]
fn once_cell_set_reports_the_rejected_value() {
    let mut cell = WipeOnForkOnceCell::new();
    assert!(cell.get(0).is_none());

    assert_eq!(cell.set(0, 92), Ok(()));
    assert_eq!(cell.set(0, 62), Err(62));

    assert_eq!(cell.get(0), Some(&92));
}

#[test]
fn once_cell_try_insert() {
    let mut cell = WipeOnForkOnceCell::new();
    assert!(cell.get(0).is_none());

    assert_eq!(cell.try_insert(0, 92), Ok(&92));
    assert_eq!(cell.try_insert(0, 62), Err((&92, 62)));

    assert!(cell.get(0).is_some());
    assert_eq!(cell.try_insert(1, 62), Ok(&62));
    assert_eq!(cell.get(1), Some(&62));
}

#[test]
fn once_cell_get_or_init_runs_the_first_initializer_only() {
    let mut cell = WipeOnForkOnceCell::new();
    let value = cell.get_or_init(0, || 92);
    assert_eq!(value, &92);
    let value = cell.get_or_init(0, || unreachable!());
    assert_eq!(value, &92);
}

#[test]
fn once_cell_get_or_try_init() {
    let mut cell = WipeOnForkOnceCell::new();
    assert_eq!(cell.get_or_try_init(0, || Err(())), Err(()));
    assert!(cell.get(0).is_none());
    let value = cell.get_or_try_init(0, || -> Result<i32, ()> { Ok(92) });
    assert_eq!(value, Ok(&92));
    assert_eq!(cell.get(0), Some(&92));
    let value = cell.get_or_try_init(0, || -> Result<i32, ()> { Err(()) });
    assert_eq!(value, Ok(&92));
}

#[test]
fn once_cell_get_mut() {
    let mut cell = WipeOnForkOnceCell::new();
    assert!(cell.get_mut(0).is_none());
    cell.set(0, 90).unwrap();
    *cell.get_mut(0).unwrap() += 2;
    assert_eq!(cell.get_mut(0), Some(&mut 92));
    assert_eq!(cell.get_mut(1), None);
    assert_eq!(cell.get(0), None);
}

#[test]
fn once_cell_into_inner() {
    let cell: WipeOnForkOnceCell<String> = WipeOnForkOnceCell::new();
    assert_eq!(cell.into_inner(0), None);

    let mut cell = WipeOnForkOnceCell::new();
    cell.set(0, "hello".to_string()).unwrap();
    assert_eq!(cell.into_inner(0), Some("hello".to_string()));

    let mut cell = WipeOnForkOnceCell::new();
    cell.set(0, "hello".to_string()).unwrap();
    assert_eq!(cell.into_inner(1), None);
}

#[test]
fn once_cell_take() {
    let mut cell: WipeOnForkOnceCell<String> = WipeOnForkOnceCell::new();
    assert_eq!(cell.take(0), None);

    let mut cell = WipeOnForkOnceCell::new();
    cell.set(0, "hello".to_string()).unwrap();
    assert_eq!(cell.take(0), Some("hello".to_string()));
    assert_eq!(cell.get(0), None);

    cell.set(0, "again".to_string()).unwrap();
    assert_eq!(cell.take(1), None);
    assert_eq!(cell.get(0), None);
}

#[test]
fn once_cell_glue() {
    let mut held = WipeOnForkOnceCell::from(4, "value");
    assert_eq!(held.get(4), Some(&"value"));
    assert!(held.check_if_should_wipe(5));
    assert!(!held.check_if_should_wipe(4));

    let mut copy = held.clone();
    assert!(held.eq(&copy, 4));
    assert!(held.eq(&copy, 5));
    assert!(!held.eq(&WipeOnForkOnceCell::from(4, "other"), 4));
    assert!(!held.eq(&WipeOnForkOnceCell::new(), 4));
    assert!(held.eq(&WipeOnForkOnceCell::new(), 5));
    assert!(WipeOnForkOnceCell::<u8>::default().eq(&WipeOnForkOnceCell::new(), 0));
    assert_eq!(copy.get(4), Some(&"value"));
    assert_eq!(copy.get(5), None);

    held.wipe_if_should_wipe(4);
    assert_eq!(held.get(4), Some(&"value"));
    held.wipe_if_should_wipe(5);
    assert_eq!(held.get(4), None);
}
