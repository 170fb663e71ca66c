use lazy_st::{Lazy, Thunk};
use std::sync::{Arc, Mutex};

#[test]
fn evaluate_just_once() {
    let counter = Arc::new(Mutex::new(0));
    let counter_clone = counter.clone();
    let mut val: Lazy<()> = Thunk::new(Box::new(move || {
        let mut data = counter.lock().unwrap();
        *data += 1;
    }));
    *val.get();
    *val.get();
    assert_eq!(*counter_clone.lock().unwrap(), 1);
}

#[test]
fn multiple_closures() {
    let x: Lazy<u32> = Thunk::new(Box::new(move || 0));
    let y: Lazy<u32> = Thunk::new(Box::new(move || 1));
    let mut z = if true { x } else { y };
    assert_eq!(*z.get(), 0);
}

#[test]
fn no_evaluate_if_not_accessed() {
    let counter = Arc::new(Mutex::new(0));
    let counter_clone = counter.clone();
    let _val: Lazy<()> = Thunk::new(Box::new(move || {
        let mut data = counter.lock().unwrap();
        *data += 1;
    }));
    assert_eq!(*counter_clone.lock().unwrap(), 0);
}

pub struct Dropper(Arc<Mutex<u64>>);

impl Drop for Dropper {
    fn drop(&mut self) {
        let Dropper(ref count) = *self;
        *count.lock().unwrap() += 1;
    }
}

fn counting(counter: &Arc<Mutex<u64>>) -> Lazy<u64> {
    let c = counter.clone();
    Thunk::new(Box::new(move || {
        let mut data = c.lock().unwrap();
        *data += 1;
        *data
    }))
}

#[test]
fn read_twice_gives_same_value_and_runs_once() {
    let counter = Arc::new(Mutex::new(0));
    let mut val = counting(&counter);
    let first = *val.get();
    let second = *val.get();
    assert_eq!(first, 1);
    assert_eq!(second, 1);
    assert_eq!(*counter.lock().unwrap(), 1);
}

#[test]
fn force_many_times_runs_once() {
    let counter = Arc::new(Mutex::new(0));
    let mut val = counting(&counter);
    assert!(!val.is_evaluated());
    for _ in 0..10 {
        val.force();
    }
    assert!(val.is_evaluated());
    assert_eq!(*counter.lock().unwrap(), 1);
    assert_eq!(val.unwrap(), 1);
}

#[test]
fn new_runs_nothing() {
    let counter = Arc::new(Mutex::new(0));
    let val = counting(&counter);
    assert!(!val.is_evaluated());
    assert_eq!(*counter.lock().unwrap(), 0);
}

#[test]
fn dropped_unforced_producer_is_released_and_not_run() {
    let counter = Arc::new(Mutex::new(0));
    let drops = Arc::new(Mutex::new(0));
    let held = Dropper(drops.clone());
    let c = counter.clone();
    let val: Lazy<()> = Thunk::new(Box::new(move || {
        let _x = &held;
        *c.lock().unwrap() += 1;
    }));
    drop(val);
    assert_eq!(*counter.lock().unwrap(), 0);
    assert_eq!(*drops.lock().unwrap(), 1);
}

#[test]
fn evaluated_runs_no_producer() {
    let counter = Arc::new(Mutex::new(0));
    let c = counter.clone();
    let x: Lazy<u64> = if false {
        Thunk::new(Box::new(move || {
            *c.lock().unwrap() += 1;
            7
        }))
    } else {
        Thunk::evaluated(10)
    };
    let mut x = x;
    assert!(x.is_evaluated());
    x.force();
    assert_eq!(*x.get(), 10);
    assert_eq!(x.unwrap(), 10);
    assert_eq!(*counter.lock().unwrap(), 0);
}

#[test]
fn unwrap_returns_computed_value() {
    let val: Lazy<i32> = Thunk::new(Box::new(move || 7));
    assert_eq!(val.unwrap(), 7);
}

#[test]
fn unwrap_after_read_returns_same_value() {
    let counter = Arc::new(Mutex::new(0));
    let mut val = counting(&counter);
    assert_eq!(*val.get(), 1);
    assert_eq!(val.unwrap(), 1);
    assert_eq!(*counter.lock().unwrap(), 1);
}

#[test]
fn plain_closure_producer() {
    let mut val = Thunk::new(|| String::from("computed"));
    assert_eq!(val.get().as_str(), "computed");
}

#[test]
fn get_mut_changes_value_in_place() {
    let counter = Arc::new(Mutex::new(0));
    let mut val = counting(&counter);
    *val.get_mut() += 41;
    assert_eq!(*val.get(), 42);
    assert_eq!(*counter.lock().unwrap(), 1);
}

#[test]
fn independent_cells() {
    let counter_a = Arc::new(Mutex::new(0));
    let counter_b = Arc::new(Mutex::new(0));
    let mut a = counting(&counter_a);
    let _b = counting(&counter_b);
    assert_eq!(*a.get(), 1);
    assert_eq!(*counter_a.lock().unwrap(), 1);
    assert_eq!(*counter_b.lock().unwrap(), 0);
}
