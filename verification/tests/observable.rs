use std::cell::RefCell;
use std::rc::Rc;

use stores::{Callback, Emitter, Observable, Readable, Writable};

struct Noop;

impl Callback<i32> for Noop {
    fn on_value(&self, _value: &i32) {}

    fn on_signal(&self) {}
}

struct Counter(Rc<RefCell<i32>>);

impl Callback<i32> for Counter {
    fn on_value(&self, _value: &i32) {
        *self.0.borrow_mut() += 1;
    }

    fn on_signal(&self) {
        *self.0.borrow_mut() += 1;
    }
}

struct Recorder(Rc<RefCell<i32>>);

impl Callback<i32> for Recorder {
    fn on_value(&self, value: &i32) {
        *self.0.borrow_mut() = *value;
    }

    fn on_signal(&self) {}
}

#[test]
fn it_provides_getter() {
    let observable: Observable<i32, Noop> = Observable::new(0);
    assert_eq!(observable.get(), 0);
}

#[test]
fn it_provides_setters() {
    let mut observable: Observable<i32, Noop> = Observable::new(0);

    observable.set(1);
    assert_eq!(observable.get(), 1);

    observable.update(|value| value + 1);
    assert_eq!(observable.get(), 2);
}

#[test]
fn observable_it_triggers_emitter_on_change() {
    let mut observable = Observable::new(0);
    let counter = Rc::new(RefCell::new(0));

    let _ = observable.listen(Counter(counter.clone()));

    assert_eq!(counter.borrow().clone(), 0);

    observable.set(1);
    assert_eq!(observable.get(), 1);
}

#[test]
fn observable_it_unsubscribes_from_emitter() {
    let mut observable = Observable::new(0);
    let counter = Rc::new(RefCell::new(0));

    let unsubscribe = observable.listen(Counter(counter.clone()));

    assert_eq!(counter.borrow().clone(), 0);

    observable.set(1);
    assert_eq!(counter.borrow().clone(), 1);

    observable.unregister(unsubscribe);
    observable.set(2);
    assert_eq!(counter.borrow().clone(), 1);
}

#[test]
fn observable_it_provides_value_to_subscription() {
    let mut observable = Observable::new(0);
    let counter = Rc::new(RefCell::new(0));

    let _ = observable.subscribe(Recorder(counter.clone()));

    assert_eq!(observable.get(), 0);
    assert_eq!(counter.borrow().clone(), 0);

    observable.set(1);
    assert_eq!(observable.get(), 1);
    assert_eq!(counter.borrow().clone(), 1);
}

#[test]
fn observable_it_triggers_subscription_directly() {
    let mut observable = Observable::new(0);
    let counter = Rc::new(RefCell::new(0));

    let _ = observable.subscribe(Counter(counter.clone()));

    assert_eq!(counter.borrow().clone(), 1);

    observable.set(1);
    assert_eq!(counter.borrow().clone(), 2);
}

#[test]
fn observable_it_unsubscribes_from_subscription() {
    let mut observable = Observable::new(0);
    let counter = Rc::new(RefCell::new(0));

    let unsubscribe = observable.subscribe(Counter(counter.clone()));

    assert_eq!(counter.borrow().clone(), 1);

    observable.unregister(unsubscribe);
    observable.set(1);
    assert_eq!(counter.borrow().clone(), 1);
}
