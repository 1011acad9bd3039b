use std::cell::RefCell;
use std::rc::Rc;

use stores::{Callback, Derived, Emitter, Observable, Readable};

struct Counter(Rc<RefCell<i32>>);

impl Callback<i32> for Counter {
    fn on_value(&self, _value: &i32) {
        *self.0.borrow_mut() += 1;
    }

    fn on_signal(&self) {
        *self.0.borrow_mut() += 1;
    }
}

struct Recorder(Rc<RefCell<i32>>);

impl Callback<i32> for Recorder {
    fn on_value(&self, value: &i32) {
        *self.0.borrow_mut() = *value;
    }

    fn on_signal(&self) {}
}

#[test]
fn derived_it_derives() {
    let observable: Observable<i32, Counter> = Observable::new(0);
    let mut derived = Derived::new(vec![observable], |values: Vec<i32>| values[0] * 2);

    assert_eq!(derived.get(), 0);

    derived.set_source(0, 5);
    assert_eq!(derived.get(), 10);
}

#[test]
fn it_derives_many() {
    let observable_a: Observable<i32, Counter> = Observable::new(0);
    let observable_b: Observable<i32, Counter> = Observable::new(0);
    let mut derived = Derived::new(
        vec![observable_a, observable_b],
        |values: Vec<i32>| values[0] + values[1],
    );

    assert_eq!(derived.get(), 0);

    derived.set_source(0, 5);
    assert_eq!(derived.get(), 5);

    derived.set_source(1, 10);
    assert_eq!(derived.get(), 15);
}

#[test]
fn derived_it_triggers_emitter_on_change() {
    let observable: Observable<i32, Counter> = Observable::new(0);
    let mut derived = Derived::new(vec![observable], |values: Vec<i32>| values[0] * 2);

    let counter = Rc::new(RefCell::new(0));
    let _ = derived.listen(Counter(counter.clone()));

    assert_eq!(counter.borrow().clone(), 0);

    derived.set_source(0, 1);
    assert_eq!(counter.borrow().clone(), 1);

    derived.set_source(0, 2);
    assert_eq!(counter.borrow().clone(), 2);
}

#[test]
fn derived_it_unsubscribes_from_emitter() {
    let observable: Observable<i32, Counter> = Observable::new(0);
    let mut derived = Derived::new(vec![observable], |values: Vec<i32>| values[0] * 2);

    let counter = Rc::new(RefCell::new(0));
    let unsubscribe = derived.listen(Counter(counter.clone()));

    assert_eq!(counter.borrow().clone(), 0);

    derived.set_source(0, 1);
    assert_eq!(counter.borrow().clone(), 1);

    derived.unregister(unsubscribe);
    derived.set_source(0, 2);
    assert_eq!(counter.borrow().clone(), 1);
}

#[test]
fn derived_it_provides_value_to_subscription() {
    let observable: Observable<i32, Recorder> = Observable::new(0);
    let mut derived = Derived::new(vec![observable], |values: Vec<i32>| values[0] * 2);

    let counter = Rc::new(RefCell::new(0));
    let _ = derived.subscribe(Recorder(counter.clone()));

    assert_eq!(derived.get(), 0);
    assert_eq!(counter.borrow().clone(), 0);

    derived.set_source(0, 1);
    assert_eq!(derived.get(), 2);
    assert_eq!(counter.borrow().clone(), 2);
}

#[test]
fn derived_it_triggers_subscription_directly() {
    let observable: Observable<i32, Counter> = Observable::new(0);
    let mut derived = Derived::new(vec![observable], |values: Vec<i32>| values[0] * 2);

    let counter = Rc::new(RefCell::new(0));
    let _ = derived.subscribe(Counter(counter.clone()));

    assert_eq!(counter.borrow().clone(), 1);

    derived.set_source(0, 1);
    assert_eq!(counter.borrow().clone(), 2);
}

#[test]
fn derived_it_unsubscribes_from_subscription() {
    let observable: Observable<i32, Counter> = Observable::new(0);
    let mut derived = Derived::new(vec![observable], |values: Vec<i32>| values[0] * 2);

    let counter = Rc::new(RefCell::new(0));
    let unsubscribe = derived.subscribe(Counter(counter.clone()));

    assert_eq!(counter.borrow().clone(), 1);

    derived.set_source(0, 1);
    assert_eq!(counter.borrow().clone(), 2);

    derived.unregister(unsubscribe);
    derived.set_source(0, 2);
    assert_eq!(counter.borrow().clone(), 2);
}
