use std::cell::RefCell;
use std::rc::Rc;

use stores::{Callback, Derived, Observable, Readable, Writable};

struct Noop;

impl Callback<i32> for Noop {
    fn on_value(&self, _value: &i32) {}

    fn on_signal(&self) {}
}

/// A subscriber on one cell that, on each value, writes the sum of that value
/// and a second cell's current value into a third cell.
struct SumWithB {
    b: Rc<RefCell<Observable<i32, SumWithA>>>,
    sum: Rc<RefCell<Observable<i32, Noop>>>,
}

impl Callback<i32> for SumWithB {
    fn on_value(&self, value: &i32) {
        let rhs = self.b.borrow().get();
        self.sum.borrow_mut().set(rhs + *value);
    }

    fn on_signal(&self) {}
}

struct SumWithA {
    a: Rc<RefCell<Observable<i32, SumWithB>>>,
    sum: Rc<RefCell<Observable<i32, Noop>>>,
}

impl Callback<i32> for SumWithA {
    fn on_value(&self, value: &i32) {
        let lhs = self.a.borrow().get();
        self.sum.borrow_mut().set(lhs + *value);
    }

    fn on_signal(&self) {}
}

#[test]
fn utils_it_derives() {
    let observable: Observable<i32, Noop> = Observable::new(1);
    let doubled = Derived::new(vec![observable], |values: Vec<i32>| values[0] * 2);

    assert_eq!(doubled.get(), 2);
}

#[test]
fn it_clones() {
    let a: Rc<RefCell<Observable<i32, SumWithB>>> = Rc::new(RefCell::new(Observable::new(1)));
    let b: Rc<RefCell<Observable<i32, SumWithA>>> = Rc::new(RefCell::new(Observable::new(2)));

    let sum: Rc<RefCell<Observable<i32, Noop>>> = Rc::new(RefCell::new(Observable::new(0)));

    let _ = a.borrow_mut().subscribe(SumWithB { b: b.clone(), sum: sum.clone() });

    let _ = b.borrow_mut().subscribe(SumWithA { a: a.clone(), sum: sum.clone() });

    a.borrow_mut().set(2);
    b.borrow_mut().set(5);

    let total = sum.borrow().get();
    assert_eq!(total, 7);
}
