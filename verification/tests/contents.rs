use std::rc::Rc;

use with_cell::WithCell;

#[test]
fn new_then_get_returns_the_value() {
    let cell = WithCell::new(42u32);
    assert_eq!(cell.get(), 42);
}

#[test]
fn new_then_take_returns_the_value() {
    let cell = WithCell::new(String::from("kept"));
    assert_eq!(cell.take(), "kept");
}

#[test]
fn new_then_with_sees_the_value() {
    let cell = WithCell::new(vec![1u8, 2]);
    assert_eq!(cell.with(|v| v.clone()), vec![1, 2]);
}

#[test]
fn new_holds_a_value_without_default() {
    struct Opaque(u8);
    let cell = WithCell::new(Opaque(9));
    let previous = cell.replace(Opaque(1));
    assert_eq!(previous.0, 9);
    assert_eq!(cell.replace(Opaque(0)).0, 1);
}

#[test]
fn set_through_the_cell_overwrites_the_value() {
    let cell = WithCell::new(1i64);
    cell.set(-7);
    assert_eq!(cell.get(), -7);
    assert_eq!(cell.with(|x| *x), -7);
}

#[test]
fn replace_through_the_cell_returns_the_previous_value() {
    let cell = WithCell::new(String::from("old"));
    let previous = cell.replace(String::from("new"));
    assert_eq!(previous, "old");
    assert_eq!(cell.take(), "new");
}

#[test]
fn take_through_the_cell_leaves_the_default() {
    let cell = WithCell::new(vec![1u8, 2, 3]);
    assert_eq!(cell.take(), vec![1, 2, 3]);
    assert_eq!(cell.take(), Vec::<u8>::new());
    let number = WithCell::new(5u16);
    assert_eq!(number.take(), 5);
    assert_eq!(number.get(), 0);
}

#[test]
fn get_mut_through_the_cell_writes_through() {
    let mut cell = WithCell::new(10u8);
    *cell.get_mut() += 5;
    assert_eq!(cell.get(), 15);
    cell.get_mut().clone_from(&3);
    assert_eq!(cell.with(|x| *x), 3);
}

#[test]
fn swap_through_the_cell_exchanges_two_containers() {
    let left = WithCell::new(String::from("left"));
    let right = WithCell::new(String::from("right"));
    left.swap(&right);
    assert_eq!(left.take(), "right");
    assert_eq!(right.take(), "left");
}

#[test]
fn deref_gives_the_cell_that_holds_the_value() {
    let cell = WithCell::new(3u8);
    let inner: &std::cell::Cell<u8> = &cell;
    inner.set(4);
    assert_eq!(cell.with(|x| *x), 4);
    cell.map(|x| x + 1);
    assert_eq!(inner.get(), 5);
}

#[test]
fn default_holds_the_default_value() {
    let number: WithCell<u64> = WithCell::default();
    assert_eq!(number.get(), 0);
    let text: WithCell<String> = Default::default();
    assert_eq!(text.take(), "");
    let flag: WithCell<bool> = WithCell::default();
    assert!(!flag.get());
    let maybe: WithCell<Option<u8>> = WithCell::default();
    assert_eq!(maybe.get(), None);
}

#[test]
fn from_holds_the_value() {
    let cell = WithCell::from(17u8);
    assert_eq!(cell.get(), 17);
    let text: WithCell<String> = String::from("in").into();
    assert_eq!(text.take(), "in");
}

#[test]
fn from_agrees_with_new() {
    let made = WithCell::new(vec![4u32, 5]);
    let converted: WithCell<Vec<u32>> = vec![4u32, 5].into();
    assert_eq!(made.take(), converted.take());
}

#[test]
fn clone_holds_an_equal_value() {
    let cell = WithCell::new(String::from("twice"));
    let copy = cell.clone();
    assert_eq!(copy.take(), "twice");
    assert_eq!(cell.take(), "twice");
}

#[test]
fn clone_is_independent_of_the_source() {
    let cell = WithCell::new(vec![1u8]);
    let copy = cell.clone();
    cell.with(|v| v.push(2));
    assert_eq!(copy.take(), vec![1]);
    assert_eq!(cell.take(), vec![1, 2]);
}

#[test]
fn clone_takes_the_value_out_while_it_clones() {
    struct Watcher {
        cell: Rc<WithCell<Option<Box<Watcher>>>>,
        seen_empty: Rc<std::cell::Cell<bool>>,
    }
    impl Clone for Watcher {
        fn clone(&self) -> Self {
            let inside = self.cell.replace(None);
            self.seen_empty.set(inside.is_none());
            self.cell.set(inside);
            Watcher { cell: self.cell.clone(), seen_empty: self.seen_empty.clone() }
        }
    }
    let cell = Rc::new(WithCell::new(None));
    let seen_empty = Rc::new(std::cell::Cell::new(false));
    cell.set(Some(Box::new(Watcher { cell: cell.clone(), seen_empty: seen_empty.clone() })));
    let copy = WithCell::clone(&cell);
    assert!(seen_empty.get());
    assert!(copy.take().is_some());
    assert!(cell.take().is_some());
}

trait SyncProbe<Marker> {
    fn probe() -> bool {
        true
    }
}

impl<T: ?Sized> SyncProbe<()> for T {}

impl<T: ?Sized + Sync> SyncProbe<u8> for T {}

fn needs_send<T: Send>(value: T) -> T {
    value
}

#[test]
fn container_is_not_sync() {
    // Resolves only while exactly one of the two impls applies, that is,
    // while the container is not `Sync`.
    assert!(<WithCell<u32> as SyncProbe<_>>::probe());
    assert!(<WithCell<String> as SyncProbe<_>>::probe());
}

#[test]
fn container_is_send_where_the_value_is() {
    let cell = needs_send(WithCell::new(String::from("moved")));
    assert_eq!(cell.take(), "moved");
}
