//! The container.
//!
//! # Reading the contracts
//!
//! A [`WithCell`] is worked on through a shared reference, and to a contract
//! a shared reference is a value that never changes. So no contract here
//! says what a container holds: the value of a container is the identity of
//! its cell, [`WithCell::inner`], and not the contents.
//!
//! What the contracts do say is what was done, in three relations:
//!
//! * [`made_holding`]`(cell, value)`: `cell` was made holding `value`;
//! * [`taken_from`]`(cell, value)`: `value` came out of `cell`, and
//!   `T::default()` went in;
//! * [`set_into`]`(cell, value)`: `value` went into `cell`.
//!
//! They are known of a cell and a value only when the step has been taken.
//! Between the taking and the setting stands the work on the value, and of
//! that the contracts say everything: through the closure's own contract
//! (see [`held`](crate::held)), or through the relations of
//! [`text`](crate::text).
use core::cell::Cell;
use core::fmt::{Debug, Formatter};
use vstd::prelude::*;

use crate::held::Held;
use crate::text::{debug_formats, debug_string_of, debug_write_of, debug_writes};

verus! {

/// `core::cell::Cell`: one value that can be taken out and replaced through
/// a shared reference. Nothing is claimed of what a cell holds.
#[verifier::external_type_specification]
#[verifier::external_body]
#[verifier::reject_recursive_types(T)]
pub struct ExCell<T: ?Sized>(Cell<T>);

/// A cell whose value can be lent to a closure, or handed to it outright,
/// through a shared reference.
///
/// `T` need not be `Copy`: while a closure has the value, `T::default()`
/// stands in the cell, so the cell holds a valid `T` at every instant.
///
/// # Loss of the value
///
/// A closure that does not return normally (it panics) leaves the
/// placeholder behind. The value it was working on is lost, and the
/// container holds `T::default()` from then on. Nothing catches the failure
/// or restores the value.
///
/// # Reaching the container from inside a closure
///
/// Nothing keeps a closure from reaching the container that it is working
/// for, through another shared reference. Such a closure finds the
/// placeholder there and not the value, and whatever it leaves in the
/// container is overwritten when the outer call puts the value back. This is
/// neither detected nor prevented.
///
/// # One thread
///
/// A container is `Send` where `T` is and never `Sync`, as the cell inside
/// it, and nothing in it locks.
///
/// # The cell inside
///
/// A container dereferences to its [`Cell`], so `get`, `set`, `replace`,
/// `take`, `get_mut` and the rest of `Cell` are at hand.
#[verifier::reject_recursive_types(T)]
pub struct WithCell<T> {
    cell: Cell<T>,
}

/// `cell` was made holding `value`: `Cell::new(value)` returned it.
///
/// Known of a cell and a value only where the cell has been made so.
pub closed spec fn made_holding<T>(cell: Cell<T>, value: T) -> bool {
    call_ensures(cell_new::<T>, (value,), cell)
}

/// `value` was taken out of `cell`, and `T::default()` left in its place:
/// `cell.take()` returned it.
///
/// Known of a cell and a value only where a take has returned the value. It
/// does not say what the cell holds now.
pub closed spec fn taken_from<T: Default>(cell: Cell<T>, value: T) -> bool {
    call_ensures(cell_take::<T>, (&cell,), value)
}

/// `value` was put into `cell`, and what was there dropped: `cell.set(value)`
/// was called.
///
/// Known of a cell and a value only where the value has been set. It does
/// not say what the cell holds now.
pub closed spec fn set_into<T>(cell: Cell<T>, value: T) -> bool {
    call_ensures(cell_set::<T>, (&cell, value), ())
}

impl<T> WithCell<T> {
    /// The cell that the container keeps its value in.
    pub closed spec fn inner(&self) -> Cell<T> {
        self.cell
    }

    /// Creates a container that holds `value`.
    pub fn new(value: T) -> (made: Self)
        ensures
            made_holding(made.inner(), value),
    {
        WithCell { cell: cell_new(value) }
    }
}

impl<T: Default> WithCell<T> {
    /// Lends the value to `f` and returns what `f` returns.
    ///
    /// The value is taken out of the cell and `T::default()` put in its
    /// place; `f` gets an exclusive reference to the value; when `f` has
    /// returned, the value, as `f` left it, goes back into the cell and the
    /// placeholder is dropped.
    ///
    /// If `f` reaches this container, it finds the placeholder; if `f` does
    /// not return, the value is lost and the placeholder stays.
    ///
    /// # Contract
    ///
    /// `f` must accept whatever the container may hold. A value was taken
    /// from the cell and lent to `f`; the result is what `f` returned; what
    /// `f` left behind was put into the cell.
    pub fn with<F, R>(&self, f: F) -> (ret: R) where F: FnOnce(&mut T) -> R
        requires
            forall|lent: &mut T| #[trigger] call_requires(f, (lent,)),
        ensures
            exists|lent: &mut T|
                {
                    &&& taken_from(self.inner(), *lent)
                    &&& #[trigger] call_ensures(f, (lent,), ret)
                    &&& set_into(self.inner(), *final(lent))
                },
    {
        let mut held = Held::new(cell_take(&self.cell));
        let ret = held.with(f);
        cell_set(&self.cell, held.into_inner());
        ret
    }

    /// Lends the value to `f`, as [`with`](Self::with) does, and returns the
    /// container itself, so that calls can be chained.
    ///
    /// # Contract
    ///
    /// `f` must accept whatever the container may hold. A value was taken
    /// from the cell and lent to `f`; what `f` left behind was put into the
    /// cell. The result is this container.
    pub fn inspect<F>(&self, f: F) -> (this: &Self) where F: FnOnce(&mut T)
        requires
            forall|lent: &mut T| #[trigger] call_requires(f, (lent,)),
        ensures
            this == self,
            exists|lent: &mut T|
                {
                    &&& taken_from(self.inner(), *lent)
                    &&& #[trigger] call_ensures(f, (lent,), ())
                    &&& set_into(self.inner(), *final(lent))
                },
    {
        let held = Held::new(cell_take(&self.cell)).inspect(f);
        cell_set(&self.cell, held.into_inner());
        self
    }

    /// Hands the value to `f` by value and keeps what `f` returns.
    ///
    /// While `f` runs, `T::default()` stands in the cell. If `f` reaches this
    /// container, it finds the placeholder; if `f` does not return, the
    /// value is lost and the placeholder stays.
    ///
    /// Returns the container itself, so that calls can be chained:
    /// `cell.map(f).map(g)` leaves `g(f(v))` where `v` was.
    ///
    /// # Contract
    ///
    /// `f` must accept whatever the container may hold. A value was taken
    /// from the cell and given to `f`; what `f` returned was put into the
    /// cell. The result is this container.
    pub fn map<F>(&self, f: F) -> (this: &Self) where F: FnOnce(T) -> T
        requires
            forall|given: T| #[trigger] call_requires(f, (given,)),
        ensures
            this == self,
            exists|given: T, made: T|
                {
                    &&& taken_from(self.inner(), given)
                    &&& #[trigger] call_ensures(f, (given,), made)
                    &&& set_into(self.inner(), made)
                },
    {
        let held = Held::new(cell_take(&self.cell)).map(f);
        cell_set(&self.cell, held.into_inner());
        self
    }
}

impl<T> core::ops::Deref for WithCell<T> {
    type Target = Cell<T>;

    /// The cell inside, for `get`, `set`, `replace`, `take` and the rest of
    /// what a `Cell` offers through a shared reference.
    fn deref(&self) -> (cell: &Cell<T>)
        ensures
            *cell == self.inner(),
    {
        &self.cell
    }
}

impl<T> core::ops::DerefMut for WithCell<T> {
    /// The cell inside, for `get_mut` and whatever else a `Cell` offers
    /// through an exclusive reference.
    fn deref_mut(&mut self) -> (cell: &mut Cell<T>)
        ensures
            *cell == old(self).inner(),
            *final(cell) == final(self).inner(),
    {
        &mut self.cell
    }
}

impl<T: Default> Default for WithCell<T> {
    /// Creates a container that holds `T::default()`.
    fn default() -> (made: Self)
        ensures
            exists|value: T|
                call_ensures(T::default, (), value) && #[trigger] made_holding(
                    made.inner(),
                    value,
                ),
    {
        WithCell::new(T::default())
    }
}

impl<T: Default + Clone> Clone for WithCell<T> {
    /// Creates a container that holds a clone of the value.
    ///
    /// The value is out of the cell while it is cloned, as in
    /// [`with`](WithCell::with): if `T::clone` does not return, the value is
    /// lost.
    ///
    /// # Contract
    ///
    /// A value was taken from the cell and put back as it was; the new
    /// container was made holding a clone of it.
    fn clone(&self) -> (copy: Self)
        ensures
            exists|held: T, twin: T|
                {
                    &&& taken_from(self.inner(), held)
                    &&& #[trigger] cloned(held, twin)
                    &&& set_into(self.inner(), held)
                    &&& made_holding(copy.inner(), twin)
                },
    {
        let duplicate = |held: &mut T| -> (twin: T)
            ensures
                cloned(*old(held), twin),
                *final(held) == *old(held),
            {
                held.clone()
            };
        WithCell::new(self.with(duplicate))
    }
}

impl<T> From<T> for WithCell<T> {
    /// Creates a container that holds `value`, as [`WithCell::new`] does.
    fn from(value: T) -> (made: Self)
        ensures
            made_holding(made.inner(), value),
    {
        WithCell::new(value)
    }
}

/// Which cell a new container gets is not a function of the value it is
/// made for, so conversion has no value-level meaning to obey.
impl<T> vstd::std_specs::convert::FromSpecImpl<T> for WithCell<T> {
    open spec fn obeys_from_spec() -> bool {
        false
    }

    open spec fn from_spec(value: T) -> Self {
        arbitrary()
    }
}

impl<T: Default + Debug> Debug for WithCell<T> {
    /// Writes the value as it writes itself, with nothing added for the
    /// container. The formatter goes to the value as it came, so width,
    /// flags and the alternate form apply to it; an error that the value or
    /// the sink reports is handed back.
    ///
    /// The value is out of the cell while it is written, as in
    /// [`with`](WithCell::with): if `T::fmt` does not return, the value is
    /// lost.
    ///
    /// # Contract
    ///
    /// A value was taken from the cell and put back as it was. What happens
    /// to `f`, and what is returned, is an outcome of formatting that value
    /// through `f`.
    fn fmt(&self, f: &mut Formatter<'_>) -> (done: Result<(), core::fmt::Error>)
        ensures
            exists|held: T, sink: &mut Formatter<'_>|
                {
                    &&& taken_from(self.inner(), held)
                    &&& *sink == *old(f)
                    &&& *final(sink) == *final(f)
                    &&& #[trigger] debug_writes(held, sink, done)
                    &&& set_into(self.inner(), held)
                },
    {
        let value = cell_take(&self.cell);
        let done = debug_write_of(&value, f);
        cell_set(&self.cell, value);
        done
    }
}

impl<T: Default + Debug> WithCell<T> {
    /// The value in its `Debug` form: the text that formatting the value
    /// itself with `{:?}` gives, with nothing added for the container.
    ///
    /// Returns `None` where the value's `Debug` impl reports an error. The
    /// value is out of the cell while it is written, as in
    /// [`with`](WithCell::with).
    ///
    /// # Contract
    ///
    /// A value was taken from the cell and put back as it was. The result is
    /// an outcome of formatting that value with `{:?}`.
    pub fn debug_string(&self) -> (text: Option<String>)
        ensures
            exists|held: T|
                {
                    &&& taken_from(self.inner(), held)
                    &&& #[trigger] debug_formats(held, text)
                    &&& set_into(self.inner(), held)
                },
    {
        let write = |held: &mut T| -> (text: Option<String>)
            ensures
                debug_formats(*old(held), text),
                *final(held) == *old(held),
            {
                debug_string_of(held)
            };
        self.with(write)
    }
}

/// Calls `Cell::new`, which makes a cell that holds `value`. Nothing is
/// claimed of the cell.
#[verifier::external_body]
fn cell_new<T>(value: T) -> (cell: Cell<T>) {
    Cell::new(value)
}

/// Calls `Cell::take`, which returns what the cell holds and leaves
/// `T::default()` in it. What a shared cell holds is not a function of the
/// reference, so nothing is claimed of the value.
#[verifier::external_body]
fn cell_take<T: Default>(cell: &Cell<T>) -> (value: T) {
    cell.take()
}

/// Calls `Cell::set`, which puts `value` in the cell and drops what was
/// there.
#[verifier::external_body]
fn cell_set<T>(cell: &Cell<T>, value: T) {
    cell.set(value)
}

} // verus!
