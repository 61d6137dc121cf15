//! A value on its own, out of any cell.
//!
//! [`WithCell`](crate::cell::WithCell) works on its contents in three steps:
//! it takes the value out of its cell, does the work on the value, and puts
//! the result back. What a shared cell holds at a given moment is not
//! something a contract can speak of, so the first and the last step promise
//! nothing. The step in the middle is a matter of the value alone, and
//! stands here with an exact contract: whatever value came out of the cell,
//! this is what is done to it.
//!
//! # Reading the contracts
//!
//! The view of a held value, `held@`, is the value itself.
//!
//! The operations that run a closure state their contracts through the
//! closure's own: `call_requires(f, args)` says that `f` may be called with
//! `args`, and `call_ensures(f, args, ret)` that `f`, called with `args`, can
//! return `ret`. A closure that is lent a value takes an exclusive
//! reference, `lent`: `*lent` is the value it finds there and `*final(lent)`
//! the value it leaves. So
//!
//! ```text
//! exists|lent: &mut T| *lent == a && *final(lent) == b && call_ensures(f, (lent,), r)
//! ```
//!
//! reads: `f`, lent the value `a`, can leave `b` behind and return `r`.
use vstd::prelude::*;

verus! {

/// A value that its holder has to itself.
pub struct Held<T> {
    value: T,
}

impl<T> View for Held<T> {
    type V = T;

    /// The value that is held.
    closed spec fn view(&self) -> T {
        self.value
    }
}

impl<T> Held<T> {
    /// What holds `value`.
    pub closed spec fn holding(value: T) -> Self {
        Held { value }
    }

    /// What holds a value reads back as that value.
    pub proof fn holding_view(value: T)
        ensures
            Self::holding(value)@ == value,
    {
    }

    /// What is held determines the whole.
    pub proof fn holding_contents(self)
        ensures
            Self::holding(self@) == self,
    {
    }

    /// Holds `value`.
    pub fn new(value: T) -> (held: Self)
        ensures
            held == Self::holding(value),
            held@ == value,
    {
        Held { value }
    }

    /// Gives the value up.
    pub fn into_inner(self) -> (value: T)
        ensures
            value == self@,
    {
        self.value
    }

    /// Lends the value to `f` and returns what `f` returns.
    ///
    /// # Contract
    ///
    /// `f` must accept the value. Afterwards the value is what `f` left
    /// behind, and the result is what `f` returned.
    pub fn with<F, R>(&mut self, f: F) -> (ret: R) where F: FnOnce(&mut T) -> R
        requires
            forall|lent: &mut T| *lent == old(self)@ ==> #[trigger] call_requires(f, (lent,)),
        ensures
            exists|lent: &mut T|
                {
                    &&& *lent == old(self)@
                    &&& *final(lent) == final(self)@
                    &&& #[trigger] call_ensures(f, (lent,), ret)
                },
    {
        f(&mut self.value)
    }

    /// Lends the value to `f`, as [`with`](Self::with) does, and returns the
    /// holder, so that calls can be chained.
    ///
    /// # Contract
    ///
    /// `f` must accept the value. What is returned holds what `f` left
    /// behind.
    pub fn inspect<F>(self, f: F) -> (after: Self) where F: FnOnce(&mut T)
        requires
            forall|lent: &mut T| *lent == self@ ==> #[trigger] call_requires(f, (lent,)),
        ensures
            exists|lent: &mut T|
                {
                    &&& *lent == self@
                    &&& *final(lent) == after@
                    &&& #[trigger] call_ensures(f, (lent,), ())
                },
    {
        let mut after = self;
        after.with(f);
        after
    }

    /// Hands the value to `f` by value and holds what `f` returns.
    ///
    /// Returns the holder, so that calls can be chained:
    /// `held.map(f).map(g)` holds `g(f(v))` where `held` held `v`.
    ///
    /// # Contract
    ///
    /// `f` must accept the value. What is returned holds what `f` made of
    /// it.
    pub fn map<F>(self, f: F) -> (after: Self) where F: FnOnce(T) -> T
        requires
            call_requires(f, (self@,)),
        ensures
            call_ensures(f, (self@,), after@),
    {
        Held { value: f(self.value) }
    }
}

} // verus!
