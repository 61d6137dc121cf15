//! What follows from the contracts for closures of a known kind.
//!
//! The first group speaks of a value on its own
//! ([`Held`](crate::held::Held)). Each law takes the outcome of a call as
//! its contract states it: for `with` and `inspect`, that `f`, lent a value
//! `held`, can leave `left` behind (and return `ret`); for `map`, that `f`,
//! given `held`, can return `left`. It adds what is known of the closure and
//! concludes what is then held.
//!
//! The second group speaks of a container
//! ([`WithCell`](crate::cell::WithCell)). What a container holds before a
//! call is not known, so these laws conclude what was put into its cell, in
//! terms of what was taken from it.
use core::cell::Cell;
use vstd::prelude::*;

use crate::cell::{set_into, taken_from};

verus! {

/// Lending a value to a closure that only clones it leaves the value as it
/// was and returns a clone of it.
pub proof fn with_clone_keeps<T: Clone, F: FnOnce(&mut T) -> T>(f: F, held: T, left: T, ret: T)
    requires
        forall|lent: &mut T, out: T| #[trigger]
            call_ensures(f, (lent,), out) ==> *final(lent) == *lent && cloned(*lent, out),
        exists|lent: &mut T|
            *lent == held && *final(lent) == left && #[trigger] call_ensures(f, (lent,), ret),
    ensures
        left == held,
        cloned(held, ret),
{
}

/// Lending a value to a closure that overwrites it with `fresh` leaves
/// `fresh`, whatever was held before.
pub proof fn with_overwrite_leaves<T, R, F: FnOnce(&mut T) -> R>(
    f: F,
    fresh: T,
    held: T,
    left: T,
    ret: R,
)
    requires
        forall|lent: &mut T, out: R| #[trigger]
            call_ensures(f, (lent,), out) ==> *final(lent) == fresh,
        exists|lent: &mut T|
            *lent == held && *final(lent) == left && #[trigger] call_ensures(f, (lent,), ret),
    ensures
        left == fresh,
{
}

/// Where a closure computes the function `g`, `map` leaves `g` of what was
/// held.
pub proof fn map_applies<T, F: FnOnce(T) -> T>(f: F, g: spec_fn(T) -> T, held: T, left: T)
    requires
        forall|given: T, out: T| #[trigger] call_ensures(f, (given,), out) ==> out == g(given),
        call_ensures(f, (held,), left),
    ensures
        left == g(held),
{
}

/// Two maps in a row leave what the second closure makes of what the first
/// made of what was held.
pub proof fn map_chains<T, F: FnOnce(T) -> T, G: FnOnce(T) -> T>(
    f: F,
    g: G,
    f_spec: spec_fn(T) -> T,
    g_spec: spec_fn(T) -> T,
    held: T,
    between: T,
    left: T,
)
    requires
        forall|given: T, out: T| #[trigger] call_ensures(f, (given,), out) ==> out == f_spec(given),
        forall|given: T, out: T| #[trigger] call_ensures(g, (given,), out) ==> out == g_spec(given),
        call_ensures(f, (held,), between),
        call_ensures(g, (between,), left),
    ensures
        left == g_spec(f_spec(held)),
{
}

/// `inspect` can leave exactly what `with` can leave with the same closure:
/// the two differ only in what they return.
pub proof fn inspect_leaves_what_with_leaves<T, F: FnOnce(&mut T)>(f: F, held: T, left: T)
    ensures
        (exists|lent: &mut T|
            *lent == held && *final(lent) == left && #[trigger] call_ensures(f, (lent,), ()))
            <==> (exists|lent: &mut T, ret: ()|
            *lent == held && *final(lent) == left && #[trigger] call_ensures(f, (lent,), ret)),
{
}

/// A container that lends its value to a closure that only clones it gets
/// back the value that it gave, and returns a clone of that value.
pub proof fn shared_with_clone_keeps<T: Default + Clone, F: FnOnce(&mut T) -> T>(
    cell: Cell<T>,
    f: F,
    ret: T,
)
    requires
        forall|lent: &mut T, out: T| #[trigger]
            call_ensures(f, (lent,), out) ==> *final(lent) == *lent && cloned(*lent, out),
        exists|lent: &mut T|
            {
                &&& taken_from(cell, *lent)
                &&& #[trigger] call_ensures(f, (lent,), ret)
                &&& set_into(cell, *final(lent))
            },
    ensures
        exists|held: T|
            taken_from(cell, held) && #[trigger] cloned(held, ret) && set_into(cell, held),
{
}

/// A container that lends its value to a closure that overwrites it with
/// `fresh` gets `fresh` back, whatever it gave.
pub proof fn shared_with_overwrite_sets<T: Default, R, F: FnOnce(&mut T) -> R>(
    cell: Cell<T>,
    f: F,
    fresh: T,
    ret: R,
)
    requires
        forall|lent: &mut T, out: R| #[trigger]
            call_ensures(f, (lent,), out) ==> *final(lent) == fresh,
        exists|lent: &mut T|
            {
                &&& taken_from(cell, *lent)
                &&& #[trigger] call_ensures(f, (lent,), ret)
                &&& set_into(cell, *final(lent))
            },
    ensures
        set_into(cell, fresh),
{
}

/// Where a closure computes the function `g`, a container that maps with it
/// gets back `g` of the value that it gave.
pub proof fn shared_map_applies<T: Default, F: FnOnce(T) -> T>(
    cell: Cell<T>,
    f: F,
    g: spec_fn(T) -> T,
)
    requires
        forall|given: T, out: T| #[trigger] call_ensures(f, (given,), out) ==> out == g(given),
        exists|given: T, made: T|
            {
                &&& taken_from(cell, given)
                &&& #[trigger] call_ensures(f, (given,), made)
                &&& set_into(cell, made)
            },
    ensures
        exists|given: T| #[trigger] taken_from(cell, given) && set_into(cell, g(given)),
{
}

} // verus!
