//! A cell whose value can be lent to a closure, or handed to it outright,
//! through a shared reference, without asking that the value be `Copy`.
//!
//! [`WithCell`] keeps one value of `T` in a [`core::cell::Cell`].
//! [`WithCell::with`] and [`WithCell::inspect`] lend the value to a closure
//! by exclusive reference; [`WithCell::map`] gives it to a closure by value
//! and keeps what the closure returns. All three take `&self`, so they can
//! be called on a field of a structure that is itself shared. While the
//! closure has the value, `T::default()` stands in the cell, so the cell
//! holds a valid `T` at every instant.
//!
//! ```text
//! let abcd = WithCell::new(String::new());
//! abcd.map(|x| x + "a").map(|x| x + "b").map(|x| x + "cd").with(|x| x.clear());
//! ```
//!
//! # Loss of the value
//!
//! A closure that does not return normally (it panics) leaves the
//! placeholder behind. The value it was working on is lost, and the
//! container holds `T::default()` from then on. Nothing catches the failure
//! or restores the value. The same holds of `T::clone` and of `T`'s `Debug`
//! impl while a container is cloned or formatted.
//!
//! # Reaching the container from inside a closure
//!
//! Nothing keeps a closure from reaching the container that it is working
//! for, through another shared reference. Such a closure finds the
//! placeholder there and not the value, and whatever it leaves in the
//! container is overwritten when the outer call puts the value back. This is
//! neither detected nor prevented.
//!
//! # One thread
//!
//! A container is never `Sync`, and nothing in it locks.
//!
//! # Formatting
//!
//! A container formats as its value does: `{:?}`, `{:#?}`, width and flags
//! go to the value's `Debug` impl unchanged, nothing is written for the
//! container itself, and an error that the value reports is handed back.
//!
//! # Layout
//!
//! * [`cell`]: the container. Its contracts say which steps were taken on
//!   its cell; what a shared cell holds is beyond them.
//! * [`held`]: the work on a value that is out of its cell, with exact
//!   contracts.
//! * [`text`]: `Debug` formatting of a value.
//! * [`laws`]: what follows from the contracts for closures of a known kind.
pub mod cell;
pub mod held;
pub mod laws;
pub mod text;

pub use cell::WithCell;
pub use held::Held;
