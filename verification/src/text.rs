//! `Debug` formatting of a value, as far as a contract can speak of it.
//!
//! What a `Debug` impl writes is the impl's own business, and it need not
//! write the same text twice (a hash map is written in the order in which it
//! happens to be walked). So nothing here says which text is written.
//! [`debug_writes`] and [`debug_formats`] are relations between a value and
//! an outcome of formatting it, known of an outcome only when formatting
//! has produced it.
use core::fmt::{Debug, Formatter, Write};
use vstd::prelude::*;

verus! {

/// `core::fmt::Formatter`, the sink and the settings (width, flags,
/// alternate form) that a `Debug` impl writes through. Nothing is claimed of
/// it.
#[verifier::external_type_specification]
#[verifier::external_body]
pub struct ExFormatter<'a>(Formatter<'a>);

/// `core::fmt::Error`, with which a formatting impl or its sink reports that
/// it could not write. Nothing is claimed of it.
#[verifier::external_type_specification]
#[verifier::external_body]
pub struct ExFmtError(core::fmt::Error);

/// Formatting `value` through its `Debug` impl can take the formatter from
/// `*sink` to `*final(sink)` and end in `done`.
pub closed spec fn debug_writes<T: Debug>(
    value: T,
    sink: &mut Formatter<'_>,
    done: Result<(), core::fmt::Error>,
) -> bool {
    call_ensures(debug_fmt::<T>, (&value, sink), done)
}

/// Formatting `value` with `{:?}` into an empty `String` can end in `text`:
/// `Some` of what was written, or `None` where the impl reported an error.
pub closed spec fn debug_formats<T: Debug>(value: T, text: Option<String>) -> bool {
    call_ensures(debug_text::<T>, (&value,), text)
}

/// Writes `value` through its `Debug` impl into `f`, and returns what the
/// impl returns.
///
/// # Contract
///
/// What happens to `f`, and what is returned, is an outcome of formatting
/// `value` through `f`.
pub fn debug_write_of<T: Debug>(value: &T, f: &mut Formatter<'_>) -> (done: Result<
    (),
    core::fmt::Error,
>)
    ensures
        exists|sink: &mut Formatter<'_>|
            {
                &&& *sink == *old(f)
                &&& *final(sink) == *final(f)
                &&& #[trigger] debug_writes(*value, sink, done)
            },
{
    let done = debug_fmt(value, f);
    proof {
        let sink = choose|sink: &mut Formatter<'_>|
            {
                &&& *sink == *old(f)
                &&& *final(sink) == *f
                &&& #[trigger] call_ensures(debug_fmt::<T>, (value, sink), done)
            };
        assert(debug_writes(*value, sink, done));
    }
    done
}

/// The `Debug` form of `value`: the text that formatting it with `{:?}`
/// gives, or `None` where its `Debug` impl reports an error.
///
/// # Contract
///
/// The result is an outcome of formatting `value` with `{:?}`.
pub fn debug_string_of<T: Debug>(value: &T) -> (text: Option<String>)
    ensures
        debug_formats(*value, text),
{
    debug_text(value)
}

/// Calls `<T as Debug>::fmt` on `value` with the formatter `f`, and returns
/// what it returns. Nothing is claimed of the outcome.
#[verifier::external_body]
fn debug_fmt<T: Debug>(value: &T, f: &mut Formatter<'_>) -> (done: Result<(), core::fmt::Error>) {
    value.fmt(f)
}

/// Calls `write!(out, "{:?}", value)` on an empty `String`, which writes
/// `value` through its `Debug` impl, and returns the string, or `None` where
/// `write!` returned an error. Nothing is claimed of the text.
#[verifier::external_body]
fn debug_text<T: Debug>(value: &T) -> (text: Option<String>) {
    let mut out = String::new();
    match write!(out, "{:?}", value) {
        Ok(()) => Some(out),
        Err(_) => None,
    }
}

} // verus!
