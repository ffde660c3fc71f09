//! A primer of small, fully specified building blocks.
//!
//! * [`pair`]: two-field containers, generic over what they hold.
//! * [`summary`]: a trait with a default method that implementers may replace, and
//!   generic functions over it.
//! * [`maximum`]: the largest element of a slice of anything ordered.
//! * [`selection`]: picking one of two borrowed strings, by length or by order.
//! * [`fibonacci`]: Fibonacci numbers in 128 bits.
//! * [`rectangle`], [`message`], [`book_format`]: small data types.
//! * [`form`]: trimming the fields of a form.
//! * [`temperature`]: the dialogue of a temperature converter.
//! * [`arithmetic`]: small numeric helpers.
//! * [`text`]: what the crate takes from the standard library's string handling.
//!
//! Every executable function carries a contract that Verus proves, except for three
//! calls into the standard library in [`text`], whose contracts are taken on trust.

pub mod arithmetic;
pub mod book_format;
pub mod fibonacci;
pub mod form;
pub mod maximum;
pub mod message;
pub mod pair;
pub mod rectangle;
pub mod selection;
pub mod summary;
pub mod temperature;
pub mod text;
