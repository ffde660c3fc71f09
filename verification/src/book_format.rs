//! Books and the formats they come in, comparable with each other.
//!
//! A [`Book`] equals a [`BookFormat`] when that is the book's format, whichever of the
//! two stands on the left of `==`.

use vstd::prelude::*;
use vstd::std_specs::cmp::PartialEqSpecImpl;

verus! {

/// The binding a book is sold in.
#[derive(PartialEq, Eq, Structural)]
pub enum BookFormat {
    Paperback,
    Hardback,
    Ebook,
}

/// A book, identified by its ISBN.
pub struct Book {
    pub isbn: i32,
    pub format: BookFormat,
}

impl PartialEq<BookFormat> for Book {
    fn eq(&self, other: &BookFormat) -> (same: bool) {
        self.format == *other
    }
}

impl PartialEqSpecImpl<BookFormat> for Book {
    open spec fn obeys_eq_spec() -> bool {
        true
    }

    open spec fn eq_spec(&self, other: &BookFormat) -> bool {
        self.format == *other
    }
}

impl PartialEq<Book> for BookFormat {
    fn eq(&self, other: &Book) -> (same: bool) {
        *self == other.format
    }
}

impl PartialEqSpecImpl<Book> for BookFormat {
    open spec fn obeys_eq_spec() -> bool {
        true
    }

    open spec fn eq_spec(&self, other: &Book) -> bool {
        *self == other.format
    }
}

} // verus!
