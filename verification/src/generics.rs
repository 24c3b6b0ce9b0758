//! Containers and functions that work for any element type.

use crate::error::BookError;
use std::collections::HashMap;
use vstd::prelude::*;

verus! {

/// A vector together with what is known of it: whether it has been sorted,
/// and how long it was when it was wrapped.
pub struct SortedVector<T> {
    pub sv: Vec<T>,
    pub is_sorted: bool,
    pub length: usize,
}

impl<T> SortedVector<T> {
    /// Wraps `raw_data` as it is. Nothing is known of the order of its
    /// elements, so the result is not marked as sorted.
    pub fn new(raw_data: Vec<T>) -> (wrapped: SortedVector<T>)
        ensures
            wrapped.sv == raw_data,
            !wrapped.is_sorted,
            wrapped.length == raw_data@.len(),
    {
        let length = raw_data.len();
        SortedVector { sv: raw_data, is_sorted: false, length }
    }
}

/// Turning a sorted vector back into a plain vector is declared for elements
/// that can be ordered, but has no behaviour yet: every attempt is refused.
impl<P: Ord> TryFrom<SortedVector<P>> for Vec<P> {
    type Error = BookError;

    fn try_from(sorted: SortedVector<P>) -> (converted: Result<Vec<P>, BookError>)
        ensures
            converted matches Err(e) && e == BookError::NotImplemented,
    {
        Err(BookError::NotImplemented)
    }
}

impl<P: Ord> vstd::std_specs::convert::TryFromSpecImpl<SortedVector<P>> for Vec<P> {
    open spec fn obeys_try_from_spec() -> bool {
        true
    }

    open spec fn try_from_spec(sorted: SortedVector<P>) -> Result<Vec<P>, BookError> {
        Err(BookError::NotImplemented)
    }
}

/// An address book over any kind of data `D`, indexed by a unique field of
/// type `F1` and by a shared field of type `F2`.
pub struct AddressBookGen<F1, F2, D> {
    pub by_field1: HashMap<F1, D>,
    pub by_field2: HashMap<F2, Vec<D>>,
}

/// Returns the first element of `list`, or `None` when the list is empty.
pub fn get_first<T>(list: &[T]) -> (first: Option<&T>)
    ensures
        list@.len() == 0 ==> first is None,
        list@.len() > 0 ==> first == Some(&list@[0]),
{
    if list.is_empty() {
        None
    } else {
        Some(&list[0])
    }
}

/// Something that hands out items one at a time until it has no more.
pub trait Iterator {
    /// What is handed out.
    type Item;

    /// The next item, or `None` when none is left.
    fn next(&mut self) -> Option<Self::Item>;
}

/// A graph with nodes of type `N` and edges of type `E`.
pub trait Graph<N, E> {
    /// True when an edge leads from `from` to `to`.
    fn has_edge(&self, from: &N, to: &N) -> bool;
}

} // verus!
