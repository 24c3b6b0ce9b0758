use address_book::error::BookError;
use address_book::generics::{get_first, AddressBookGen, Graph, Iterator, SortedVector};
use std::collections::HashMap;

#[test]
fn get_first_of_an_empty_list_is_none() {
    let empty: [u32; 0] = [];
    assert_eq!(get_first(&empty), None);
    let no_strings: Vec<String> = Vec::new();
    assert_eq!(get_first(&no_strings), None);
}

#[test]
fn get_first_returns_the_element_at_index_zero() {
    assert_eq!(get_first(&[7, 8, 9]), Some(&7));
    assert_eq!(get_first(&["a".to_owned()]), Some(&"a".to_owned()));
    let list = vec![3u8, 1, 2];
    let first = get_first(&list).unwrap();
    assert!(std::ptr::eq(first, &list[0]));
}

#[test]
fn sorted_vector_wraps_the_data_unsorted() {
    let wrapped = SortedVector::new(vec![3, 1, 2]);
    assert_eq!(wrapped.sv, vec![3, 1, 2]);
    assert!(!wrapped.is_sorted);
    assert_eq!(wrapped.length, 3);

    let empty: SortedVector<String> = SortedVector::new(Vec::new());
    assert!(empty.sv.is_empty());
    assert!(!empty.is_sorted);
    assert_eq!(empty.length, 0);
}

#[test]
fn generic_address_book_holds_any_fields() {
    let mut book: AddressBookGen<String, u8, (String, u8)> =
        AddressBookGen { by_field1: HashMap::new(), by_field2: HashMap::new() };
    book.by_field1.insert("caleb".to_owned(), ("caleb".to_owned(), 26));
    book.by_field2.entry(26).or_default().push(("caleb".to_owned(), 26));
    assert_eq!(book.by_field1["caleb"].1, 26);
    assert_eq!(book.by_field2[&26].len(), 1);
}

struct Countdown(u32);

impl Iterator for Countdown {
    type Item = u32;

    fn next(&mut self) -> Option<u32> {
        if self.0 == 0 {
            None
        } else {
            self.0 -= 1;
            Some(self.0)
        }
    }
}

#[test]
fn iterator_trait_can_be_implemented() {
    let mut c = Countdown(2);
    assert_eq!(c.next(), Some(1));
    assert_eq!(c.next(), Some(0));
    assert_eq!(c.next(), None);
    assert_eq!(c.next(), None);
}

#[test]
fn sorted_vector_does_not_convert_back_yet() {
    let wrapped = SortedVector::new(vec![3, 1, 2]);
    let converted: Result<Vec<i32>, BookError> = wrapped.try_into();
    assert_eq!(converted.unwrap_err(), BookError::NotImplemented);

    let empty: SortedVector<String> = SortedVector::new(Vec::new());
    assert_eq!(Vec::<String>::try_from(empty).unwrap_err(), BookError::NotImplemented);
}

struct Ring(u32);

impl Graph<u32, ()> for Ring {
    fn has_edge(&self, from: &u32, to: &u32) -> bool {
        *from < self.0 && *to == (*from + 1) % self.0
    }
}

#[test]
fn graph_trait_can_be_implemented() {
    let ring = Ring(3);
    assert!(ring.has_edge(&0, &1));
    assert!(ring.has_edge(&2, &0));
    assert!(!ring.has_edge(&0, &2));
    assert!(!ring.has_edge(&3, &0));
}
