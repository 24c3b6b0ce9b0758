use address_book::error::BookError;
use address_book::phone::{Person2, PhoneNumber};
use address_book::summary::Summary;

fn caleb() -> Person2 {
    Person2 {
        name: "caleb".to_owned(),
        age: 26,
        phone: PhoneNumber::new([5, 5, 5, 5, 5, 5, 5, 5, 5, 5]),
        favorite_color: "Purple".to_owned(),
    }
}

#[test]
fn phone_number_reads_as_its_digits() {
    let raw = [2u8, 1, 5, 5, 5, 5, 0, 1, 9, 9];
    let phone = PhoneNumber::new(raw);
    assert_eq!(&phone[0..3], &raw[0..3]);
    assert_eq!(&phone[0..3], &[2u8, 1, 5][..]);
    assert_eq!(phone[9], 9);
    assert_eq!(phone.len(), 10);
    assert_eq!(*phone, raw);
    assert_eq!(phone.iter().map(|d| *d as u32).sum::<u32>(), 42);
}

#[test]
fn area_code_line_is_the_same_both_ways() {
    let mut p = caleb();
    assert_eq!(p.existing_method(), "Area code: [5, 5, 5]");
    assert_eq!(p.existing_method2(), "Area code: [5, 5, 5]");
    p.phone = PhoneNumber::new([0, 12, 255, 9, 9, 9, 9, 9, 9, 9]);
    assert_eq!(p.existing_method(), "Area code: [0, 12, 255]");
    assert_eq!(p.existing_method(), p.existing_method2());
    assert_eq!(p.existing_method(), format!("Area code: {:?}", &p.phone[0..3]));
}

#[test]
fn phone_summaries_are_the_debug_form_of_the_digits() {
    let raw = [5u8, 5, 5, 5, 5, 5, 5, 5, 5, 5];
    let phone = PhoneNumber::new(raw);
    let expected = "[5, 5, 5, 5, 5, 5, 5, 5, 5, 5]";
    assert_eq!(phone.short_summary().unwrap(), expected);
    assert_eq!(phone.long_summary().unwrap(), expected);
    assert_eq!(phone.summary_in_lines(1).unwrap(), expected);
    assert_eq!(phone.short_summary().unwrap(), format!("{:?}", raw));
}

#[test]
fn phone_summary_agrees_with_std_debug_for_mixed_digits() {
    let raw = [0u8, 7, 10, 42, 99, 100, 101, 200, 254, 255];
    let phone = PhoneNumber::new(raw);
    assert_eq!(phone.short_summary().unwrap(), "[0, 7, 10, 42, 99, 100, 101, 200, 254, 255]");
    assert_eq!(phone.short_summary().unwrap(), format!("{:?}", raw));
}

#[test]
fn phone_summary_in_no_lines_is_empty() {
    let phone = PhoneNumber::new([1, 2, 3, 4, 5, 6, 7, 8, 9, 0]);
    assert_eq!(phone.summary_in_lines(0).unwrap(), "");
}

#[test]
fn phone_summary_does_not_depend_on_a_positive_number_of_lines() {
    let phone = PhoneNumber::new([1, 2, 3, 4, 5, 6, 7, 8, 9, 0]);
    let one = phone.summary_in_lines(1).unwrap();
    assert!(!one.is_empty());
    for lines in [2usize, 3, 10, 1000, usize::MAX] {
        assert_eq!(phone.summary_in_lines(lines).unwrap(), one);
    }
}

#[test]
fn summary_in_10_lines_is_summary_in_lines_of_ten() {
    let phone = PhoneNumber::new([1, 2, 3, 4, 5, 6, 7, 8, 9, 0]);
    assert_eq!(phone.summary_in_10_lines(), phone.summary_in_lines(10));
    assert_eq!(phone.summary_in_10_lines().unwrap(), "[1, 2, 3, 4, 5, 6, 7, 8, 9, 0]");

    let person = caleb();
    assert_eq!(person.summary_in_10_lines(), person.summary_in_lines(10));

    let phones: Vec<PhoneNumber> = (0..12u8).map(|i| PhoneNumber::new([i; 10])).collect();
    assert_eq!(phones.summary_in_10_lines(), phones.summary_in_lines(10));
    assert_ne!(phones.summary_in_10_lines(), phones.summary_in_lines(11));

    let people = vec![caleb()];
    assert_eq!(people.summary_in_10_lines(), people.summary_in_lines(10));
}

#[test]
fn person_summaries() {
    let p = caleb();
    assert_eq!(p.short_summary().unwrap(), "Person: caleb, age 26");
    assert_eq!(
        p.long_summary().unwrap(),
        "Person: caleb, age 26, phone [5, 5, 5, 5, 5, 5, 5, 5, 5, 5]"
    );
    let old = Person2 { age: 255, ..caleb() };
    assert_eq!(old.short_summary().unwrap(), "Person: caleb, age 255");
    let newborn = Person2 { age: 0, name: String::new(), ..caleb() };
    assert_eq!(newborn.short_summary().unwrap(), "Person: , age 0");
}

#[test]
fn person_summary_in_lines_is_not_implemented() {
    let p = caleb();
    assert_eq!(p.summary_in_lines(0).unwrap_err(), BookError::NotImplemented);
    assert_eq!(p.summary_in_lines(1).unwrap_err(), BookError::NotImplemented);
    assert_eq!(p.summary_in_10_lines().unwrap_err(), BookError::NotImplemented);
}

#[test]
fn sequence_summary_joins_the_one_line_summaries_of_its_first_items() {
    let phones = vec![
        PhoneNumber::new([1; 10]),
        PhoneNumber::new([2; 10]),
        PhoneNumber::new([3; 10]),
    ];
    let one = "[1, 1, 1, 1, 1, 1, 1, 1, 1, 1]";
    let two = "[2, 2, 2, 2, 2, 2, 2, 2, 2, 2]";
    let three = "[3, 3, 3, 3, 3, 3, 3, 3, 3, 3]";
    assert_eq!(phones.summary_in_lines(0).unwrap(), "");
    assert_eq!(phones.summary_in_lines(1).unwrap(), one);
    assert_eq!(phones.summary_in_lines(2).unwrap(), format!("{}{}", one, two));
    assert_eq!(phones.summary_in_lines(3).unwrap(), format!("{}{}{}", one, two, three));
    assert_eq!(phones.summary_in_lines(7).unwrap(), format!("{}{}{}", one, two, three));
}

#[test]
fn sequence_summary_fails_where_an_item_has_no_one_line_summary() {
    let people = vec![caleb(), caleb()];
    assert_eq!(people.summary_in_lines(1).unwrap_err(), BookError::NotImplemented);
    assert_eq!(people.summary_in_lines(5).unwrap_err(), BookError::NotImplemented);
    // No item is asked for its summary.
    assert_eq!(people.summary_in_lines(0).unwrap(), "");
    let nobody: Vec<Person2> = Vec::new();
    assert_eq!(nobody.summary_in_lines(5).unwrap(), "");
}

#[test]
fn sequence_short_and_long_summaries_are_not_implemented() {
    let phones = vec![PhoneNumber::new([1; 10])];
    assert_eq!(phones.short_summary().unwrap_err(), BookError::NotImplemented);
    assert_eq!(phones.long_summary().unwrap_err(), BookError::NotImplemented);
    let nested = vec![vec![PhoneNumber::new([1; 10])]];
    assert_eq!(nested.summary_in_lines(1).unwrap(), "[1, 1, 1, 1, 1, 1, 1, 1, 1, 1]");
    assert_eq!(nested.short_summary().unwrap_err(), BookError::NotImplemented);
}
