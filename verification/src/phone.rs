//! A phone number as a type of its own, and a person that carries one.
//!
//! A `PhoneNumber` wraps ten digits and can be read wherever the plain
//! digits can: it dereferences to them.

use crate::error::BookError;
use crate::summary::Summary;
use crate::text::{append_debug_bytes, append_decimal, debug_bytes, decimal};
use vstd::prelude::*;

verus! {

/// Ten digits, owned.
pub struct PhoneNumber([u8; 10]);

impl PhoneNumber {
    /// The digits inside.
    pub closed spec fn digits(&self) -> [u8; 10] {
        self.0
    }

    pub fn new(digits: [u8; 10]) -> (number: Self)
        ensures
            number.digits() == digits,
    {
        PhoneNumber(digits)
    }
}

impl View for PhoneNumber {
    type V = Seq<u8>;

    open spec fn view(&self) -> Seq<u8> {
        self.digits()@
    }
}

impl std::ops::Deref for PhoneNumber {
    type Target = [u8; 10];

    /// Hands out the digits themselves, so that indexing and slicing a
    /// `PhoneNumber` read what indexing and slicing its digits would.
    fn deref(&self) -> (digits: &[u8; 10])
        ensures
            *digits == self.digits(),
    {
        &self.0
    }
}

/// A person whose phone number is a [`PhoneNumber`].
pub struct Person2 {
    pub name: String,
    pub age: u8,
    pub phone: PhoneNumber,
    pub favorite_color: String,
}

/// The line that reports the area code, the first three digits of `phone`.
pub open spec fn area_code_line(phone: Seq<u8>) -> Seq<char> {
    "Area code: "@ + debug_bytes(phone.subrange(0, 3))
}

impl Person2 {
    /// The area-code line, read from the digits inside the phone number.
    pub fn existing_method(&self) -> (line: String)
        ensures
            line@ == area_code_line(self.phone@),
    {
        let area_code = &self.phone.0[0..3];
        let mut line = String::new();
        line.append("Area code: ");
        append_debug_bytes(&mut line, area_code);
        line
    }

    /// The area-code line, read from the phone number as if it were its digits.
    pub fn existing_method2(&self) -> (line: String)
        ensures
            line@ == area_code_line(self.phone@),
    {
        let area_code = &self.phone[0..3];
        let mut line = String::new();
        line.append("Area code: ");
        append_debug_bytes(&mut line, area_code);
        line
    }
}

/// A phone number is short already: every summary of it is the list form of
/// its digits, except that a summary in no lines is empty.
impl Summary for PhoneNumber {
    open spec fn short_text(&self) -> Option<Seq<char>> {
        Some(debug_bytes(self@))
    }

    open spec fn long_text(&self) -> Option<Seq<char>> {
        self.short_text()
    }

    open spec fn lines_text(&self, lines: usize) -> Option<Seq<char>> {
        if lines > 0 {
            self.short_text()
        } else {
            Some(Seq::empty())
        }
    }

    fn short_summary(&self) -> (result: Result<String, BookError>) {
        let mut text = String::new();
        append_debug_bytes(&mut text, &self.0);
        Ok(text)
    }

    fn long_summary(&self) -> (result: Result<String, BookError>) {
        self.short_summary()
    }

    fn summary_in_lines(&self, lines: usize) -> (result: Result<String, BookError>) {
        if lines > 0 {
            self.short_summary()
        } else {
            Ok(String::new())
        }
    }
}

/// Whatever positive number of lines is allowed, a phone number's summary is
/// the same text, and that text is not empty; in no lines it is empty.
pub proof fn lemma_phone_summary_in_lines(number: PhoneNumber, lines: usize, other: usize)
    requires
        lines > 0,
        other > 0,
    ensures
        number.lines_text(0) == Some(Seq::<char>::empty()),
        number.lines_text(lines) == number.lines_text(other),
        number.lines_text(lines) matches Some(text) && text.len() > 0,
{
}

/// The short summary of a person with a phone number.
pub open spec fn person_short_text(name: Seq<char>, age: u8) -> Seq<char> {
    "Person: "@ + name + ", age "@ + decimal(age as nat)
}

/// A person is summarized by name and age, at length also by phone number.
/// A summary in a given number of lines is not defined yet.
impl Summary for Person2 {
    open spec fn short_text(&self) -> Option<Seq<char>> {
        Some(person_short_text(self.name@, self.age))
    }

    open spec fn long_text(&self) -> Option<Seq<char>> {
        Some(person_short_text(self.name@, self.age) + ", phone "@ + debug_bytes(self.phone@))
    }

    open spec fn lines_text(&self, lines: usize) -> Option<Seq<char>> {
        None
    }

    fn short_summary(&self) -> (result: Result<String, BookError>) {
        let mut text = String::new();
        text.append("Person: ");
        text.append(self.name.as_str());
        text.append(", age ");
        append_decimal(&mut text, self.age as u64);
        Ok(text)
    }

    fn long_summary(&self) -> (result: Result<String, BookError>) {
        let mut text = self.short_summary()?;
        let phone = self.phone.short_summary()?;
        text.append(", phone ");
        text.append(phone.as_str());
        Ok(text)
    }

    fn summary_in_lines(&self, lines: usize) -> (result: Result<String, BookError>) {
        Err(BookError::NotImplemented)
    }
}

} // verus!
