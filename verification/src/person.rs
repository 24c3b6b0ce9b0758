//! A single address-book entry and what can be done with it alone:
//! comparing, converting, rendering and parsing.

use crate::error::BookError;
use crate::text::{append_decimal, decimal};
use vstd::prelude::*;
use vstd::std_specs::cmp::PartialEqSpec;
use vstd::std_specs::convert::FromSpecImpl;

verus! {

/// The phone number given to a person made from a name and an age alone.
pub const DEFAULT_PHONE: [u8; 10] = [5, 5, 5, 5, 5, 5, 5, 5, 5, 5];

/// The favourite colour given to a person made from a name and an age alone.
pub const UNKNOWN_COLOR: &'static str = "Unknown";

/// An entry of the address book. A person is never changed in place: to
/// change one, build another.
#[derive(Debug)]
pub struct Person {
    name: String,
    age: u8,
    phone: [u8; 10],
    favorite_color: String,
}

/// What a [`Person`] is, as plain mathematical values.
pub struct PersonView {
    pub name: Seq<char>,
    pub age: u8,
    /// The ten digits of the phone number.
    pub phone: Seq<u8>,
    pub favorite_color: Seq<char>,
}

impl View for Person {
    type V = PersonView;

    closed spec fn view(&self) -> PersonView {
        PersonView {
            name: self.name@,
            age: self.age,
            phone: self.phone@,
            favorite_color: self.favorite_color@,
        }
    }
}

/// The user-oriented one-line text of a person: name and age, the rest left out.
pub open spec fn display_text(p: PersonView) -> Seq<char> {
    "Person with name "@ + p.name + ", age "@ + decimal(p.age as nat)
        + ", other details omitted"@
}

/// What a person made from `name` and `age` alone is.
pub open spec fn from_name_and_age(name: Seq<char>, age: u8) -> PersonView {
    PersonView { name, age, phone: DEFAULT_PHONE@, favorite_color: UNKNOWN_COLOR@ }
}

/// True when the two arrays hold the same digits.
fn same_digits(a: &[u8; 10], b: &[u8; 10]) -> (same: bool)
    ensures
        same == (a@ == b@),
{
    let mut i: usize = 0;
    while i < 10
        invariant
            i <= 10,
            forall|j: int| 0 <= j < i ==> a@[j] == b@[j],
        decreases 10 - i,
    {
        if a[i] != b[i] {
            return false;
        }
        i = i + 1;
    }
    assert(a@ =~= b@);
    true
}

impl Person {
    /// Builds a person from all four fields.
    pub fn new(name: String, age: u8, phone: [u8; 10], favorite_color: String) -> (person: Self)
        ensures
            person@ == (PersonView {
                name: name@,
                age,
                phone: phone@,
                favorite_color: favorite_color@,
            }),
    {
        Person { name, age, phone, favorite_color }
    }

    pub fn name(&self) -> (name: &str)
        ensures
            name@ == self@.name,
    {
        self.name.as_str()
    }

    pub fn age(&self) -> (age: u8)
        ensures
            age == self@.age,
    {
        self.age
    }

    pub fn phone(&self) -> (phone: [u8; 10])
        ensures
            phone@ == self@.phone,
    {
        self.phone
    }

    pub fn favorite_color(&self) -> (color: &str)
        ensures
            color@ == self@.favorite_color,
    {
        self.favorite_color.as_str()
    }

    /// The user-oriented one-line text: `Person with name N, age A, other
    /// details omitted`. Phone and colour are left out on purpose.
    pub fn to_string(&self) -> (text: String)
        ensures
            text@ == display_text(self@),
    {
        let mut text = String::new();
        text.append("Person with name ");
        text.append(self.name.as_str());
        text.append(", age ");
        append_decimal(&mut text, self.age as u64);
        text.append(", other details omitted");
        text
    }

    /// A phone number always has ten digits.
    pub proof fn lemma_phone_len(self)
        ensures
            self@.phone.len() == 10,
    {
    }
}

impl Clone for Person {
    fn clone(&self) -> (copy: Self)
        ensures
            copy == *self,
    {
        Person {
            name: self.name.clone(),
            age: self.age,
            phone: self.phone,
            favorite_color: self.favorite_color.clone(),
        }
    }
}

impl PartialEq for Person {
    /// Two persons are equal when all four fields are.
    fn eq(&self, other: &Self) -> (equal: bool) {
        self.name == other.name && self.age == other.age && same_digits(&self.phone, &other.phone)
            && self.favorite_color == other.favorite_color
    }
}

impl vstd::std_specs::cmp::PartialEqSpecImpl for Person {
    open spec fn obeys_eq_spec() -> bool {
        true
    }

    open spec fn eq_spec(&self, other: &Self) -> bool {
        self@ == other@
    }
}

/// Every person equals itself.
pub proof fn lemma_eq_reflexive(a: Person)
    ensures
        a.eq_spec(&a),
{
}

/// Equality does not depend on the side a person stands on.
pub proof fn lemma_eq_symmetric(a: Person, b: Person)
    ensures
        a.eq_spec(&b) == b.eq_spec(&a),
{
}

/// Two persons equal to a third are equal to each other.
pub proof fn lemma_eq_transitive(a: Person, b: Person, c: Person)
    requires
        a.eq_spec(&b),
        b.eq_spec(&c),
    ensures
        a.eq_spec(&c),
{
}

/// Two persons are equal exactly when they agree in all four fields: a
/// difference in any one of them makes them unequal.
pub proof fn lemma_eq_fieldwise(a: Person, b: Person)
    ensures
        a.eq_spec(&b) <==> a@.name == b@.name && a@.age == b@.age && a@.phone == b@.phone
            && a@.favorite_color == b@.favorite_color,
{
}

/// Persons made from the same name and age are equal, whichever way each
/// was made, and they carry the default phone number and colour.
pub proof fn lemma_from_name_and_age(a: Person, b: Person, name: Seq<char>, age: u8)
    requires
        a@ == from_name_and_age(name, age),
        b@ == from_name_and_age(name, age),
    ensures
        a.eq_spec(&b),
        a@.phone == seq![5u8, 5u8, 5u8, 5u8, 5u8, 5u8, 5u8, 5u8, 5u8, 5u8],
        a@.favorite_color == seq!['U', 'n', 'k', 'n', 'o', 'w', 'n'],
{
    reveal_strlit("Unknown");
}

impl From<(String, u8)> for Person {
    /// Makes a person from a name and an age, with the default phone number
    /// and an unknown favourite colour.
    fn from(pair: (String, u8)) -> (person: Self)
        ensures
            person@ == from_name_and_age(pair.0@, pair.1),
    {
        let (name, age) = pair;
        Person { name, age, phone: DEFAULT_PHONE, favorite_color: UNKNOWN_COLOR.to_string() }
    }
}

impl FromSpecImpl<(String, u8)> for Person {
    /// Two strings with the same characters need not be the same value, so
    /// `from` promises the view of its result and not the result itself.
    open spec fn obeys_from_spec() -> bool {
        false
    }

    /// Some person with the view that `from` promises.
    open spec fn from_spec(pair: (String, u8)) -> Self {
        choose|person: Person| #[trigger] person@ == from_name_and_age(pair.0@, pair.1)
    }
}

impl std::str::FromStr for Person {
    type Err = BookError;

    /// Parsing a person has no grammar yet: every input is refused.
    fn from_str(s: &str) -> (parsed: Result<Self, BookError>)
        ensures
            parsed matches Err(e) && e == BookError::NotImplemented,
    {
        Err(BookError::NotImplemented)
    }
}

} // verus!
