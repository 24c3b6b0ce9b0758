//! The store: persons indexed by name and by age.
//!
//! A name is a unique key: adding a person under a name that the store holds
//! replaces the person held. An age bucket always holds exactly the person
//! last added with that age: adding replaces the bucket, it does not extend
//! it. Nothing is ever removed from a bucket, so a person whose entry by name
//! has been replaced can still stand under the age it was added with.
//!
//! The store walks its names in the order in which they were first added.

use crate::error::BookError;
use crate::person::{display_text, Person, PersonView};
use crate::summary::{covered, Summary};
use std::collections::HashMap;
use vstd::hash_map::StringHashMap;
use vstd::prelude::*;

verus! {

/// An in-memory address book.
pub struct AddressBook {
    by_name: StringHashMap<Person>,
    by_age: HashMap<u8, Vec<Person>>,
    /// The keys of `by_name`, in the order of their first insertion.
    names: Vec<String>,
}

/// What an [`AddressBook`] holds, as plain mathematical values.
pub struct AddressBookView {
    /// The person held under each name.
    pub by_name: Map<Seq<char>, PersonView>,
    /// The bucket of persons held under each age.
    pub by_age: Map<u8, Seq<PersonView>>,
    /// The names, in the order in which they were first added.
    pub order: Seq<Seq<char>>,
}

/// The views of `people`, in the same order.
pub open spec fn people_view(people: Seq<Person>) -> Seq<PersonView> {
    people.map_values(|p: Person| p@)
}

/// The one-line texts of `people`, one after the other with nothing in between.
pub open spec fn lines_joined(people: Seq<PersonView>) -> Seq<char>
    decreases people.len(),
{
    if people.len() == 0 {
        Seq::empty()
    } else {
        lines_joined(people.drop_last()) + display_text(people.last())
    }
}

impl AddressBookView {
    /// The store that holds nothing.
    pub open spec fn empty() -> AddressBookView {
        AddressBookView { by_name: Map::empty(), by_age: Map::empty(), order: Seq::empty() }
    }

    /// What every store satisfies: the names in `order` are exactly the keys
    /// of `by_name`, each once; a person stands under its own name; and an
    /// age bucket holds one person, of that age.
    pub open spec fn well_formed(self) -> bool {
        &&& self.order.no_duplicates()
        &&& forall|i: int|
            0 <= i < self.order.len() ==> self.by_name.contains_key(#[trigger] self.order[i])
        &&& forall|n: Seq<char>| #[trigger]
            self.by_name.contains_key(n) ==> self.order.contains(n) && self.by_name[n].name == n
        &&& forall|a: u8| #[trigger]
            self.by_age.contains_key(a) ==> self.by_age[a].len() == 1 && self.by_age[a][0].age == a
    }

    /// The store after `person` has been added to it.
    pub open spec fn added(self, person: PersonView) -> AddressBookView {
        AddressBookView {
            by_name: self.by_name.insert(person.name, person),
            by_age: self.by_age.insert(person.age, seq![person]),
            order: if self.by_name.contains_key(person.name) {
                self.order
            } else {
                self.order.push(person.name)
            },
        }
    }

    /// The persons held by name, in the order in which the store walks them.
    pub open spec fn entries(self) -> Seq<PersonView> {
        self.order.map_values(|n: Seq<char>| self.by_name[n])
    }

    /// The summary of the first `n` entries: their one-line texts joined.
    /// Where the store holds fewer than `n`, all of them.
    pub open spec fn summary_text(self, n: usize) -> Seq<char> {
        lines_joined(self.entries().take(covered(self.order.len(), n)))
    }

    /// A second person of an age takes the place of the first in the bucket
    /// of that age. The first is still held by name, unless the second has
    /// its name too.
    pub proof fn lemma_same_age_replaces_bucket(self, first: PersonView, second: PersonView)
        requires
            first.age == second.age,
        ensures
            self.added(first).added(second).by_age[second.age] == seq![second],
            first.name != second.name ==> self.added(first).added(second).by_name[first.name]
                == first,
    {
    }

    /// A person added again under another age is held by name with the new
    /// age, and the earlier entry stays in the bucket of the earlier age.
    pub proof fn lemma_changed_age_keeps_old_bucket(self, earlier: PersonView, later: PersonView)
        requires
            earlier.name == later.name,
            earlier.age != later.age,
        ensures
            self.added(earlier).added(later).by_name[later.name] == later,
            self.added(earlier).added(later).by_age[earlier.age] == seq![earlier],
            self.added(earlier).added(later).by_age[later.age] == seq![later],
    {
    }

    /// A well-formed store has as many names in `order` as keys in `by_name`.
    pub proof fn lemma_one_name_per_person(self)
        requires
            self.well_formed(),
        ensures
            self.order.len() == self.by_name.dom().len(),
    {
        self.order.unique_seq_to_set();
        assert(self.order.to_set() =~= self.by_name.dom());
    }

    /// Adding a person to a well-formed store gives a well-formed store.
    pub proof fn lemma_added_well_formed(self, person: PersonView)
        requires
            self.well_formed(),
        ensures
            self.added(person).well_formed(),
    {
        let after = self.added(person);
        assert forall|n: Seq<char>| #[trigger] after.by_name.contains_key(n) implies after.order.contains(
            n,
        ) && after.by_name[n].name == n by {
            if n == person.name {
                if !self.by_name.contains_key(n) {
                    assert(after.order[self.order.len() as int] == n);
                }
            } else {
                let i = choose|i: int| 0 <= i < self.order.len() && self.order[i] == n;
                assert(after.order[i] == n);
            }
        }
    }
}

impl View for AddressBook {
    type V = AddressBookView;

    closed spec fn view(&self) -> AddressBookView {
        AddressBookView {
            by_name: self.by_name@.map_values(|p: Person| p@),
            by_age: self.by_age@.map_values(|bucket: Vec<Person>| people_view(bucket@)),
            order: self.names@.map_values(|n: String| n@),
        }
    }
}

impl AddressBook {
    #[verifier::type_invariant]
    spec fn inv(self) -> bool {
        self@.well_formed()
    }

    /// An empty store.
    pub fn new() -> (book: Self)
        ensures
            book@ == AddressBookView::empty(),
            book@.well_formed(),
    {
        let book = AddressBook {
            by_name: StringHashMap::new(),
            by_age: HashMap::new(),
            names: Vec::new(),
        };
        assert(book@.by_name =~= Map::empty());
        assert(book@.by_age =~= Map::empty());
        assert(book@.order =~= Seq::empty());
        book
    }

    /// Adds `person`: under its name, in place of whoever stood there, and
    /// as the only person of its age bucket, in place of whatever the bucket
    /// held.
    pub fn add_person(&mut self, person: Person)
        ensures
            final(self)@ == old(self)@.added(person@),
            final(self)@.well_formed(),
            final(self)@.by_name.contains_key(person@.name),
            final(self)@.by_name[person@.name] == person@,
            final(self)@.by_age.contains_key(person@.age),
            final(self)@.by_age[person@.age].contains(person@),
    {
        let mut taken = AddressBook::new();
        std::mem::swap(self, &mut taken);
        proof {
            use_type_invariant(&taken);
            taken@.lemma_added_well_formed(person@);
        }
        let ghost before = taken@;
        let AddressBook { mut by_name, mut by_age, mut names } = taken;

        if !by_name.contains_key(person.name()) {
            names.push(person.name().to_string());
        }
        let mut bucket: Vec<Person> = Vec::new();
        bucket.push(person.clone());
        by_age.insert(person.age(), bucket);
        by_name.insert(person.name().to_string(), person);

        let ghost after = AddressBook { by_name, by_age, names }@;
        proof {
            assert(after.by_name =~= before.added(person@).by_name);
            assert(people_view(bucket@) =~= seq![person@]);
            assert(after.by_age =~= before.added(person@).by_age);
            assert(after.order =~= before.added(person@).order);
            assert(seq![person@][0] == person@);
        }
        *self = AddressBook { by_name, by_age, names };
    }

    /// The number of names in the store, which is the number of persons
    /// that it holds by name.
    pub fn len(&self) -> (count: usize)
        ensures
            count == self@.order.len(),
            count == self@.by_name.dom().len(),
    {
        proof {
            use_type_invariant(self);
            self@.lemma_one_name_per_person();
        }
        self.names.len()
    }

    /// The number of age buckets in the store.
    pub fn age_groups(&self) -> (count: usize)
        ensures
            count == self@.by_age.dom().len(),
    {
        assert(self@.by_age.dom() =~= self.by_age@.dom());
        self.by_age.len()
    }

    /// Looks up the person held under exactly `name`; `NotFound` when the
    /// store holds nobody under it.
    pub fn get(&self, name: &str) -> (found: Result<&Person, BookError>)
        ensures
            match found {
                Ok(person) => self@.by_name.contains_key(name@) && person@ == self@.by_name[name@]
                    && person@.name == name@,
                Err(e) => !self@.by_name.contains_key(name@) && e == BookError::NotFound,
            },
    {
        proof {
            use_type_invariant(self);
        }
        match self.by_name.get(name) {
            Some(person) => Ok(person),
            None => Err(BookError::NotFound),
        }
    }

    /// The bucket held under `age`: the one person last added with that age,
    /// or `None` when nobody was.
    pub fn with_age(&self, age: u8) -> (bucket: Option<&Vec<Person>>)
        ensures
            match bucket {
                Some(people) => self@.by_age.contains_key(age) && people_view(people@)
                    == self@.by_age[age] && people@.len() == 1 && people@[0]@.age == age,
                None => !self@.by_age.contains_key(age),
            },
    {
        proof {
            use_type_invariant(self);
        }
        let bucket = self.by_age.get(&age);
        assert(bucket is Some ==> self@.by_age.contains_key(age));
        bucket
    }

    /// The one-line texts of the first `n` persons, joined with nothing in
    /// between, in the order in which their names were first added. Where
    /// the store holds fewer than `n`, all of them.
    pub fn summary_of_first_n(&self, n: usize) -> (text: String)
        ensures
            text@ == self@.summary_text(n),
    {
        proof {
            use_type_invariant(self);
        }
        let ghost entries = self@.entries();
        let mut text = String::new();
        let mut i: usize = 0;
        while i < n && i < self.names.len()
            invariant
                i <= n,
                i <= self.names.len(),
                self@.well_formed(),
                self.names@.len() == self@.order.len(),
                entries == self@.entries(),
                text@ == lines_joined(entries.take(i as int)),
            decreases self.names.len() - i,
        {
            proof {
                assert(entries.take(i + 1).drop_last() =~= entries.take(i as int));
                assert(entries.take(i + 1).last() == self@.by_name[self@.order[i as int]]);
            }
            let person = std::ops::Index::index(self, self.names[i].as_str());
            text.append(person.to_string().as_str());
            i = i + 1;
        }
        text
    }

    /// The text that a summary view of the store shows: the one-line texts of
    /// its first ten persons.
    pub fn print_summary_first10_entries(&self) -> (text: String)
        ensures
            text@ == self@.summary_text(10),
    {
        self.summary_of_first_n(10)
    }
}

impl Default for AddressBook {
    /// An empty store, as `new` gives.
    fn default() -> (book: Self)
        ensures
            book@ == AddressBookView::empty(),
            book@.well_formed(),
    {
        AddressBook::new()
    }
}

impl std::ops::Index<&str> for AddressBook {
    type Output = Person;

    /// The person held under `name`, which the caller knows to be there.
    fn index(&self, name: &str) -> (person: &Person)
        ensures
            person@ == self@.by_name[name@],
    {
        match self.by_name.get(name) {
            Some(person) => person,
            None => unreached(),
        }
    }
}

impl vstd::std_specs::core::IndexSpecImpl<&str> for AddressBook {
    open spec fn index_req(&self, name: &&str) -> bool {
        self@.by_name.contains_key(name@)
    }
}

/// A summary of the whole store is declared but not defined yet.
impl Summary for AddressBook {
    open spec fn short_text(&self) -> Option<Seq<char>> {
        None
    }

    open spec fn long_text(&self) -> Option<Seq<char>> {
        None
    }

    open spec fn lines_text(&self, lines: usize) -> Option<Seq<char>> {
        None
    }

    fn short_summary(&self) -> (result: Result<String, BookError>) {
        Err(BookError::NotImplemented)
    }

    fn long_summary(&self) -> (result: Result<String, BookError>) {
        Err(BookError::NotImplemented)
    }

    fn summary_in_lines(&self, lines: usize) -> (result: Result<String, BookError>) {
        Err(BookError::NotImplemented)
    }
}

} // verus!
