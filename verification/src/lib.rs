//! A small address book: persons, a two-index store over them, and a
//! capability for abbreviated textual summaries.

pub mod error;
pub mod generics;
pub mod person;
pub mod phone;
pub mod store;
pub mod summary;
pub mod text;
