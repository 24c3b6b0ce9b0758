//! The summary capability: how a value renders an abbreviated text of itself.
//!
//! A type supplies three operations and gets a fourth for free. An operation
//! that a type declares but does not yet carry out reports
//! [`BookError::NotImplemented`]; its text is then `None`.

use crate::error::BookError;
use vstd::prelude::*;

verus! {

/// True when `result` delivers `text`: the string with exactly these
/// characters where there is a text, and `NotImplemented` where there is none.
pub open spec fn rendered(result: Result<String, BookError>, text: Option<Seq<char>>) -> bool {
    match text {
        Some(t) => result matches Ok(s) && s@ == t,
        None => result matches Err(e) && e == BookError::NotImplemented,
    }
}

/// Abbreviated textual views of a value.
pub trait Summary {
    /// The short summary, or `None` where the type has none yet.
    spec fn short_text(&self) -> Option<Seq<char>>;

    /// The long summary, or `None` where the type has none yet.
    spec fn long_text(&self) -> Option<Seq<char>>;

    /// The summary in `lines` lines or fewer, or `None` where the type has
    /// none yet.
    spec fn lines_text(&self, lines: usize) -> Option<Seq<char>>;

    /// Summarizes the value in a few words.
    fn short_summary(&self) -> (result: Result<String, BookError>)
        ensures
            rendered(result, self.short_text()),
    ;

    /// Summarizes the value at length.
    fn long_summary(&self) -> (result: Result<String, BookError>)
        ensures
            rendered(result, self.long_text()),
    ;

    /// Summarizes the value in `lines` lines or fewer.
    fn summary_in_lines(&self, lines: usize) -> (result: Result<String, BookError>)
        ensures
            rendered(result, self.lines_text(lines)),
    ;

    /// The summary in ten lines or fewer. It is derived from
    /// `summary_in_lines`, so every type with the three operations above has
    /// it, and it always delivers what `summary_in_lines(10)` does.
    fn summary_in_10_lines(&self) -> (result: Result<String, BookError>)
        ensures
            rendered(result, self.lines_text(10)),
    {
        self.summary_in_lines(10)
    }
}

/// True when every item has a one-line summary.
pub open spec fn all_have_one_line<T: Summary>(items: Seq<T>) -> bool {
    forall|i: int| 0 <= i < items.len() ==> (#[trigger] items[i]).lines_text(1) is Some
}

/// The one-line summaries of `items`, one after the other with nothing in
/// between. Meaningful where `all_have_one_line(items)`.
pub open spec fn one_lines_joined<T: Summary>(items: Seq<T>) -> Seq<char>
    decreases items.len(),
{
    if items.len() == 0 {
        Seq::empty()
    } else {
        one_lines_joined(items.drop_last()) + items.last().lines_text(1).unwrap()
    }
}

/// How many items a summary in `lines` lines covers: one per line, as far as
/// there are items.
pub open spec fn covered(len: nat, lines: usize) -> int {
    if lines <= len {
        lines as int
    } else {
        len as int
    }
}

/// A sequence is summarized through its items: in `lines` lines it gives the
/// one-line summaries of its first `lines` items. Short and long summaries of
/// a sequence are not defined yet.
impl<T: Summary> Summary for Vec<T> {
    open spec fn short_text(&self) -> Option<Seq<char>> {
        None
    }

    open spec fn long_text(&self) -> Option<Seq<char>> {
        None
    }

    open spec fn lines_text(&self, lines: usize) -> Option<Seq<char>> {
        let head = self@.take(covered(self@.len(), lines));
        if all_have_one_line(head) {
            Some(one_lines_joined(head))
        } else {
            None
        }
    }

    fn short_summary(&self) -> (result: Result<String, BookError>) {
        Err(BookError::NotImplemented)
    }

    fn long_summary(&self) -> (result: Result<String, BookError>) {
        Err(BookError::NotImplemented)
    }

    fn summary_in_lines(&self, lines: usize) -> (result: Result<String, BookError>) {
        let mut text = String::new();
        let mut i: usize = 0;
        while i < lines && i < self.len()
            invariant
                i <= lines,
                i <= self.len(),
                all_have_one_line(self@.take(i as int)),
                text@ == one_lines_joined(self@.take(i as int)),
            decreases self.len() - i,
        {
            assert(self@.take(i + 1).drop_last() =~= self@.take(i as int));
            match self[i].summary_in_lines(1) {
                Ok(line) => {
                    text.append(line.as_str());
                },
                Err(e) => {
                    return Err(e);
                },
            }
            i = i + 1;
        }
        Ok(text)
    }
}

} // verus!
