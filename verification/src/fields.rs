//! The text members of a JSON object.
use vstd::prelude::*;

use crate::text::same_text;

verus! {

/// Named texts, such as the members of a JSON object whose values are all text.
///
/// A name stands for the text that was inserted under it last.
#[derive(Debug, PartialEq, Eq)]
pub struct Fields {
    entries: Vec<(String, String)>,
}

/// The map that a list of entries spells, later entries winning over earlier ones.
spec fn entries_map(entries: Seq<(String, String)>) -> Map<Seq<char>, Seq<char>>
    decreases entries.len(),
{
    if entries.len() == 0 {
        Map::empty()
    } else {
        entries_map(entries.drop_last()).insert(entries.last().0@, entries.last().1@)
    }
}

impl View for Fields {
    type V = Map<Seq<char>, Seq<char>>;

    closed spec fn view(&self) -> Map<Seq<char>, Seq<char>> {
        entries_map(self.entries@)
    }
}

impl Fields {
    /// No fields.
    pub fn new() -> (fields: Fields)
        ensures
            fields@ == Map::<Seq<char>, Seq<char>>::empty(),
    {
        Fields { entries: Vec::new() }
    }

    /// Puts `value` under `name`, in place of what stood there.
    pub fn insert(&mut self, name: String, value: String)
        ensures
            final(self)@ == old(self)@.insert(name@, value@),
    {
        let ghost before = self.entries@;
        self.entries.push((name, value));
        assert(self.entries@.drop_last() =~= before);
    }

    /// The text under `name`, where there is one.
    pub fn get(&self, name: &str) -> (value: Option<String>)
        ensures
            value matches Some(text) ==> self@.dom().contains(name@) && text@ == self@[name@],
            value is None ==> !self@.dom().contains(name@),
    {
        let mut left: usize = self.entries.len();
        assert(self.entries@.take(left as int) =~= self.entries@);
        while left > 0
            invariant
                left <= self.entries.len(),
                entries_map(self.entries@.take(left as int)).dom().contains(name@)
                    == self@.dom().contains(name@),
                self@.dom().contains(name@) ==> entries_map(
                    self.entries@.take(left as int),
                )[name@] == self@[name@],
            decreases left,
        {
            left = left - 1;
            assert(self.entries@.take(left + 1).drop_last() =~= self.entries@.take(left as int));
            if same_text(self.entries[left].0.as_str(), name) {
                return Some(self.entries[left].1.clone());
            }
        }
        None
    }
}

} // verus!
