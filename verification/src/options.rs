//! Codec option sets, handed to the native codec when a processor is built.

use vstd::prelude::*;

verus! {

/// One codec option: a key, a value, and the dictionary flags it is set
/// with.
#[derive(Clone)]
pub struct OptionEntry {
    pub key: String,
    pub value: String,
    pub flags: u32,
}

/// The key-to-(value, flags) map that feeding `entries` in order into a
/// dictionary builds: a later entry for a key shadows an earlier one.
pub open spec fn entries_map(entries: Seq<OptionEntry>) -> Map<Seq<char>, (Seq<char>, u32)>
    decreases entries.len(),
{
    if entries.len() == 0 {
        Map::empty()
    } else {
        entries_map(entries.drop_last()).insert(
            entries.last().key@,
            (entries.last().value@, entries.last().flags),
        )
    }
}

/// A set of codec options. Entries are kept in the order they were set and
/// applied in that order, so the set behaves as the map from each key to the
/// value and flags it was last set with; that map is the type's view.
#[derive(Clone)]
pub struct Options {
    entries: Vec<OptionEntry>,
}

impl Options {
    /// The map from each key to the value and flags it was last set with.
    pub closed spec fn view(&self) -> Map<Seq<char>, (Seq<char>, u32)> {
        entries_map(self.entries@)
    }

    /// The entries in the order they were set.
    pub closed spec fn entry_seq(&self) -> Seq<OptionEntry> {
        self.entries@
    }

    /// An empty option set.
    pub fn new() -> (r: Self)
        ensures
            r@ == Map::<Seq<char>, (Seq<char>, u32)>::empty(),
    {
        Options { entries: Vec::new() }
    }

    /// Set `key` to `value` with no dictionary flags.
    pub fn set(self, key: &str, value: &str) -> (r: Self)
        ensures
            r@ == self@.insert(key@, (value@, 0u32)),
    {
        self.set_flags(key, value, 0)
    }

    /// Set `key` to `value` with the given dictionary flags.
    pub fn set_flags(self, key: &str, value: &str, flags: u32) -> (r: Self)
        ensures
            r@ == self@.insert(key@, (value@, flags)),
    {
        let ghost before = self.entries@;
        let mut entries = self.entries;
        entries.push(OptionEntry { key: key.to_owned(), value: value.to_owned(), flags });
        proof {
            assert(entries@.drop_last() =~= before);
        }
        Options { entries }
    }

    /// The entries in the order they were set, for handing to the native
    /// dictionary.
    pub fn entries(&self) -> (r: &Vec<OptionEntry>)
        ensures
            r@ == self.entry_seq(),
    {
        &self.entries
    }
}

impl Default for Options {
    /// The default option set is empty.
    fn default() -> (r: Self)
        ensures
            r@ == Map::<Seq<char>, (Seq<char>, u32)>::empty(),
    {
        Options { entries: Vec::new() }
    }
}

} // verus!
