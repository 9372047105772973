//! A string-keyed map of input values (reply boxes, selections and extra
//! query parameters), modelled as a mathematical map in which a later
//! insertion of a key replaces an earlier one.
use vstd::prelude::*;
use crate::text::str_eq;

verus! {

/// One key/value pair of an [`InputMap`].
#[derive(Debug, Clone)]
pub struct InputEntry {
    pub key: String,
    pub value: String,
}

/// The map that the entries `s` describe, read from first to last: a later
/// entry for a key overrides an earlier one.
pub open spec fn entries_map(s: Seq<InputEntry>) -> Map<Seq<char>, Seq<char>>
    decreases s.len(),
{
    if s.len() == 0 {
        Map::empty()
    } else {
        entries_map(s.drop_last()).insert(s.last().key@, s.last().value@)
    }
}

/// The entries of `s` whose key differs from `k`, in order.
pub open spec fn without_key(s: Seq<InputEntry>, k: Seq<char>) -> Seq<InputEntry>
    decreases s.len(),
{
    if s.len() == 0 {
        s
    } else if s.last().key@ == k {
        without_key(s.drop_last(), k)
    } else {
        without_key(s.drop_last(), k).push(s.last())
    }
}

/// Dropping every entry of a key removes exactly that key from the map.
pub proof fn lemma_without_key(s: Seq<InputEntry>, k: Seq<char>)
    ensures
        entries_map(without_key(s, k)) =~= entries_map(s).remove(k),
    decreases s.len(),
{
    if s.len() > 0 {
        lemma_without_key(s.drop_last(), k);
        let d = s.drop_last();
        if s.last().key@ != k {
            assert(without_key(s, k).drop_last() =~= without_key(d, k));
            assert(entries_map(d).remove(k).insert(s.last().key@, s.last().value@)
                =~= entries_map(d).insert(s.last().key@, s.last().value@).remove(k));
        } else {
            assert(entries_map(d).remove(k) =~= entries_map(d).insert(k, s.last().value@).remove(k));
        }
    }
}

/// The value of a key is that of its last entry.
pub proof fn lemma_last_entry(s: Seq<InputEntry>, k: Seq<char>, i: int)
    requires
        0 <= i < s.len(),
        s[i].key@ == k,
        forall|j: int| i < j < s.len() ==> s[j].key@ != k,
    ensures
        entries_map(s).contains_key(k),
        entries_map(s)[k] == s[i].value@,
    decreases s.len(),
{
    if i < s.len() - 1 {
        lemma_last_entry(s.drop_last(), k, i);
    }
}

/// A key without entries is absent from the map.
pub proof fn lemma_no_entry(s: Seq<InputEntry>, k: Seq<char>)
    requires
        forall|j: int| 0 <= j < s.len() ==> s[j].key@ != k,
    ensures
        !entries_map(s).contains_key(k),
    decreases s.len(),
{
    if s.len() > 0 {
        lemma_no_entry(s.drop_last(), k);
    }
}

/// The map is empty exactly when there are no entries.
pub proof fn lemma_empty_entries(s: Seq<InputEntry>)
    ensures
        (entries_map(s) =~= Map::<Seq<char>, Seq<char>>::empty()) <==> s.len() == 0,
{
    if s.len() > 0 {
        assert(entries_map(s).contains_key(s.last().key@));
    }
}

/// Input values keyed by input id.
#[derive(Debug, Clone)]
pub struct InputMap {
    entries: Vec<InputEntry>,
}

impl View for InputMap {
    type V = Map<Seq<char>, Seq<char>>;

    closed spec fn view(&self) -> Map<Seq<char>, Seq<char>> {
        entries_map(self.entries@)
    }
}

impl InputMap {
    /// An empty map.
    pub fn new() -> (m: InputMap)
        ensures
            m@ == Map::<Seq<char>, Seq<char>>::empty(),
    {
        let m = InputMap { entries: Vec::new() };
        assert(m@ =~= Map::<Seq<char>, Seq<char>>::empty());
        m
    }

    /// Index of the last entry for `key`, if any.
    fn find_last(&self, key: &str) -> (r: Option<usize>)
        ensures
            match r {
                Some(i) => i < self.entries@.len() && self.entries@[i as int].key@ == key@ && (
                forall|j: int| i < j < self.entries@.len() ==> self.entries@[j].key@ != key@),
                None => forall|j: int|
                    0 <= j < self.entries@.len() ==> self.entries@[j].key@ != key@,
            },
    {
        let mut i = self.entries.len();
        while i > 0
            invariant
                i <= self.entries@.len(),
                forall|j: int| i <= j < self.entries@.len() ==> self.entries@[j].key@ != key@,
            decreases i,
        {
            i = i - 1;
            if str_eq(self.entries[i].key.as_str(), key) {
                return Some(i);
            }
        }
        None
    }

    /// The value stored for `key`.
    pub fn get(&self, key: &str) -> (r: Option<&String>)
        ensures
            match r {
                Some(v) => self@.contains_key(key@) && v@ == self@[key@],
                None => !self@.contains_key(key@),
            },
    {
        match self.find_last(key) {
            Some(i) => {
                proof {
                    lemma_last_entry(self.entries@, key@, i as int);
                }
                Some(&self.entries[i].value)
            },
            None => {
                proof {
                    lemma_no_entry(self.entries@, key@);
                }
                None
            },
        }
    }

    /// Whether `key` has a value.
    pub fn contains_key(&self, key: &str) -> (r: bool)
        ensures
            r == self@.contains_key(key@),
    {
        self.get(key).is_some()
    }

    /// Whether the map holds no key.
    pub fn is_empty(&self) -> (r: bool)
        ensures
            r == (self@ =~= Map::<Seq<char>, Seq<char>>::empty()),
    {
        proof {
            lemma_empty_entries(self.entries@);
        }
        self.entries.len() == 0
    }

    /// Removes `key` and returns the value it had.
    pub fn remove(&mut self, key: &str) -> (r: Option<String>)
        ensures
            final(self)@ == old(self)@.remove(key@),
            match r {
                Some(v) => old(self)@.contains_key(key@) && v@ == old(self)@[key@],
                None => !old(self)@.contains_key(key@),
            },
    {
        let found = match self.get(key) {
            Some(v) => Some(v.clone()),
            None => None,
        };
        let ghost old_entries = self.entries@;
        let mut kept: Vec<InputEntry> = Vec::new();
        let mut i: usize = 0;
        while i < self.entries.len()
            invariant
                self.entries@ == old_entries,
                i <= old_entries.len(),
                kept@ == without_key(old_entries.take(i as int), key@),
            decreases old_entries.len() - i,
        {
            let e = &self.entries[i];
            assert(old_entries.take(i + 1).drop_last() =~= old_entries.take(i as int));
            if !str_eq(e.key.as_str(), key) {
                kept.push(InputEntry { key: e.key.clone(), value: e.value.clone() });
            }
            i = i + 1;
        }
        assert(old_entries.take(old_entries.len() as int) =~= old_entries);
        proof {
            lemma_without_key(old_entries, key@);
        }
        self.entries = kept;
        found
    }

    /// Sets the value of `key`, replacing any earlier value.
    pub fn insert(&mut self, key: String, value: String)
        ensures
            final(self)@ == old(self)@.insert(key@, value@),
    {
        let _ = self.remove(key.as_str());
        let ghost before = self.entries@;
        let ghost k = key@;
        let ghost v = value@;
        self.entries.push(InputEntry { key, value });
        proof {
            assert(self.entries@.drop_last() =~= before);
            assert(old(self)@.remove(k).insert(k, v) =~= old(self)@.insert(k, v));
        }
    }

    /// The entries in insertion order; a key occurs at most once.
    pub fn entries(&self) -> (r: &[InputEntry])
        ensures
            entries_map(r@) == self@,
    {
        self.entries.as_slice()
    }
}

} // verus!
