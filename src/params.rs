use vstd::prelude::*;
use vstd::string::StringExecFns;

verus! {

/// One named value of a request or a command.
///
/// A floating-point value is carried as its IEEE-754 binary64 bit pattern.
#[derive(Debug, PartialEq)]
pub enum ParamValue {
    Text(String),
    U64(u64),
    U32(u32),
    F64Bits(u64),
    Bool(bool),
}

/// A map from parameter names to values, each name present at most once.
pub struct ParamMap {
    entries: Vec<(String, ParamValue)>,
}

/// No name occurs twice among `s`.
pub open spec fn names_distinct(s: Seq<(String, ParamValue)>) -> bool {
    forall|i: int, j: int|
        0 <= i < s.len() && 0 <= j < s.len() && (#[trigger] s[i].0@) == (#[trigger] s[j].0@)
            ==> i == j
}

/// Some entry of `s` is named `k`.
pub open spec fn has_name(s: Seq<(String, ParamValue)>, k: Seq<char>) -> bool {
    exists|i: int| 0 <= i < s.len() && (#[trigger] s[i].0@) == k
}

/// The map that the entries `s` stand for.
pub open spec fn entries_map(s: Seq<(String, ParamValue)>) -> Map<Seq<char>, ParamValue> {
    Map::new(
        |k: Seq<char>| has_name(s, k),
        |k: Seq<char>| s[choose|i: int| 0 <= i < s.len() && (#[trigger] s[i].0@) == k].1,
    )
}

impl View for ParamMap {
    type V = Map<Seq<char>, ParamValue>;

    closed spec fn view(&self) -> Map<Seq<char>, ParamValue> {
        entries_map(self.entries@)
    }
}

/// Where the names are distinct, the entry at `i` gives the value of its name.
proof fn lemma_entry_value(s: Seq<(String, ParamValue)>, i: int)
    requires
        names_distinct(s),
        0 <= i < s.len(),
    ensures
        entries_map(s).contains_key(s[i].0@),
        entries_map(s)[s[i].0@] == s[i].1,
{
    assert(has_name(s, s[i].0@));
    let j = choose|j: int| 0 <= j < s.len() && (#[trigger] s[j].0@) == s[i].0@;
    assert(s[j].0@ == s[i].0@);
}

impl ParamMap {
    #[verifier::type_invariant]
    spec fn inv(self) -> bool {
        names_distinct(self.entries@)
    }

    /// The empty map.
    pub fn new() -> (r: ParamMap)
        ensures
            r@ == Map::<Seq<char>, ParamValue>::empty(),
    {
        let r = ParamMap { entries: Vec::new() };
        assert(r@ =~= Map::<Seq<char>, ParamValue>::empty());
        r
    }

    /// Position of the entry named `key`, if any.
    fn position(&self, key: &str) -> (r: Option<usize>)
        ensures
            match r {
                Some(i) => i < self.entries@.len() && self.entries@[i as int].0@ == key@,
                None => !has_name(self.entries@, key@),
            },
    {
        let name = String::from_str(key);
        let mut i: usize = 0;
        while i < self.entries.len()
            invariant
                i <= self.entries@.len(),
                name@ == key@,
                forall|j: int| 0 <= j < i ==> (#[trigger] self.entries@[j].0@) != key@,
            decreases self.entries@.len() - i,
        {
            if self.entries[i].0 == name {
                return Some(i);
            }
            i = i + 1;
        }
        None
    }

    /// The value stored under `key`, if any.
    pub fn get(&self, key: &str) -> (r: Option<&ParamValue>)
        ensures
            match r {
                Some(v) => self@.contains_key(key@) && *v == self@[key@],
                None => !self@.contains_key(key@),
            },
    {
        proof { use_type_invariant(&*self); }
        match self.position(key) {
            Some(i) => {
                proof { lemma_entry_value(self.entries@, i as int); }
                Some(&self.entries[i].1)
            },
            None => None,
        }
    }

    /// Stores `value` under `key`, replacing the value already stored there.
    pub fn insert(&mut self, key: String, value: ParamValue)
        ensures
            final(self)@ == old(self)@.insert(key@, value),
    {
        proof { use_type_invariant(&*self); }
        let ghost before = self.entries@;
        let found = self.position(key.as_str());
        let mut entries: Vec<(String, ParamValue)> = Vec::new();
        std::mem::swap(&mut entries, &mut self.entries);
        match found {
            Some(i) => {
                entries.set(i, (key, value));
            },
            None => {
                entries.push((key, value));
            },
        }
        let ghost after = entries@;
        proof {
            assert forall|i: int, j: int|
                0 <= i < after.len() && 0 <= j < after.len()
                    && (#[trigger] after[i].0@) == (#[trigger] after[j].0@) implies i == j by {
                if i < before.len() && j < before.len() && after[i].0@ != key@ {
                    assert(after[i] == before[i] && after[j] == before[j]);
                } else if i < before.len() && after[i].0@ != key@ {
                    assert(after[i] == before[i]);
                    assert(has_name(before, key@));
                } else if j < before.len() && after[j].0@ != key@ {
                    assert(after[j] == before[j]);
                    assert(has_name(before, key@));
                }
            }
            assert forall|k: Seq<char>| has_name(after, k) == (k == key@ || has_name(before, k)) by {
                if has_name(before, k) && k != key@ {
                    let j = choose|j: int| 0 <= j < before.len() && (#[trigger] before[j].0@) == k;
                    assert(after[j] == before[j]);
                }
                if has_name(after, k) && k != key@ {
                    let j = choose|j: int| 0 <= j < after.len() && (#[trigger] after[j].0@) == k;
                    assert(after[j] == before[j]);
                }
                if k == key@ {
                    match found {
                        Some(i) => assert(after[i as int].0@ == k),
                        None => assert(after[before.len() as int].0@ == k),
                    }
                }
            }
            assert forall|k: Seq<char>| #[trigger] entries_map(after).contains_key(k) && k != key@
                implies entries_map(after)[k] == entries_map(before)[k] by {
                let j = choose|j: int| 0 <= j < after.len() && (#[trigger] after[j].0@) == k;
                assert(after[j] == before[j]);
                lemma_entry_value(after, j);
                lemma_entry_value(before, j);
            }
            match found {
                Some(i) => lemma_entry_value(after, i as int),
                None => lemma_entry_value(after, before.len() as int),
            }
            assert(entries_map(after) =~= entries_map(before).insert(key@, value));
        }
        self.entries = entries;
    }

    /// The entries of the map, each name once, in no particular order.
    pub fn into_entries(self) -> (r: Vec<(String, ParamValue)>)
        ensures
            names_distinct(r@),
            entries_map(r@) == self@,
    {
        proof { use_type_invariant(&self); }
        self.entries
    }
}

} // verus!
