//! Small string-keyed association lists.
//!
//! Port bindings (formal port name to signal name) and block parameters are
//! tiny maps fixed at construction time; they are kept as ordered lists of
//! pairs and searched by first match.

use vstd::prelude::*;

verus! {

/// Relies on `str`'s `PartialEq`: equality of the two character sequences.
#[verifier::external_body]
pub(crate) fn str_eq(a: &str, b: &str) -> (r: bool)
    ensures
        r == (a@ == b@),
{
    a == b
}

/// Relies on `str::starts_with`: whether the character sequence of `s`
/// begins with that of `p`.
#[verifier::external_body]
pub(crate) fn str_starts_with(s: &str, p: &str) -> (r: bool)
    ensures
        r == (p@.len() <= s@.len() && s@.subrange(0, p@.len() as int) == p@),
{
    s.starts_with(p)
}

/// The value the first entry with the given key holds, if any.
pub open spec fn spec_table_lookup<T>(entries: Seq<(Seq<char>, T)>, key: Seq<char>) -> Option<T>
    decreases entries.len(),
{
    if entries.len() == 0 {
        None
    } else if entries[0].0 == key {
        Some(entries[0].1)
    } else {
        spec_table_lookup(entries.skip(1), key)
    }
}

/// A string-keyed association list. Lookups return the first entry with a
/// matching key; entries keep their insertion order.
pub struct Table<V> {
    entries: Vec<(String, V)>,
}

impl<V: View> View for Table<V> {
    type V = Seq<(Seq<char>, V::V)>;

    closed spec fn view(&self) -> Seq<(Seq<char>, V::V)> {
        self.entries@.map_values(|e: (String, V)| (e.0@, e.1@))
    }
}

/// A lookup skips a prefix free of the key.
proof fn lemma_lookup_skips_mismatches<T>(entries: Seq<(Seq<char>, T)>, key: Seq<char>, i: int)
    requires
        0 <= i <= entries.len(),
        forall|j: int| 0 <= j < i ==> entries[j].0 != key,
    ensures
        spec_table_lookup(entries, key) == spec_table_lookup(entries.skip(i), key),
    decreases i,
{
    if i == 0 {
        assert(entries.skip(0) =~= entries);
    } else {
        lemma_lookup_skips_mismatches(entries, key, i - 1);
        assert(entries.skip(i - 1)[0] == entries[i - 1]);
        assert(entries.skip(i - 1).skip(1) =~= entries.skip(i));
        assert(entries.skip(i - 1).len() > 0);
        assert(spec_table_lookup(entries.skip(i - 1), key) == spec_table_lookup(
            entries.skip(i - 1).skip(1),
            key,
        ));
    }
}

impl<V: View> Table<V> {
    /// An empty table.
    pub fn new() -> (r: Table<V>)
        ensures
            r@ == Seq::<(Seq<char>, V::V)>::empty(),
    {
        let r = Table { entries: Vec::new() };
        proof {
            assert(r@ =~= Seq::<(Seq<char>, V::V)>::empty());
        }
        r
    }

    /// The number of entries.
    pub fn len(&self) -> (r: usize)
        ensures
            r == self@.len(),
    {
        self.entries.len()
    }

    /// The key and value of the entry at the given position.
    pub fn entry_at(&self, i: usize) -> (r: (&String, &V))
        requires
            i < self@.len(),
        ensures
            (r.0@, r.1@) == self@[i as int],
    {
        let e = &self.entries[i];
        (&e.0, &e.1)
    }

    /// Appends an entry. An existing entry with the same key keeps shadowing
    /// the new one, since lookups return the first match.
    pub fn push(&mut self, key: String, value: V)
        ensures
            final(self)@ == old(self)@.push((key@, value@)),
    {
        let ghost before = self@;
        let ghost k = key@;
        let ghost v = value@;
        self.entries.push((key, value));
        proof {
            assert(final(self)@ =~= before.push((k, v)));
        }
    }

    /// Looks the key up, returning the value of the first entry with that
    /// key, or `None` when no entry has it.
    pub fn get(&self, key: &str) -> (r: Option<&V>)
        ensures
            match r {
                Some(v) => spec_table_lookup(self@, key@) == Some(v@),
                None => spec_table_lookup(self@, key@) is None,
            },
    {
        let n = self.entries.len();
        let mut i: usize = 0;
        while i < n
            invariant
                n == self@.len(),
                i <= n,
                forall|j: int| 0 <= j < i ==> self@[j].0 != key@,
            decreases n - i,
        {
            if str_eq(self.entries[i].0.as_str(), key) {
                proof {
                    lemma_lookup_skips_mismatches(self@, key@, i as int);
                    assert(self@.skip(i as int)[0] == self@[i as int]);
                }
                return Some(&self.entries[i].1);
            }
            i = i + 1;
        }
        proof {
            lemma_lookup_skips_mismatches(self@, key@, n as int);
            assert(self@.skip(n as int) =~= Seq::<(Seq<char>, V::V)>::empty());
        }
        None
    }
}

} // verus!
