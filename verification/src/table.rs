//! A table keyed by text: a finite map from the characters of a key to a value.
use vstd::prelude::*;

verus! {

/// The map a list of entries spells out; of two entries with one key the later
/// one counts.
pub open spec fn as_map<V>(entries: Seq<(String, V)>) -> Map<Seq<char>, V>
    decreases entries.len(),
{
    if entries.len() == 0 {
        Map::empty()
    } else {
        as_map(entries.drop_last()).insert(entries.last().0@, entries.last().1)
    }
}

/// No key stands in two entries.
pub open spec fn keys_differ<V>(entries: Seq<(String, V)>) -> bool {
    forall|i: int, j: int|
        0 <= i < j < entries.len() ==> (#[trigger] entries[i]).0@ != (#[trigger] entries[j]).0@
}

/// Where no key stands twice, every entry counts.
pub proof fn entry_counts<V>(entries: Seq<(String, V)>, i: int)
    requires
        keys_differ(entries),
        0 <= i < entries.len(),
    ensures
        as_map(entries).contains_pair(entries[i].0@, entries[i].1),
    decreases entries.len(),
{
    if i < entries.len() - 1 {
        let init = entries.drop_last();
        assert(keys_differ(init)) by {
            assert forall|a: int, b: int| 0 <= a < b < init.len() implies (#[trigger] init[a]).0@ != (
            #[trigger] init[b]).0@ by {
                assert(entries[a].0@ != entries[b].0@);
            }
        }
        entry_counts(init, i);
        assert(init[i] == entries[i]);
        assert(entries[i].0@ != entries.last().0@);
    }
}

/// A key of the map stands in some entry.
pub proof fn key_place<V>(entries: Seq<(String, V)>, key: Seq<char>) -> (at: int)
    requires
        as_map(entries).contains_key(key),
    ensures
        0 <= at < entries.len(),
        entries[at].0@ == key,
    decreases entries.len(),
{
    if entries.last().0@ == key {
        entries.len() - 1
    } else {
        key_place(entries.drop_last(), key)
    }
}

proof fn lemma_len<V>(entries: Seq<(String, V)>)
    requires
        keys_differ(entries),
    ensures
        as_map(entries).dom().finite(),
        as_map(entries).dom().len() == entries.len(),
    decreases entries.len(),
{
    if entries.len() > 0 {
        let init = entries.drop_last();
        assert(keys_differ(init)) by {
            assert forall|a: int, b: int| 0 <= a < b < init.len() implies (#[trigger] init[a]).0@ != (
            #[trigger] init[b]).0@ by {
                assert(entries[a].0@ != entries[b].0@);
            }
        }
        lemma_len(init);
        if as_map(init).contains_key(entries.last().0@) {
            let at = key_place(init, entries.last().0@);
            assert(entries[at].0@ == entries[entries.len() - 1].0@);
        }
        assert(as_map(entries).dom() =~= as_map(init).dom().insert(entries.last().0@));
    } else {
        assert(as_map(entries).dom() =~= Set::<Seq<char>>::empty());
    }
}

proof fn lemma_without_at<V>(entries: Seq<(String, V)>, at: int, k: Seq<char>)
    requires
        keys_differ(entries),
        keys_differ(entries.remove(at)),
        0 <= at < entries.len(),
    ensures
        as_map(entries.remove(at)).contains_key(k) == as_map(entries).remove(
            entries[at].0@,
        ).contains_key(k),
        as_map(entries.remove(at)).contains_key(k) ==> as_map(entries.remove(at))[k] == as_map(
            entries,
        )[k],
{
    let rest = entries.remove(at);
    let key = entries[at].0@;
    if as_map(rest).contains_key(k) {
        let p = key_place(rest, k);
        let q = if p < at { p } else { p + 1 };
        entry_counts(rest, p);
        entry_counts(entries, q);
        assert(entries[q] == rest[p]);
        assert(k != key) by {
            if q < at {
                assert(entries[q].0@ != entries[at].0@);
            } else {
                assert(entries[at].0@ != entries[q].0@);
            }
        }
    }
    if as_map(entries).remove(key).contains_key(k) {
        let q = key_place(entries, k);
        let p = if q < at { q } else { q - 1 };
        assert(rest[p] == entries[q]);
        entry_counts(rest, p);
        entry_counts(entries, q);
    }
}

proof fn lemma_without<V>(entries: Seq<(String, V)>, at: int)
    requires
        keys_differ(entries),
        0 <= at < entries.len(),
    ensures
        keys_differ(entries.remove(at)),
        as_map(entries.remove(at)) == as_map(entries).remove(entries[at].0@),
{
    let rest = entries.remove(at);
    let key = entries[at].0@;
    assert forall|a: int, b: int| 0 <= a < b < rest.len() implies (#[trigger] rest[a]).0@ != (
    #[trigger] rest[b]).0@ by {
        let p = if a < at { a } else { a + 1 };
        let q = if b < at { b } else { b + 1 };
        assert(entries[p].0@ != entries[q].0@);
    }
    let want = as_map(entries).remove(key);
    assert forall|k: Seq<char>| #[trigger]
        as_map(rest).dom().contains(k) == want.dom().contains(k) by {
        lemma_without_at(entries, at, k);
    }
    assert forall|k: Seq<char>| as_map(rest).dom().contains(k) implies #[trigger] as_map(rest)[k]
        == want[k] by {
        lemma_without_at(entries, at, k);
    }
    assert(as_map(rest).dom() =~= want.dom());
    assert(as_map(rest) =~= want);
}

/// The place of the entry with the key, where there is one.
fn position<V>(entries: &Vec<(String, V)>, key: &str) -> (r: Option<usize>)
    ensures
        r is Some <==> as_map(entries@).contains_key(key@),
        r matches Some(i) ==> i < entries.len() && entries@[i as int].0@ == key@,
{
    let wanted = key.to_owned();
    let mut i: usize = 0;
    while i < entries.len()
        invariant
            i <= entries.len(),
            wanted@ == key@,
            forall|k: int| 0 <= k < i ==> (#[trigger] entries@[k]).0@ != key@,
        decreases entries.len() - i,
    {
        if entries[i].0 == wanted {
            proof {
                lemma_key_stays(entries@, i as int);
            }
            return Some(i);
        }
        i += 1;
    }
    proof {
        if as_map(entries@).contains_key(key@) {
            let at = key_place(entries@, key@);
            assert(entries@[at].0@ != key@);
        }
    }
    None
}

proof fn lemma_key_stays<V>(entries: Seq<(String, V)>, i: int)
    requires
        0 <= i < entries.len(),
    ensures
        as_map(entries).contains_key(entries[i].0@),
    decreases entries.len(),
{
    if i < entries.len() - 1 {
        lemma_key_stays(entries.drop_last(), i);
        assert(entries.drop_last()[i] == entries[i]);
    }
}

/// A finite map keyed by text.
#[derive(Debug, PartialEq, Eq)]
pub struct Table<V> {
    entries: Vec<(String, V)>,
}

impl<V> View for Table<V> {
    type V = Map<Seq<char>, V>;

    closed spec fn view(&self) -> Map<Seq<char>, V> {
        as_map(self.entries@)
    }
}

impl<V> Table<V> {
    #[verifier::type_invariant]
    spec fn well_formed(self) -> bool {
        keys_differ(self.entries@)
    }

    pub fn new() -> (r: Self)
        ensures
            r@ == Map::<Seq<char>, V>::empty(),
    {
        Table { entries: Vec::new() }
    }

    pub fn len(&self) -> (r: usize)
        ensures
            self@.dom().finite(),
            r == self@.dom().len(),
    {
        proof {
            use_type_invariant(self);
            lemma_len(self.entries@);
        }
        self.entries.len()
    }

    pub fn is_empty(&self) -> (r: bool)
        ensures
            r == (self@ == Map::<Seq<char>, V>::empty()),
    {
        proof {
            use_type_invariant(self);
            if self.entries@.len() > 0 {
                lemma_key_stays(self.entries@, 0);
            }
        }
        self.entries.len() == 0
    }

    pub fn get(&self, key: &str) -> (r: Option<&V>)
        ensures
            r == (if self@.contains_key(key@) { Some(&self@[key@]) } else { None }),
    {
        proof {
            use_type_invariant(self);
        }
        match position(&self.entries, key) {
            Some(i) => {
                proof {
                    entry_counts(self.entries@, i as int);
                }
                Some(&self.entries[i].1)
            },
            None => None,
        }
    }

    pub fn contains(&self, key: &str) -> (r: bool)
        ensures
            r == self@.contains_key(key@),
    {
        position(&self.entries, key).is_some()
    }

    /// Sets the value of the key, whatever it was before.
    pub fn insert(&mut self, key: String, value: V)
        ensures
            final(self)@ == old(self)@.insert(key@, value),
    {
        self.remove(key.as_str());
        proof {
            use_type_invariant(&*self);
        }
        let ghost before = self.entries@;
        let mut entries: Vec<(String, V)> = Vec::new();
        std::mem::swap(&mut entries, &mut self.entries);
        proof {
            assert forall|i: int| 0 <= i < entries@.len() implies (#[trigger] entries@[i]).0@ != key@ by {
                lemma_key_stays(entries@, i);
            }
        }
        let ghost grown = entries@.push((key, value));
        assert(grown.drop_last() =~= before);
        entries.push((key, value));
        self.entries = entries;
        assert(self@ =~= old(self)@.insert(key@, value));
    }

    /// Takes the entry of the key out, where there is one.
    pub fn remove(&mut self, key: &str) -> (r: Option<V>)
        ensures
            final(self)@ == old(self)@.remove(key@),
            r == (if old(self)@.contains_key(key@) { Some(old(self)@[key@]) } else { None }),
    {
        proof {
            use_type_invariant(&*self);
        }
        match position(&self.entries, key) {
            Some(i) => {
                let mut entries: Vec<(String, V)> = Vec::new();
                std::mem::swap(&mut entries, &mut self.entries);
                proof {
                    lemma_without(entries@, i as int);
                    entry_counts(entries@, i as int);
                }
                let (_, value) = entries.remove(i);
                self.entries = entries;
                Some(value)
            },
            None => {
                assert(self@ =~= self@.remove(key@));
                None
            },
        }
    }

    /// Empties the table and hands its entries over, each key once.
    pub fn drain(&mut self) -> (r: Vec<(String, V)>)
        ensures
            final(self)@ == Map::<Seq<char>, V>::empty(),
            keys_differ(r@),
            as_map(r@) == old(self)@,
    {
        proof {
            use_type_invariant(&*self);
        }
        let mut entries: Vec<(String, V)> = Vec::new();
        std::mem::swap(&mut entries, &mut self.entries);
        entries
    }

    /// Drops the entries whose key the other table does not have.
    pub fn restrict_to<W>(&mut self, keys: &Table<W>)
        ensures
            final(self)@ == old(self)@.restrict(keys@.dom()),
    {
        let ghost before = self@;
        let mut rest = self.drain();
        while rest.len() > 0
            invariant
                keys_differ(rest@),
                as_map(rest@).submap_of(before),
                self@.submap_of(before),
                forall|k: Seq<char>|
                    #![trigger self@.contains_key(k)]
                    self@.contains_key(k) <==> (before.contains_key(k) && !as_map(
                        rest@,
                    ).contains_key(k) && keys@.contains_key(k)),
            decreases rest.len(),
        {
            let ghost now = rest@;
            let ghost last = now.len() - 1;
            proof {
                entry_counts(now, last);
                lemma_without(now, last);
                assert(now.remove(last) =~= now.drop_last());
            }
            if let Some((key, value)) = rest.pop() {
                if keys.contains(key.as_str()) {
                    self.insert(key, value);
                }
            }
        }
        assert(self@ =~= before.restrict(keys@.dom()));
    }
}

}
