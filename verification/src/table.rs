//! Keyed tables: [`OctetMap`], kept in ascending key order, and [`NameMap`],
//! keyed by text.

use vstd::prelude::*;

use crate::octets;
use crate::octets::before;

verus! {

/// One binding of an [`OctetMap`].
pub struct Entry<V> {
    /// The key.
    pub key: Vec<u8>,
    /// What the key is bound to.
    pub value: V,
}

/// Every key comes before every later one.
pub open spec fn ascending(keys: Seq<Seq<u8>>) -> bool {
    forall|i: int, j: int| 0 <= i < j < keys.len() ==> before(#[trigger] keys[i], #[trigger] keys[j])
}

/// The keys of a run of entries, in order.
pub open spec fn keys_of<V>(entries: Seq<Entry<V>>) -> Seq<Seq<u8>> {
    entries.map_values(|e: Entry<V>| e.key@)
}

/// The `i`-th entry binds `k`.
pub open spec fn binds<V>(entries: Seq<Entry<V>>, i: int, k: Seq<u8>) -> bool {
    0 <= i < entries.len() && entries[i].key@ == k
}

/// A position at which `k` is bound.
pub open spec fn index_of<V>(entries: Seq<Entry<V>>, k: Seq<u8>) -> int {
    choose|i: int| binds(entries, i, k)
}

/// The map that a run of entries stands for.
pub open spec fn entries_map<V>(entries: Seq<Entry<V>>) -> Map<Seq<u8>, V> {
    Map::new(
        |k: Seq<u8>| exists|i: int| binds(entries, i, k),
        |k: Seq<u8>| entries[index_of(entries, k)].value,
    )
}

proof fn entry_is_mapped<V>(entries: Seq<Entry<V>>, i: int)
    requires
        ascending(keys_of(entries)),
        0 <= i < entries.len(),
    ensures
        entries_map(entries).contains_key(entries[i].key@),
        entries_map(entries)[entries[i].key@] == entries[i].value,
{
    let k = entries[i].key@;
    assert(binds(entries, i, k));
    let j = index_of(entries, k);
    let keys = keys_of(entries);
    assert(keys[i] == k && keys[j] == k);
    octets::before_irreflexive(k);
    if i < j {
        assert(before(keys[i], keys[j]));
    } else if j < i {
        assert(before(keys[j], keys[i]));
    }
}

/// A map from octet strings, walked in lexicographic order of its keys.
pub struct OctetMap<V> {
    entries: Vec<Entry<V>>,
}

impl<V> OctetMap<V> {
    /// The keys ascend, so no key is bound twice.
    pub closed spec fn wf(self) -> bool {
        ascending(keys_of(self.entries@))
    }

    /// The bindings.
    pub closed spec fn view(self) -> Map<Seq<u8>, V> {
        entries_map(self.entries@)
    }

    /// The keys, in the order they are walked.
    pub closed spec fn order(self) -> Seq<Seq<u8>> {
        keys_of(self.entries@)
    }

    /// No bindings.
    pub fn new() -> (m: Self)
        ensures
            m.wf(),
            m@ == Map::<Seq<u8>, V>::empty(),
            m.order() == Seq::<Seq<u8>>::empty(),
    {
        let m = OctetMap { entries: Vec::new() };
        assert(m@ =~= Map::<Seq<u8>, V>::empty());
        assert(m.order() =~= Seq::<Seq<u8>>::empty());
        m
    }

    /// How many bindings there are; the keys ascend, and are those of the map.
    pub fn len(&self) -> (n: usize)
        requires
            self.wf(),
        ensures
            n == self.order().len(),
            ascending(self.order()),
            forall|k: Seq<u8>| self@.contains_key(k) <==> self.order().contains(k),
    {
        proof {
            let keys = self.order();
            assert forall|k: Seq<u8>| self@.contains_key(k) implies keys.contains(k) by {
                let i = index_of(self.entries@, k);
                assert(keys[i] == k);
            }
            assert forall|k: Seq<u8>| keys.contains(k) implies self@.contains_key(k) by {
                let i = choose|i: int| 0 <= i < keys.len() && keys[i] == k;
                entry_is_mapped(self.entries@, i);
            }
        }
        self.entries.len()
    }

    /// The `i`-th key.
    pub fn key_at(&self, i: usize) -> (k: &Vec<u8>)
        requires
            self.wf(),
            i < self.order().len(),
        ensures
            k@ == self.order()[i as int],
            self@.contains_key(k@),
    {
        proof {
            entry_is_mapped(self.entries@, i as int);
        }
        &self.entries[i].key
    }

    /// What the `i`-th key is bound to.
    pub fn value_at(&self, i: usize) -> (v: &V)
        requires
            self.wf(),
            i < self.order().len(),
        ensures
            self@.contains_key(self.order()[i as int]),
            *v == self@[self.order()[i as int]],
    {
        proof {
            entry_is_mapped(self.entries@, i as int);
        }
        &self.entries[i].value
    }

    /// Where `key` stands, or would stand.
    fn position(&self, key: &[u8]) -> (at: usize)
        ensures
            at <= self.entries@.len(),
            forall|i: int| 0 <= i < at ==> before(#[trigger] self.entries@[i].key@, key@),
            at < self.entries@.len() ==> {
                let found = self.entries@[at as int].key@;
                !before(found, key@) && (found != key@ ==> before(key@, found))
            },
    {
        let mut at: usize = 0;
        while at < self.entries.len()
            invariant
                at <= self.entries@.len(),
                forall|i: int| 0 <= i < at ==> before(#[trigger] self.entries@[i].key@, key@),
            decreases self.entries@.len() - at,
        {
            if !octets::is_before(self.entries[at].key.as_slice(), key) {
                return at;
            }
            at += 1;
        }
        at
    }

    /// The position of a key that is bound, if it is.
    fn find(&self, key: &[u8]) -> (at: Option<usize>)
        requires
            self.wf(),
        ensures
            match at {
                Some(i) => i < self.entries@.len() && self.entries@[i as int].key@ == key@
                    && self@.contains_key(key@) && self@[key@] == self.entries@[i as int].value,
                None => !self@.contains_key(key@),
            },
    {
        let at: usize = self.position(key);
        if at < self.entries.len() && octets::same(self.entries[at].key.as_slice(), key) {
            proof {
                entry_is_mapped(self.entries@, at as int);
            }
            Some(at)
        } else {
            proof {
                let keys = keys_of(self.entries@);
                assert forall|i: int| 0 <= i < self.entries@.len() implies
                    #[trigger] self.entries@[i].key@ != key@ by {
                    octets::before_irreflexive(key@);
                    if at < i {
                        assert(before(keys[at as int], keys[i]));
                        let k = self.entries@[at as int].key@;
                        if self.entries@[i].key@ == key@ {
                            assert(before(k, key@));
                        }
                    }
                }
            }
            None
        }
    }

    /// What `key` is bound to.
    pub fn get(&self, key: &[u8]) -> (v: Option<&V>)
        requires
            self.wf(),
        ensures
            match v {
                Some(v) => self@.contains_key(key@) && *v == self@[key@],
                None => !self@.contains_key(key@),
            },
    {
        match self.find(key) {
            Some(i) => Some(&self.entries[i].value),
            None => None,
        }
    }

    /// Whether `key` is bound.
    pub fn contains(&self, key: &[u8]) -> (b: bool)
        requires
            self.wf(),
        ensures
            b == self@.contains_key(key@),
    {
        self.find(key).is_some()
    }

    /// Binds `key` to `value`, in place of what it was bound to.
    pub fn insert(&mut self, key: Vec<u8>, value: V)
        requires
            old(self).wf(),
        ensures
            final(self).wf(),
            final(self)@ == old(self)@.insert(key@, value),
    {
        let ghost keys = keys_of(self.entries@);
        let ghost entries = self.entries@;
        let ghost k = key@;
        let at: usize = self.position(key.as_slice());
        if at < self.entries.len() && octets::same(self.entries[at].key.as_slice(), key.as_slice()) {
            let entry = Entry { key, value };
            let ghost new = entries.update(at as int, entry);
            assert(keys_of(new) =~= keys);
            self.entries[at] = entry;
            proof {
                assert forall|q: Seq<u8>|
                    #![trigger entries_map(new).dom().contains(q)]
                    #![trigger entries_map(entries).dom().contains(q)]
                    q != k implies entries_map(new).dom().contains(q) == entries_map(
                    entries,
                ).dom().contains(q) && (entries_map(new).dom().contains(q) ==> entries_map(new)[q]
                    == entries_map(entries)[q]) by {
                    if exists|i: int| binds(entries, i, q) {
                        let i = choose|i: int| binds(entries, i, q);
                        assert(new[i] == entries[i]);
                        entry_is_mapped(new, i);
                        entry_is_mapped(entries, i);
                    }
                    if exists|i: int| binds(new, i, q) {
                        let i = choose|i: int| binds(new, i, q);
                        assert(new[i] == entries[i]);
                        entry_is_mapped(entries, i);
                    }
                }
                entry_is_mapped(new, at as int);
                assert(entries_map(new) =~= entries_map(entries).insert(k, value));
            }
        } else {
            let entry = Entry { key, value };
            let ghost new = entries.insert(at as int, entry);
            proof {
                let fresh = keys_of(new);
                assert(fresh =~= keys.insert(at as int, k));
                assert forall|i: int, j: int| 0 <= i < j < fresh.len() implies before(
                    #[trigger] fresh[i],
                    #[trigger] fresh[j],
                ) by {
                    if at < entries.len() {
                        assert(before(k, keys[at as int]));
                    }
                    if i < at && j > at {
                        assert(before(keys[i], keys[j - 1]));
                    } else if i < at && j < at {
                        assert(before(keys[i], keys[j]));
                    } else if i < at {
                        assert(before(entries[i].key@, k));
                    } else if i == at {
                        if j - 1 > at {
                            assert(before(keys[at as int], keys[j - 1]));
                            octets::before_transitive(k, keys[at as int], keys[j - 1]);
                        }
                    } else {
                        assert(before(keys[i - 1], keys[j - 1]));
                    }
                }
                assert forall|q: Seq<u8>|
                    #![trigger entries_map(new).dom().contains(q)]
                    #![trigger entries_map(entries).dom().contains(q)]
                    q != k implies entries_map(new).dom().contains(q) == entries_map(
                    entries,
                ).dom().contains(q) && (entries_map(new).dom().contains(q) ==> entries_map(new)[q]
                    == entries_map(entries)[q]) by {
                    if exists|i: int| binds(entries, i, q) {
                        let i = choose|i: int| binds(entries, i, q);
                        let j = if i < at { i } else { i + 1 };
                        assert(new[j] == entries[i]);
                        entry_is_mapped(new, j);
                        entry_is_mapped(entries, i);
                    }
                    if exists|i: int| binds(new, i, q) {
                        let i = choose|i: int| binds(new, i, q);
                        let j = if i < at { i } else { i - 1 };
                        assert(new[i] == entries[j]);
                        entry_is_mapped(entries, j);
                    }
                }
                assert(new[at as int] == entry);
                entry_is_mapped(new, at as int);
                assert(entries_map(new) =~= entries_map(entries).insert(k, value));
            }
            self.entries.insert(at, entry);
        }
    }

    /// Unbinds `key`, handing back what it was bound to.
    pub fn remove(&mut self, key: &[u8]) -> (v: Option<V>)
        requires
            old(self).wf(),
        ensures
            final(self).wf(),
            final(self)@ == old(self)@.remove(key@),
            match v {
                Some(v) => old(self)@.contains_key(key@) && v == old(self)@[key@],
                None => !old(self)@.contains_key(key@),
            },
    {
        let ghost entries = self.entries@;
        let ghost keys = keys_of(entries);
        match self.find(key) {
            None => {
                assert(old(self)@ =~= old(self)@.remove(key@));
                None
            },
            Some(at) => {
                let ghost new = entries.remove(at as int);
                proof {
                    let rest = keys_of(new);
                    assert(rest =~= keys.remove(at as int));
                    assert forall|i: int, j: int| 0 <= i < j < rest.len() implies before(
                        #[trigger] rest[i],
                        #[trigger] rest[j],
                    ) by {
                        let a = if i < at { i } else { i + 1 };
                        let b = if j < at { j } else { j + 1 };
                        assert(before(keys[a], keys[b]));
                    }
                    assert forall|q: Seq<u8>|
                    #![trigger entries_map(new).dom().contains(q)]
                    #![trigger entries_map(entries).dom().contains(q)]
                    q != key@ implies entries_map(new).dom().contains(q) == entries_map(
                    entries,
                ).dom().contains(q) && (entries_map(new).dom().contains(q) ==> entries_map(new)[q]
                    == entries_map(entries)[q]) by {
                        if exists|i: int| binds(entries, i, q) {
                            let i = choose|i: int| binds(entries, i, q);
                            let j = if i < at { i } else { i - 1 };
                            assert(new[j] == entries[i]);
                            entry_is_mapped(new, j);
                            entry_is_mapped(entries, i);
                        }
                        if exists|i: int| binds(new, i, q) {
                            let i = choose|i: int| binds(new, i, q);
                            let j = if i < at { i } else { i + 1 };
                            assert(new[i] == entries[j]);
                            entry_is_mapped(entries, j);
                        }
                    }
                    assert(!entries_map(new).contains_key(key@)) by {
                        if exists|i: int| binds(new, i, key@) {
                            let i = choose|i: int| binds(new, i, key@);
                            let j = if i < at { i } else { i + 1 };
                            assert(new[i] == entries[j]);
                            octets::before_irreflexive(key@);
                            if j < at {
                                assert(before(keys[j], keys[at as int]));
                            } else {
                                assert(before(keys[at as int], keys[j]));
                            }
                        }
                    }
                    assert(entries_map(new) =~= entries_map(entries).remove(key@));
                }
                let entry = self.entries.remove(at);
                Some(entry.value)
            },
        }
    }
}

/// One binding of a [`NameMap`].
pub struct Named<V> {
    /// The name.
    pub name: String,
    /// What the name is bound to.
    pub value: V,
}

/// The `i`-th entry binds the name `k`.
pub open spec fn names<V>(entries: Seq<Named<V>>, i: int, k: Seq<char>) -> bool {
    0 <= i < entries.len() && entries[i].name@ == k
}

/// A position at which the name `k` is bound.
pub open spec fn name_index<V>(entries: Seq<Named<V>>, k: Seq<char>) -> int {
    choose|i: int| names(entries, i, k)
}

/// The map that a run of named entries stands for.
pub open spec fn names_map<V>(entries: Seq<Named<V>>) -> Map<Seq<char>, V> {
    Map::new(
        |k: Seq<char>| exists|i: int| names(entries, i, k),
        |k: Seq<char>| entries[name_index(entries, k)].value,
    )
}

/// No name is bound at two positions.
pub open spec fn names_distinct<V>(entries: Seq<Named<V>>) -> bool {
    forall|i: int, j: int|
        0 <= i < j < entries.len() ==> (#[trigger] entries[i]).name@ != (#[trigger] entries[j]).name@
}

/// A map from text. The order in which it is walked is not part of it.
pub struct NameMap<V> {
    entries: Vec<Named<V>>,
}

impl<V> NameMap<V> {
    /// No name is bound twice.
    pub closed spec fn wf(self) -> bool {
        names_distinct(self.entries@)
    }

    /// The bindings.
    pub closed spec fn view(self) -> Map<Seq<char>, V> {
        names_map(self.entries@)
    }

    /// No bindings.
    pub fn new() -> (m: Self)
        ensures
            m.wf(),
            m@ == Map::<Seq<char>, V>::empty(),
    {
        let m = NameMap { entries: Vec::new() };
        assert(m@ =~= Map::<Seq<char>, V>::empty());
        m
    }

    fn find(&self, name: &String) -> (at: Option<usize>)
        requires
            self.wf(),
        ensures
            match at {
                Some(i) => i < self.entries@.len() && self.entries@[i as int].name@ == name@
                    && self@.contains_key(name@) && self@[name@] == self.entries@[i as int].value,
                None => !self@.contains_key(name@),
            },
    {
        let mut i: usize = 0;
        while i < self.entries.len()
            invariant
                i <= self.entries@.len(),
                self.wf(),
                forall|j: int| 0 <= j < i ==> (#[trigger] self.entries@[j]).name@ != name@,
            decreases self.entries@.len() - i,
        {
            if self.entries[i].name == *name {
                assert(names(self.entries@, i as int, name@));
                return Some(i);
            }
            i += 1;
        }
        None
    }

    /// The names, in the order they are walked.
    pub closed spec fn listing(self) -> Seq<Seq<char>> {
        self.entries@.map_values(|e: Named<V>| e.name@)
    }

    /// How many names are bound; the listing holds exactly those.
    pub fn len(&self) -> (n: usize)
        requires
            self.wf(),
        ensures
            n == self.listing().len(),
            forall|k: Seq<char>| self@.contains_key(k) <==> self.listing().contains(k),
    {
        proof {
            let list = self.listing();
            assert forall|k: Seq<char>| self@.contains_key(k) implies list.contains(k) by {
                assert(list[name_index(self.entries@, k)] == k);
            }
            assert forall|k: Seq<char>| list.contains(k) implies self@.contains_key(k) by {
                let i = choose|i: int| 0 <= i < list.len() && list[i] == k;
                assert(names(self.entries@, i, k));
            }
        }
        self.entries.len()
    }

    /// What the `i`-th name is bound to.
    pub fn value_at(&self, i: usize) -> (v: &V)
        requires
            self.wf(),
            i < self.listing().len(),
        ensures
            self@.contains_key(self.listing()[i as int]),
            *v == self@[self.listing()[i as int]],
    {
        proof {
            assert(names(self.entries@, i as int, self.entries@[i as int].name@));
        }
        &self.entries[i].value
    }

    /// What `name` is bound to.
    pub fn get(&self, name: &String) -> (v: Option<&V>)
        requires
            self.wf(),
        ensures
            match v {
                Some(v) => self@.contains_key(name@) && *v == self@[name@],
                None => !self@.contains_key(name@),
            },
    {
        match self.find(name) {
            Some(i) => Some(&self.entries[i].value),
            None => None,
        }
    }

    /// Unbinds `name`, handing back what it was bound to.
    pub fn remove(&mut self, name: &String) -> (v: Option<V>)
        requires
            old(self).wf(),
        ensures
            final(self).wf(),
            final(self)@ == old(self)@.remove(name@),
            match v {
                Some(v) => old(self)@.contains_key(name@) && v == old(self)@[name@],
                None => !old(self)@.contains_key(name@),
            },
    {
        let ghost entries = self.entries@;
        let ghost k = name@;
        match self.find(name) {
            None => {
                assert(old(self)@ =~= old(self)@.remove(k));
                None
            },
            Some(at) => {
                let ghost new = entries.remove(at as int);
                proof {
                    assert forall|i: int, j: int| 0 <= i < j < new.len() implies (
                    #[trigger] new[i]).name@ != (#[trigger] new[j]).name@ by {
                        let a = if i < at { i } else { i + 1 };
                        let b = if j < at { j } else { j + 1 };
                        assert(new[i] == entries[a] && new[j] == entries[b]);
                    }
                    assert forall|q: Seq<char>|
                        #![trigger names_map(new).dom().contains(q)]
                        #![trigger names_map(entries).dom().contains(q)]
                        q != k implies names_map(new).dom().contains(q) == names_map(
                        entries,
                    ).dom().contains(q) && (names_map(new).dom().contains(q) ==> names_map(new)[q]
                        == names_map(entries)[q]) by {
                        if exists|i: int| names(entries, i, q) {
                            let i = name_index(entries, q);
                            let j = if i < at { i } else { i - 1 };
                            assert(new[j] == entries[i]);
                            assert(names(new, j, q));
                            let m = name_index(new, q);
                            let b = if m < at { m } else { m + 1 };
                            assert(new[m] == entries[b]);
                        }
                        if exists|i: int| names(new, i, q) {
                            let i = name_index(new, q);
                            let j = if i < at { i } else { i + 1 };
                            assert(new[i] == entries[j]);
                            assert(names(entries, j, q));
                        }
                    }
                    assert(!names_map(new).dom().contains(k)) by {
                        if exists|i: int| names(new, i, k) {
                            let i = name_index(new, k);
                            let j = if i < at { i } else { i + 1 };
                            assert(new[i] == entries[j]);
                        }
                    }
                    assert(names_map(new) =~= names_map(entries).remove(k));
                }
                let entry = self.entries.remove(at);
                Some(entry.value)
            },
        }
    }

    /// Binds `name` to `value`, in place of what it was bound to.
    pub fn insert(&mut self, name: String, value: V)
        requires
            old(self).wf(),
        ensures
            final(self).wf(),
            final(self)@ == old(self)@.insert(name@, value),
    {
        let _ = self.remove(&name);
        let ghost entries = self.entries@;
        let ghost k = name@;
        let entry = Named { name, value };
        let ghost new = entries.push(entry);
        proof {
            assert forall|i: int| 0 <= i < entries.len() implies (#[trigger] entries[i]).name@
                != k by {
                if entries[i].name@ == k {
                    assert(names(entries, i, k));
                    assert(names_map(entries).dom().contains(k));
                }
            }
            assert forall|q: Seq<char>|
                #![trigger names_map(new).dom().contains(q)]
                #![trigger names_map(entries).dom().contains(q)]
                q != k implies names_map(new).dom().contains(q) == names_map(
                entries,
            ).dom().contains(q) && (names_map(new).dom().contains(q) ==> names_map(new)[q]
                == names_map(entries)[q]) by {
                if exists|i: int| names(entries, i, q) {
                    let i = name_index(entries, q);
                    assert(new[i] == entries[i]);
                    assert(names(new, i, q));
                    let m = name_index(new, q);
                    assert(new[m] == entries[m]);
                }
                if exists|i: int| names(new, i, q) {
                    let i = name_index(new, q);
                    assert(new[i] == entries[i]);
                    assert(names(entries, i, q));
                }
            }
            assert(names(new, entries.len() as int, k));
            let m = name_index(new, k);
            assert(names(new, m, k));
            if m < entries.len() {
                assert(new[m] == entries[m]);
            }
            assert(names_map(new) =~= names_map(entries).insert(k, value));
            assert(old(self)@.remove(k).insert(k, value) =~= old(self)@.insert(k, value));
        }
        self.entries.push(entry);
    }
}

} // verus!
