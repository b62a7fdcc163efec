//! Tables from names to values: the globals, the fields of an instance and
//! the methods of a class.
use vstd::prelude::*;
use crate::text::{bytes_eq, copy_bytes};
use crate::values::values::{Value, ValueView};

verus! {

/// The last position of `keys` that holds `key`.
pub open spec fn key_index(keys: Seq<Seq<u8>>, key: Seq<u8>) -> Option<int>
    decreases keys.len(),
{
    if keys.len() == 0 {
        None
    } else if keys.last() == key {
        Some(keys.len() - 1)
    } else {
        key_index(keys.drop_last(), key)
    }
}

/// A mapping from names to values.
#[derive(Debug)]
pub struct Table {
    pub names: Vec<Vec<u8>>,
    pub values: Vec<Value>,
}

impl View for Table {
    type V = Map<Seq<u8>, ValueView>;

    /// The mapping: every name that was added, with the value last given to it.
    open spec fn view(&self) -> Map<Seq<u8>, ValueView> {
        Map::new(
            |k: Seq<u8>| key_index(self.names_view(), k) is Some,
            |k: Seq<u8>| self.values.deep_view()[key_index(self.names_view(), k)->Some_0],
        )
    }
}

/// Proves what `key_index` finds: a position that holds the key, after which
/// no position holds it; and nothing only where no position holds the key.
pub proof fn key_index_finds(keys: Seq<Seq<u8>>, key: Seq<u8>)
    ensures
        match key_index(keys, key) {
            Some(i) => 0 <= i < keys.len() && keys[i] == key && forall|j: int|
                i < j < keys.len() ==> keys[j] != key,
            None => forall|j: int| 0 <= j < keys.len() ==> keys[j] != key,
        },
    decreases keys.len(),
{
    if keys.len() > 0 && keys.last() != key {
        key_index_finds(keys.drop_last(), key);
        match key_index(keys, key) {
            Some(i) => {
                assert(keys.drop_last()[i] == keys[i]);
                assert forall|j: int| i < j < keys.len() implies keys[j] != key by {
                    if j < keys.len() - 1 {
                        assert(keys.drop_last()[j] == keys[j]);
                    }
                }
            },
            None => {
                assert forall|j: int| 0 <= j < keys.len() implies keys[j] != key by {
                    if j < keys.len() - 1 {
                        assert(keys.drop_last()[j] == keys[j]);
                    }
                }
            },
        }
    }
}

/// Proves that adding a name at the end is found for that name and changes
/// nothing for the others.
pub proof fn key_index_push(keys: Seq<Seq<u8>>, added: Seq<u8>, key: Seq<u8>)
    ensures
        key_index(keys.push(added), key) == if key == added {
            Some(keys.len() as int)
        } else {
            key_index(keys, key)
        },
{
    assert(keys.push(added).drop_last() =~= keys);
}

impl Table {
    /// The names, in the order in which they were added.
    pub open spec fn names_view(&self) -> Seq<Seq<u8>> {
        Seq::new(self.names@.len(), |i: int| self.names@[i]@)
    }

    /// One value for each name.
    pub open spec fn wf(&self) -> bool {
        self.names.len() == self.values.len()
    }

    /// An empty table.
    pub fn new() -> (r: Self)
        ensures
            r.wf(),
            r@ == Map::<Seq<u8>, ValueView>::empty(),
    {
        let r = Table { names: Vec::new(), values: Vec::new() };
        assert(r.names.deep_view() =~= Seq::<Seq<u8>>::empty());
        assert(r@ =~= Map::<Seq<u8>, ValueView>::empty());
        r
    }

    /// Where `identifier` stands in the table.
    fn find(&self, identifier: &[u8]) -> (r: Option<usize>)
        requires
            self.wf(),
        ensures
            match r {
                Some(i) => key_index(self.names_view(), identifier@) == Some(i as int) && i
                    < self.names.len(),
                None => key_index(self.names_view(), identifier@) is None,
            },
    {
        let ghost keys = self.names_view();
        let mut i = self.names.len();
        assert(keys.subrange(0, i as int) =~= keys);
        while i > 0
            invariant
                i <= self.names.len(),
                keys == self.names_view(),
                key_index(keys, identifier@) == key_index(keys.subrange(0, i as int), identifier@),
            decreases i,
        {
            i -= 1;
            assert(keys.subrange(0, i + 1).drop_last() =~= keys.subrange(0, i as int));
            assert(keys.subrange(0, i + 1).last() == self.names[i as int]@);
            if bytes_eq(self.names[i].as_slice(), identifier) {
                return Some(i);
            }
        }
        assert(keys.subrange(0, 0) =~= Seq::<Seq<u8>>::empty());
        None
    }

    /// The number of names in the table.
    pub fn keys(&self) -> (r: usize)
        ensures
            r == self.names.len(),
    {
        self.names.len()
    }

    /// Whether the table has a value for `identifier`.
    pub fn has(&self, identifier: &[u8]) -> (r: bool)
        requires
            self.wf(),
        ensures
            r == self@.contains_key(identifier@),
    {
        self.find(identifier).is_some()
    }

    /// Gives `identifier` the value `value`, whether or not it had one.
    pub fn add(&mut self, identifier: Vec<u8>, value: Value)
        requires
            old(self).wf(),
        ensures
            final(self).wf(),
            final(self)@ == old(self)@.insert(identifier@, value@),
    {
        let ghost keys = self.names_view();
        let ghost vals = self.values.deep_view();
        match self.find(identifier.as_slice()) {
            Some(i) => {
                self.values[i] = value;
                assert(self.values.deep_view() =~= vals.update(i as int, value@));
                assert(self.names_view() =~= keys);
                assert forall|k: Seq<u8>| key_index(keys, k) is Some implies 0 <= key_index(
                    keys,
                    k,
                )->Some_0 < keys.len() && keys[key_index(keys, k)->Some_0] == k by {
                    key_index_finds(keys, k);
                }
                assert(self@ =~= old(self)@.insert(identifier@, value@));
            },
            None => {
                self.names.push(identifier);
                self.values.push(value);
                assert(self.names_view() =~= keys.push(identifier@));
                assert(self.values.deep_view() =~= vals.push(value@));
                assert forall|k: Seq<u8>|
                    key_index(keys.push(identifier@), k) == if k == identifier@ {
                        Some(keys.len() as int)
                    } else {
                        key_index(keys, k)
                    } by {
                    key_index_push(keys, identifier@, k);
                }
                assert forall|k: Seq<u8>| key_index(keys, k) is Some implies 0 <= key_index(
                    keys,
                    k,
                )->Some_0 < keys.len() by {
                    key_index_finds(keys, k);
                }
                assert(self@ =~= old(self)@.insert(identifier@, value@));
            },
        }
    }

    /// A copy of the value of `identifier`, if it has one.
    pub fn resolve(&self, identifier: &[u8]) -> (r: Option<Value>)
        requires
            self.wf(),
        ensures
            r is Some <==> self@.contains_key(identifier@),
            r is Some ==> r->Some_0@ == self@[identifier@],
    {
        match self.find(identifier) {
            Some(i) => Some(self.values[i].copy()),
            None => None,
        }
    }

    /// Gives `identifier` the value `value` if it has a value already, and
    /// returns the value it had. A name that the table does not hold is not
    /// added.
    pub fn override_(&mut self, identifier: &[u8], value: Value) -> (r: Option<Value>)
        requires
            old(self).wf(),
        ensures
            final(self).wf(),
            r is Some <==> old(self)@.contains_key(identifier@),
            r is Some ==> r->Some_0@ == old(self)@[identifier@] && final(self)@ == old(
                self,
            )@.insert(identifier@, value@),
            r is None ==> final(self)@ == old(self)@,
    {
        let ghost vals = self.values.deep_view();
        match self.find(identifier) {
            Some(i) => {
                let before = self.values[i].copy();
                self.values[i] = value;
                assert(self.values.deep_view() =~= vals.update(i as int, value@));
                assert(self.names_view() =~= old(self).names_view());
                assert forall|k: Seq<u8>|
                    key_index(old(self).names_view(), k) is Some implies 0 <= key_index(
                    old(self).names_view(),
                    k,
                )->Some_0 < old(self).names_view().len() && old(self).names_view()[key_index(
                    old(self).names_view(),
                    k,
                )->Some_0] == k by {
                    key_index_finds(old(self).names_view(), k);
                }
                assert(self@ =~= old(self)@.insert(identifier@, value@));
                Some(before)
            },
            None => None,
        }
    }

    /// The name at position `i`, in the order in which names were added.
    pub fn name_at(&self, i: usize) -> (r: &Vec<u8>)
        requires
            i < self.names.len(),
        ensures
            r@ == self.names_view()[i as int],
    {
        &self.names[i]
    }
    /// A copy of the table.
    pub fn copy(&self) -> (r: Table)
        requires
            self.wf(),
        ensures
            r.wf(),
            r@ == self@,
    {
        let mut names: Vec<Vec<u8>> = Vec::new();
        let mut values: Vec<Value> = Vec::new();
        let mut i: usize = 0;
        while i < self.names.len()
            invariant
                i <= self.names.len(),
                self.wf(),
                names.len() == i,
                values.len() == i,
                forall|j: int| 0 <= j < i ==> names@[j]@ == self.names@[j]@,
                forall|j: int| 0 <= j < i ==> values@[j]@ == self.values@[j]@,
            decreases self.names.len() - i,
        {
            names.push(copy_bytes(self.names[i].as_slice()));
            values.push(self.values[i].copy());
            i += 1;
        }
        let r = Table { names, values };
        assert(r.names_view() =~= self.names_view());
        assert(r.values.deep_view() =~= self.values.deep_view());
        r
    }
}

} // verus!
