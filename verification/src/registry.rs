//! A map from string keys to values of any type, over a concurrent hash map that
//! finds the position of each value.

use dashmap::DashMap;
use vstd::prelude::*;

verus! {

/// `dashmap::DashMap`: a hash map in shards.
#[verifier::external_type_specification]
#[verifier::external_body]
#[verifier::reject_recursive_types(K)]
#[verifier::reject_recursive_types(V)]
#[verifier::reject_recursive_types(S)]
pub struct ExDashMap<K, V, S>(dashmap::DashMap<K, V, S>);

/// The entries of a hash map of positions, each under the text of its key.
pub uninterp spec fn positions(m: DashMap<String, usize>) -> Map<Seq<char>, usize>;

/// `DashMap::new`: a map without entries.
#[verifier::external_body]
fn index_new() -> (m: DashMap<String, usize>)
    ensures
        (positions(m) == Map::<Seq<char>, usize>::empty()),
{
    DashMap::new()
}

/// `DashMap::get`: the value under the key, or nothing where the key has no entry.
/// No reference into the map outlives the call, so it never waits for a lock that
/// its own thread holds.
#[verifier::external_body]
fn index_get(m: &DashMap<String, usize>, key: &str) -> (r: Option<usize>)
    ensures
        r == (if positions(*m).contains_key(key@) {
            Some(positions(*m)[key@])
        } else {
            None
        }),
{
    m.get(key).map(|entry| *entry.value())
}

/// `DashMap::insert`: puts the value under the key, in place of the one before it
/// where there was one, and hands that one back. The map is borrowed exclusively:
/// no other thread changes it meanwhile.
#[verifier::external_body]
fn index_insert(m: &mut DashMap<String, usize>, key: String, value: usize) -> (r: Option<usize>)
    ensures
        positions(*final(m)) == positions(*old(m)).insert(key@, value),
        r == (if positions(*old(m)).contains_key(key@) {
            Some(positions(*old(m))[key@])
        } else {
            None
        }),
{
    m.insert(key, value)
}

/// Values of type `V`, each under a string key of its own.
#[verifier::reject_recursive_types(V)]
pub struct Registry<V> {
    index: DashMap<String, usize>,
    items: Vec<V>,
}

impl<V> View for Registry<V> {
    type V = Map<Seq<char>, V>;

    closed spec fn view(&self) -> Map<Seq<char>, V> {
        Map::new(
            |k: Seq<char>| positions(self.index).contains_key(k),
            |k: Seq<char>| self.items@[positions(self.index)[k] as int],
        )
    }
}

impl<V> Registry<V> {
    /// Every entry points at a value, and no two entries share one.
    pub closed spec fn well_formed(&self) -> bool {
        &&& forall|k: Seq<char>| #[trigger]
            positions(self.index).contains_key(k) ==> positions(self.index)[k] < self.items@.len()
        &&& forall|j: Seq<char>, k: Seq<char>|
            #![trigger positions(self.index)[j], positions(self.index)[k]]
            positions(self.index).contains_key(j) && positions(self.index).contains_key(k) && j != k
                ==> positions(self.index)[j] != positions(self.index)[k]
    }

    /// A registry without entries.
    pub fn new() -> (r: Self)
        ensures
            r.well_formed(),
            (r@ == Map::<Seq<char>, V>::empty()),
    {
        let r = Registry { index: index_new(), items: Vec::new() };
        assert(r@ =~= Map::<Seq<char>, V>::empty());
        r
    }

    /// The value under the key.
    pub fn get(&self, key: &str) -> (r: Option<&V>)
        requires
            self.well_formed(),
        ensures
            r == (if self@.contains_key(key@) {
                Some(&self@[key@])
            } else {
                None
            }),
    {
        match index_get(&self.index, key) {
            Some(i) => Some(&self.items[i]),
            None => None,
        }
    }

    /// Puts a value under a key, and hands back the value that it displaces.
    pub fn insert(&mut self, key: String, value: V) -> (r: Option<V>)
        requires
            old(self).well_formed(),
        ensures
            final(self).well_formed(),
            final(self)@ == old(self)@.insert(key@, value),
            r == (if old(self)@.contains_key(key@) {
                Some(old(self)@[key@])
            } else {
                None
            }),
    {
        match index_get(&self.index, key.as_str()) {
            Some(i) => {
                self.items.push(value);
                let displaced = self.items.swap_remove(i);
                assert(self@ =~= old(self)@.insert(key@, value));
                Some(displaced)
            },
            None => {
                let i: usize = self.items.len();
                self.items.push(value);
                let _ = index_insert(&mut self.index, key, i);
                assert(self@ =~= old(self)@.insert(key@, value));
                None
            },
        }
    }
}

} // verus!
