//! An in-memory key-value store whose contents the caller persists.
use vstd::prelude::*;
use vstd::string::*;

verus! {

/// The map that a list of entries describes: a later entry for a key
/// overrides an earlier one.
pub open spec fn map_of(s: Seq<(String, String)>) -> Map<Seq<char>, Seq<char>>
    decreases s.len(),
{
    if s.len() == 0 {
        Map::empty()
    } else {
        map_of(s.drop_last()).insert(s.last().0@, s.last().1@)
    }
}

/// The entries of `s` whose key is not `key`, in order.
pub open spec fn entries_without(s: Seq<(String, String)>, key: Seq<char>) -> Seq<(String, String)>
    decreases s.len(),
{
    if s.len() == 0 {
        s
    } else if s.last().0@ == key {
        entries_without(s.drop_last(), key)
    } else {
        entries_without(s.drop_last(), key).push(s.last())
    }
}

proof fn lemma_map_of_without(s: Seq<(String, String)>, key: Seq<char>)
    ensures
        map_of(entries_without(s, key)) == map_of(s).remove(key),
    decreases s.len(),
{
    if s.len() > 0 {
        let init = s.drop_last();
        lemma_map_of_without(init, key);
        if s.last().0@ != key {
            let w = entries_without(init, key);
            assert(w.push(s.last()).drop_last() =~= w);
        }
        assert(map_of(entries_without(s, key)) =~= map_of(s).remove(key));
    } else {
        assert(map_of(s).remove(key) =~= map_of(s));
    }
}

/// Entries at `i` or later with key `key` are absent, so the map of the whole
/// list agrees on `key` with the map of its first `i` entries.
proof fn lemma_map_of_prefix(s: Seq<(String, String)>, key: Seq<char>, i: int)
    requires
        0 <= i <= s.len(),
        forall|j: int| i <= j < s.len() ==> #[trigger] s[j].0@ != key,
    ensures
        map_of(s).contains_key(key) == map_of(s.subrange(0, i)).contains_key(key),
        map_of(s).contains_key(key) ==> map_of(s)[key] == map_of(s.subrange(0, i))[key],
    decreases s.len() - i,
{
    if i < s.len() {
        let t = s.drop_last();
        assert(s.subrange(0, i) =~= t.subrange(0, i));
        lemma_map_of_prefix(t, key, i);
    } else {
        assert(s.subrange(0, i) =~= s);
    }
}

/// A key-value store of strings.
#[derive(Debug)]
pub struct SecureStorage {
    store: Vec<(String, String)>,
}

impl View for SecureStorage {
    type V = Map<Seq<char>, Seq<char>>;

    closed spec fn view(&self) -> Map<Seq<char>, Seq<char>> {
        map_of(self.store@)
    }
}

impl SecureStorage {
    /// An empty store.
    pub fn new() -> (r: SecureStorage)
        ensures
            r@ == Map::<Seq<char>, Seq<char>>::empty(),
    {
        SecureStorage { store: Vec::new() }
    }

    /// A store holding `entries`; a later entry for a key overrides an
    /// earlier one.
    pub fn from_entries(entries: Vec<(String, String)>) -> (r: SecureStorage)
        ensures
            r@ == map_of(entries@),
    {
        SecureStorage { store: entries }
    }

    /// The entries of the store, for writing it out.
    pub fn entries(&self) -> (r: &Vec<(String, String)>)
        ensures
            map_of(r@) == self@,
    {
        &self.store
    }

    /// Drops every entry for `key`.
    fn drop_key(&mut self, key: &str)
        ensures
            final(self).store@ == entries_without(old(self).store@, key@),
    {
        let mut kept: Vec<(String, String)> = Vec::new();
        let mut i: usize = 0;
        while i < self.store.len()
            invariant
                i <= self.store@.len(),
                kept@ == entries_without(self.store@.subrange(0, i as int), key@),
            decreases self.store.len() - i,
        {
            assert(self.store@.subrange(0, i + 1).drop_last() =~= self.store@.subrange(0, i as int));
            if !str_equal(self.store[i].0.as_str(), key) {
                kept.push((self.store[i].0.clone(), self.store[i].1.clone()));
            }
            i = i + 1;
        }
        assert(self.store@.subrange(0, self.store@.len() as int) =~= self.store@);
        self.store = kept;
    }

    /// Stores `value` under `key`, replacing any value it had.
    pub fn set(&mut self, key: String, value: String)
        ensures
            final(self)@ == old(self)@.insert(key@, value@),
    {
        proof {
            lemma_map_of_without(self.store@, key@);
        }
        self.drop_key(key.as_str());
        let ghost mid = self.store@;
        self.store.push((key, value));
        assert(self.store@.drop_last() == mid);
        assert(map_of(self.store@) =~= map_of(old(self).store@).remove(key@).insert(key@, value@));
    }

    /// The value stored under `key`, if any.
    pub fn get(&self, key: &str) -> (r: Option<String>)
        ensures
            match r {
                Some(v) => self@.contains_key(key@) && self@[key@] == v@,
                None => !self@.contains_key(key@),
            },
    {
        let mut i: usize = self.store.len();
        while i > 0
            invariant
                i <= self.store@.len(),
                forall|j: int| i <= j < self.store@.len() ==> #[trigger] self.store@[j].0@ != key@,
            decreases i,
        {
            if str_equal(self.store[i - 1].0.as_str(), key) {
                proof {
                    lemma_map_of_prefix(self.store@, key@, i as int);
                    assert(self.store@.subrange(0, i as int).drop_last() =~= self.store@.subrange(0, i - 1));
                }
                return Some(self.store[i - 1].1.clone());
            }
            i = i - 1;
        }
        proof {
            lemma_map_of_prefix(self.store@, key@, 0);
        }
        None
    }

    /// Removes any value stored under `key`.
    pub fn remove(&mut self, key: &str)
        ensures
            final(self)@ == old(self)@.remove(key@),
    {
        proof {
            lemma_map_of_without(self.store@, key@);
        }
        self.drop_key(key);
    }
}

/// Whether two strings hold the same characters.
fn str_equal(a: &str, b: &str) -> (r: bool)
    ensures
        r == (a@ == b@),
{
    let x = String::from_str(a);
    let y = String::from_str(b);
    x == y
}

} // verus!
