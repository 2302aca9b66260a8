//! A store in memory.
//!
//! [`MemoryStore`] answers every request exactly as the model of the store
//! says. It stands in for the real store wherever no network is at hand, and
//! shows that the model can be met.

use crate::cache::Request;
use crate::store::{answer_to, elapse, outlives, state_after, Reply, Stored};
use vstd::prelude::*;
use vstd::string::*;

verus! {

/// One key of a [`MemoryStore`] with what is stored under it.
struct Entry {
    key: String,
    value: String,
    ttl: Option<u64>,
}

impl Entry {
    spec fn stored(&self) -> Stored {
        Stored {
            value: self.value@,
            ttl: match self.ttl {
                None => None,
                Some(left) => Some(left as nat),
            },
        }
    }
}

/// Whether `key` stands at position `i` of `entries`.
spec fn holds_at(entries: Seq<Entry>, key: Seq<char>, i: int) -> bool {
    0 <= i < entries.len() && entries[i].key@ == key
}

/// No key stands at two positions.
spec fn distinct_keys(entries: Seq<Entry>) -> bool {
    forall|i: int, j: int|
        0 <= i < j < entries.len() ==> (#[trigger] entries[i]).key@ != (#[trigger] entries[j]).key@
}

/// The map that `entries` stand for.
spec fn as_map(entries: Seq<Entry>) -> Map<Seq<char>, Stored> {
    Map::new(
        |key: Seq<char>| exists|i: int| holds_at(entries, key, i),
        |key: Seq<char>| entries[choose|i: int| holds_at(entries, key, i)].stored(),
    )
}

/// With distinct keys, the entry at a position is what the map holds under
/// that position's key.
proof fn lemma_as_map_at(entries: Seq<Entry>, i: int)
    requires
        distinct_keys(entries),
        0 <= i < entries.len(),
    ensures
        as_map(entries).contains_key(entries[i].key@),
        as_map(entries)[entries[i].key@] == entries[i].stored(),
{
    let key = entries[i].key@;
    assert(holds_at(entries, key, i));
    let chosen = choose|j: int| holds_at(entries, key, j);
    assert(holds_at(entries, key, chosen));
    if chosen < i {
        assert(entries[chosen].key@ != entries[i].key@);
    } else if i < chosen {
        assert(entries[i].key@ != entries[chosen].key@);
    }
}

/// Putting an entry where its key already stands replaces what the map
/// holds under that key and nothing else.
proof fn lemma_replace(entries: Seq<Entry>, i: int, fresh: Entry)
    requires
        distinct_keys(entries),
        holds_at(entries, fresh.key@, i),
    ensures
        distinct_keys(entries.update(i, fresh)),
        as_map(entries.update(i, fresh)) == as_map(entries).insert(fresh.key@, fresh.stored()),
{
    let after = entries.update(i, fresh);
    let key = fresh.key@;
    assert forall|a: int, b: int| 0 <= a < b < after.len() implies (#[trigger] after[a]).key@ != (
    #[trigger] after[b]).key@ by {
        assert(entries[a].key@ != entries[b].key@);
    }
    let want = as_map(entries).insert(key, fresh.stored());
    assert forall|k: Seq<char>| as_map(after).contains_key(k) <==> want.contains_key(k) by {
        if as_map(after).contains_key(k) {
            let j = choose|j: int| holds_at(after, k, j);
            assert(holds_at(entries, k, j));
        }
        if want.contains_key(k) {
            if k == key {
                assert(holds_at(after, k, i));
            } else {
                let j = choose|j: int| holds_at(entries, k, j);
                assert(holds_at(after, k, j));
            }
        }
    }
    assert forall|k: Seq<char>| as_map(after).contains_key(k) implies as_map(after)[k]
        == want[k] by {
        let j = choose|j: int| holds_at(after, k, j);
        lemma_as_map_at(after, j);
        if k != key {
            assert(holds_at(entries, k, j));
            lemma_as_map_at(entries, j);
        } else {
            lemma_as_map_at(after, i);
        }
    }
    assert(as_map(after) =~= want);
}

/// Appending an entry whose key stands nowhere adds it to the map.
proof fn lemma_append(entries: Seq<Entry>, fresh: Entry)
    requires
        distinct_keys(entries),
        forall|i: int| !holds_at(entries, fresh.key@, i),
    ensures
        distinct_keys(entries.push(fresh)),
        as_map(entries.push(fresh)) == as_map(entries).insert(fresh.key@, fresh.stored()),
{
    let after = entries.push(fresh);
    let key = fresh.key@;
    let last = entries.len() as int;
    assert forall|a: int, b: int| 0 <= a < b < after.len() implies (#[trigger] after[a]).key@ != (
    #[trigger] after[b]).key@ by {
        if b < last {
            assert(entries[a].key@ != entries[b].key@);
        } else {
            assert(!holds_at(entries, key, a));
        }
    }
    let want = as_map(entries).insert(key, fresh.stored());
    assert forall|k: Seq<char>| as_map(after).contains_key(k) <==> want.contains_key(k) by {
        if as_map(after).contains_key(k) {
            let j = choose|j: int| holds_at(after, k, j);
            if j < last {
                assert(holds_at(entries, k, j));
            }
        }
        if want.contains_key(k) {
            if k == key {
                assert(holds_at(after, k, last));
            } else {
                let j = choose|j: int| holds_at(entries, k, j);
                assert(holds_at(after, k, j));
            }
        }
    }
    assert forall|k: Seq<char>| as_map(after).contains_key(k) implies as_map(after)[k]
        == want[k] by {
        let j = choose|j: int| holds_at(after, k, j);
        lemma_as_map_at(after, j);
        if j < last {
            assert(holds_at(entries, k, j));
            assert(!holds_at(entries, key, j));
            lemma_as_map_at(entries, j);
        }
    }
    assert(as_map(after) =~= want);
}

/// Removing the entry at a position removes its key from the map and
/// nothing else.
proof fn lemma_remove(entries: Seq<Entry>, i: int)
    requires
        distinct_keys(entries),
        0 <= i < entries.len(),
    ensures
        distinct_keys(entries.remove(i)),
        as_map(entries.remove(i)) == as_map(entries).remove(entries[i].key@),
{
    let after = entries.remove(i);
    let key = entries[i].key@;
    assert forall|j: int| 0 <= j < after.len() implies #[trigger] after[j] == entries[if j < i {
        j
    } else {
        j + 1
    }] by {}
    assert forall|a: int, b: int| 0 <= a < b < after.len() implies (#[trigger] after[a]).key@ != (
    #[trigger] after[b]).key@ by {
        let a0 = if a < i {
            a
        } else {
            a + 1
        };
        let b0 = if b < i {
            b
        } else {
            b + 1
        };
        assert(entries[a0].key@ != entries[b0].key@);
    }
    let want = as_map(entries).remove(key);
    assert forall|k: Seq<char>| as_map(after).contains_key(k) <==> want.contains_key(k) by {
        if as_map(after).contains_key(k) {
            let j = choose|j: int| holds_at(after, k, j);
            let j0 = if j < i {
                j
            } else {
                j + 1
            };
            assert(holds_at(entries, k, j0));
            if j0 < i {
                assert(entries[j0].key@ != entries[i].key@);
            } else {
                assert(entries[i].key@ != entries[j0].key@);
            }
        }
        if want.contains_key(k) {
            let j0 = choose|j: int| holds_at(entries, k, j);
            let j = if j0 < i {
                j0
            } else {
                j0 - 1
            };
            assert(after[j] == entries[j0]);
            assert(holds_at(after, k, j));
        }
    }
    assert forall|k: Seq<char>| as_map(after).contains_key(k) implies as_map(after)[k]
        == want[k] by {
        let j = choose|j: int| holds_at(after, k, j);
        let j0 = if j < i {
            j
        } else {
            j + 1
        };
        lemma_as_map_at(after, j);
        assert(holds_at(entries, k, j0));
        lemma_as_map_at(entries, j0);
    }
    assert(as_map(after) =~= want);
}

/// An entry as it is once `seconds` seconds have passed. It is meant for
/// entries that outlive those seconds.
spec fn aged(entry: Entry, seconds: nat) -> Entry {
    Entry {
        key: entry.key,
        value: entry.value,
        ttl: match entry.ttl {
            None => None,
            Some(left) => Some((left - seconds) as u64),
        },
    }
}

/// The entries that outlive `seconds` seconds, aged by that much.
spec fn survivors(entries: Seq<Entry>, seconds: nat) -> Seq<Entry>
    decreases entries.len(),
{
    if entries.len() == 0 {
        Seq::empty()
    } else if outlives(entries.last().stored(), seconds) {
        survivors(entries.drop_last(), seconds).push(aged(entries.last(), seconds))
    } else {
        survivors(entries.drop_last(), seconds)
    }
}

/// The survivors stand for the map that the passing of time leaves.
proof fn lemma_survivors(entries: Seq<Entry>, seconds: nat)
    requires
        distinct_keys(entries),
    ensures
        distinct_keys(survivors(entries, seconds)),
        as_map(survivors(entries, seconds)) == elapse(as_map(entries), seconds),
    decreases entries.len(),
{
    if entries.len() == 0 {
        assert(as_map(survivors(entries, seconds)) =~= elapse(as_map(entries), seconds));
    } else {
        let init = entries.drop_last();
        let last = entries.last();
        assert forall|a: int, b: int| 0 <= a < b < init.len() implies (#[trigger] init[a]).key@ != (
        #[trigger] init[b]).key@ by {
            assert(entries[a].key@ != entries[b].key@);
        }
        assert forall|i: int| !holds_at(init, last.key@, i) by {
            if holds_at(init, last.key@, i) {
                assert(entries[i].key@ != entries[entries.len() - 1].key@);
            }
        }
        lemma_survivors(init, seconds);
        lemma_append(init, last);
        assert(init.push(last) =~= entries);
        let kept = survivors(init, seconds);
        if outlives(last.stored(), seconds) {
            let older = aged(last, seconds);
            assert forall|i: int| !holds_at(kept, older.key@, i) by {
                if holds_at(kept, older.key@, i) {
                    assert(as_map(kept).contains_key(last.key@));
                    assert(as_map(init).contains_key(last.key@));
                }
            }
            lemma_append(kept, older);
            assert(as_map(kept.push(older)) =~= elapse(as_map(entries), seconds));
        } else {
            assert(as_map(kept) =~= elapse(as_map(entries), seconds));
        }
    }
}

/// Entries with distinct keys stand for a map of as many keys.
proof fn lemma_as_map_len(entries: Seq<Entry>)
    requires
        distinct_keys(entries),
    ensures
        as_map(entries).dom().finite(),
        as_map(entries).dom().len() == entries.len(),
    decreases entries.len(),
{
    if entries.len() == 0 {
        assert(as_map(entries).dom() =~= Set::<Seq<char>>::empty());
    } else {
        let init = entries.drop_last();
        let last = entries.last();
        assert forall|a: int, b: int| 0 <= a < b < init.len() implies (#[trigger] init[a]).key@ != (
        #[trigger] init[b]).key@ by {
            assert(entries[a].key@ != entries[b].key@);
        }
        assert forall|i: int| !holds_at(init, last.key@, i) by {
            if holds_at(init, last.key@, i) {
                assert(entries[i].key@ != entries[entries.len() - 1].key@);
            }
        }
        lemma_as_map_len(init);
        lemma_append(init, last);
        assert(init.push(last) =~= entries);
        assert(as_map(entries).dom() =~= as_map(init).dom().insert(last.key@));
        assert(!as_map(init).dom().contains(last.key@));
    }
}

/// A store in memory that answers as the real store is expected to.
pub struct MemoryStore {
    entries: Vec<Entry>,
}

impl View for MemoryStore {
    type V = Map<Seq<char>, Stored>;

    closed spec fn view(&self) -> Map<Seq<char>, Stored> {
        as_map(self.entries@)
    }
}

impl MemoryStore {
    /// Whether the store is in order inside: no key is held twice. Every
    /// store made by [`MemoryStore::new`] is, and every operation keeps it so.
    pub closed spec fn wf(&self) -> bool {
        distinct_keys(self.entries@)
    }

    /// A store that holds nothing.
    pub fn new() -> (store: MemoryStore)
        ensures
            store.wf(),
            store@ == Map::<Seq<char>, Stored>::empty(),
    {
        let store = MemoryStore { entries: Vec::new() };
        assert(store@ =~= Map::<Seq<char>, Stored>::empty());
        store
    }

    /// Where `key` stands among the entries, if it does.
    fn position(&self, key: &String) -> (found: Option<usize>)
        ensures
            match found {
                Some(i) => holds_at(self.entries@, key@, i as int),
                None => forall|i: int| !holds_at(self.entries@, key@, i),
            },
            found is Some <==> self@.contains_key(key@),
    {
        let mut i: usize = 0;
        while i < self.entries.len()
            invariant
                i <= self.entries.len(),
                forall|j: int| 0 <= j < i ==> !holds_at(self.entries@, key@, j),
            decreases self.entries.len() - i,
        {
            if self.entries[i].key == *key {
                assert(holds_at(self.entries@, key@, i as int));
                return Some(i);
            }
            i += 1;
        }
        None
    }

    /// Carries out `request` and answers it, exactly as [`state_after`] and
    /// [`answer_to`] say.
    pub fn execute(&mut self, request: &Request) -> (reply: Reply)
        requires
            old(self).wf(),
        ensures
            final(self).wf(),
            final(self)@ == state_after(old(self)@, request@),
            reply@ == answer_to(old(self)@, request@),
    {
        match request {
            Request::Ping => Reply::Value(Some(String::from_str("PONG"))),
            Request::Get { key } => {
                match self.position(key) {
                    None => Reply::Value(None),
                    Some(i) => {
                        proof {
                            lemma_as_map_at(self.entries@, i as int);
                        }
                        Reply::Value(Some(self.entries[i].value.clone()))
                    },
                }
            },
            Request::Put { key, value } => {
                let fresh = Entry { key: key.clone(), value: value.clone(), ttl: None };
                self.put(fresh);
                Reply::Done
            },
            Request::Del { key } => {
                self.take(key);
                Reply::Done
            },
            Request::Expire { key, seconds } => {
                match self.position(key) {
                    None => {},
                    Some(i) => {
                        if *seconds <= 0 {
                            self.take(key);
                        } else {
                            proof {
                                lemma_as_map_at(self.entries@, i as int);
                            }
                            let fresh = Entry {
                                key: key.clone(),
                                value: self.entries[i].value.clone(),
                                ttl: Some(*seconds as u64),
                            };
                            self.put(fresh);
                        }
                    },
                }
                Reply::Done
            },
        }
    }

    /// Stores `fresh` in place of whatever stood under its key.
    fn put(&mut self, fresh: Entry)
        requires
            old(self).wf(),
        ensures
            final(self).wf(),
            final(self)@ == old(self)@.insert(fresh.key@, fresh.stored()),
    {
        match self.position(&fresh.key) {
            Some(i) => {
                proof {
                    lemma_replace(self.entries@, i as int, fresh);
                }
                self.entries[i] = fresh;
            },
            None => {
                proof {
                    lemma_append(self.entries@, fresh);
                }
                self.entries.push(fresh);
            },
        }
    }

    /// Takes `key` out, if it is there.
    fn take(&mut self, key: &String)
        requires
            old(self).wf(),
        ensures
            final(self).wf(),
            final(self)@ == old(self)@.remove(key@),
    {
        match self.position(key) {
            Some(i) => {
                proof {
                    lemma_remove(self.entries@, i as int);
                }
                let _ = self.entries.remove(i);
            },
            None => {
                assert(self@ =~= self@.remove(key@));
            },
        }
    }

    /// Lets `seconds` seconds pass: what has run out of time is gone, and
    /// what remains has that much less time left.
    pub fn advance(&mut self, seconds: u64)
        requires
            old(self).wf(),
        ensures
            final(self).wf(),
            final(self)@ == elapse(old(self)@, seconds as nat),
    {
        let mut kept: Vec<Entry> = Vec::new();
        let mut i: usize = 0;
        while i < self.entries.len()
            invariant
                i <= self.entries.len(),
                kept@ == survivors(self.entries@.take(i as int), seconds as nat),
            decreases self.entries.len() - i,
        {
            let entry = &self.entries[i];
            proof {
                let upto = self.entries@.take(i + 1);
                assert(upto.drop_last() =~= self.entries@.take(i as int));
                assert(upto.last() == *entry);
            }
            match entry.ttl {
                None => {
                    kept.push(Entry { key: entry.key.clone(), value: entry.value.clone(), ttl: None });
                },
                Some(left) => {
                    if left > seconds {
                        kept.push(
                            Entry {
                                key: entry.key.clone(),
                                value: entry.value.clone(),
                                ttl: Some(left - seconds),
                            },
                        );
                    }
                },
            }
            i += 1;
        }
        proof {
            assert(self.entries@.take(i as int) =~= self.entries@);
            lemma_survivors(self.entries@, seconds as nat);
        }
        self.entries = kept;
    }

    /// The number of keys in the store.
    pub fn len(&self) -> (len: usize)
        requires
            self.wf(),
        ensures
            self@.dom().finite(),
            len == self@.len(),
    {
        proof {
            lemma_as_map_len(self.entries@);
        }
        self.entries.len()
    }
}

} // verus!
