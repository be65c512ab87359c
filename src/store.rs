use vstd::prelude::*;
use vstd::string::StringExecFns;

verus! {

/// One record of the session store.
#[derive(Clone, Debug)]
pub struct StoreEntry {
    pub key: String,
    pub value: String,
    /// Seconds until the record lapses.
    pub ttl_seconds: u64,
}

/// What the store holds under a key: the value and its time-to-live in seconds.
pub type Stored = (Seq<char>, u64);

/// A key-value store with a time-to-live on each record, kept in memory.
///
/// Each single-key operation is atomic; nothing spans two calls.
#[derive(Clone, Debug)]
pub struct SessionStore {
    entries: Vec<StoreEntry>,
}

/// The record under `k`: the latest one written wins.
pub open spec fn lookup(s: Seq<StoreEntry>, k: Seq<char>) -> Option<Stored>
    decreases s.len(),
{
    if s.len() == 0 {
        None
    } else if s.last().key@ == k {
        Some((s.last().value@, s.last().ttl_seconds))
    } else {
        lookup(s.drop_last(), k)
    }
}

impl View for SessionStore {
    type V = Map<Seq<char>, Stored>;

    closed spec fn view(&self) -> Map<Seq<char>, Stored> {
        Map::new(|k: Seq<char>| lookup(self.entries@, k) is Some, |k: Seq<char>| lookup(self.entries@, k)->0)
    }
}

proof fn lemma_lookup_push(s: Seq<StoreEntry>, e: StoreEntry, k: Seq<char>)
    ensures
        lookup(s.push(e), k) == if e.key@ == k {
            Some((e.value@, e.ttl_seconds))
        } else {
            lookup(s, k)
        },
{
    assert(s.push(e).drop_last() =~= s);
}

proof fn lemma_lookup_take(s: Seq<StoreEntry>, i: int, k: Seq<char>)
    requires
        0 <= i < s.len(),
    ensures
        lookup(s.take(i + 1), k) == if s[i].key@ == k {
            Some((s[i].value@, s[i].ttl_seconds))
        } else {
            lookup(s.take(i), k)
        },
{
    assert(s.take(i + 1) =~= s.take(i).push(s[i]));
    lemma_lookup_push(s.take(i), s[i], k);
}

/// One write to the store.
#[derive(Clone, Debug)]
pub enum StoreCommand {
    SetWithExpiry { key: String, value: String, ttl_seconds: u64 },
    Delete { key: String },
}

/// The store after one command.
pub open spec fn step(s: Map<Seq<char>, Stored>, c: StoreCommand) -> Map<Seq<char>, Stored> {
    match c {
        StoreCommand::SetWithExpiry { key, value, ttl_seconds } => s.insert(
            key@,
            (value@, ttl_seconds),
        ),
        StoreCommand::Delete { key } => s.remove(key@),
    }
}

/// The store after a run of commands, applied in order.
pub open spec fn after(s: Map<Seq<char>, Stored>, cmds: Seq<StoreCommand>) -> Map<Seq<char>, Stored>
    decreases cmds.len(),
{
    if cmds.len() == 0 {
        s
    } else {
        step(after(s, cmds.drop_last()), cmds.last())
    }
}

impl SessionStore {
    /// Applies a run of commands, in order.
    pub fn apply(&mut self, cmds: &Vec<StoreCommand>)
        ensures
            final(self)@ == after(old(self)@, cmds@),
    {
        let mut i: usize = 0;
        while i < cmds.len()
            invariant
                i <= cmds@.len(),
                self@ == after(old(self)@, cmds@.take(i as int)),
            decreases cmds@.len() - i,
        {
            proof {
                assert(cmds@.take(i + 1).drop_last() =~= cmds@.take(i as int));
            }
            match &cmds[i] {
                StoreCommand::SetWithExpiry { key, value, ttl_seconds } => {
                    self.set_with_expiry(key.as_str(), value.as_str(), *ttl_seconds);
                },
                StoreCommand::Delete { key } => {
                    self.delete(key.as_str());
                },
            }
            i = i + 1;
        }
        proof {
            assert(cmds@.take(i as int) =~= cmds@);
        }
    }

    /// An empty store.
    pub fn new() -> (r: SessionStore)
        ensures
            r@ == Map::<Seq<char>, Stored>::empty(),
    {
        let r = SessionStore { entries: Vec::new() };
        assert(r@ =~= Map::<Seq<char>, Stored>::empty());
        r
    }

    /// The position of the record under `key`, if any.
    fn find(&self, key: &String) -> (r: Option<usize>)
        ensures
            match r {
                Some(i) => i < self.entries@.len() && lookup(self.entries@, key@) == Some(
                    (self.entries@[i as int].value@, self.entries@[i as int].ttl_seconds),
                ),
                None => lookup(self.entries@, key@) is None,
            },
    {
        let mut i: usize = self.entries.len();
        proof {
            assert(self.entries@.take(i as int) =~= self.entries@);
        }
        while i > 0
            invariant
                i <= self.entries@.len(),
                lookup(self.entries@, key@) == lookup(self.entries@.take(i as int), key@),
            decreases i,
        {
            i = i - 1;
            proof {
                lemma_lookup_take(self.entries@, i as int, key@);
            }
            if self.entries[i].key == *key {
                return Some(i);
            }
        }
        None
    }

    /// The value under `key`.
    pub fn get(&self, key: &str) -> (r: Option<String>)
        ensures
            match r {
                Some(v) => self@.contains_key(key@) && v@ == self@[key@].0,
                None => !self@.contains_key(key@),
            },
    {
        let k = String::from_str(key);
        match self.find(&k) {
            Some(i) => Some(self.entries[i].value.clone()),
            None => None,
        }
    }

    /// The time-to-live of the record under `key`, in seconds.
    pub fn ttl(&self, key: &str) -> (r: Option<u64>)
        ensures
            match r {
                Some(t) => self@.contains_key(key@) && t == self@[key@].1,
                None => !self@.contains_key(key@),
            },
    {
        let k = String::from_str(key);
        match self.find(&k) {
            Some(i) => Some(self.entries[i].ttl_seconds),
            None => None,
        }
    }

    /// Whether a record stands under `key`.
    pub fn contains(&self, key: &str) -> (r: bool)
        ensures
            r == self@.contains_key(key@),
    {
        let k = String::from_str(key);
        self.find(&k).is_some()
    }

    /// Removes the record under `key`; says whether there was one.
    pub fn delete(&mut self, key: &str) -> (r: bool)
        ensures
            r == old(self)@.contains_key(key@),
            final(self)@ == old(self)@.remove(key@),
    {
        let k = String::from_str(key);
        let ghost old_entries = self.entries@;
        let mut kept: Vec<StoreEntry> = Vec::new();
        let mut found = false;
        let mut i: usize = 0;
        while i < self.entries.len()
            invariant
                self.entries@ == old_entries,
                i <= old_entries.len(),
                k@ == key@,
                found == (lookup(old_entries.take(i as int), key@) is Some),
                forall|q: Seq<char>|
                    #[trigger] lookup(kept@, q) == if q == key@ {
                        None
                    } else {
                        lookup(old_entries.take(i as int), q)
                    },
            decreases old_entries.len() - i,
        {
            let e = StoreEntry {
                key: self.entries[i].key.clone(),
                value: self.entries[i].value.clone(),
                ttl_seconds: self.entries[i].ttl_seconds,
            };
            let ghost before = kept@;
            proof {
                assert forall|q: Seq<char>| true implies #[trigger] lookup(
                    old_entries.take(i + 1),
                    q,
                ) == if old_entries[i as int].key@ == q {
                    Some((old_entries[i as int].value@, old_entries[i as int].ttl_seconds))
                } else {
                    lookup(old_entries.take(i as int), q)
                } by {
                    lemma_lookup_take(old_entries, i as int, q);
                }
            }
            if e.key == k {
                found = true;
            } else {
                kept.push(e);
                proof {
                    assert forall|q: Seq<char>| true implies #[trigger] lookup(kept@, q) == if q
                        == key@ {
                        None
                    } else {
                        lookup(old_entries.take(i + 1), q)
                    } by {
                        lemma_lookup_push(before, old_entries[i as int], q);
                    }
                }
            }
            i = i + 1;
        }
        proof {
            assert(old_entries.take(i as int) =~= old_entries);
        }
        self.entries = kept;
        proof {
            assert(self@ =~= old(self)@.remove(key@));
        }
        found
    }

    /// Writes `value` under `key` with a time-to-live, replacing any record there.
    pub fn set_with_expiry(&mut self, key: &str, value: &str, ttl_seconds: u64)
        ensures
            final(self)@ == old(self)@.insert(key@, (value@, ttl_seconds)),
    {
        let e = StoreEntry {
            key: String::from_str(key),
            value: String::from_str(value),
            ttl_seconds,
        };
        let ghost before = self.entries@;
        self.entries.push(e);
        proof {
            assert forall|q: Seq<char>| true implies #[trigger] lookup(self.entries@, q) == if q
                == key@ {
                Some((value@, ttl_seconds))
            } else {
                lookup(before, q)
            } by {
                lemma_lookup_push(before, e, q);
            }
            assert(self@ =~= old(self)@.insert(key@, (value@, ttl_seconds)));
        }
    }

    /// Writes `value` under `key` only where no record stands there; says whether it
    /// wrote. A check and a write in one step.
    pub fn set_if_absent(&mut self, key: &str, value: &str, ttl_seconds: u64) -> (r: bool)
        ensures
            r == !old(self)@.contains_key(key@),
            final(self)@ == if r {
                old(self)@.insert(key@, (value@, ttl_seconds))
            } else {
                old(self)@
            },
    {
        if self.contains(key) {
            false
        } else {
            self.set_with_expiry(key, value, ttl_seconds);
            true
        }
    }
}

} // verus!
