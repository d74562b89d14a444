//! The analysis cache: at most one record per repository URL.
use vstd::prelude::*;
use crate::data::Data;

verus! {

/// The records of `entries` as a map from URL to record; a later entry for
/// the same URL would hide an earlier one.
pub open spec fn entries_map(entries: Seq<(String, Data)>) -> Map<Seq<char>, Data>
    decreases entries.len(),
{
    if entries.len() == 0 {
        Map::empty()
    } else {
        let last = entries.last();
        entries_map(entries.drop_last()).insert(last.0@, last.1)
    }
}

/// No URL occurs twice among `entries`.
pub open spec fn unique_urls(entries: Seq<(String, Data)>) -> bool {
    forall|i: int, j: int|
        0 <= i < j < entries.len() ==> #[trigger] entries[i].0@ != #[trigger] entries[j].0@
}

/// The URLs that `entries_map` knows are exactly those of the entries.
proof fn lemma_entries_map_dom(entries: Seq<(String, Data)>, url: Seq<char>)
    ensures
        entries_map(entries).contains_key(url)
            <==> exists|i: int| 0 <= i < entries.len() && entries[i].0@ == url,
    decreases entries.len(),
{
    if entries.len() > 0 {
        let pre = entries.drop_last();
        lemma_entries_map_dom(pre, url);
        if entries_map(pre).contains_key(url) {
            let i = choose|i: int| 0 <= i < pre.len() && pre[i].0@ == url;
            assert(entries[i].0@ == url);
        }
        if exists|i: int| 0 <= i < entries.len() && entries[i].0@ == url {
            let i = choose|i: int| 0 <= i < entries.len() && entries[i].0@ == url;
            if i < entries.len() - 1 {
                assert(pre[i].0@ == url);
            }
        }
    }
}

/// With unique URLs, the map holds each entry's record under its URL.
proof fn lemma_entries_map_index(entries: Seq<(String, Data)>, i: int)
    requires
        unique_urls(entries),
        0 <= i < entries.len(),
    ensures
        entries_map(entries).contains_key(entries[i].0@),
        entries_map(entries)[entries[i].0@] == entries[i].1,
    decreases entries.len(),
{
    let pre = entries.drop_last();
    if i < entries.len() - 1 {
        assert(unique_urls(pre)) by {
            assert forall|a: int, b: int| 0 <= a < b < pre.len() implies pre[a].0@ != pre[b].0@ by {
                assert(entries[a] == pre[a] && entries[b] == pre[b]);
            }
        }
        lemma_entries_map_index(pre, i);
        assert(entries[i] == pre[i]);
    }
}

/// Replacing the record of an entry replaces it in the map.
proof fn lemma_entries_map_update(entries: Seq<(String, Data)>, i: int, record: Data)
    requires
        unique_urls(entries),
        0 <= i < entries.len(),
    ensures
        entries_map(entries.update(i, (entries[i].0, record)))
            == entries_map(entries).insert(entries[i].0@, record),
    decreases entries.len(),
{
    let url = entries[i].0;
    let next = entries.update(i, (url, record));
    let pre = entries.drop_last();
    assert(unique_urls(pre)) by {
        assert forall|a: int, b: int| 0 <= a < b < pre.len() implies pre[a].0@ != pre[b].0@ by {
            assert(entries[a] == pre[a] && entries[b] == pre[b]);
        }
    }
    if i == entries.len() - 1 {
        assert(next.drop_last() =~= pre);
        assert(entries_map(next) =~= entries_map(entries).insert(url@, record));
    } else {
        lemma_entries_map_update(pre, i, record);
        assert(next.drop_last() =~= pre.update(i, (url, record)));
        assert(entries.last().0@ != url@);
        assert(entries_map(next) =~= entries_map(entries).insert(url@, record));
    }
}

/// With unique URLs there are as many URLs in the map as entries.
proof fn lemma_entries_map_len(entries: Seq<(String, Data)>)
    requires
        unique_urls(entries),
    ensures
        entries_map(entries).dom().finite(),
        entries_map(entries).dom().len() == entries.len(),
    decreases entries.len(),
{
    if entries.len() > 0 {
        let pre = entries.drop_last();
        assert(unique_urls(pre)) by {
            assert forall|a: int, b: int| 0 <= a < b < pre.len() implies pre[a].0@ != pre[b].0@ by {
                assert(entries[a] == pre[a] && entries[b] == pre[b]);
            }
        }
        lemma_entries_map_len(pre);
        lemma_entries_map_dom(pre, entries.last().0@);
        if entries_map(pre).contains_key(entries.last().0@) {
            let k = choose|k: int| 0 <= k < pre.len() && pre[k].0@ == entries.last().0@;
            assert(entries[k].0@ == entries[entries.len() - 1].0@);
        }
    }
}

/// The shared store of analysis records, keyed by canonical repository URL.
pub struct Database {
    entries: Vec<(String, Data)>,
}

impl View for Database {
    type V = Map<Seq<char>, Data>;

    closed spec fn view(&self) -> Map<Seq<char>, Data> {
        entries_map(self.entries@)
    }
}

impl Database {
    /// Each URL has at most one entry, and every record is well formed.
    pub closed spec fn wf(&self) -> bool {
        &&& unique_urls(self.entries@)
        &&& forall|i: int| 0 <= i < self.entries@.len() ==> (#[trigger] self.entries@[i]).1.wf()
    }

    /// Every record that a well-formed store holds is well formed, and the
    /// store holds finitely many.
    pub proof fn lemma_records_wf(&self)
        requires
            self.wf(),
        ensures
            self@.dom().finite(),
            forall|url: Seq<char>| #[trigger] self@.contains_key(url) ==> self@[url].wf(),
    {
        lemma_entries_map_len(self.entries@);
        assert forall|url: Seq<char>| #[trigger] self@.contains_key(url) implies self@[url].wf() by {
            lemma_entries_map_dom(self.entries@, url);
            let i = choose|i: int| 0 <= i < self.entries@.len() && self.entries@[i].0@ == url;
            lemma_entries_map_index(self.entries@, i);
        }
    }

    /// The position of the entry for `url`, if there is one.
    fn position(&self, url: &String) -> (r: Option<usize>)
        requires
            self.wf(),
        ensures
            match r {
                Some(i) => i < self.entries@.len() && self.entries@[i as int].0@ == url@,
                None => !self@.contains_key(url@),
            },
    {
        let mut i: usize = 0;
        while i < self.entries.len()
            invariant
                i <= self.entries@.len(),
                forall|k: int| 0 <= k < i ==> (#[trigger] self.entries@[k]).0@ != url@,
            decreases self.entries@.len() - i,
        {
            if self.entries[i].0 == *url {
                return Some(i);
            }
            i += 1;
        }
        proof {
            lemma_entries_map_dom(self.entries@, url@);
        }
        None
    }

    /// The record cached for `url`, if any.
    pub fn get(&self, url: &String) -> (r: Option<&Data>)
        requires
            self.wf(),
        ensures
            match r {
                Some(d) => self@.contains_key(url@) && *d == self@[url@],
                None => !self@.contains_key(url@),
            },
    {
        match self.position(url) {
            Some(i) => {
                proof {
                    lemma_entries_map_index(self.entries@, i as int);
                }
                Some(&self.entries[i].1)
            },
            None => None,
        }
    }

    /// Stores `record` under `url`, replacing whatever was there.
    pub fn upsert(&mut self, url: String, record: Data)
        requires
            old(self).wf(),
            record.wf(),
        ensures
            final(self).wf(),
            final(self)@ == old(self)@.insert(url@, record),
    {
        match self.position(&url) {
            Some(i) => {
                proof {
                    lemma_entries_map_update(self.entries@, i as int, record);
                }
                let ghost before = self.entries@;
                self.entries[i].1 = record;
                assert(self.entries@ == before.update(i as int, (before[i as int].0, record)));
            },
            None => {
                let ghost before = self.entries@;
                proof {
                    lemma_entries_map_dom(before, url@);
                }
                self.entries.push((url, record));
                assert(self.entries@.drop_last() == before);
            },
        }
    }

    /// Marks the record of `url` as verified at `stamp`; a store without a
    /// record for `url` is left as it is.
    pub fn renew(&mut self, url: &String, stamp: u64)
        requires
            old(self).wf(),
            old(self)@.contains_key(url@) ==> old(self)@[url@].creation_time <= stamp,
        ensures
            final(self).wf(),
            final(self)@ == if old(self)@.contains_key(url@) {
                old(self)@.insert(url@, Data { verified_time: stamp, ..old(self)@[url@] })
            } else {
                old(self)@
            },
    {
        match self.position(url) {
            Some(i) => {
                proof {
                    lemma_entries_map_index(self.entries@, i as int);
                }
                let ghost before = self.entries@;
                let ghost record = Data { verified_time: stamp, ..before[i as int].1 };
                proof {
                    lemma_entries_map_update(before, i as int, record);
                }
                self.entries[i].1.verified_time = stamp;
                assert(self.entries@ == before.update(i as int, (before[i as int].0, record)));
            },
            None => {},
        }
    }

    /// Number of repositories cached.
    pub fn len(&self) -> (r: usize)
        requires
            self.wf(),
        ensures
            r == self@.dom().len(),
    {
        proof {
            lemma_entries_map_len(self.entries@);
        }
        self.entries.len()
    }
}

/// An empty store.
pub fn init_db() -> (r: Database)
    ensures
        r.wf(),
        r@ == Map::<Seq<char>, Data>::empty(),
{
    Database { entries: Vec::new() }
}

} // verus!
