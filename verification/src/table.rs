//! Records filed under byte-string keys and kept in the order of their keys,
//! as a key-value store hands them out on a range scan.

use vstd::prelude::*;
use crate::order::{ascending, bytes_lt, lemma_lex_asymmetric, lemma_lex_irreflexive,
    lemma_lex_successor, lemma_lex_total, lemma_lex_transitive, lemma_rank_bounds, lemma_rank_is,
    lex_lt, rank};

verus! {

/// A record with the key it is filed under.
pub struct Entry<V> {
    pub key: Vec<u8>,
    pub value: V,
}

/// Records in ascending order of their keys, one record to a key.
pub struct Table<V> {
    entries: Vec<Entry<V>>,
}

impl<V> View for Table<V> {
    type V = Seq<(Seq<u8>, V)>;

    /// The keys and records in the order of the keys.
    closed spec fn view(&self) -> Seq<(Seq<u8>, V)> {
        Seq::new(self.entries@.len(), |i: int| (self.entries@[i].key@, self.entries@[i].value))
    }
}

/// The position from which a page starts: the first key at or after `start`,
/// or the first key of all where no start is given.
pub open spec fn page_first(keys: Seq<Seq<u8>>, start: Option<Seq<u8>>) -> int {
    match start {
        Some(bound) => rank(keys, bound) as int,
        None => 0,
    }
}

/// The position at which a page of at most `limit` records from `first` ends.
pub open spec fn page_end(len: int, first: int, limit: int) -> int {
    if first + limit < len {
        first + limit
    } else {
        len
    }
}

impl<V> Table<V> {
    /// Each key comes strictly before the next one.
    #[verifier::type_invariant]
    pub closed spec fn wf(&self) -> bool {
        ascending(self.keys())
    }

    /// The keys in ascending order.
    pub open spec fn keys(&self) -> Seq<Seq<u8>> {
        Seq::new(self@.len(), |i: int| self@[i].0)
    }

    /// Whether a record is filed under the key.
    pub open spec fn contains(&self, key: Seq<u8>) -> bool {
        exists|i: int| 0 <= i < self@.len() && (#[trigger] self@[i]).0 == key
    }

    /// The record filed under the key.
    pub open spec fn value_of(&self, key: Seq<u8>) -> V {
        let i = choose|i: int| 0 <= i < self@.len() && (#[trigger] self@[i]).0 == key;
        self@[i].1
    }

    /// The table as a map from keys to records.
    pub open spec fn map(&self) -> Map<Seq<u8>, V> {
        Map::new(|k: Seq<u8>| self.contains(k), |k: Seq<u8>| self.value_of(k))
    }

    /// The records of the page that starts after `start` and holds at most
    /// `limit` of them: those from the first key at or after `start` on.
    pub open spec fn page_of(&self, start: Option<Seq<u8>>, limit: int) -> Seq<(Seq<u8>, V)> {
        let first = page_first(self.keys(), start);
        self@.subrange(first, page_end(self@.len() as int, first, limit))
    }

    /// In a well-formed table a key stands at one position only.
    pub proof fn lemma_unique(&self, i: int, j: int)
        requires
            self.wf(),
            0 <= i < self@.len(),
            0 <= j < self@.len(),
            self@[i].0 == self@[j].0,
        ensures
            i == j,
    {
        if i != j {
            let keys = self.keys();
            lemma_lex_irreflexive(keys[i]);
            if i < j {
                assert(lex_lt(keys[i], keys[j]));
            } else {
                assert(lex_lt(keys[j], keys[i]));
            }
        }
    }

    /// What stands at a position is what the map holds under the key at
    /// that position: the order of the keys and the map together say all
    /// that the table holds.
    pub proof fn law_entry_at(&self, i: int)
        requires
            self.wf(),
            0 <= i < self@.len(),
        ensures
            self.map().contains_key(self@[i].0),
            self.map()[self@[i].0] == self@[i].1,
            self.keys()[i] == self@[i].0,
    {
        assert(self.contains(self@[i].0));
        let j = choose|j: int| 0 <= j < self@.len() && (#[trigger] self@[j]).0 == self@[i].0;
        self.lemma_unique(i, j);
    }

    /// A page holds as many records as its size allows, and fewer only where
    /// the records run out.
    pub proof fn law_page_len(&self, start: Option<Seq<u8>>, limit: int)
        requires
            limit >= 0,
        ensures
            ({
                let first = page_first(self.keys(), start);
                let rest = self@.len() - first;
                &&& 0 <= first <= self@.len()
                &&& self.page_of(start, limit).len() == if limit < rest {
                    limit
                } else {
                    rest
                }
            }),
    {
        if start is Some {
            lemma_rank_bounds(self.keys(), start->Some_0);
        }
    }

    /// The keys of a page ascend; where a start is given, none of them comes
    /// before it, and every key of the table that is left out before the
    /// page does.
    pub proof fn law_page_keys(&self, start: Option<Seq<u8>>, limit: int)
        requires
            self.wf(),
            limit >= 0,
        ensures
            ({
                let page = self.page_of(start, limit);
                let first = page_first(self.keys(), start);
                &&& forall|i: int, j: int|
                    0 <= i < j < page.len() ==> lex_lt((#[trigger] page[i]).0, (#[trigger] page[j]).0)
                &&& start is Some ==> forall|i: int|
                    0 <= i < page.len() ==> !lex_lt((#[trigger] page[i]).0, start->Some_0)
                &&& start is Some ==> forall|i: int|
                    0 <= i < first ==> lex_lt((#[trigger] self@[i]).0, start->Some_0)
            }),
    {
        let keys = self.keys();
        let page = self.page_of(start, limit);
        let first = page_first(keys, start);
        self.law_page_len(start, limit);
        assert forall|i: int, j: int| 0 <= i < j < page.len() implies lex_lt(
            (#[trigger] page[i]).0,
            (#[trigger] page[j]).0,
        ) by {
            assert(page[i].0 == keys[first + i]);
            assert(page[j].0 == keys[first + j]);
        }
        if start is Some {
            let bound = start->Some_0;
            lemma_rank_bounds(keys, bound);
            assert forall|i: int| 0 <= i < page.len() implies !lex_lt((#[trigger] page[i]).0, bound) by {
                assert(page[i].0 == keys[first + i]);
                if i > 0 && lex_lt(keys[first + i], bound) {
                    assert(lex_lt(keys[first], keys[first + i]));
                    lemma_lex_transitive(keys[first], keys[first + i], bound);
                }
            }
            assert forall|i: int| 0 <= i < first implies lex_lt((#[trigger] self@[i]).0, bound) by {
                assert(self@[i].0 == keys[i]);
            }
        }
    }

    /// The page that starts after the last key of a page follows it without
    /// overlap and without a gap: the two together are the page of twice the
    /// size.
    pub proof fn law_pages_join(&self, start: Option<Seq<u8>>, limit: int)
        requires
            self.wf(),
            limit >= 1,
            self.page_of(start, limit).len() > 0,
        ensures
            self.page_of(start, limit) + self.page_of(
                Some(self.page_of(start, limit).last().0.push(0)),
                limit,
            ) == self.page_of(start, 2 * limit),
    {
        let keys = self.keys();
        let len = self@.len() as int;
        let first = page_first(keys, start);
        self.law_page_len(start, limit);
        let end = page_end(len, first, limit);
        let page = self.page_of(start, limit);
        let k = page.last().0;
        assert(k == keys[end - 1]);
        assert forall|j: int| 0 <= j < end implies lex_lt(#[trigger] keys[j], k.push(0)) by {
            lemma_lex_successor(keys[j], k);
            if j < end - 1 {
                assert(lex_lt(keys[j], keys[end - 1]));
            }
        }
        if end < len {
            lemma_lex_successor(keys[end], k);
            assert(lex_lt(keys[end - 1], keys[end]));
            lemma_lex_asymmetric(k, keys[end]);
            lemma_lex_irreflexive(k);
        }
        lemma_rank_is(keys, k.push(0), end);
        assert(self.page_of(start, limit) + self.page_of(Some(k.push(0)), limit)
            =~= self.page_of(start, 2 * limit));
    }

    /// A table without records.
    pub fn new() -> (r: Table<V>)
        ensures
            r@ == Seq::<(Seq<u8>, V)>::empty(),
            r.map() == Map::<Seq<u8>, V>::empty(),
            r.wf(),
    {
        let r = Table { entries: Vec::new() };
        proof {
            assert(r@ =~= Seq::<(Seq<u8>, V)>::empty());
            assert(r.map() =~= Map::<Seq<u8>, V>::empty());
        }
        r
    }

    /// The number of records.
    pub fn len(&self) -> (r: usize)
        ensures
            r == self@.len(),
    {
        self.entries.len()
    }

    /// The key at a position.
    pub fn key_at(&self, i: usize) -> (r: &Vec<u8>)
        requires
            i < self@.len(),
        ensures
            r@ == self@[i as int].0,
    {
        &self.entries[i].key
    }

    /// The record at a position.
    pub fn value_at(&self, i: usize) -> (r: &V)
        requires
            i < self@.len(),
        ensures
            *r == self@[i as int].1,
    {
        &self.entries[i].value
    }

    /// The position of the first key at or after `bound`; the number of
    /// records where every key comes before it.
    pub fn lower_bound(&self, bound: &[u8]) -> (r: usize)
        ensures
            r == rank(self.keys(), bound@),
            r <= self@.len(),
            self.wf(),
    {
        proof {
            use_type_invariant(self);
        }
        let mut p: usize = 0;
        while p < self.entries.len() && bytes_lt(self.entries[p].key.as_slice(), bound)
            invariant
                p <= self.entries@.len(),
                forall|j: int| 0 <= j < p ==> lex_lt(#[trigger] self.keys()[j], bound@),
            decreases self.entries@.len() - p,
        {
            p += 1;
        }
        proof {
            if p < self.entries@.len() {
                assert(self.keys()[p as int] == self.entries@[p as int].key@);
            }
            lemma_rank_is(self.keys(), bound@, p as int);
        }
        p
    }

    /// The record filed under the key, if there is one.
    pub fn get(&self, key: &[u8]) -> (r: Option<&V>)
        ensures
            r is Some <==> self.contains(key@),
            r is Some ==> *r->Some_0 == self.value_of(key@),
            r is Some <==> self.map().contains_key(key@),
            r is Some ==> *r->Some_0 == self.map()[key@],
    {
        let p = self.lower_bound(key);
        if p < self.entries.len() && !bytes_lt(key, self.entries[p].key.as_slice()) {
            proof {
                lemma_rank_bounds(self.keys(), key@);
                lemma_lex_total(self.keys()[p as int], key@);
                assert(self@[p as int].0 == key@);
                let i = choose|i: int| 0 <= i < self@.len() && (#[trigger] self@[i]).0 == key@;
                self.lemma_unique(i, p as int);
            }
            Some(&self.entries[p].value)
        } else {
            proof {
                lemma_rank_bounds(self.keys(), key@);
                if self.contains(key@) {
                    let i = choose|i: int| 0 <= i < self@.len() && (#[trigger] self@[i]).0 == key@;
                    let keys = self.keys();
                    assert(keys[i] == key@);
                    lemma_lex_irreflexive(key@);
                    if i < p {
                        assert(lex_lt(keys[i], key@));
                    } else if i > p {
                        assert(lex_lt(keys[p as int], keys[i]));
                        lemma_lex_total(keys[p as int], key@);
                        lemma_lex_asymmetric(keys[p as int], key@);
                    }
                }
            }
            None
        }
    }

    /// Files the record under the key, in place of the one that was there if
    /// there was one, and else at the key's place in the order.
    pub fn insert(&mut self, key: Vec<u8>, value: V)
        ensures
            final(self).map() == old(self).map().insert(key@, value),
            old(self).contains(key@) ==> final(self).keys() == old(self).keys(),
            !old(self).contains(key@) ==> final(self).keys() == old(self).keys().insert(
                rank(old(self).keys(), key@) as int,
                key@,
            ),
            final(self).wf(),
    {
        let p = self.lower_bound(key.as_slice());
        let ghost before = *self;
        let ghost k = key@;
        proof {
            lemma_rank_bounds(before.keys(), k);
        }
        if p < self.entries.len() && !bytes_lt(key.as_slice(), self.entries[p].key.as_slice()) {
            proof {
                lemma_lex_total(before.keys()[p as int], k);
                assert(before@[p as int].0 == k);
            }
            let mut entries: Vec<Entry<V>> = Vec::new();
            std::mem::swap(&mut self.entries, &mut entries);
            entries.set(p, Entry { key, value });
            proof {
                let after = Table { entries };
                assert(after@ =~= before@.update(p as int, (k, value)));
                assert(after.keys() =~= before.keys());
                assert forall|x: Seq<u8>| after.contains(x) <==> (before.contains(x) || x == k) by {
                    if after.contains(x) {
                        let i = choose|i: int| 0 <= i < after@.len() && (#[trigger] after@[i]).0 == x;
                        assert(before@[i].0 == x);
                    }
                    if before.contains(x) || x == k {
                        let i = if x == k {
                            p as int
                        } else {
                            choose|i: int| 0 <= i < before@.len() && (#[trigger] before@[i]).0 == x
                        };
                        assert(after@[i].0 == x);
                    }
                }
                assert forall|x: Seq<u8>| after.contains(x) implies after.value_of(x) == (if x == k {
                    value
                } else {
                    before.value_of(x)
                }) by {
                    let i = choose|i: int| 0 <= i < after@.len() && (#[trigger] after@[i]).0 == x;
                    if x == k {
                        after.lemma_unique(i, p as int);
                    } else {
                        assert(before@[i].0 == x);
                        let j = choose|j: int| 0 <= j < before@.len() && (#[trigger] before@[j]).0 == x;
                        before.lemma_unique(i, j);
                    }
                }
                assert(after.map() =~= before.map().insert(k, value));
            }
            self.entries = entries;
        } else {
            proof {
                if before.contains(k) {
                    let i = choose|i: int| 0 <= i < before@.len() && (#[trigger] before@[i]).0 == k;
                    let keys = before.keys();
                    assert(keys[i] == k);
                    lemma_lex_irreflexive(k);
                    if i < p {
                        assert(lex_lt(keys[i], k));
                    } else if i > p {
                        assert(lex_lt(keys[p as int], keys[i]));
                        lemma_lex_total(keys[p as int], k);
                        lemma_lex_asymmetric(keys[p as int], k);
                    } else {
                    }
                }
                assert(!before.contains(k));
            }
            let mut entries: Vec<Entry<V>> = Vec::new();
            std::mem::swap(&mut self.entries, &mut entries);
            entries.insert(p, Entry { key, value });
            proof {
                let after = Table { entries };
                assert(after@ =~= before@.insert(p as int, (k, value)));
                assert(after.keys() =~= before.keys().insert(p as int, k));
                let keys = after.keys();
                let old_keys = before.keys();
                assert forall|i: int, j: int| 0 <= i < j < keys.len() implies lex_lt(
                    #[trigger] keys[i],
                    #[trigger] keys[j],
                ) by {
                    if j < p {
                        assert(keys[i] == old_keys[i] && keys[j] == old_keys[j]);
                    } else if j == p {
                        assert(keys[i] == old_keys[i]);
                    } else if i < p {
                        assert(keys[i] == old_keys[i] && keys[j] == old_keys[j - 1]);
                    } else if i == p {
                        assert(keys[j] == old_keys[j - 1]);
                        lemma_lex_total(old_keys[p as int], k);
                        if j - 1 > p {
                            assert(lex_lt(old_keys[p as int], old_keys[j - 1]));
                            lemma_lex_transitive(k, old_keys[p as int], old_keys[j - 1]);
                        }
                    } else {
                        assert(keys[i] == old_keys[i - 1] && keys[j] == old_keys[j - 1]);
                    }
                }
                assert forall|x: Seq<u8>| after.contains(x) <==> (before.contains(x) || x == k) by {
                    if after.contains(x) {
                        let i = choose|i: int| 0 <= i < after@.len() && (#[trigger] after@[i]).0 == x;
                        if i < p {
                            assert(before@[i].0 == x);
                        } else if i > p {
                            assert(before@[i - 1].0 == x);
                        }
                    }
                    if x == k {
                        assert(after@[p as int].0 == x);
                    } else if before.contains(x) {
                        let i = choose|i: int| 0 <= i < before@.len() && (#[trigger] before@[i]).0 == x;
                        if i < p {
                            assert(after@[i].0 == x);
                        } else {
                            assert(after@[i + 1].0 == x);
                        }
                    }
                }
                assert forall|x: Seq<u8>| after.contains(x) implies after.value_of(x) == (if x == k {
                    value
                } else {
                    before.value_of(x)
                }) by {
                    let i = choose|i: int| 0 <= i < after@.len() && (#[trigger] after@[i]).0 == x;
                    if x == k {
                        after.lemma_unique(i, p as int);
                    } else {
                        let j = choose|j: int| 0 <= j < before@.len() && (#[trigger] before@[j]).0 == x;
                        if i < p {
                            assert(before@[i].0 == x);
                            before.lemma_unique(i, j);
                        } else {
                            assert(before@[i - 1].0 == x);
                            before.lemma_unique(i - 1, j);
                        }
                    }
                }
                assert(after.map() =~= before.map().insert(k, value));
            }
            self.entries = entries;
        }
    }

    /// Takes the record filed under the key out of the table, if there is
    /// one.
    pub fn remove(&mut self, key: &[u8]) -> (r: Option<V>)
        ensures
            r is Some <==> old(self).map().contains_key(key@),
            r is Some ==> r->Some_0 == old(self).map()[key@],
            final(self).map() == old(self).map().remove(key@),
            final(self).wf(),
    {
        let p = self.lower_bound(key);
        let ghost before = *self;
        let ghost k = key@;
        proof {
            lemma_rank_bounds(before.keys(), k);
        }
        if p < self.entries.len() && !bytes_lt(key, self.entries[p].key.as_slice()) {
            proof {
                lemma_lex_total(before.keys()[p as int], k);
                assert(self@[p as int].0 == key@);
                let i = choose|i: int| 0 <= i < self@.len() && (#[trigger] self@[i]).0 == key@;
                self.lemma_unique(i, p as int);
                assert(self.value_of(key@) == self@[p as int].1);
                assert(before.map()[k] == before@[p as int].1);
            }
            let mut entries: Vec<Entry<V>> = Vec::new();
            std::mem::swap(&mut self.entries, &mut entries);
            let taken = entries.remove(p);
            proof {
                let after = Table { entries };
                assert(after@ =~= before@.remove(p as int));
                assert(taken.value == before@[p as int].1);
                let keys = after.keys();
                let old_keys = before.keys();
                assert forall|i: int, j: int| 0 <= i < j < keys.len() implies lex_lt(
                    #[trigger] keys[i],
                    #[trigger] keys[j],
                ) by {
                    let a = if i < p {
                        i
                    } else {
                        i + 1
                    };
                    let b = if j < p {
                        j
                    } else {
                        j + 1
                    };
                    assert(keys[i] == old_keys[a] && keys[j] == old_keys[b]);
                }
                assert forall|x: Seq<u8>| after.contains(x) <==> (before.contains(x) && x != k) by {
                    if after.contains(x) {
                        let i = choose|i: int| 0 <= i < after@.len() && (#[trigger] after@[i]).0 == x;
                        let a = if i < p {
                            i
                        } else {
                            i + 1
                        };
                        assert(before@[a].0 == x);
                        if x == k {
                            before.lemma_unique(a, p as int);
                        }
                    }
                    if before.contains(x) && x != k {
                        let i = choose|i: int| 0 <= i < before@.len() && (#[trigger] before@[i]).0 == x;
                        if i < p {
                            assert(after@[i].0 == x);
                        } else {
                            assert(after@[i - 1].0 == x);
                        }
                    }
                }
                assert forall|x: Seq<u8>| after.contains(x) implies after.value_of(x)
                    == before.value_of(x) by {
                    let i = choose|i: int| 0 <= i < after@.len() && (#[trigger] after@[i]).0 == x;
                    let a = if i < p {
                        i
                    } else {
                        i + 1
                    };
                    assert(before@[a].0 == x);
                    let j = choose|j: int| 0 <= j < before@.len() && (#[trigger] before@[j]).0 == x;
                    before.lemma_unique(a, j);
                }
                assert(after.map() =~= before.map().remove(k));
            }
            self.entries = entries;
            Some(taken.value)
        } else {
            proof {
                if before.contains(k) {
                    let i = choose|i: int| 0 <= i < before@.len() && (#[trigger] before@[i]).0 == k;
                    let keys = before.keys();
                    assert(keys[i] == k);
                    lemma_lex_irreflexive(k);
                    if i < p {
                        assert(lex_lt(keys[i], k));
                    } else if i > p {
                        assert(lex_lt(keys[p as int], keys[i]));
                        lemma_lex_total(keys[p as int], k);
                        lemma_lex_asymmetric(keys[p as int], k);
                    } else {
                    }
                }
                assert(before.map().remove(k) =~= before.map());
            }
            None
        }
    }

    /// The records of the page that ends the table and holds at most `limit`
    /// of those from the first key at or after `start` on, the last record
    /// first.
    pub open spec fn last_page_of(&self, start: Option<Seq<u8>>, limit: int) -> Seq<(Seq<u8>, V)> {
        let first = page_first(self.keys(), start);
        let from = if self@.len() - limit > first {
            self@.len() - limit
        } else {
            first
        };
        self@.subrange(from, self@.len() as int).reverse()
    }

    /// The records of one page in descending order of their keys: the last
    /// records of the table, at most `limit` of them, none from before the
    /// first key at or after `start`.
    pub fn last_page(&self, start: Option<&Vec<u8>>, limit: usize) -> (r: Vec<&V>)
        ensures
            r@.len() == self.last_page_of(opt_view(start), limit as int).len(),
            forall|i: int| 0 <= i < r@.len() ==> *(#[trigger] r@[i]) == self.last_page_of(
                opt_view(start),
                limit as int,
            )[i].1,
    {
        let first: usize = match start {
            Some(bound) => self.lower_bound(bound.as_slice()),
            None => 0,
        };
        let len: usize = self.entries.len();
        let from: usize = if len - first > limit {
            len - limit
        } else {
            first
        };
        let ghost want = self.last_page_of(opt_view(start), limit as int);
        let mut out: Vec<&V> = Vec::new();
        let mut i: usize = len;
        while i > from
            invariant
                first <= from <= i <= len,
                len == self.entries@.len(),
                want == self@.subrange(from as int, len as int).reverse(),
                out@.len() == len - i,
                forall|j: int| 0 <= j < out@.len() ==> *(#[trigger] out@[j]) == want[j].1,
            decreases i,
        {
            i -= 1;
            out.push(&self.entries[i].value);
        }
        out
    }

    /// The records of one page: from the first key at or after `start` on, or
    /// from the first key of all where no start is given, at most `limit` of
    /// them, in the order of the keys.
    pub fn page(&self, start: Option<&Vec<u8>>, limit: usize) -> (r: Vec<&V>)
        ensures
            r@.len() == self.page_of(opt_view(start), limit as int).len(),
            forall|i: int| 0 <= i < r@.len() ==> *(#[trigger] r@[i]) == self.page_of(
                opt_view(start),
                limit as int,
            )[i].1,
    {
        let first: usize = match start {
            Some(bound) => self.lower_bound(bound.as_slice()),
            None => 0,
        };
        let len: usize = self.entries.len();
        let end: usize = if limit < len - first {
            first + limit
        } else {
            len
        };
        let ghost want = self.page_of(opt_view(start), limit as int);
        let mut out: Vec<&V> = Vec::new();
        let mut i: usize = first;
        while i < end
            invariant
                first <= i <= end <= self.entries@.len(),
                want == self@.subrange(first as int, end as int),
                out@.len() == i - first,
                forall|j: int| 0 <= j < out@.len() ==> *(#[trigger] out@[j]) == want[j].1,
            decreases end - i,
        {
            out.push(&self.entries[i].value);
            i += 1;
        }
        out
    }
}

/// The bytes of an optional key.
pub open spec fn opt_view(start: Option<&Vec<u8>>) -> Option<Seq<u8>> {
    match start {
        Some(bound) => Some(bound@),
        None => None,
    }
}

} // verus!
