//! The in-process LRU cache of hot transform results.
//!
//! Entries are bounded by count (the LRU capacity) and by total bytes. An
//! insert that takes the byte count over its limit evicts least recently used
//! entries until it is back within the limit.
use vstd::prelude::*;
use lru::LruCache;

verus! {

#[verifier::external_type_specification]
#[verifier::external_body]
#[verifier::reject_recursive_types(K)]
#[verifier::reject_recursive_types(V)]
#[verifier::reject_recursive_types(S)]
pub struct ExLruCache<K, V, S>(LruCache<K, V, S>);

#[verifier::external_type_specification]
#[verifier::external_body]
pub struct ExLruDefaultHasher(lru::DefaultHasher);

/// The entries of an LRU cache as keys and values, least recently used first.
pub uninterp spec fn lru_entries(cache: LruCache<String, Vec<u8>>) -> Seq<(Seq<char>, Seq<u8>)>;

/// The capacity (largest number of entries) an LRU cache was made with.
pub uninterp spec fn lru_cap(cache: LruCache<String, Vec<u8>>) -> nat;

/// The index of the first entry at or after `i` with key `key`, or the number
/// of entries when there is none.
pub open spec fn find_key_from(entries: Seq<(Seq<char>, Seq<u8>)>, key: Seq<char>, i: int) -> int
    decreases entries.len() - i,
{
    if i < 0 || i >= entries.len() {
        entries.len() as int
    } else if entries[i].0 == key {
        i
    } else {
        find_key_from(entries, key, i + 1)
    }
}

/// The index of the entry with key `key`, or the number of entries.
pub open spec fn find_key(entries: Seq<(Seq<char>, Seq<u8>)>, key: Seq<char>) -> int {
    find_key_from(entries, key, 0)
}

/// `LruCache::push` on the entries: an existing key gets the new value and
/// becomes most recently used, and its old entry is returned; a new key is
/// appended as most recently used, after the least recently used entry was
/// removed and returned when the cache was full.
pub open spec fn lru_push_spec(
    entries: Seq<(Seq<char>, Seq<u8>)>,
    cap: nat,
    key: Seq<char>,
    value: Seq<u8>,
) -> (Seq<(Seq<char>, Seq<u8>)>, Option<(Seq<char>, Seq<u8>)>) {
    let i = find_key(entries, key);
    if 0 <= i < entries.len() {
        (entries.remove(i).push((key, value)), Some((key, entries[i].1)))
    } else if entries.len() >= cap {
        (entries.drop_first().push((key, value)), Some(entries[0]))
    } else {
        (entries.push((key, value)), None)
    }
}

/// `LruCache::get` on the entries: the value of the key, which becomes most
/// recently used.
pub open spec fn lru_get_spec(entries: Seq<(Seq<char>, Seq<u8>)>, key: Seq<char>) -> (
    Seq<(Seq<char>, Seq<u8>)>,
    Option<Seq<u8>>,
) {
    let i = find_key(entries, key);
    if 0 <= i < entries.len() {
        (entries.remove(i).push(entries[i]), Some(entries[i].1))
    } else {
        (entries, None)
    }
}

/// `LruCache::new`: an empty cache of capacity `cap`.
#[verifier::external_body]
fn lru_new(cap: usize) -> (cache: LruCache<String, Vec<u8>>)
    requires
        cap > 0,
    ensures
        lru_entries(cache) == Seq::<(Seq<char>, Seq<u8>)>::empty(),
        lru_cap(cache) == cap,
{
    LruCache::new(std::num::NonZeroUsize::new(cap).unwrap())
}

/// `LruCache::get`, the value cloned: as `lru_get_spec` says.
#[verifier::external_body]
fn lru_get(cache: &mut LruCache<String, Vec<u8>>, key: &str) -> (res: Option<Vec<u8>>)
    ensures
        lru_entries(*final(cache)) == lru_get_spec(lru_entries(*old(cache)), key@).0,
        match res {
            Some(v) => lru_get_spec(lru_entries(*old(cache)), key@).1 == Some(v@),
            None => lru_get_spec(lru_entries(*old(cache)), key@).1 is None,
        },
        lru_cap(*final(cache)) == lru_cap(*old(cache)),
{
    cache.get(key).cloned()
}

/// `LruCache::push`: as `lru_push_spec` says; the entry it pushes out (the
/// key's old entry, or the least recently used one of a full cache) is returned.
#[verifier::external_body]
fn lru_push(cache: &mut LruCache<String, Vec<u8>>, key: String, value: Vec<u8>) -> (res: Option<
    (String, Vec<u8>),
>)
    ensures
        lru_entries(*final(cache)) == lru_push_spec(
            lru_entries(*old(cache)),
            lru_cap(*old(cache)),
            key@,
            value@,
        ).0,
        match res {
            Some(kv) => lru_push_spec(
                lru_entries(*old(cache)),
                lru_cap(*old(cache)),
                key@,
                value@,
            ).1 == Some((kv.0@, kv.1@)),
            None => lru_push_spec(
                lru_entries(*old(cache)),
                lru_cap(*old(cache)),
                key@,
                value@,
            ).1 is None,
        },
        lru_cap(*final(cache)) == lru_cap(*old(cache)),
{
    cache.push(key, value)
}

/// `LruCache::pop_lru`: removes and returns the least recently used entry.
#[verifier::external_body]
fn lru_pop(cache: &mut LruCache<String, Vec<u8>>) -> (res: Option<(String, Vec<u8>)>)
    ensures
        match res {
            Some(kv) => lru_entries(*old(cache)).len() > 0 && lru_entries(*old(cache))[0] == (
                kv.0@,
                kv.1@,
            ) && lru_entries(*final(cache)) == lru_entries(*old(cache)).drop_first(),
            None => lru_entries(*old(cache)).len() == 0 && lru_entries(*final(cache)) == lru_entries(
                *old(cache),
            ),
        },
        lru_cap(*final(cache)) == lru_cap(*old(cache)),
{
    cache.pop_lru()
}


/// The mathematical state of the hot cache.
pub struct HotState {
    /// The entries, least recently used first.
    pub entries: Seq<(Seq<char>, Seq<u8>)>,
    /// The byte count the cache keeps.
    pub current_bytes: usize,
    /// The largest number of entries.
    pub cap: nat,
    /// The byte limit.
    pub max_bytes: usize,
    /// The largest entry that is stored.
    pub max_entry_bytes: usize,
}

/// No key occurs twice.
pub open spec fn keys_distinct(entries: Seq<(Seq<char>, Seq<u8>)>) -> bool {
    forall|i: int, j: int| 0 <= i < j < entries.len() ==> entries[i].0 != entries[j].0
}

/// The invariant of the hot cache: a positive capacity that bounds the
/// entries, and distinct keys.
pub open spec fn hot_wf(s: HotState) -> bool {
    &&& s.cap > 0
    &&& s.entries.len() <= s.cap
    &&& keys_distinct(s.entries)
}

/// The sum of the value lengths.
pub open spec fn total_len(entries: Seq<(Seq<char>, Seq<u8>)>) -> nat
    decreases entries.len(),
{
    if entries.len() == 0 {
        0
    } else {
        total_len(entries.drop_first()) + entries[0].1.len()
    }
}

/// `a - b`, stopping at zero.
pub open spec fn sat_sub(a: usize, b: nat) -> usize {
    if a < b {
        0
    } else {
        (a - b) as usize
    }
}

/// `a + b`, stopping at the largest `usize`.
pub open spec fn sat_add(a: usize, b: nat) -> usize {
    if a + b > usize::MAX {
        usize::MAX
    } else {
        (a + b) as usize
    }
}

/// Eviction after an insert: least recently used entries are removed while
/// the byte count is over `max`. The entries left, the byte count, and how
/// many were removed.
pub open spec fn evict_spec(entries: Seq<(Seq<char>, Seq<u8>)>, current: usize, max: usize) -> (
    Seq<(Seq<char>, Seq<u8>)>,
    usize,
    nat,
)
    decreases entries.len(),
{
    if current <= max || entries.len() == 0 {
        (entries, current, 0)
    } else {
        let r = evict_spec(entries.drop_first(), sat_sub(current, entries[0].1.len()), max);
        (r.0, r.1, r.2 + 1)
    }
}

/// The outcome of an insert.
#[derive(PartialEq, Eq, Structural)]
pub enum HotInsertResult {
    /// The entry was stored: its size, and how many entries were evicted.
    Stored { bytes: usize, evictions: u64 },
    /// The entry is larger than an entry or the whole cache may be.
    Skipped,
}

/// An insert into the hot cache: skipped when the value is larger than an
/// entry or the whole cache may be; else put into the LRU cache, the byte
/// count adjusted by the replaced value (when the key was there) and the new
/// one, then eviction.
pub open spec fn hot_insert_spec(s: HotState, key: Seq<char>, value: Seq<u8>) -> (
    HotState,
    HotInsertResult,
) {
    if value.len() > s.max_entry_bytes || value.len() > s.max_bytes {
        (s, HotInsertResult::Skipped)
    } else {
        let put = lru_push_spec(s.entries, s.cap, key, value);
        let c0 = match put.1 {
            Some(prev) => sat_sub(s.current_bytes, prev.1.len()),
            None => s.current_bytes,
        };
        let c1 = sat_add(c0, value.len());
        let ev = evict_spec(put.0, c1, s.max_bytes);
        (
            HotState { entries: ev.0, current_bytes: ev.1, ..s },
            HotInsertResult::Stored { bytes: value.len() as usize, evictions: ev.2 as u64 },
        )
    }
}

/// A lookup in the hot cache: the value, and the key made most recently used.
pub open spec fn hot_get_spec(s: HotState, key: Seq<char>) -> (HotState, Option<Seq<u8>>) {
    let g = lru_get_spec(s.entries, key);
    (HotState { entries: g.0, ..s }, g.1)
}

/// The in-process LRU cache of hot results.
pub struct InProcessHotCache {
    lru: LruCache<String, Vec<u8>>,
    current_bytes: usize,
    cap: usize,
    max_bytes: usize,
    max_entry_bytes: usize,
}

impl View for InProcessHotCache {
    type V = HotState;

    closed spec fn view(&self) -> HotState {
        HotState {
            entries: lru_entries(self.lru),
            current_bytes: self.current_bytes,
            cap: self.cap as nat,
            max_bytes: self.max_bytes,
            max_entry_bytes: self.max_entry_bytes,
        }
    }
}

impl InProcessHotCache {
    /// The invariant: `hot_wf` of the state, with the LRU cache's own capacity.
    pub closed spec fn wf(&self) -> bool {
        &&& hot_wf(self@)
        &&& lru_cap(self.lru) == self.cap
    }

    /// An empty hot cache with the given limits.
    pub fn new(max_items: usize, max_bytes: usize, max_entry_bytes: usize) -> (cache: Self)
        requires
            max_items > 0,
        ensures
            cache.wf(),
            cache@ == (HotState {
                entries: Seq::empty(),
                current_bytes: 0,
                cap: max_items as nat,
                max_bytes,
                max_entry_bytes,
            }),
    {
        InProcessHotCache {
            lru: lru_new(max_items),
            current_bytes: 0,
            cap: max_items,
            max_bytes,
            max_entry_bytes,
        }
    }

    /// Looks a key up; a hit makes it most recently used.
    pub fn get(&mut self, key: &str) -> (res: Option<Vec<u8>>)
        requires
            old(self).wf(),
        ensures
            final(self).wf(),
            final(self)@ == hot_get_spec(old(self)@, key@).0,
            match res {
                Some(v) => hot_get_spec(old(self)@, key@).1 == Some(v@),
                None => hot_get_spec(old(self)@, key@).1 is None,
            },
    {
        let ghost before = self@;
        let res = lru_get(&mut self.lru, key);
        proof {
            lemma_get_keeps_wf(before, key@);
        }
        res
    }

    /// Inserts a value, evicting least recently used entries while the byte
    /// count is over the limit.
    pub fn insert(&mut self, key: &str, value: &[u8]) -> (res: HotInsertResult)
        requires
            old(self).wf(),
        ensures
            final(self).wf(),
            final(self)@ == hot_insert_spec(old(self)@, key@, value@).0,
            res == hot_insert_spec(old(self)@, key@, value@).1,
    {
        if value.len() > self.max_entry_bytes || value.len() > self.max_bytes {
            return HotInsertResult::Skipped;
        }
        let ghost s = self@;
        let owned_key = key.to_owned();
        let mut owned_value: Vec<u8> = Vec::new();
        owned_value.extend_from_slice(value);
        assert(owned_value@ =~= value@);
        let previous = lru_push(&mut self.lru, owned_key, owned_value);
        match previous {
            Some(p) => {
                self.current_bytes = self.current_bytes.saturating_sub(p.1.len());
            },
            None => {},
        }
        self.current_bytes = self.current_bytes.saturating_add(value.len());
        let ghost put = lru_push_spec(s.entries, s.cap, key@, value@);
        assert(lru_entries(self.lru) == put.0);
        let ghost target = evict_spec(put.0, self.current_bytes, self.max_bytes);
        proof {
            lemma_put_keeps_wf(s, key@, value@);
            lemma_evict_len(put.0, self.current_bytes, self.max_bytes);
        }
        let mut evictions: u64 = 0;
        while self.current_bytes > self.max_bytes
            invariant_except_break
                self.max_bytes == s.max_bytes,
                self.cap == s.cap,
                self.max_entry_bytes == s.max_entry_bytes,
                lru_cap(self.lru) == s.cap,
                hot_wf(self@),
                evict_spec(lru_entries(self.lru), self.current_bytes, self.max_bytes).0
                    == target.0,
                evict_spec(lru_entries(self.lru), self.current_bytes, self.max_bytes).1
                    == target.1,
                evict_spec(lru_entries(self.lru), self.current_bytes, self.max_bytes).2
                    + evictions == target.2,
                evictions + lru_entries(self.lru).len() == put.0.len(),
                put.0.len() <= s.cap,
                s.cap <= usize::MAX,
            ensures
                self.max_bytes == s.max_bytes,
                self.cap == s.cap,
                self.max_entry_bytes == s.max_entry_bytes,
                lru_cap(self.lru) == s.cap,
                hot_wf(self@),
                lru_entries(self.lru) == target.0,
                self.current_bytes == target.1,
                evictions == target.2,
            decreases lru_entries(self.lru).len(),
        {
            let ghost before = self@;
            match lru_pop(&mut self.lru) {
                Some(kv) => {
                    self.current_bytes = self.current_bytes.saturating_sub(kv.1.len());
                    evictions = evictions + 1;
                    proof {
                        lemma_drop_first_keeps_wf(before);
                    }
                },
                None => {
                    break;
                },
            }
        }
        HotInsertResult::Stored { bytes: value.len(), evictions }
    }
}

proof fn lemma_find_key_from(entries: Seq<(Seq<char>, Seq<u8>)>, key: Seq<char>, i: int)
    requires
        0 <= i <= entries.len(),
    ensures
        i <= find_key_from(entries, key, i) <= entries.len(),
        find_key_from(entries, key, i) < entries.len() ==> entries[find_key_from(entries, key, i)].0
            == key,
        forall|k: int| i <= k < find_key_from(entries, key, i) ==> entries[k].0 != key,
    decreases entries.len() - i,
{
    if i < entries.len() && entries[i].0 != key {
        lemma_find_key_from(entries, key, i + 1);
    }
}

proof fn lemma_get_keeps_wf(s: HotState, key: Seq<char>)
    requires
        hot_wf(s),
    ensures
        hot_wf(hot_get_spec(s, key).0),
{
    lemma_find_key_from(s.entries, key, 0);
    let i = find_key(s.entries, key);
    if 0 <= i < s.entries.len() {
        let e = s.entries.remove(i).push(s.entries[i]);
        assert forall|a: int, b: int| 0 <= a < b < e.len() implies e[a].0 != e[b].0 by {
            if b == e.len() - 1 {
                if a < i {
                    assert(e[a] == s.entries[a]);
                } else {
                    assert(e[a] == s.entries[a + 1]);
                }
            } else {
                if a < i {
                    assert(e[a] == s.entries[a]);
                } else {
                    assert(e[a] == s.entries[a + 1]);
                }
                if b < i {
                    assert(e[b] == s.entries[b]);
                } else {
                    assert(e[b] == s.entries[b + 1]);
                }
            }
        }
    }
}

proof fn lemma_put_keeps_wf(s: HotState, key: Seq<char>, value: Seq<u8>)
    requires
        hot_wf(s),
    ensures
        hot_wf(HotState { entries: lru_push_spec(s.entries, s.cap, key, value).0, ..s }),
        lru_push_spec(s.entries, s.cap, key, value).0.len() <= s.cap,
{
    lemma_find_key_from(s.entries, key, 0);
    let i = find_key(s.entries, key);
    let e = lru_push_spec(s.entries, s.cap, key, value).0;
    if 0 <= i < s.entries.len() {
        assert forall|a: int, b: int| 0 <= a < b < e.len() implies e[a].0 != e[b].0 by {
            if a < i {
                assert(e[a] == s.entries[a]);
            } else {
                assert(e[a] == s.entries[a + 1]);
            }
            if b < e.len() - 1 {
                if b < i {
                    assert(e[b] == s.entries[b]);
                } else {
                    assert(e[b] == s.entries[b + 1]);
                }
            }
        }
    } else if s.entries.len() >= s.cap {
        assert forall|a: int, b: int| 0 <= a < b < e.len() implies e[a].0 != e[b].0 by {
            assert(e[a] == s.entries[a + 1]);
            if b < e.len() - 1 {
                assert(e[b] == s.entries[b + 1]);
            }
        }
    } else {
        assert forall|a: int, b: int| 0 <= a < b < e.len() implies e[a].0 != e[b].0 by {
            assert(e[a] == s.entries[a]);
            if b < e.len() - 1 {
                assert(e[b] == s.entries[b]);
            }
        }
    }
}

proof fn lemma_drop_first_keeps_wf(s: HotState)
    requires
        hot_wf(s),
        s.entries.len() > 0,
    ensures
        hot_wf(HotState { entries: s.entries.drop_first(), ..s }),
{
    let e = s.entries.drop_first();
    assert forall|a: int, b: int| 0 <= a < b < e.len() implies e[a].0 != e[b].0 by {
        assert(e[a] == s.entries[a + 1]);
        assert(e[b] == s.entries[b + 1]);
    }
}

proof fn lemma_evict_len(entries: Seq<(Seq<char>, Seq<u8>)>, current: usize, max: usize)
    ensures
        evict_spec(entries, current, max).2 <= entries.len(),
    decreases entries.len(),
{
    if !(current <= max || entries.len() == 0) {
        lemma_evict_len(entries.drop_first(), sat_sub(current, entries[0].1.len()), max);
    }
}

/// The byte count is exact: it is the sum of the stored value lengths.
pub open spec fn accounted(s: HotState) -> bool {
    s.current_bytes == total_len(s.entries)
}

proof fn lemma_total_push(e: Seq<(Seq<char>, Seq<u8>)>, x: (Seq<char>, Seq<u8>))
    ensures
        total_len(e.push(x)) == total_len(e) + x.1.len(),
    decreases e.len(),
{
    if e.len() > 0 {
        assert(e.push(x).drop_first() =~= e.drop_first().push(x));
        lemma_total_push(e.drop_first(), x);
        assert(e.push(x)[0] == e[0]);
        assert(total_len(e.push(x)) == total_len(e.push(x).drop_first()) + e.push(x)[0].1.len());
    } else {
        assert(e.push(x).drop_first() =~= Seq::<(Seq<char>, Seq<u8>)>::empty());
        assert(e.push(x)[0] == x);
        assert(total_len(e.push(x)) == total_len(e.push(x).drop_first()) + e.push(x)[0].1.len());
    }
}

proof fn lemma_total_remove(e: Seq<(Seq<char>, Seq<u8>)>, i: int)
    requires
        0 <= i < e.len(),
    ensures
        total_len(e.remove(i)) + e[i].1.len() == total_len(e),
    decreases e.len(),
{
    if i > 0 {
        assert(e.remove(i).drop_first() =~= e.drop_first().remove(i - 1));
        lemma_total_remove(e.drop_first(), i - 1);
    } else {
        assert(e.remove(0) =~= e.drop_first());
    }
}

proof fn lemma_evict_keeps_last(e: Seq<(Seq<char>, Seq<u8>)>, c: usize, max: usize)
    requires
        e.len() >= 1,
        c == total_len(e),
        e.last().1.len() <= max,
    ensures
        evict_spec(e, c, max).2 < e.len(),
        evict_spec(e, c, max).0 == e.skip(evict_spec(e, c, max).2 as int),
        evict_spec(e, c, max).1 == total_len(evict_spec(e, c, max).0),
    decreases e.len(),
{
    if c <= max {
        assert(e.skip(0) =~= e);
    } else {
        if e.len() == 1 {
            assert(e.drop_first().len() == 0);
            assert(total_len(e) == total_len(e.drop_first()) + e[0].1.len());
            assert(false);
        }
        let d = e.drop_first();
        assert(total_len(e) == total_len(d) + e[0].1.len());
        assert(d.last() == e.last());
        lemma_evict_keeps_last(d, sat_sub(c, e[0].1.len()), max);
        let r = evict_spec(d, sat_sub(c, e[0].1.len()), max);
        assert(d.skip(r.2 as int) =~= e.skip((r.2 + 1) as int));
    }
}

proof fn lemma_find_last_key(e: Seq<(Seq<char>, Seq<u8>)>, key: Seq<char>)
    requires
        e.len() >= 1,
        keys_distinct(e),
        e.last().0 == key,
    ensures
        find_key(e, key) == e.len() - 1,
{
    lemma_find_key_from(e, key, 0);
    let i = find_key(e, key);
    if i < e.len() - 1 {
        assert(e[i].0 == e[e.len() - 1].0);
    }
}

/// Read after write: when the byte count is exact, an insert of a value that
/// fits into an entry and into the cache stores it, a lookup right after
/// gives the value back, and the byte count stays exact.
pub proof fn lemma_insert_then_get(s: HotState, key: Seq<char>, value: Seq<u8>)
    requires
        hot_wf(s),
        accounted(s),
        value.len() <= s.max_entry_bytes,
        value.len() <= s.max_bytes,
        s.current_bytes + value.len() <= usize::MAX,
    ensures
        hot_insert_spec(s, key, value).1 is Stored,
        hot_get_spec(hot_insert_spec(s, key, value).0, key).1 == Some(value),
        hot_wf(hot_insert_spec(s, key, value).0),
        accounted(hot_insert_spec(s, key, value).0),
{
    lemma_find_key_from(s.entries, key, 0);
    lemma_put_keeps_wf(s, key, value);
    let i = find_key(s.entries, key);
    let put = lru_push_spec(s.entries, s.cap, key, value);
    let c0 = match put.1 {
        Some(prev) => sat_sub(s.current_bytes, prev.1.len()),
        None => s.current_bytes,
    };
    if 0 <= i < s.entries.len() {
        lemma_total_remove(s.entries, i);
        lemma_total_push(s.entries.remove(i), (key, value));
        assert(c0 == total_len(s.entries.remove(i)));
    } else if s.entries.len() >= s.cap {
        lemma_total_remove(s.entries, 0);
        assert(s.entries.remove(0) =~= s.entries.drop_first());
        lemma_total_push(s.entries.drop_first(), (key, value));
        assert(c0 == total_len(s.entries.drop_first()));
    } else {
        lemma_total_push(s.entries, (key, value));
    }
    let c1 = sat_add(c0, value.len());
    assert(c1 == total_len(put.0));
    assert(put.0.last() == (key, value));
    lemma_evict_keeps_last(put.0, c1, s.max_bytes);
    let ev = evict_spec(put.0, c1, s.max_bytes);
    let after = HotState { entries: ev.0, current_bytes: ev.1, ..s };
    assert(hot_insert_spec(s, key, value).0 == after);
    assert(ev.0.last() == put.0.last());
    assert forall|a: int, b: int| 0 <= a < b < ev.0.len() implies ev.0[a].0 != ev.0[b].0 by {
        assert(ev.0[a] == put.0[a + ev.2]);
        assert(ev.0[b] == put.0[b + ev.2]);
    }
    lemma_find_last_key(ev.0, key);
}

} // verus!
