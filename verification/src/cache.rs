//! Bounded snapshot caches shared by the plugin state resources.
//!
//! A cache is a `Vec` of owned snapshots. Keyed caches hold at most one
//! snapshot per handle key; every cache keeps only its newest entries once it
//! reaches its limit.

use vstd::prelude::*;

verus! {

/// An owned snapshot that can be duplicated without losing information.
pub trait SteamworksSnapshot: View + Sized {
    /// Returns an independent copy with the same abstract value.
    fn snapshot(&self) -> (copy: Self)
        ensures
            copy@ == self@,
    ;
}

/// A snapshot that belongs to one plugin-owned handle.
pub trait SteamworksKeyedSnapshot: SteamworksSnapshot {
    /// Raw handle key of a snapshot, as a function of its abstract value.
    spec fn key_of(view: Self::V) -> u64;

    /// Reads the raw handle key of this snapshot.
    fn snapshot_key(&self) -> (key: u64)
        ensures
            key == Self::key_of(self@),
    ;
}

/// Abstract values of a sequence of snapshots.
pub open spec fn snapshot_views<T: View>(s: Seq<T>) -> Seq<T::V> {
    s.map_values(|e: T| e@)
}

/// An empty sequence of snapshots has no abstract values.
pub proof fn lemma_snapshot_views_empty<T: View>(s: Seq<T>)
    requires
        s.len() == 0,
    ensures
        snapshot_views(s) == Seq::<T::V>::empty(),
{
    assert(snapshot_views(s) =~= Seq::<T::V>::empty());
}

/// The newest `limit` entries of `s`.
pub open spec fn trimmed<A>(s: Seq<A>, limit: nat) -> Seq<A> {
    if s.len() > limit {
        s.subrange(s.len() - limit, s.len() as int)
    } else {
        s
    }
}

/// Whether some entry of `s` has handle key `key`.
pub open spec fn has_key<T: SteamworksKeyedSnapshot>(s: Seq<T::V>, key: u64) -> bool {
    exists|i: int| 0 <= i < s.len() && T::key_of(s[i]) == key
}

/// No two entries of `s` share a handle key.
pub open spec fn keys_unique<T: SteamworksKeyedSnapshot>(s: Seq<T::V>) -> bool {
    forall|i: int, j: int|
        0 <= i < s.len() && 0 <= j < s.len() && i != j ==> T::key_of(s[i]) != T::key_of(s[j])
}

/// `s` with every entry whose key matches `value` replaced by `value`, or with
/// `value` appended (and the oldest entries dropped past `limit`) when no
/// entry has that key.
pub open spec fn upserted<T: SteamworksKeyedSnapshot>(
    s: Seq<T::V>,
    value: T::V,
    limit: nat,
) -> Seq<T::V> {
    if has_key::<T>(s, T::key_of(value)) {
        s.map_values(|e: T::V| if T::key_of(e) == T::key_of(value) { value } else { e })
    } else {
        trimmed(s.push(value), limit)
    }
}

/// `s` without the entries whose handle key is `key`, in the same order.
pub open spec fn without_key<T: SteamworksKeyedSnapshot>(s: Seq<T::V>, key: u64) -> Seq<T::V> {
    s.filter(key_differs::<T>(key))
}

/// Holds of the abstract snapshots whose handle key is not `key`.
pub open spec fn key_differs<T: SteamworksKeyedSnapshot>(key: u64) -> spec_fn(T::V) -> bool {
    |e: T::V| T::key_of(e) != key
}

/// Drops the oldest entries of `items` until at most `limit` remain.
pub fn trim_oldest<T>(items: &mut Vec<T>, limit: usize)
    ensures
        final(items)@ == trimmed(old(items)@, limit as nat),
{
    let len = items.len();
    if len > limit {
        let kept = items.split_off(len - limit);
        *items = kept;
    }
}


/// Replaces the entry that shares `value`'s handle key, or appends `value`
/// and drops the oldest entries past `limit`.
pub fn upsert_snapshot<T: SteamworksKeyedSnapshot>(items: &mut Vec<T>, value: T, limit: usize)
    requires
        keys_unique::<T>(snapshot_views(old(items)@)),
    ensures
        snapshot_views(final(items)@) == upserted::<T>(
            snapshot_views(old(items)@),
            value@,
            limit as nat,
        ),
        keys_unique::<T>(snapshot_views(final(items)@)),
{
    let ghost old_views = snapshot_views(items@);
    let key = value.snapshot_key();
    let mut i: usize = 0;
    while i < items.len()
        invariant
            0 <= i <= items@.len(),
            items@ == old(items)@,
            old_views == snapshot_views(items@),
            keys_unique::<T>(old_views),
            key == T::key_of(value@),
            forall|j: int| 0 <= j < i ==> T::key_of(#[trigger] old_views[j]) != key,
        decreases items@.len() - i,
    {
        if items[i].snapshot_key() == key {
            let ghost idx = i as int;
            assert(old_views[idx] == items@[idx]@);
            items.set(i, value);
            proof {
                assert(has_key::<T>(old_views, key));
                let expected = old_views.map_values(
                    |e: T::V| if T::key_of(e) == key { value@ } else { e },
                );
                assert forall|j: int| 0 <= j < old_views.len() implies
                    #[trigger] snapshot_views(items@)[j] == expected[j] by {
                    if j != idx {
                        assert(T::key_of(old_views[j]) != T::key_of(old_views[idx]));
                    }
                }
                assert(snapshot_views(items@) =~= expected);
            }
            return;
        }
        i += 1;
    }
    proof {
        assert(!has_key::<T>(old_views, key));
    }
    items.push(value);
    proof {
        let pushed = old_views.push(value@);
        assert(snapshot_views(items@) =~= pushed);
        assert(keys_unique::<T>(pushed));
    }
    trim_oldest(items, limit);
    proof {
        let pushed = old_views.push(value@);
        assert(snapshot_views(items@) =~= trimmed(pushed, limit as nat));
        let t = trimmed(pushed, limit as nat);
        if pushed.len() > limit {
            let off = pushed.len() - limit;
            assert forall|a: int, b: int|
                0 <= a < t.len() && 0 <= b < t.len() && a != b implies
                T::key_of(#[trigger] t[a]) != T::key_of(#[trigger] t[b]) by {
                assert(t[a] == pushed[a + off]);
                assert(t[b] == pushed[b + off]);
            }
        }
    }
}


/// Keeps only the entries whose handle key differs from `key`, in order.
pub fn remove_key<T: SteamworksKeyedSnapshot>(items: &mut Vec<T>, key: u64)
    ensures
        snapshot_views(final(items)@) == without_key::<T>(snapshot_views(old(items)@), key),
{
    let ghost orig = snapshot_views(items@);
    let ghost pred = key_differs::<T>(key);
    let mut kept: Vec<T> = Vec::new();
    let mut i: usize = 0;
    proof {
        reveal(Seq::filter);
        assert(orig.take(0) =~= Seq::<T::V>::empty());
        assert(snapshot_views(kept@) =~= orig.take(0).filter(pred));
    }
    while i < items.len()
        invariant
            0 <= i <= items@.len(),
            orig == snapshot_views(items@),
            pred == key_differs::<T>(key),
            snapshot_views(kept@) == orig.take(i as int).filter(pred),
        decreases items@.len() - i,
    {
        let ghost before = orig.take(i as int);
        proof {
            assert(orig.take(i as int + 1) =~= before.push(orig[i as int]));
            assert(orig.take(i as int + 1).drop_last() =~= before);
            reveal(Seq::filter);
        }
        if items[i].snapshot_key() != key {
            let copy = items[i].snapshot();
            let ghost prev = kept@;
            kept.push(copy);
            assert(snapshot_views(kept@) =~= snapshot_views(prev).push(copy@));
            assert(snapshot_views(kept@) =~= before.filter(pred).push(orig[i as int]));
        } else {
            assert(snapshot_views(kept@) =~= before.filter(pred));
        }
        i += 1;
    }
    proof {
        assert(orig.take(i as int) =~= orig);
    }
    *items = kept;
}

/// Appends copies of `extra` to `items`, then drops the oldest entries past
/// `limit`.
pub fn append_snapshots<T: SteamworksSnapshot>(items: &mut Vec<T>, extra: &Vec<T>, limit: usize)
    ensures
        snapshot_views(final(items)@) == trimmed(
            snapshot_views(old(items)@) + snapshot_views(extra@),
            limit as nat,
        ),
{
    extend_snapshots(items, extra);
    let ghost extended = items@;
    trim_oldest(items, limit);
    proof {
        assert(snapshot_views(items@) =~= trimmed(snapshot_views(extended), limit as nat));
    }
}

/// Appends copies of `extra` to `items`.
pub fn extend_snapshots<T: SteamworksSnapshot>(items: &mut Vec<T>, extra: &Vec<T>)
    ensures
        snapshot_views(final(items)@) == snapshot_views(old(items)@) + snapshot_views(extra@),
{
    let ghost start = snapshot_views(items@);
    let mut i: usize = 0;
    while i < extra.len()
        invariant
            0 <= i <= extra@.len(),
            snapshot_views(items@) == start + snapshot_views(extra@).take(i as int),
        decreases extra@.len() - i,
    {
        let copy = extra[i].snapshot();
        let ghost prev = items@;
        items.push(copy);
        proof {
            assert(snapshot_views(items@) =~= snapshot_views(prev).push(copy@));
            assert(snapshot_views(extra@).take(i as int + 1) =~= snapshot_views(extra@).take(
                i as int,
            ).push(extra@[i as int]@));
            assert(snapshot_views(items@) =~= start + snapshot_views(extra@).take(i as int + 1));
        }
        i += 1;
    }
    proof {
        assert(snapshot_views(extra@).take(i as int) =~= snapshot_views(extra@));
    }
}

/// Copies every entry of `items`.
pub fn snapshot_all<T: SteamworksSnapshot>(items: &Vec<T>) -> (copies: Vec<T>)
    ensures
        snapshot_views(copies@) == snapshot_views(items@),
{
    let mut copies: Vec<T> = Vec::new();
    let mut i: usize = 0;
    while i < items.len()
        invariant
            0 <= i <= items@.len(),
            snapshot_views(copies@) == snapshot_views(items@).take(i as int),
        decreases items@.len() - i,
    {
        let copy = items[i].snapshot();
        let ghost prev = copies@;
        copies.push(copy);
        proof {
            assert(snapshot_views(copies@) =~= snapshot_views(prev).push(copy@));
            assert(snapshot_views(copies@) =~= snapshot_views(items@).take(i as int + 1));
        }
        i += 1;
    }
    proof {
        assert(snapshot_views(items@).take(i as int) =~= snapshot_views(items@));
    }
    copies
}


/// Holds of the abstract snapshots whose handle key is `key`.
pub open spec fn key_matches<T: SteamworksKeyedSnapshot>(key: u64) -> spec_fn(T::V) -> bool {
    |e: T::V| T::key_of(e) == key
}

/// Whether `i` is the index of the oldest entry of `s` with handle key `key`.
pub open spec fn is_first_for_key<T: SteamworksKeyedSnapshot>(s: Seq<T::V>, key: u64, i: int) -> bool {
    &&& 0 <= i < s.len()
    &&& T::key_of(s[i]) == key
    &&& forall|j: int| 0 <= j < i ==> T::key_of(#[trigger] s[j]) != key
}

/// Whether `i` is the index of the newest entry of `s` with handle key `key`.
pub open spec fn is_last_for_key<T: SteamworksKeyedSnapshot>(s: Seq<T::V>, key: u64, i: int) -> bool {
    &&& 0 <= i < s.len()
    &&& T::key_of(s[i]) == key
    &&& forall|j: int| i < j < s.len() ==> T::key_of(#[trigger] s[j]) != key
}

/// The oldest entry of `s` with handle key `key`, if any.
pub open spec fn first_for_key<T: SteamworksKeyedSnapshot>(s: Seq<T::V>, key: u64) -> Option<T::V> {
    if has_key::<T>(s, key) {
        Some(s[choose|i: int| is_first_for_key::<T>(s, key, i)])
    } else {
        None
    }
}

/// The newest entry of `s` with handle key `key`, if any.
pub open spec fn last_for_key<T: SteamworksKeyedSnapshot>(s: Seq<T::V>, key: u64) -> Option<T::V> {
    if has_key::<T>(s, key) {
        Some(s[choose|i: int| is_last_for_key::<T>(s, key, i)])
    } else {
        None
    }
}

/// The abstract value of an optional reference.
pub open spec fn option_ref_view<T: View>(r: Option<&T>) -> Option<T::V> {
    match r {
        Some(v) => Some(v@),
        None => None,
    }
}

/// The oldest entry with a key is found at its one oldest index.
proof fn lemma_first_for_key_at<T: SteamworksKeyedSnapshot>(s: Seq<T::V>, key: u64, i: int)
    requires
        is_first_for_key::<T>(s, key, i),
    ensures
        first_for_key::<T>(s, key) == Some(s[i]),
{
    assert(has_key::<T>(s, key));
    let c = choose|c: int| is_first_for_key::<T>(s, key, c);
    assert(is_first_for_key::<T>(s, key, c));
    if c < i {
        assert(T::key_of(s[c]) != key);
    } else if c > i {
        assert(T::key_of(s[i]) != key);
    }
}

/// The newest entry with a key is found at its one newest index.
proof fn lemma_last_for_key_at<T: SteamworksKeyedSnapshot>(s: Seq<T::V>, key: u64, i: int)
    requires
        is_last_for_key::<T>(s, key, i),
    ensures
        last_for_key::<T>(s, key) == Some(s[i]),
{
    assert(has_key::<T>(s, key));
    let c = choose|c: int| is_last_for_key::<T>(s, key, c);
    assert(is_last_for_key::<T>(s, key, c));
    if c < i {
        assert(T::key_of(s[i]) != key);
    } else if c > i {
        assert(T::key_of(s[c]) != key);
    }
}

/// Returns the oldest entry whose handle key is `key`.
pub fn find_first_by_key<T: SteamworksKeyedSnapshot>(items: &Vec<T>, key: u64) -> (found: Option<&T>)
    ensures
        option_ref_view(found) == first_for_key::<T>(snapshot_views(items@), key),
{
    let ghost views = snapshot_views(items@);
    let mut i: usize = 0;
    while i < items.len()
        invariant
            0 <= i <= items@.len(),
            views == snapshot_views(items@),
            forall|j: int| 0 <= j < i ==> T::key_of(#[trigger] views[j]) != key,
        decreases items@.len() - i,
    {
        if items[i].snapshot_key() == key {
            proof {
                lemma_first_for_key_at::<T>(views, key, i as int);
            }
            return Some(&items[i]);
        }
        i += 1;
    }
    None
}

/// Returns the newest entry whose handle key is `key`.
pub fn find_last_by_key<T: SteamworksKeyedSnapshot>(items: &Vec<T>, key: u64) -> (found: Option<&T>)
    ensures
        option_ref_view(found) == last_for_key::<T>(snapshot_views(items@), key),
{
    let ghost views = snapshot_views(items@);
    let mut i: usize = items.len();
    while i > 0
        invariant
            0 <= i <= items@.len(),
            views == snapshot_views(items@),
            forall|j: int| i <= j < items@.len() ==> T::key_of(#[trigger] views[j]) != key,
        decreases i,
    {
        i -= 1;
        if items[i].snapshot_key() == key {
            proof {
                lemma_last_for_key_at::<T>(views, key, i as int);
            }
            return Some(&items[i]);
        }
    }
    None
}

/// Copies the entries whose handle key is `key`, oldest first.
pub fn snapshots_for_key<T: SteamworksKeyedSnapshot>(items: &Vec<T>, key: u64) -> (copies: Vec<T>)
    ensures
        snapshot_views(copies@) == snapshot_views(items@).filter(key_matches::<T>(key)),
{
    let ghost orig = snapshot_views(items@);
    let ghost pred = key_matches::<T>(key);
    let mut copies: Vec<T> = Vec::new();
    let mut i: usize = 0;
    proof {
        reveal(Seq::filter);
        assert(orig.take(0) =~= Seq::<T::V>::empty());
        assert(snapshot_views(copies@) =~= orig.take(0).filter(pred));
    }
    while i < items.len()
        invariant
            0 <= i <= items@.len(),
            orig == snapshot_views(items@),
            pred == key_matches::<T>(key),
            snapshot_views(copies@) == orig.take(i as int).filter(pred),
        decreases items@.len() - i,
    {
        let ghost before = orig.take(i as int);
        proof {
            assert(orig.take(i as int + 1) =~= before.push(orig[i as int]));
            assert(orig.take(i as int + 1).drop_last() =~= before);
            reveal(Seq::filter);
        }
        if items[i].snapshot_key() == key {
            let copy = items[i].snapshot();
            let ghost prev = copies@;
            copies.push(copy);
            assert(snapshot_views(copies@) =~= snapshot_views(prev).push(copy@));
            assert(snapshot_views(copies@) =~= before.filter(pred).push(orig[i as int]));
        } else {
            assert(snapshot_views(copies@) =~= before.filter(pred));
        }
        i += 1;
    }
    proof {
        assert(orig.take(i as int) =~= orig);
    }
    copies
}

/// Counts the entries whose handle key is `key`.
pub fn count_for_key<T: SteamworksKeyedSnapshot>(items: &Vec<T>, key: u64) -> (count: usize)
    ensures
        count == snapshot_views(items@).filter(key_matches::<T>(key)).len(),
{
    let ghost orig = snapshot_views(items@);
    let ghost pred = key_matches::<T>(key);
    let mut count: usize = 0;
    let mut i: usize = 0;
    proof {
        reveal(Seq::filter);
        assert(orig.take(0) =~= Seq::<T::V>::empty());
    }
    while i < items.len()
        invariant
            0 <= i <= items@.len(),
            orig == snapshot_views(items@),
            pred == key_matches::<T>(key),
            count == orig.take(i as int).filter(pred).len(),
            count <= i,
        decreases items@.len() - i,
    {
        let ghost before = orig.take(i as int);
        proof {
            assert(orig.take(i as int + 1) =~= before.push(orig[i as int]));
            assert(orig.take(i as int + 1).drop_last() =~= before);
            reveal(Seq::filter);
        }
        if items[i].snapshot_key() == key {
            count += 1;
        }
        i += 1;
    }
    proof {
        assert(orig.take(i as int) =~= orig);
    }
    count
}

/// An upsert never grows a cache that is within its limit past that limit.
pub proof fn lemma_upserted_bounded<T: SteamworksKeyedSnapshot>(
    s: Seq<T::V>,
    value: T::V,
    limit: nat,
)
    requires
        s.len() <= limit,
    ensures
        upserted::<T>(s, value, limit).len() <= limit,
{
}

/// Removing the entries of one key keeps the remaining keys unique and does
/// not grow the cache.
pub proof fn lemma_without_key_keeps_cache_shape<T: SteamworksKeyedSnapshot>(
    s: Seq<T::V>,
    key: u64,
    limit: nat,
)
    requires
        keys_unique::<T>(s),
        s.len() <= limit,
    ensures
        keys_unique::<T>(without_key::<T>(s, key)),
        without_key::<T>(s, key).len() <= limit,
{
    broadcast use vstd::seq_lib::group_filter_ensures;
    let f = without_key::<T>(s, key);
    s.lemma_filter_len(key_differs::<T>(key));
    lemma_filter_keeps_unique_keys::<T>(s, key_differs::<T>(key));
}

/// A filtered cache keeps unique keys.
pub proof fn lemma_filter_keeps_unique_keys<T: SteamworksKeyedSnapshot>(
    s: Seq<T::V>,
    pred: spec_fn(T::V) -> bool,
)
    requires
        keys_unique::<T>(s),
    ensures
        keys_unique::<T>(s.filter(pred)),
    decreases s.len(),
{
    reveal(Seq::filter);
    if s.len() > 0 {
        let rest = s.drop_last();
        assert(keys_unique::<T>(rest));
        lemma_filter_keeps_unique_keys::<T>(rest, pred);
        if pred(s.last()) {
            let f = rest.filter(pred);
            assert forall|i: int| 0 <= i < f.len() implies T::key_of(#[trigger] f[i]) != T::key_of(
                s.last(),
            ) by {
                lemma_filter_member::<T::V>(rest, pred, i);
            }
        }
    }
}

/// Filtering twice keeps what passes both predicates.
pub proof fn lemma_filter_filter<A>(s: Seq<A>, p: spec_fn(A) -> bool, q: spec_fn(A) -> bool)
    ensures
        s.filter(p).filter(q) == s.filter(|x: A| p(x) && q(x)),
    decreases s.len(),
{
    reveal(Seq::filter);
    let both = |x: A| p(x) && q(x);
    if s.len() == 0 {
        assert(s.filter(p) =~= Seq::<A>::empty());
        assert(s.filter(p).filter(q) =~= Seq::<A>::empty());
        assert(s.filter(both) =~= Seq::<A>::empty());
    } else {
        let rest = s.drop_last();
        lemma_filter_filter(rest, p, q);
        let rp = rest.filter(p);
        if p(s.last()) {
            assert(s.filter(p) == rp.push(s.last()));
            assert(rp.push(s.last()).drop_last() =~= rp);
            assert(rp.push(s.last()).last() == s.last());
        } else {
            assert(s.filter(p) == rp);
        }
    }
}

/// Filters by predicates that agree everywhere give the same sequence.
pub proof fn lemma_filter_agree<A>(s: Seq<A>, p: spec_fn(A) -> bool, q: spec_fn(A) -> bool)
    requires
        forall|x: A| #[trigger] p(x) == q(x),
    ensures
        s.filter(p) == s.filter(q),
{
    assert(p =~= q);
}

/// A filter that keeps everything keeps the sequence.
pub proof fn lemma_filter_keeps_all<A>(s: Seq<A>, p: spec_fn(A) -> bool)
    requires
        forall|x: A| #[trigger] p(x),
    ensures
        s.filter(p) == s,
    decreases s.len(),
{
    reveal(Seq::filter);
    if s.len() == 0 {
        assert(s.filter(p) =~= s);
    } else {
        lemma_filter_keeps_all(s.drop_last(), p);
        assert(s.drop_last().push(s.last()) =~= s);
    }
}

/// An element that passes the filter stays in the filtered sequence.
pub proof fn lemma_filter_contains<A>(s: Seq<A>, p: spec_fn(A) -> bool, i: int)
    requires
        0 <= i < s.len(),
        p(s[i]),
    ensures
        s.filter(p).contains(s[i]),
    decreases s.len(),
{
    reveal(Seq::filter);
    let rest = s.drop_last();
    let f = rest.filter(p);
    if i == s.len() - 1 {
        assert(s.last() == s[i]);
        assert(s.filter(p) == f.push(s[i]));
        assert(s.filter(p)[f.len() as int] == s[i]);
    } else {
        assert(rest[i] == s[i]);
        lemma_filter_contains(rest, p, i);
        let j = choose|j: int| 0 <= j < f.len() && f[j] == s[i];
        if p(s.last()) {
            assert(s.filter(p) == f.push(s.last()));
            assert(s.filter(p)[j] == f[j]);
        }
    }
}

/// Every member of a filtered sequence is a member of the unfiltered one.
pub proof fn lemma_filter_member<A>(s: Seq<A>, pred: spec_fn(A) -> bool, i: int)
    requires
        0 <= i < s.filter(pred).len(),
    ensures
        exists|j: int| 0 <= j < s.len() && s[j] == s.filter(pred)[i],
    decreases s.len(),
{
    reveal(Seq::filter);
    let rest = s.drop_last();
    let f = rest.filter(pred);
    if pred(s.last()) && i == f.len() {
        assert(s[s.len() - 1] == s.filter(pred)[i]);
    } else {
        lemma_filter_member::<A>(rest, pred, i);
        let j = choose|j: int| 0 <= j < rest.len() && rest[j] == f[i];
        assert(s[j] == s.filter(pred)[i]);
    }
}

/// In a cache with unique keys, the entry with key `key` is the one found
/// for it.
pub proof fn lemma_unique_key_found<T: SteamworksKeyedSnapshot>(s: Seq<T::V>, key: u64, i: int)
    requires
        keys_unique::<T>(s),
        0 <= i < s.len(),
        T::key_of(s[i]) == key,
    ensures
        first_for_key::<T>(s, key) == Some(s[i]),
{
    assert forall|j: int| 0 <= j < i implies T::key_of(#[trigger] s[j]) != key by {
        assert(T::key_of(s[j]) != T::key_of(s[i]));
    }
    lemma_first_for_key_at::<T>(s, key, i);
}

/// An upsert keeps the keys of a cache unique.
pub proof fn lemma_upserted_keys_unique<T: SteamworksKeyedSnapshot>(s: Seq<T::V>, value: T::V, limit: nat)
    requires
        keys_unique::<T>(s),
    ensures
        keys_unique::<T>(upserted::<T>(s, value, limit)),
        limit > 0 ==> has_key::<T>(upserted::<T>(s, value, limit), T::key_of(value)),
{
    let key = T::key_of(value);
    let u = upserted::<T>(s, value, limit);
    if has_key::<T>(s, key) {
        let w = choose|w: int| 0 <= w < s.len() && T::key_of(s[w]) == key;
        assert forall|a: int, b: int|
            0 <= a < u.len() && 0 <= b < u.len() && a != b implies T::key_of(#[trigger] u[a]) != T::key_of(
                #[trigger] u[b],
            ) by {
            if T::key_of(s[a]) == key {
                assert(T::key_of(s[b]) != T::key_of(s[a]));
            } else if T::key_of(s[b]) == key {
                assert(T::key_of(s[a]) != T::key_of(s[b]));
            } else {
                assert(T::key_of(s[a]) != T::key_of(s[b]));
            }
        }
        assert(T::key_of(u[w]) == key);
    } else {
        let p = s.push(value);
        assert(keys_unique::<T>(p)) by {
            assert forall|a: int, b: int|
                0 <= a < p.len() && 0 <= b < p.len() && a != b implies T::key_of(#[trigger] p[a])
                    != T::key_of(#[trigger] p[b]) by {
                if a < s.len() && b < s.len() {
                    assert(T::key_of(s[a]) != T::key_of(s[b]));
                } else if a < s.len() {
                    assert(T::key_of(s[a]) != key);
                } else {
                    assert(T::key_of(s[b]) != key);
                }
            }
        }
        if p.len() > limit {
            let off = p.len() - limit;
            assert forall|a: int, b: int|
                0 <= a < u.len() && 0 <= b < u.len() && a != b implies T::key_of(#[trigger] u[a])
                    != T::key_of(#[trigger] u[b]) by {
                assert(u[a] == p[a + off]);
                assert(u[b] == p[b + off]);
            }
            if limit > 0 {
                assert(u[u.len() - 1] == p[p.len() - 1]);
            }
        } else {
            assert(u[u.len() - 1] == value);
        }
    }
}

/// An upsert of a cached key keeps the length; of a new key, it adds one
/// entry until the cache is full and then keeps it full.
pub proof fn lemma_upserted_length<T: SteamworksKeyedSnapshot>(s: Seq<T::V>, value: T::V, limit: nat)
    requires
        s.len() <= limit,
    ensures
        upserted::<T>(s, value, limit).len() == if has_key::<T>(s, T::key_of(value)) {
            s.len()
        } else if s.len() < limit {
            s.len() + 1
        } else {
            limit
        },
{
}

/// A new key upserted into a full cache evicts the oldest entry: the rest
/// keep their order and the new value comes last.
pub proof fn lemma_upserted_evicts_oldest<T: SteamworksKeyedSnapshot>(s: Seq<T::V>, value: T::V, limit: nat)
    requires
        !has_key::<T>(s, T::key_of(value)),
        s.len() == limit,
        limit > 0,
    ensures
        upserted::<T>(s, value, limit) == s.subrange(1, s.len() as int).push(value),
{
    assert(upserted::<T>(s, value, limit) =~= s.subrange(1, s.len() as int).push(value));
}

/// An upsert that evicts nothing leaves what is found for every other key.
pub proof fn lemma_upserted_keeps_other_keys<T: SteamworksKeyedSnapshot>(
    s: Seq<T::V>,
    value: T::V,
    limit: nat,
    other: u64,
)
    requires
        keys_unique::<T>(s),
        other != T::key_of(value),
        has_key::<T>(s, T::key_of(value)) || s.len() < limit,
    ensures
        first_for_key::<T>(upserted::<T>(s, value, limit), other) == first_for_key::<T>(s, other),
{
    let key = T::key_of(value);
    let u = upserted::<T>(s, value, limit);
    lemma_upserted_keys_unique::<T>(s, value, limit);
    if !has_key::<T>(s, key) {
        assert(u =~= s.push(value));
    }
    assert(u.len() >= s.len());
    assert forall|i: int| 0 <= i < s.len() && T::key_of(s[i]) != key implies #[trigger] u[i] == s[i] by {}
    if has_key::<T>(s, other) {
        let i = choose|i: int| 0 <= i < s.len() && T::key_of(s[i]) == other;
        assert(u[i] == s[i]);
        lemma_unique_key_found::<T>(s, other, i);
        lemma_unique_key_found::<T>(u, other, i);
    } else {
        assert forall|j: int| 0 <= j < u.len() implies T::key_of(#[trigger] u[j]) != other by {
            if j < s.len() && T::key_of(s[j]) != key {
                assert(u[j] == s[j]);
            } else {
                assert(u[j] == value);
            }
        }
    }
}

/// Removing one key leaves what is found for every other key.
pub proof fn lemma_without_key_keeps_other_keys<T: SteamworksKeyedSnapshot>(s: Seq<T::V>, key: u64, other: u64)
    requires
        keys_unique::<T>(s),
        other != key,
    ensures
        first_for_key::<T>(without_key::<T>(s, key), other) == first_for_key::<T>(s, other),
{
    let pred = key_differs::<T>(key);
    let w = without_key::<T>(s, key);
    lemma_filter_keeps_unique_keys::<T>(s, pred);
    if has_key::<T>(s, other) {
        let i = choose|i: int| 0 <= i < s.len() && T::key_of(s[i]) == other;
        lemma_filter_contains::<T::V>(s, pred, i);
        let j = choose|j: int| 0 <= j < w.len() && w[j] == s[i];
        lemma_unique_key_found::<T>(s, other, i);
        lemma_unique_key_found::<T>(w, other, j);
    } else {
        assert forall|j: int| 0 <= j < w.len() implies T::key_of(#[trigger] w[j]) != other by {
            lemma_filter_member::<T::V>(s, pred, j);
        }
    }
}

} // verus!
