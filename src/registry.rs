//! The proxy registry: descriptors keyed by id, held in a `DashMap`.

use vstd::prelude::*;

use dashmap::DashMap;

use vstd::utf8::encode_utf8;

use crate::prober::{probed, PROBE_DEADLINE_MS};
use crate::proxy::{opt_chars, views, Proxy, ProxyView};

verus! {

#[verifier::external_type_specification]
#[verifier::external_body]
#[verifier::reject_recursive_types(K)]
#[verifier::reject_recursive_types(V)]
#[verifier::reject_recursive_types(S)]
pub struct ExDashMap<K, V, S>(DashMap<K, V, S>);

/// The entries of a registry map: each key's characters, mapped to the view
/// of the descriptor stored under it.
pub uninterp spec fn map_entries(m: DashMap<String, Proxy>) -> Map<Seq<char>, ProxyView>;

/// Relies on `DashMap::new`: a new map holds no entry.
#[verifier::external_body]
fn map_new() -> (r: DashMap<String, Proxy>)
    ensures
        map_entries(r) == no_entries(),
{
    DashMap::new()
}

/// Relies on `DashMap::insert`: the entry under `key` becomes `value`,
/// replacing any previous one.
#[verifier::external_body]
fn map_insert(m: &mut DashMap<String, Proxy>, key: String, value: Proxy)
    ensures
        map_entries(*final(m)) == map_entries(*old(m)).insert(key@, value@),
{
    m.insert(key, value);
}

/// Relies on `DashMap::remove`: the entry under `key`, if any, is removed.
#[verifier::external_body]
fn map_remove(m: &mut DashMap<String, Proxy>, key: &str)
    ensures
        map_entries(*final(m)) == map_entries(*old(m)).remove(key@),
{
    m.remove(key);
}

/// Relies on `DashMap::clear`: every entry is removed.
#[verifier::external_body]
fn map_clear(m: &mut DashMap<String, Proxy>)
    ensures
        map_entries(*final(m)) == no_entries(),
{
    m.clear();
}

/// A registry with no entry.
pub open spec fn no_entries() -> Map<Seq<char>, ProxyView> {
    Map::empty()
}

/// The entries of `m` whose descriptor is marked alive.
pub open spec fn alive_entries(m: Map<Seq<char>, ProxyView>) -> Map<Seq<char>, ProxyView> {
    m.restrict(m.dom().filter(|k: Seq<char>| m[k].is_alive))
}

/// Relies on `DashMap::retain`: exactly the entries for which the predicate
/// holds stay, unchanged; here the predicate reads the `is_alive` field.
#[verifier::external_body]
fn map_retain_alive(m: &mut DashMap<String, Proxy>)
    ensures
        map_entries(*final(m)) == alive_entries(map_entries(*old(m))),
{
    m.retain(|_, p| p.is_alive);
}

/// Relies on `DashMap::get`: the descriptor stored under `key`, copied out.
#[verifier::external_body]
fn map_get(m: &DashMap<String, Proxy>, key: &str) -> (r: Option<Proxy>)
    ensures
        match r {
            Some(p) => map_entries(*m).contains_key(key@) && p@ == map_entries(*m)[key@],
            None => !map_entries(*m).contains_key(key@),
        },
{
    m.get(key).map(|e| e.value().clone())
}

/// Relies on `DashMap::iter`: every entry is visited exactly once; each
/// key and descriptor is copied out, in the map's own order.
#[verifier::external_body]
fn map_entries_copied(m: &DashMap<String, Proxy>) -> (r: Vec<(String, Proxy)>)
    ensures
        forall|i: int|
            0 <= i < r@.len() ==> map_entries(*m).contains_key((#[trigger] r@[i]).0@)
                && map_entries(*m)[r@[i].0@] == r@[i].1@,
        forall|i: int, j: int| 0 <= i < j < r@.len() ==> (#[trigger] r@[i]).0@ != (#[trigger] r@[j]).0@,
        forall|k: Seq<char>|
            map_entries(*m).contains_key(k) ==> exists|i: int| 0 <= i < r@.len() && (#[trigger] r@[i]).0@ == k,
{
    m.iter().map(|e| (e.key().clone(), e.value().clone())).collect()
}

/// `s` lists every descriptor of the registry `m` exactly once, in some order.
pub open spec fn is_snapshot(s: Seq<ProxyView>, m: Map<Seq<char>, ProxyView>) -> bool {
    &&& forall|i: int| 0 <= i < s.len() ==> m.contains_key((#[trigger] s[i]).id) && m[s[i].id] == s[i]
    &&& forall|i: int, j: int| 0 <= i < j < s.len() ==> (#[trigger] s[i]).id != (#[trigger] s[j]).id
    &&& forall|k: Seq<char>| m.contains_key(k) ==> exists|i: int| 0 <= i < s.len() && (#[trigger] s[i]).id == k
}

/// The registry of upstream descriptors, keyed by id.
pub struct ProxyPool {
    proxies: DashMap<String, Proxy>,
}

impl View for ProxyPool {
    type V = Map<Seq<char>, ProxyView>;

    closed spec fn view(&self) -> Map<Seq<char>, ProxyView> {
        map_entries(self.proxies)
    }
}

impl ProxyPool {
    /// Every descriptor is stored under its own id.
    pub open spec fn wf(&self) -> bool {
        forall|k: Seq<char>| #[trigger] self@.contains_key(k) ==> self@[k].id == k
    }

    /// An empty registry.
    pub fn new() -> (r: ProxyPool)
        ensures
            r.wf(),
            r@ == no_entries(),
    {
        ProxyPool { proxies: map_new() }
    }

    /// Inserts `proxy` under its id, replacing any descriptor with that id.
    pub fn add(&mut self, proxy: Proxy)
        requires
            old(self).wf(),
        ensures
            final(self).wf(),
            final(self)@ == old(self)@.insert(proxy.id@, proxy@),
    {
        let key = proxy.id.clone();
        map_insert(&mut self.proxies, key, proxy);
    }

    /// A copy of the descriptor with id `id`, if there is one.
    pub fn get(&self, id: &str) -> (r: Option<Proxy>)
        ensures
            match r {
                Some(p) => self@.contains_key(id@) && p@ == self@[id@],
                None => !self@.contains_key(id@),
            },
    {
        map_get(&self.proxies, id)
    }

    /// Removes the descriptor with id `id`, if there is one.
    pub fn remove(&mut self, id: &str)
        requires
            old(self).wf(),
        ensures
            final(self).wf(),
            final(self)@ == old(self)@.remove(id@),
    {
        map_remove(&mut self.proxies, id);
    }

    /// Removes every descriptor.
    pub fn clear(&mut self)
        ensures
            final(self).wf(),
            final(self)@ == no_entries(),
    {
        map_clear(&mut self.proxies);
    }

    /// Removes every descriptor that is not marked alive.
    pub fn clear_dead(&mut self)
        requires
            old(self).wf(),
        ensures
            final(self).wf(),
            final(self)@ == alive_entries(old(self)@),
    {
        map_retain_alive(&mut self.proxies);
    }

    /// A point-in-time copy of every descriptor, each listed once.
    pub fn get_all(&self) -> (r: Vec<Proxy>)
        requires
            self.wf(),
        ensures
            is_snapshot(views(r@), self@),
    {
        let pairs = map_entries_copied(&self.proxies);
        let mut out: Vec<Proxy> = Vec::new();
        let mut i: usize = 0;
        while i < pairs.len()
            invariant
                i <= pairs@.len(),
                out@.len() == i,
                self.wf(),
                forall|j: int| 0 <= j < i ==> (#[trigger] out@[j])@ == pairs@[j].1@,
                forall|j: int|
                    0 <= j < pairs@.len() ==> self@.contains_key((#[trigger] pairs@[j]).0@)
                        && self@[pairs@[j].0@] == pairs@[j].1@,
            decreases pairs@.len() - i,
        {
            out.push(pairs[i].1.duplicate());
            i = i + 1;
        }
        proof {
            let s = views(out@);
            assert forall|j: int| 0 <= j < s.len() implies s[j].id == pairs@[j].0@ by {
                assert(self@.contains_key(pairs@[j].0@));
            }
            assert forall|k: Seq<char>| self@.contains_key(k) implies exists|j: int|
                0 <= j < s.len() && (#[trigger] s[j]).id == k by {
                let j = choose|j: int| 0 <= j < pairs@.len() && (#[trigger] pairs@[j]).0@ == k;
                assert(s[j].id == k);
            }
            assert forall|a: int, b: int| 0 <= a < b < s.len() implies (#[trigger] s[a]).id != (#[trigger] s[b]).id by {
                assert(pairs@[a].0@ != pairs@[b].0@);
            }
        }
        out
    }
}

/// After a descriptor with id `id` has been added, every snapshot of the
/// registry lists exactly one descriptor with that id.
pub proof fn lemma_added_id_listed_once(m: Map<Seq<char>, ProxyView>, id: Seq<char>, s: Seq<ProxyView>)
    requires
        m.contains_key(id),
        is_snapshot(s, m),
    ensures
        exists|i: int| 0 <= i < s.len() && (#[trigger] s[i]).id == id,
        forall|i: int, j: int| 0 <= i < s.len() && 0 <= j < s.len() && (#[trigger] s[i]).id == id
            && (#[trigger] s[j]).id == id ==> i == j,
{
    assert forall|i: int, j: int| 0 <= i < s.len() && 0 <= j < s.len() && (#[trigger] s[i]).id == id
        && (#[trigger] s[j]).id == id implies i == j by {
        if i < j {
            assert(s[i].id != s[j].id);
        } else if j < i {
            assert(s[j].id != s[i].id);
        }
    }
}

} // verus!

verus! {

impl ProxyPool {
    /// Replaces the connection fields of the descriptor with id `id` and
    /// marks it unprobed (dead, no latency). Returns whether it exists; the
    /// registry is unchanged when it does not.
    pub fn update(
        &mut self,
        id: &str,
        protocol: String,
        host: String,
        port: u16,
        user: Option<String>,
        pass: Option<String>,
    ) -> (r: bool)
        requires
            old(self).wf(),
        ensures
            final(self).wf(),
            r == old(self)@.contains_key(id@),
            r ==> final(self)@ == old(self)@.insert(
                id@,
                ProxyView {
                    id: id@,
                    protocol: protocol@,
                    host: host@,
                    port,
                    user: opt_chars(user),
                    pass: opt_chars(pass),
                    latency_ms: None,
                    is_alive: false,
                },
            ),
            !r ==> final(self)@ == old(self)@,
    {
        match map_get(&self.proxies, id) {
            Some(old_entry) => {
                let key = old_entry.id;
                let entry = Proxy {
                    id: key.clone(),
                    protocol,
                    host,
                    port,
                    user,
                    pass,
                    latency_ms: None,
                    is_alive: false,
                };
                map_insert(&mut self.proxies, key, entry);
                true
            },
            None => false,
        }
    }

    /// Records the outcome of a probe of the descriptor with id `id`: alive
    /// with latency `elapsed_ms` when it succeeded within the deadline, dead
    /// with no latency otherwise. A descriptor removed meanwhile stays
    /// removed.
    pub fn record_probe(&mut self, id: &str, succeeded: bool, elapsed_ms: u64)
        requires
            old(self).wf(),
        ensures
            final(self).wf(),
            old(self)@.contains_key(id@) ==> final(self)@ == old(self)@.insert(
                id@,
                probed(old(self)@[id@], succeeded, elapsed_ms),
            ),
            !old(self)@.contains_key(id@) ==> final(self)@ == old(self)@,
    {
        match map_get(&self.proxies, id) {
            Some(entry) => {
                let ok = succeeded && elapsed_ms <= PROBE_DEADLINE_MS;
                let mut entry = entry;
                entry.is_alive = ok;
                entry.latency_ms = if ok { Some(elapsed_ms) } else { None };
                let key = entry.id.clone();
                map_insert(&mut self.proxies, key, entry);
            },
            None => {},
        }
    }
}

} // verus!

verus! {

/// Byte-wise lexicographic order, the order of `String`.
pub open spec fn lex_le(a: Seq<u8>, b: Seq<u8>) -> bool
    decreases a.len(),
{
    if a.len() == 0 {
        true
    } else if b.len() == 0 {
        false
    } else if a[0] != b[0] {
        a[0] < b[0]
    } else {
        lex_le(a.drop_first(), b.drop_first())
    }
}

/// The descriptors of `s` appear in ascending order of id.
pub open spec fn sorted_by_id(s: Seq<ProxyView>) -> bool {
    forall|i: int, j: int|
        0 <= i < j < s.len() ==> lex_le(encode_utf8((#[trigger] s[i]).id), encode_utf8((#[trigger] s[j]).id))
}

/// Strict byte-wise lexicographic order.
pub open spec fn lex_lt(a: Seq<u8>, b: Seq<u8>) -> bool {
    lex_le(a, b) && a != b
}

/// The descriptors of `s` appear in strictly ascending order of id.
pub open spec fn strictly_sorted_by_id(s: Seq<ProxyView>) -> bool {
    forall|i: int, j: int|
        0 <= i < j < s.len() ==> lex_lt(encode_utf8((#[trigger] s[i]).id), encode_utf8((#[trigger] s[j]).id))
}

/// `live` holds the live descriptors of the registry `m`, each once, in
/// strictly ascending order of id.
pub open spec fn is_live_order(live: Seq<ProxyView>, m: Map<Seq<char>, ProxyView>) -> bool {
    &&& forall|i: int|
        0 <= i < live.len() ==> m.contains_key((#[trigger] live[i]).id) && m[live[i].id] == live[i]
            && live[i].is_alive
    &&& forall|k: Seq<char>|
        m.contains_key(k) && (#[trigger] m[k]).is_alive ==> exists|i: int|
            0 <= i < live.len() && (#[trigger] live[i]).id == k
    &&& strictly_sorted_by_id(live)
}

/// Lexicographic order is antisymmetric.
proof fn lemma_lex_le_antisymmetric(a: Seq<u8>, b: Seq<u8>)
    requires
        lex_le(a, b),
        lex_le(b, a),
    ensures
        a == b,
    decreases a.len(),
{
    if a.len() > 0 {
        assert(b.len() > 0);
        assert(a[0] == b[0]);
        lemma_lex_le_antisymmetric(a.drop_first(), b.drop_first());
        assert(a.len() == b.len());
        assert(a =~= b) by {
            assert forall|i: int| 0 <= i < a.len() implies a[i] == b[i] by {
                if i > 0 {
                    assert(a[i] == a.drop_first()[i - 1]);
                    assert(b[i] == b.drop_first()[i - 1]);
                }
            }
        }
    } else {
        assert(a =~= b);
    }
}

/// Two strictly sorted sequences holding the same descriptors are equal.
proof fn lemma_strictly_sorted_unique(l1: Seq<ProxyView>, l2: Seq<ProxyView>)
    requires
        strictly_sorted_by_id(l1),
        strictly_sorted_by_id(l2),
        forall|x: ProxyView| l1.contains(x) <==> l2.contains(x),
    ensures
        l1 == l2,
    decreases l1.len(),
{
    if l1.len() == 0 {
        if l2.len() > 0 {
            assert(l2.contains(l2[0]));
        }
        assert(l1 =~= l2);
    } else {
        assert(l1.contains(l1[0]));
        let j = choose|j: int| 0 <= j < l2.len() && l2[j] == l1[0];
        assert(l2.contains(l2[0]));
        let i = choose|i: int| 0 <= i < l1.len() && l1[i] == l2[0];
        if j > 0 {
            if i > 0 {
                lemma_lex_le_antisymmetric(encode_utf8(l1[0].id), encode_utf8(l1[i].id));
            }
        }
        assert(l1[0] == l2[0]);
        let t1 = l1.drop_first();
        let t2 = l2.drop_first();
        assert forall|x: ProxyView| t1.contains(x) <==> t2.contains(x) by {
            if t1.contains(x) {
                let a = choose|a: int| 0 <= a < t1.len() && t1[a] == x;
                assert(l1[a + 1] == x);
                assert(l2.contains(x));
                let b = choose|b: int| 0 <= b < l2.len() && l2[b] == x;
                if b == 0 {
                    assert(lex_lt(encode_utf8(l1[0].id), encode_utf8(l1[a + 1].id)));
                }
                assert(t2[b - 1] == x);
            }
            if t2.contains(x) {
                let a = choose|a: int| 0 <= a < t2.len() && t2[a] == x;
                assert(l2[a + 1] == x);
                assert(l1.contains(x));
                let b = choose|b: int| 0 <= b < l1.len() && l1[b] == x;
                if b == 0 {
                    assert(lex_lt(encode_utf8(l2[0].id), encode_utf8(l2[a + 1].id)));
                }
                assert(t1[b - 1] == x);
            }
        }
        lemma_strictly_sorted_unique(t1, t2);
        assert(l1 =~= l2) by {
            assert forall|k: int| 0 <= k < l1.len() implies l1[k] == l2[k] by {
                if k > 0 {
                    assert(l1[k] == t1[k - 1]);
                    assert(l2[k] == t2[k - 1]);
                }
            }
        }
    }
}

/// A registry has exactly one live order: whatever order a snapshot came
/// in, the live descriptors sorted by id form the same sequence.
pub proof fn lemma_live_order_unique(l1: Seq<ProxyView>, l2: Seq<ProxyView>, m: Map<Seq<char>, ProxyView>)
    requires
        is_live_order(l1, m),
        is_live_order(l2, m),
    ensures
        l1 == l2,
{
    assert forall|x: ProxyView| l1.contains(x) <==> l2.contains(x) by {
        if l1.contains(x) {
            let i = choose|i: int| 0 <= i < l1.len() && l1[i] == x;
            assert(m.contains_key(l1[i].id) && m[l1[i].id].is_alive);
            let j = choose|j: int| 0 <= j < l2.len() && (#[trigger] l2[j]).id == x.id;
            assert(l2[j] == x);
        }
        if l2.contains(x) {
            let i = choose|i: int| 0 <= i < l2.len() && l2[i] == x;
            assert(m.contains_key(l2[i].id) && m[l2[i].id].is_alive);
            let j = choose|j: int| 0 <= j < l1.len() && (#[trigger] l1[j]).id == x.id;
            assert(l1[j] == x);
        }
    }
    lemma_strictly_sorted_unique(l1, l2);
}

/// Relies on `slice::sort_by` comparing the `id` fields with `String`'s
/// `Ord`, which orders strings byte-wise lexicographically: the same
/// descriptors, in ascending order of id.
#[verifier::external_body]
fn sort_by_id(v: &mut Vec<Proxy>)
    ensures
        views(final(v)@).to_multiset() == views(old(v)@).to_multiset(),
        sorted_by_id(views(final(v)@)),
{
    v.sort_by(|a, b| a.id.cmp(&b.id));
}

/// The live descriptors of `pool`, each once, sorted by id: the sequence
/// the selector chooses from.
pub fn live_upstreams(pool: &ProxyPool) -> (r: Vec<Proxy>)
    requires
        pool.wf(),
    ensures
        is_live_order(views(r@), pool@),
{
    let all = pool.get_all();
    let ghost all_v = views(all@);
    let ghost mut idx: Seq<int> = Seq::empty();
    let mut live: Vec<Proxy> = Vec::new();
    let mut i: usize = 0;
    while i < all.len()
        invariant
            i <= all@.len(),
            all_v == views(all@),
            idx.len() == live@.len(),
            forall|j: int|
                0 <= j < idx.len() ==> 0 <= #[trigger] idx[j] < i && views(live@)[j] == all_v[idx[j]]
                    && all_v[idx[j]].is_alive,
            forall|a: int, b: int| 0 <= a < b < idx.len() ==> #[trigger] idx[a] < #[trigger] idx[b],
            forall|t: int| 0 <= t < i && (#[trigger] all_v[t]).is_alive ==> exists|j: int| 0 <= j < idx.len() && idx[j] == t,
        decreases all@.len() - i,
    {
        if all[i].is_alive {
            live.push(all[i].duplicate());
            proof {
                let ghost old_idx = idx;
                idx = idx.push(i as int);
                assert forall|j: int| 0 <= j < old_idx.len() implies idx[j] == old_idx[j] by {}
                assert forall|t: int| 0 <= t <= i && (#[trigger] all_v[t]).is_alive implies exists|j: int|
                    0 <= j < idx.len() && idx[j] == t by {
                    if t == i {
                        assert(idx[idx.len() - 1] == t);
                    } else {
                        let j = choose|j: int| 0 <= j < old_idx.len() && old_idx[j] == t;
                        assert(idx[j] == t);
                    }
                }
            }
        }
        i = i + 1;
    }
    let ghost pre = views(live@);
    proof {
        assert forall|a: int, b: int| 0 <= a < pre.len() && 0 <= b < pre.len() && a != b implies pre[a] != pre[b] by {
            if a < b {
                assert(idx[a] < idx[b]);
                assert(all_v[idx[a]].id != all_v[idx[b]].id);
            } else {
                assert(idx[b] < idx[a]);
                assert(all_v[idx[b]].id != all_v[idx[a]].id);
            }
        }
        assert(pre.no_duplicates());
        pre.lemma_multiset_has_no_duplicates();
    }
    sort_by_id(&mut live);
    proof {
        broadcast use vstd::seq_lib::group_to_multiset_ensures;

        let post = views(live@);
        post.lemma_multiset_has_no_duplicates_conv();
        assert forall|k: int| 0 <= k < post.len() implies pool@.contains_key((#[trigger] post[k]).id)
            && pool@[post[k].id] == post[k] && post[k].is_alive by {
            assert(post.to_multiset().count(post[k]) > 0);
            assert(pre.contains(post[k]));
            let j = choose|j: int| 0 <= j < pre.len() && pre[j] == post[k];
            assert(pre[j] == all_v[idx[j]]);
        }
        assert forall|key: Seq<char>| pool@.contains_key(key) && (#[trigger] pool@[key]).is_alive implies exists|k: int|
            0 <= k < post.len() && (#[trigger] post[k]).id == key by {
            let t = choose|t: int| 0 <= t < all_v.len() && (#[trigger] all_v[t]).id == key;
            assert(all_v[t] == pool@[key]);
            let j = choose|j: int| 0 <= j < idx.len() && idx[j] == t;
            assert(pre[j] == all_v[t]);
            assert(pre.to_multiset().count(pre[j]) > 0);
            assert(post.contains(pre[j]));
            let k = choose|k: int| 0 <= k < post.len() && post[k] == pre[j];
            assert(post[k].id == key);
        }
        assert forall|a: int, b: int| 0 <= a < b < post.len() implies lex_lt(
            encode_utf8((#[trigger] post[a]).id),
            encode_utf8((#[trigger] post[b]).id),
        ) by {
            assert(lex_le(encode_utf8(post[a].id), encode_utf8(post[b].id)));
            if encode_utf8(post[a].id) == encode_utf8(post[b].id) {
                vstd::utf8::encode_utf8_decode_utf8(post[a].id);
                vstd::utf8::encode_utf8_decode_utf8(post[b].id);
                assert(post[a] == pool@[post[a].id]);
                assert(post[b] == pool@[post[b].id]);
            }
        }
    }
    live
}

} // verus!
