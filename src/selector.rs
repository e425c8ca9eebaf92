//! Choosing one live upstream for a new client connection.

use vstd::prelude::*;
use vstd::string::StringSliceAdditionalSpecFns;

use crate::clock::{clock_epoch_secs, clock_subsec_nanos};
use crate::proxy::{views, Proxy, ProxyView};
use crate::rotation::RotationMode;

verus! {

/// Latency ceiling, in milliseconds, of the weighted strategy.
pub const MAX_MS: u64 = 10_000;

/// Latency assumed by the weighted strategy for an unmeasured upstream.
pub const DEFAULT_LATENCY_MS: u64 = 5_000;

/// Length, in seconds, of one time-sticky window.
pub const STICKY_WINDOW_SECS: u64 = 600;

/// The shared and clock-derived inputs of one selection.
#[derive(Debug, Clone, Copy)]
pub struct Draw {
    /// The round-robin cursor before this selection.
    pub cursor: usize,
    /// Sub-second nanoseconds of the clock.
    pub nanos: u32,
    /// Whole seconds since the Unix epoch.
    pub epoch_secs: u64,
}

/// The djb2 hash of `bytes`, on 64-bit unsigned words with wrap-around:
/// `h = 5381`, then `h = h * 33 + b` for each byte.
pub open spec fn djb2(bytes: Seq<u8>) -> u64
    decreases bytes.len(),
{
    if bytes.len() == 0 {
        5381
    } else {
        ((djb2(bytes.drop_last()) as int * 33 + bytes.last() as int) % 0x1_0000_0000_0000_0000int) as u64
    }
}

/// The measured latencies of a sequence of descriptors.
pub open spec fn latencies(a: Seq<ProxyView>) -> Seq<Option<u64>> {
    a.map_values(|p: ProxyView| p.latency_ms)
}

/// Whether latency `x` is strictly better than `y`; an absent latency counts
/// as infinitely large.
pub open spec fn faster(x: Option<u64>, y: Option<u64>) -> bool {
    match (x, y) {
        (Some(p), Some(q)) => p < q,
        (Some(_), None) => true,
        (None, _) => false,
    }
}

/// The index of the first lowest latency among the first `n` entries.
pub open spec fn least_latency_index(ls: Seq<Option<u64>>, n: int) -> int
    decreases n,
{
    if n <= 1 {
        0
    } else {
        let b = least_latency_index(ls, n - 1);
        if faster(ls[n - 1], ls[b]) {
            n - 1
        } else {
            b
        }
    }
}

/// The weight of one upstream in the weighted strategy.
pub open spec fn weight(l: Option<u64>) -> int {
    let v: int = match l {
        Some(x) => x as int,
        None => DEFAULT_LATENCY_MS as int,
    };
    let capped: int = if v < MAX_MS - 1 { v } else { MAX_MS - 1 };
    MAX_MS - capped + 1
}

/// The sum of the weights of the first `n` entries.
pub open spec fn total_weight(ls: Seq<Option<u64>>, n: int) -> int
    decreases n,
{
    if n <= 0 {
        0
    } else {
        total_weight(ls, n - 1) + weight(ls[n - 1])
    }
}

/// Walking from `start`, the index at which the remaining `pick` falls
/// below the entry's weight; the last entry takes what is left.
pub open spec fn weighted_index_from(ls: Seq<Option<u64>>, start: int, pick: int) -> int
    decreases ls.len() - start,
{
    if start >= ls.len() - 1 {
        ls.len() - 1
    } else if pick < weight(ls[start]) {
        start
    } else {
        weighted_index_from(ls, start + 1, pick - weight(ls[start]))
    }
}

/// The index that the strategy `mode` selects among the live upstreams `a`,
/// given the draw `d` and the bytes of the target host; `None` when `a` is
/// empty.
pub open spec fn selected_index(a: Seq<ProxyView>, mode: RotationMode, d: Draw, host: Seq<u8>) -> Option<int> {
    let n = a.len() as int;
    let ls = latencies(a);
    if n == 0 {
        None
    } else {
        Some(
            match mode {
                RotationMode::RoundRobin => d.cursor as int % n,
                RotationMode::Random => d.nanos as int % n,
                RotationMode::LeastLatency => least_latency_index(ls, n),
                RotationMode::Weighted => weighted_index_from(ls, 0, d.nanos as int % total_weight(ls, n)),
                RotationMode::TimeSticky => (d.epoch_secs / STICKY_WINDOW_SECS) as int % n,
                RotationMode::IpSticky => djb2(host) as int % n,
            },
        )
    }
}

/// The integer value of an optional index.
pub open spec fn opt_int(r: Option<usize>) -> Option<int> {
    match r {
        Some(i) => Some(i as int),
        None => None,
    }
}

/// The djb2 hash of the UTF-8 bytes of `s`.
pub fn djb2_hash(s: &str) -> (r: u64)
    ensures
        r == djb2(s.spec_bytes()),
{
    let bytes = s.as_bytes();
    let mut hash: u64 = 5381;
    let mut i: usize = 0;
    while i < bytes.len()
        invariant
            i <= bytes@.len(),
            bytes@ == s.spec_bytes(),
            hash == djb2(bytes@.subrange(0, i as int)),
        decreases bytes@.len() - i,
    {
        let b = bytes[i];
        proof {
            let pre = bytes@.subrange(0, i as int);
            let next = bytes@.subrange(0, i + 1);
            assert(next.drop_last() =~= pre);
            assert(next.last() == b);
            let h = hash as int;
            vstd::arithmetic::div_mod::lemma_add_mod_noop(h * 33, b as int, 0x1_0000_0000_0000_0000int);
            vstd::arithmetic::div_mod::lemma_mod_twice(h * 33, 0x1_0000_0000_0000_0000int);
            vstd::arithmetic::div_mod::lemma_small_mod(b as nat, 0x1_0000_0000_0000_0000nat);
        }
        hash = hash.wrapping_mul(33).wrapping_add(b as u64);
        i = i + 1;
    }
    assert(bytes@.subrange(0, bytes@.len() as int) =~= bytes@);
    hash
}

/// The index of the first lowest latency; an absent latency counts as
/// infinitely large.
fn least_latency_pick(alive: &[Proxy]) -> (r: usize)
    requires
        alive@.len() > 0,
    ensures
        r as int == least_latency_index(latencies(views(alive@)), alive@.len() as int),
        r < alive@.len(),
{
    let ghost ls = latencies(views(alive@));
    let mut best: usize = 0;
    let mut i: usize = 1;
    while i < alive.len()
        invariant
            1 <= i <= alive@.len(),
            ls == latencies(views(alive@)),
            best < i,
            best as int == least_latency_index(ls, i as int),
        decreases alive@.len() - i,
    {
        let better = match (alive[i].latency_ms, alive[best].latency_ms) {
            (Some(p), Some(q)) => p < q,
            (Some(_), None) => true,
            (None, _) => false,
        };
        assert(ls[i as int] == alive@[i as int].latency_ms);
        assert(ls[best as int] == alive@[best as int].latency_ms);
        if better {
            best = i;
        }
        i = i + 1;
    }
    best
}

/// Each weight lies between 2 and `MAX_MS + 1`.
proof fn lemma_weight_bounds(l: Option<u64>)
    ensures
        2 <= weight(l) <= MAX_MS + 1,
{
}

/// The total weight of `n` entries lies between `2 * n` and `(MAX_MS + 1) * n`.
proof fn lemma_total_weight_bounds(ls: Seq<Option<u64>>, n: int)
    requires
        0 <= n <= ls.len(),
    ensures
        2 * n <= total_weight(ls, n) <= (MAX_MS + 1) * n,
    decreases n,
{
    if n > 0 {
        lemma_total_weight_bounds(ls, n - 1);
        lemma_weight_bounds(ls[n - 1]);
    }
}

/// The weight of one descriptor's latency.
fn weight_of(l: Option<u64>) -> (r: u64)
    ensures
        r as int == weight(l),
{
    let v: u64 = match l {
        Some(x) => x,
        None => DEFAULT_LATENCY_MS,
    };
    let capped: u64 = if v < MAX_MS - 1 { v } else { MAX_MS - 1 };
    MAX_MS - capped + 1
}

/// The weighted pick for the draw `nanos`.
fn weighted_pick(alive: &[Proxy], nanos: u32) -> (r: usize)
    requires
        alive@.len() > 0,
    ensures
        r as int == weighted_index_from(
            latencies(views(alive@)),
            0,
            nanos as int % total_weight(latencies(views(alive@)), alive@.len() as int),
        ),
        r < alive@.len(),
{
    let ghost ls = latencies(views(alive@));
    let n = alive.len();
    let mut weights: Vec<u64> = Vec::new();
    let mut total: u128 = 0;
    let mut i: usize = 0;
    while i < n
        invariant
            n == alive@.len(),
            i <= n,
            ls == latencies(views(alive@)),
            weights@.len() == i,
            forall|j: int| 0 <= j < i ==> weights@[j] as int == weight(ls[j]),
            total as int == total_weight(ls, i as int),
        decreases n - i,
    {
        proof {
            lemma_total_weight_bounds(ls, i as int);
        }
        assert(ls[i as int] == alive@[i as int].latency_ms);
        let w = weight_of(alive[i].latency_ms);
        weights.push(w);
        total = total + w as u128;
        i = i + 1;
    }
    proof {
        lemma_total_weight_bounds(ls, n as int);
    }
    if total == 0 {
        return 0;
    }
    let mut pick: u128 = nanos as u128 % total;
    let ghost pick0 = pick as int;
    let mut k: usize = 0;
    while k + 1 < n
        invariant
            n == alive@.len(),
            n >= 1,
            k < n,
            weights@.len() == n,
            forall|j: int| 0 <= j < n ==> weights@[j] as int == weight(ls[j]),
            ls.len() == n,
            ls == latencies(views(alive@)),
            pick0 == nanos as int % total_weight(ls, n as int),
            weighted_index_from(ls, 0, pick0) == weighted_index_from(ls, k as int, pick as int),
        decreases n - k,
    {
        let w = weights[k] as u128;
        if pick < w {
            assert(weighted_index_from(ls, k as int, pick as int) == k as int);
            return k;
        }
        pick = pick - w;
        k = k + 1;
    }
    n - 1
}

/// The index that `mode` selects among the live upstreams `alive` for the
/// draw `d`, or `None` when `alive` is empty.
pub fn pick_index(alive: &[Proxy], mode: RotationMode, d: Draw, target_host: &str) -> (r: Option<usize>)
    ensures
        opt_int(r) == selected_index(views(alive@), mode, d, target_host.spec_bytes()),
        r matches Some(i) ==> i < alive@.len(),
{
    let n = alive.len();
    if n == 0 {
        return None;
    }
    let i = match mode {
        RotationMode::RoundRobin => d.cursor % n,
        RotationMode::Random => (d.nanos as usize) % n,
        RotationMode::LeastLatency => least_latency_pick(alive),
        RotationMode::Weighted => weighted_pick(alive, d.nanos),
        RotationMode::TimeSticky => ((d.epoch_secs / STICKY_WINDOW_SECS) % (n as u64)) as usize,
        RotationMode::IpSticky => (djb2_hash(target_host) % (n as u64)) as usize,
    };
    Some(i)
}

} // verus!

verus! {

/// The round-robin cursor after one step: incremented, wrapping at the top.
pub open spec fn next_cursor(c: usize) -> usize {
    if c == usize::MAX {
        0
    } else {
        (c + 1) as usize
    }
}

/// Chooses one of the live upstreams `alive` (sorted by id) for a connection
/// to `target_host`. Round-robin selection reads and advances the cursor
/// `rr_idx`; random and weighted selection draw the clock's sub-second
/// nanoseconds; time-sticky selection reads the epoch seconds. Returns `None`
/// exactly when `alive` is empty.
pub fn select_proxy<'a>(
    alive: &'a [Proxy],
    mode: &RotationMode,
    rr_idx: &mut usize,
    target_host: &str,
) -> (r: Option<&'a Proxy>)
    ensures
        r is None <==> alive@.len() == 0,
        *final(rr_idx) == (if alive@.len() > 0 && *mode == RotationMode::RoundRobin {
            next_cursor(*old(rr_idx))
        } else {
            *old(rr_idx)
        }),
        r matches Some(p) ==> exists|d: Draw, i: int|
            #![trigger selected_index(views(alive@), *mode, d, target_host.spec_bytes()), alive@[i]]
            d.cursor == *old(rr_idx) && d.nanos < 1_000_000_000
                && selected_index(views(alive@), *mode, d, target_host.spec_bytes()) == Some(i)
                && 0 <= i < alive@.len() && *p == alive@[i],
{
    if alive.len() == 0 {
        return None;
    }
    let cursor = *rr_idx;
    let mut nanos: u32 = 0;
    let mut epoch_secs: u64 = 0;
    match mode {
        RotationMode::RoundRobin => {
            *rr_idx = if cursor == usize::MAX { 0 } else { cursor + 1 };
        },
        RotationMode::Random | RotationMode::Weighted => {
            nanos = clock_subsec_nanos();
        },
        RotationMode::TimeSticky => {
            epoch_secs = clock_epoch_secs();
        },
        RotationMode::LeastLatency | RotationMode::IpSticky => {},
    }
    let d = Draw { cursor, nanos, epoch_secs };
    match pick_index(alive, *mode, d, target_host) {
        Some(i) => Some(&alive[i]),
        None => None,
    }
}

} // verus!

verus! {

/// The cursor after `j` round-robin steps from `start`.
pub open spec fn cursor_after(start: usize, j: nat) -> usize
    decreases j,
{
    if j == 0 {
        start
    } else {
        next_cursor(cursor_after(start, (j - 1) as nat))
    }
}

/// The indices chosen by `n` successive round-robin selections among `a`
/// with the cursor starting at `start`.
pub open spec fn round_robin_picks(a: Seq<ProxyView>, start: usize, n: nat, host: Seq<u8>) -> Seq<int> {
    Seq::new(
        n,
        |j: int|
            selected_index(
                a,
                RotationMode::RoundRobin,
                Draw { cursor: cursor_after(start, j as nat), nanos: 0, epoch_secs: 0 },
                host,
            )->0,
    )
}

/// Selection reports no live upstream exactly when the live subset is empty.
pub proof fn lemma_none_iff_no_live_upstream(a: Seq<ProxyView>, mode: RotationMode, d: Draw, host: Seq<u8>)
    ensures
        selected_index(a, mode, d, host) is None <==> a.len() == 0,
        selected_index(a, mode, d, host) matches Some(i) ==> 0 <= i < a.len(),
{
    if a.len() > 0 {
        let n = a.len() as int;
        let ls = latencies(a);
        match mode {
            RotationMode::LeastLatency => lemma_least_latency_in_range(ls, n),
            RotationMode::Weighted => lemma_weighted_index_in_range(ls, 0, d.nanos as int % total_weight(ls, n)),
            _ => {},
        }
    }
}

/// The weighted walk from `start` ends at `start` or beyond, within bounds.
proof fn lemma_weighted_index_in_range(ls: Seq<Option<u64>>, start: int, pick: int)
    requires
        0 <= start < ls.len(),
    ensures
        start <= weighted_index_from(ls, start, pick) < ls.len(),
    decreases ls.len() - start,
{
    if start < ls.len() - 1 && pick >= weight(ls[start]) {
        lemma_weighted_index_in_range(ls, start + 1, pick - weight(ls[start]));
    }
}

/// The least-latency index among the first `n` entries lies among them, and
/// it holds a measured latency whenever one of them does.
proof fn lemma_least_latency_in_range(ls: Seq<Option<u64>>, n: int)
    requires
        1 <= n <= ls.len(),
    ensures
        0 <= least_latency_index(ls, n) < n,
        (exists|j: int| 0 <= j < n && ls[j] is Some) ==> ls[least_latency_index(ls, n)] is Some,
    decreases n,
{
    if n > 1 {
        lemma_least_latency_in_range(ls, n - 1);
        if exists|j: int| 0 <= j < n && ls[j] is Some {
            let j = choose|j: int| 0 <= j < n && ls[j] is Some;
            if j < n - 1 {
                assert(exists|j: int| 0 <= j < n - 1 && ls[j] is Some);
            }
        }
    }
}

/// Least-latency selection never picks an unmeasured upstream while some
/// live upstream has a measured latency.
pub proof fn lemma_least_latency_prefers_measured(a: Seq<ProxyView>, d: Draw, host: Seq<u8>)
    requires
        exists|j: int| 0 <= j < a.len() && (#[trigger] a[j]).latency_ms is Some,
    ensures
        selected_index(a, RotationMode::LeastLatency, d, host) matches Some(i)
            && 0 <= i < a.len() && a[i].latency_ms is Some,
{
    let ls = latencies(a);
    let j = choose|j: int| 0 <= j < a.len() && (#[trigger] a[j]).latency_ms is Some;
    assert(ls[j] is Some);
    lemma_least_latency_in_range(ls, a.len() as int);
}

/// Hash-sticky selection depends only on the live subset and the target
/// host: the cursor and the clock play no part.
pub proof fn lemma_ip_sticky_deterministic(a: Seq<ProxyView>, d1: Draw, d2: Draw, host: Seq<u8>)
    ensures
        selected_index(a, RotationMode::IpSticky, d1, host) == selected_index(
            a,
            RotationMode::IpSticky,
            d2,
            host,
        ),
{
}

/// Round-robin steps that stay below the top of the cursor's range do not
/// wrap.
proof fn lemma_cursor_after_no_wrap(start: usize, j: nat)
    requires
        start + j <= usize::MAX,
    ensures
        cursor_after(start, j) == start + j,
    decreases j,
{
    if j > 0 {
        lemma_cursor_after_no_wrap(start, (j - 1) as nat);
    }
}

/// Over `n` successive round-robin selections among `k` live upstreams,
/// starting from cursor `start` (with no wrap of the cursor), each index
/// `i` is chosen `n / k` times, plus once more when it is one of the
/// `n % k` indices `(start + t) % k` for `t < n % k`: every index equally
/// often, followed by a prefix of the cycle.
pub proof fn lemma_round_robin_counts(a: Seq<ProxyView>, start: usize, n: nat, host: Seq<u8>, i: int)
    requires
        a.len() > 0,
        start + n <= usize::MAX as nat + 1,
        0 <= i < a.len(),
    ensures
        round_robin_picks(a, start, n, host).to_multiset().count(i) == n as int / a.len() as int + (if (i
            - start) % (a.len() as int) < n as int % a.len() as int {
            1int
        } else {
            0int
        }),
    decreases n,
{
    broadcast use vstd::seq_lib::group_to_multiset_ensures;

    let k = a.len() as int;
    let off = (i - start) % k;
    if n == 0 {
        assert(round_robin_picks(a, start, 0, host) =~= Seq::<int>::empty());
    } else {
        let m = (n - 1) as nat;
        lemma_round_robin_counts(a, start, m, host, i);
        lemma_cursor_after_no_wrap(start, m);
        let x = (start + m) % k;
        assert(round_robin_picks(a, start, n, host) =~= round_robin_picks(a, start, m, host).push(x));
        let q = m as int / k;
        let r = m as int % k;
        vstd::arithmetic::div_mod::lemma_fundamental_div_mod(m as int, k);
        vstd::arithmetic::div_mod::lemma_small_mod(i as nat, k as nat);
        vstd::arithmetic::div_mod::lemma_mod_equivalence(start + m, i, k);
        vstd::arithmetic::div_mod::lemma_mod_equivalence(m as int, i - start, k);
        vstd::arithmetic::div_mod::lemma_mod_twice(i - start, k);
        assert((start + m) - i == m - (i - start));
        assert(x == i <==> r == off);
        assert(k * q == q * k) by (nonlinear_arith);
        if r + 1 < k {
            vstd::arithmetic::div_mod::lemma_fundamental_div_mod_converse(n as int, k, q, r + 1);
        } else {
            assert((q + 1) * k == q * k + k) by (nonlinear_arith);
            vstd::arithmetic::div_mod::lemma_fundamental_div_mod_converse(n as int, k, q + 1, 0);
        }
    }
}

} // verus!
