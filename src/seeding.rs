//! Channel keys and the selections made from draws on them.
//!
//! Draws themselves come from a caller-supplied source: `draw(key, count, n)`
//! returns a uniform integer below `n` from the channel named `key` that was
//! drawn `count` times before. The library keeps the counts (a [`Channels`] of
//! `u64`) and every contract says how they move. A draw below [`UNIT_SCALE`]
//! stands for a uniform real `k / UNIT_SCALE` in `[0, 1)`.

use vstd::prelude::*;

verus! {

/// Resolution of a uniform real draw: reals are multiples of `1 / UNIT_SCALE`.
pub const UNIT_SCALE: u64 = 9007199254740992;

/// Every draw source maps `(key, count, n)` with `n > 0` to an integer below
/// `n`, the same one for the same channel, count and bound: a draw depends only
/// on the channel and how often it was drawn before.
pub open spec fn draw_source<F: Fn(Vec<u8>, u64, u64) -> u64>(draw: &F) -> bool {
    &&& forall|k: Vec<u8>, c: u64, n: u64| n > 0 ==> #[trigger] draw.requires((k, c, n))
    &&& forall|k: Vec<u8>, c: u64, n: u64, r: u64| #[trigger] draw.ensures((k, c, n), r) ==> r < n
    &&& forall|k1: Vec<u8>, k2: Vec<u8>, c: u64, n: u64, r1: u64, r2: u64|
        k1@ == k2@ && #[trigger] draw.ensures((k1, c, n), r1) && #[trigger] draw.ensures((k2, c, n), r2)
            ==> r1 == r2
}

/// Draws made so far on channel `key`.
pub open spec fn count_of(m: Map<Seq<u8>, u64>, key: Seq<u8>) -> u64 {
    if m.contains_key(key) {
        m[key]
    } else {
        0
    }
}

/// One more draw, capped at `u64::MAX`.
pub open spec fn bump(c: u64) -> u64 {
    if c == u64::MAX {
        c
    } else {
        (c + 1) as u64
    }
}

/// The draw counts after one more draw on `key`.
pub open spec fn bumped(m: Map<Seq<u8>, u64>, key: Seq<u8>) -> Map<Seq<u8>, u64> {
    m.insert(key, bump(count_of(m, key)))
}

/// Draws once on channel `key`, at its current count, and counts the draw.
pub fn draw_counted<F: Fn(Vec<u8>, u64, u64) -> u64>(counts: &mut Channels<u64>, key: Vec<u8>, n: u64, draw: &F) -> (r: u64)
    requires
        old(counts).wf(),
        n > 0,
        draw_source(draw),
    ensures
        final(counts).wf(),
        r < n,
        drew(draw, key@, count_of(old(counts).view(), key@), n, r),
        final(counts).view() == bumped(old(counts).view(), key@),
{
    let c: u64 = match counts.get(&key) {
        Some(c) => c,
        None => 0,
    };
    let kv = slice_to_vec(key.as_slice());
    let ghost k2 = kv;
    let r = draw(kv, c, n);
    proof {
        assert(k2@ == key@ && draw.ensures((k2, c, n), r));
    }
    let next: u64 = if c == u64::MAX {
        c
    } else {
        c + 1
    };
    counts.set(key, next);
    r
}

/// ASCII decimal digits of `n`.
pub open spec fn decimal(n: nat) -> Seq<u8>
    decreases n,
{
    if n < 10 {
        seq![(48 + n) as u8]
    } else {
        decimal(n / 10).push((48 + n % 10) as u8)
    }
}

/// ASCII decimal text of a signed integer, with a leading `-` when negative.
pub open spec fn signed_decimal(n: int) -> Seq<u8> {
    if n < 0 {
        seq![45u8] + decimal((-n) as nat)
    } else {
        decimal(n as nat)
    }
}

/// Appends the decimal digits of `n` to `out`.
pub fn push_decimal(out: &mut Vec<u8>, n: u64)
    ensures
        final(out)@ == old(out)@ + decimal(n as nat),
    decreases n,
{
    if n < 10 {
        out.push((48 + n) as u8);
    } else {
        push_decimal(out, n / 10);
        out.push((48 + n % 10) as u8);
    }
}

/// Appends the decimal text of a signed `n` to `out`.
pub fn push_signed_decimal(out: &mut Vec<u8>, n: i64)
    ensures
        final(out)@ == old(out)@ + signed_decimal(n as int),
{
    if n < 0 {
        out.push(45u8);
        let m: u64 = if n == i64::MIN {
            9223372036854775808u64
        } else {
            (-n) as u64
        };
        push_decimal(out, m);
    } else {
        push_decimal(out, n as u64);
    }
}

/// `prefix` followed by the decimal text of `n`.
pub fn key_with_number(prefix: &[u8], n: i64) -> (r: Vec<u8>)
    ensures
        r@ == prefix@ + signed_decimal(n as int),
{
    let mut out = slice_to_vec(prefix);
    push_signed_decimal(&mut out, n);
    out
}

/// A copy of `s` as a vector.
pub fn slice_to_vec(s: &[u8]) -> (r: Vec<u8>)
    ensures
        r@ == s@,
{
    let mut out: Vec<u8> = Vec::new();
    let mut i: usize = 0;
    while i < s.len()
        invariant
            i <= s@.len(),
            out@ == s@.take(i as int),
        decreases s@.len() - i,
    {
        out.push(s[i]);
        proof {
            assert(s@.take(i + 1) =~= s@.take(i as int).push(s@[i as int]));
        }
        i += 1;
    }
    proof {
        assert(s@.take(s@.len() as int) =~= s@);
    }
    out
}

/// `a` followed by `b`.
pub fn concat(a: &[u8], b: &[u8]) -> (r: Vec<u8>)
    ensures
        r@ == a@ + b@,
{
    let mut out = slice_to_vec(a);
    let mut i: usize = 0;
    while i < b.len()
        invariant
            i <= b@.len(),
            out@ == a@ + b@.take(i as int),
        decreases b@.len() - i,
    {
        out.push(b[i]);
        proof {
            assert(b@.take(i + 1) =~= b@.take(i as int).push(b@[i as int]));
        }
        i += 1;
    }
    proof {
        assert(b@.take(b@.len() as int) =~= b@);
    }
    out
}

/// Channel of the `attempt`-th draw of a poll on `key`: the key itself for the
/// first attempt, `"{key}_resample{attempt}"` for later ones.
pub open spec fn attempt_key(key: Seq<u8>, attempt: nat) -> Seq<u8> {
    if attempt <= 1 {
        key
    } else {
        key + "_resample"@.map_values(|c: char| c as u8) + decimal(attempt)
    }
}

/// The channel key of poll attempt `attempt` on `key`.
pub fn resample_key(key: &Vec<u8>, attempt: u64) -> (r: Vec<u8>)
    ensures
        r@ == attempt_key(key@, attempt as nat),
{
    if attempt <= 1 {
        return key.clone();
    }
    let suffix: Vec<u8> = vec![95u8, 114, 101, 115, 97, 109, 112, 108, 101];
    proof {
        reveal_strlit("_resample");
        assert(suffix@ =~= "_resample"@.map_values(|c: char| c as u8));
    }
    let mut out = concat(key.as_slice(), suffix.as_slice());
    push_decimal(&mut out, attempt);
    out
}

/// Some flag in `available` is set.
pub open spec fn any_available(available: Seq<bool>) -> bool {
    exists|i: int| 0 <= i < available.len() && available[i]
}

/// Index of the first set flag.
fn first_available(available: &Vec<bool>) -> (r: usize)
    requires
        any_available(available@),
    ensures
        r < available@.len(),
        available@[r as int],
        forall|j: int| 0 <= j < r ==> !available@[j],
{
    let mut i: usize = 0;
    while i < available.len()
        invariant
            i <= available@.len(),
            any_available(available@),
            forall|j: int| 0 <= j < i ==> !available@[j],
        decreases available@.len() - i,
    {
        if available[i] {
            return i;
        }
        i += 1;
    }
    i
}

/// `draw` may give `d` for a draw below `n` on the channel named `key` that was
/// drawn `c` times before.
pub open spec fn drew<F: Fn(Vec<u8>, u64, u64) -> u64>(draw: &F, key: Seq<u8>, c: u64, n: u64, d: u64) -> bool {
    exists|kv: Vec<u8>| kv@ == key && #[trigger] draw.ensures((kv, c, n), d)
}

/// A draw is fixed by its channel, how often that channel was drawn before,
/// and its bound: two draws that agree on all three give the same value.
pub proof fn lemma_draw_determined<F: Fn(Vec<u8>, u64, u64) -> u64>(draw: &F, key: Seq<u8>, c: u64, n: u64, d1: u64, d2: u64)
    requires
        draw_source(draw),
        drew(draw, key, c, n, d1),
        drew(draw, key, c, n, d2),
    ensures
        d1 == d2,
{
    let k1 = choose|kv: Vec<u8>| kv@ == key && draw.ensures((kv, c, n), d1);
    let k2 = choose|kv: Vec<u8>| kv@ == key && draw.ensures((kv, c, n), d2);
    assert(draw.ensures((k1, c, n), d1) && draw.ensures((k2, c, n), d2));
}

/// `r` is the first set flag of `available`.
pub open spec fn first_set(available: Seq<bool>, r: nat) -> bool {
    r < available.len() && available[r as int] && forall|j: int| 0 <= j < r ==> !available[j]
}

/// The draw counts after attempts `1 ..= a` of a poll on `key`, each attempt
/// drawing once on its own channel.
pub open spec fn after_attempts(m: Map<Seq<u8>, u64>, key: Seq<u8>, a: nat) -> Map<Seq<u8>, u64>
    decreases a,
{
    if a == 0 {
        m
    } else {
        bumped(after_attempts(m, key, (a - 1) as nat), attempt_key(key, a))
    }
}

/// The draw on attempt `a` of a poll on `key` below `n`, starting from the
/// counts `m`, gave `d`.
pub open spec fn attempt_drew<F: Fn(Vec<u8>, u64, u64) -> u64>(draw: &F, m: Map<Seq<u8>, u64>, key: Seq<u8>, a: nat, n: u64, d: u64) -> bool {
    drew(draw, attempt_key(key, a), count_of(after_attempts(m, key, (a - 1) as nat), attempt_key(key, a)), n, d)
}

/// The draws `ds` on attempts `1 ..= ds.len()` of a poll on `key`, starting from
/// the counts `m`, were all rejected.
pub open spec fn rejected<F: Fn(Vec<u8>, u64, u64) -> u64>(draw: &F, available: Seq<bool>, key: Seq<u8>, m: Map<Seq<u8>, u64>, ds: Seq<u64>) -> bool {
    forall|j: int|
        0 <= j < ds.len() ==> attempt_drew(draw, m, key, (j + 1) as nat, available.len() as u64, #[trigger] ds[j])
            && !available[ds[j] as int]
}

/// `r` is what polling `available` on `key` gives, with draw counts `m0` before
/// and `m1` after: after the rejected draws `ds` on `key`, `key_resample2`, ...,
/// the next attempt's draw, which is available; each attempt draws once on its
/// own channel and no other channel is drawn. Once `u64::MAX - 1` draws were
/// rejected, the first available index is taken.
pub open spec fn polled<F: Fn(Vec<u8>, u64, u64) -> u64>(
    draw: &F,
    available: Seq<bool>,
    key: Seq<u8>,
    m0: Map<Seq<u8>, u64>,
    m1: Map<Seq<u8>, u64>,
    r: nat,
) -> bool {
    exists|ds: Seq<u64>| {
        &&& #[trigger] rejected(draw, available, key, m0, ds)
        &&& {
            ||| {
                &&& r < available.len()
                &&& available[r as int]
                &&& attempt_drew(draw, m0, key, (ds.len() + 1) as nat, available.len() as u64, r as u64)
                &&& m1 == after_attempts(m0, key, (ds.len() + 1) as nat)
            }
            ||| {
                &&& ds.len() == u64::MAX - 1
                &&& first_set(available, r)
                &&& m1 == after_attempts(m0, key, ds.len())
            }
        }
    }
}

/// Rejection-sampling pick over an availability table: draws an index on `key`,
/// then on `key_resample2`, `key_resample3`, ... until the drawn index is
/// available. Rejected draws still advance their channels. Should every one of
/// `u64::MAX - 1` attempts be rejected, the first available index is taken.
pub fn poll<F: Fn(Vec<u8>, u64, u64) -> u64>(available: &Vec<bool>, key: &Vec<u8>, counts: &mut Channels<u64>, draw: &F) -> (r: usize)
    requires
        any_available(available@),
        available@.len() <= u64::MAX,
        old(counts).wf(),
        draw_source(draw),
    ensures
        r < available@.len(),
        available@[r as int],
        final(counts).wf(),
        polled(draw, available@, key@, old(counts).view(), final(counts).view(), r as nat),
{
    let len: usize = available.len();
    let n = len as u64;
    let mut attempt: u64 = 1;
    let ghost m0 = counts.view();
    let ghost mut ds: Seq<u64> = Seq::empty();
    while attempt < u64::MAX
        invariant
            1 <= attempt,
            n == available@.len(),
            n > 0,
            draw_source(draw),
            ds.len() == attempt - 1,
            rejected(draw, available@, key@, m0, ds),
            len == available@.len(),
            counts.wf(),
            m0 == old(counts).view(),
            counts.view() == after_attempts(m0, key@, ds.len()),
        decreases u64::MAX - attempt,
    {
        let channel = resample_key(key, attempt);
        let idx = draw_counted(counts, channel, n, draw);
        proof {
            assert(((ds.len() + 1) as nat) == attempt as nat);
            assert(attempt_drew(draw, m0, key@, attempt as nat, n, idx));
            assert(counts.view() == after_attempts(m0, key@, attempt as nat));
        }
        if available[idx as usize] {
            proof {
                assert(idx < available@.len());
                assert((idx as usize) as int == idx as int);
                assert(available@[idx as int]);
                lemma_polled(draw, available@, key@, m0, counts.view(), ds, idx);
            }
            return idx as usize;
        }
        proof {
            let ds2 = ds.push(idx);
            assert forall|j: int| 0 <= j < ds2.len() implies attempt_drew(draw, m0, key@, (j + 1) as nat, available@.len() as u64, #[trigger] ds2[j])
                && !available@[ds2[j] as int] by {
                if j < ds.len() {
                    assert(ds2[j] == ds[j]);
                } else {
                    assert(ds2[j] == idx);
                    assert((j + 1) as nat == attempt as nat);
                }
            }
            ds = ds2;
        }
        attempt += 1;
    }
    let r = first_available(available);
    proof {
        assert(attempt == u64::MAX);
        assert(ds.len() == u64::MAX - 1);
        lemma_polled(draw, available@, key@, m0, counts.view(), ds, r as u64);
    }
    r
}

proof fn lemma_polled<F: Fn(Vec<u8>, u64, u64) -> u64>(
    draw: &F,
    available: Seq<bool>,
    key: Seq<u8>,
    m0: Map<Seq<u8>, u64>,
    m1: Map<Seq<u8>, u64>,
    ds: Seq<u64>,
    r: u64,
)
    requires
        rejected(draw, available, key, m0, ds),
        ({
            &&& r < available.len()
            &&& available[r as int]
            &&& attempt_drew(draw, m0, key, (ds.len() + 1) as nat, available.len() as u64, r)
            &&& m1 == after_attempts(m0, key, (ds.len() + 1) as nat)
        }) || (ds.len() == u64::MAX - 1 && first_set(available, r as nat) && m1 == after_attempts(m0, key, ds.len())),
    ensures
        polled(draw, available, key, m0, m1, r as nat),
{
    assert((r as nat) as u64 == r);
}

/// Largest weight a weighted draw takes.
pub const WEIGHT_CAP: u64 = 0x100_0000_0000;

proof fn lemma_prefix_weight_capped(weights: Seq<u64>, i: int)
    requires
        0 <= i <= weights.len(),
        forall|j: int| 0 <= j < weights.len() ==> #[trigger] weights[j] <= WEIGHT_CAP,
    ensures
        prefix_weight(weights, i) <= i * WEIGHT_CAP,
    decreases i,
{
    if i > 0 {
        lemma_prefix_weight_capped(weights, i - 1);
    }
}

/// Sum of the first `i` weights.
pub open spec fn prefix_weight(weights: Seq<u64>, i: int) -> nat
    decreases i,
{
    if i <= 0 {
        0
    } else {
        prefix_weight(weights, i - 1) + weights[i - 1] as nat
    }
}

proof fn lemma_prefix_weight_monotone(weights: Seq<u64>, i: int, j: int)
    requires
        0 <= i <= j <= weights.len(),
    ensures
        prefix_weight(weights, i) <= prefix_weight(weights, j),
    decreases j - i,
{
    if i < j {
        lemma_prefix_weight_monotone(weights, i, j - 1);
    }
}

/// Category `i` of a weighted draw at the point `u = k / UNIT_SCALE * total` covers
/// `lo <= u <= lo + weight`, `lo` being the weight before it. Scaled by
/// `UNIT_SCALE`, the upper bound is what decides between consecutive categories.
pub open spec fn covers(weights: Seq<u64>, k: nat, i: int) -> bool {
    k * prefix_weight(weights, weights.len() as int) <= prefix_weight(weights, i + 1)
        * UNIT_SCALE
}

/// Weighted categorical pick: the first category, in table order, whose span
/// `[lo, lo + weight]` (upper bound included) holds the point
/// `k / UNIT_SCALE * total`.
pub fn weighted_pick(weights: &Vec<u64>, k: u64) -> (r: usize)
    requires
        0 < weights@.len() < 256,
        k < UNIT_SCALE,
        forall|i: int| 0 <= i < weights@.len() ==> #[trigger] weights@[i] <= WEIGHT_CAP,
    ensures
        r < weights@.len(),
        covers(weights@, k as nat, r as int),
        forall|j: int| 0 <= j < r ==> !covers(weights@, k as nat, j),
{
    let ghost ws = weights@;
    proof {
        lemma_prefix_weight_capped(ws, ws.len() as int);
        let n = ws.len() as int;
        assert(n * WEIGHT_CAP < 0x1_0000_0000_0000) by (nonlinear_arith)
            requires
                n < 256,
        ;
    }
    let mut total: u64 = 0;
    let mut i: usize = 0;
    while i < weights.len()
        invariant
            i <= ws.len(),
            ws == weights@,
            total == prefix_weight(ws, i as int),
            prefix_weight(ws, ws.len() as int) < 0x1_0000_0000_0000,
        decreases ws.len() - i,
    {
        proof {
            lemma_prefix_weight_monotone(ws, i + 1, ws.len() as int);
        }
        total = total + weights[i];
        i += 1;
    }
    proof {
        assert((k as int) * (total as int) < 0x1_0000_0000_0000 * 0x20_0000_0000_0000)
            by (nonlinear_arith)
            requires
                k < 0x20_0000_0000_0000,
                total < 0x1_0000_0000_0000,
        ;
    }
    let point: u128 = (k as u128) * (total as u128);
    let mut lo: u64 = 0;
    let mut j: usize = 0;
    while j < weights.len()
        invariant
            j <= ws.len(),
            ws == weights@,
            total == prefix_weight(ws, ws.len() as int),
            total < 0x1_0000_0000_0000,
            lo == prefix_weight(ws, j as int),
            point == k * total,
            k < UNIT_SCALE,
            forall|m: int| 0 <= m < j ==> !covers(ws, k as nat, m),
        decreases ws.len() - j,
    {
        proof {
            lemma_prefix_weight_monotone(ws, j + 1, ws.len() as int);
        }
        let hi: u64 = lo + weights[j];
        if point <= (hi as u128) * (UNIT_SCALE as u128) {
            return j;
        }
        lo = hi;
        j += 1;
    }
    proof {
        assert((k as int) * (total as int) <= (total as int) * (UNIT_SCALE as int))
            by (nonlinear_arith)
            requires
                k < UNIT_SCALE,
        ;
        assert(!covers(ws, k as nat, ws.len() - 1));
    }
    0
}


/// Every shuffle source maps `(key, count, n)` to `n` draws, the `t`-th below
/// `n - t`, the same ones for the same channel, count and size.
pub open spec fn shuffle_source<G: Fn(Vec<u8>, u64, u64) -> Vec<u64>>(draws: &G) -> bool {
    &&& forall|k: Vec<u8>, c: u64, n: u64| #[trigger] draws.requires((k, c, n))
    &&& forall|k: Vec<u8>, c: u64, n: u64, r: Vec<u64>| #[trigger] draws.ensures((k, c, n), r) ==> fits_shuffle(r@, n as nat)
    &&& forall|k1: Vec<u8>, k2: Vec<u8>, c: u64, n: u64, r1: Vec<u64>, r2: Vec<u64>|
        k1@ == k2@ && #[trigger] draws.ensures((k1, c, n), r1) && #[trigger] draws.ensures((k2, c, n), r2)
            ==> r1@ == r2@
}

/// `shuffle` may give the draws `js` for `n` cards on the channel named `key`
/// that was drawn `c` times before.
pub open spec fn shuffled_on<G: Fn(Vec<u8>, u64, u64) -> Vec<u64>>(shuffle: &G, key: Seq<u8>, c: u64, n: u64, js: Seq<u64>) -> bool {
    exists|kv: Vec<u8>, jv: Vec<u64>| kv@ == key && jv@ == js && #[trigger] shuffle.ensures((kv, c, n), jv)
}

/// Draws one shuffle on channel `key`, at its current count, and counts the draw.
pub fn shuffle_counted<G: Fn(Vec<u8>, u64, u64) -> Vec<u64>>(counts: &mut Channels<u64>, key: Vec<u8>, n: u64, shuffle: &G) -> (r: Vec<u64>)
    requires
        old(counts).wf(),
        shuffle_source(shuffle),
    ensures
        final(counts).wf(),
        fits_shuffle(r@, n as nat),
        shuffled_on(shuffle, key@, count_of(old(counts).view(), key@), n, r@),
        final(counts).view() == bumped(old(counts).view(), key@),
{
    let c: u64 = match counts.get(&key) {
        Some(c) => c,
        None => 0,
    };
    let kv = slice_to_vec(key.as_slice());
    let ghost k2 = kv;
    let r = shuffle(kv, c, n);
    proof {
        assert(k2@ == key@ && r@ == r@ && shuffle.ensures((k2, c, n), r));
    }
    let next: u64 = if c == u64::MAX {
        c
    } else {
        c + 1
    };
    counts.set(key, next);
    r
}

/// `js` holds `n` draws, the `t`-th below `n - t`.
pub open spec fn fits_shuffle(js: Seq<u64>, n: nat) -> bool {
    js.len() == n && forall|t: int| 0 <= t < n ==> #[trigger] js[t] < n - t
}

/// `s` after the first `t` Fisher-Yates swaps: swap `t` exchanges the element at
/// `len - 1 - t` with the one at `js[t]`.
pub open spec fn fisher_yates(s: Seq<usize>, js: Seq<u64>, t: nat) -> Seq<usize>
    decreases t,
{
    if t == 0 {
        s
    } else {
        let prev = fisher_yates(s, js, (t - 1) as nat);
        let i = s.len() - t;
        let j = js[t - 1] as int;
        prev.update(i, prev[j]).update(j, prev[i])
    }
}

/// The Fisher-Yates swaps keep every element exactly once: the shuffled
/// sequence is a permutation of the input.
pub proof fn lemma_fisher_yates_permutes(s: Seq<usize>, js: Seq<u64>, t: nat)
    requires
        fits_shuffle(js, s.len()),
        t <= s.len(),
    ensures
        fisher_yates(s, js, t).len() == s.len(),
        fisher_yates(s, js, t).to_multiset() == s.to_multiset(),
    decreases t,
{
    broadcast use vstd::seq_lib::group_to_multiset_ensures, vstd::multiset::group_multiset_properties;
    if t > 0 {
        lemma_fisher_yates_permutes(s, js, (t - 1) as nat);
        let prev = fisher_yates(s, js, (t - 1) as nat);
        let i = s.len() - t;
        let j = js[t - 1] as int;
        assert(js[t - 1] < s.len() - (t - 1));
        let once = prev.update(i, prev[j]);
        assert(once.to_multiset() == prev.to_multiset().insert(prev[j]).remove(prev[i]));
        assert(once[j] == prev[j]);
        assert(once.update(j, prev[i]).to_multiset() == once.to_multiset().insert(prev[i]).remove(prev[j]));
        assert(prev.to_multiset().insert(prev[j]).remove(prev[i]).insert(prev[i]).remove(prev[j]) =~= prev.to_multiset());
    }
}

/// Shuffles `list` in place with the draws `js`, last position first.
pub fn shuffle_with(list: &mut Vec<usize>, js: &Vec<u64>)
    requires
        fits_shuffle(js@, old(list)@.len()),
    ensures
        final(list)@ == fisher_yates(old(list)@, js@, old(list)@.len()),
{
    let ghost s0 = list@;
    let n = list.len();
    let mut t: usize = 0;
    while t < n
        invariant
            t <= n,
            n == s0.len(),
            fits_shuffle(js@, n as nat),
            list@ == fisher_yates(s0, js@, t as nat),
            list@.len() == n,
        decreases n - t,
    {
        let i = n - 1 - t;
        let j = js[t] as usize;
        let a = list[i];
        let b = list[j];
        list.set(i, b);
        list.set(j, a);
        t += 1;
    }
}


/// State of every channel after a schedule of draws, each draw naming its
/// channel: a draw on `k` moves `k`'s state `s` to `step(s)`, a channel's first
/// draw starting from `init(k)`. Other channels are left as they are.
pub open spec fn after_draws<S>(
    start: Map<Seq<u8>, S>,
    keys: Seq<Seq<u8>>,
    init: spec_fn(Seq<u8>) -> S,
    step: spec_fn(S) -> S,
) -> Map<Seq<u8>, S>
    decreases keys.len(),
{
    if keys.len() == 0 {
        start
    } else {
        let m = after_draws(start, keys.drop_last(), init, step);
        let k = keys.last();
        let cur = if m.contains_key(k) {
            m[k]
        } else {
            init(k)
        };
        m.insert(k, step(cur))
    }
}

/// Draws on other channels never change a channel: after any schedule, channel
/// `k` stands where it would after only the schedule's draws on `k`, so the
/// values drawn on `k` do not depend on how draws on other keys interleave.
pub proof fn lemma_channel_independence<S>(
    start: Map<Seq<u8>, S>,
    keys: Seq<Seq<u8>>,
    k: Seq<u8>,
    init: spec_fn(Seq<u8>) -> S,
    step: spec_fn(S) -> S,
)
    ensures
        after_draws(start, keys, init, step).contains_key(k) == after_draws(
            start,
            keys.filter(|x: Seq<u8>| x == k),
            init,
            step,
        ).contains_key(k),
        after_draws(start, keys, init, step).contains_key(k) ==> after_draws(start, keys, init, step)[k]
            == after_draws(start, keys.filter(|x: Seq<u8>| x == k), init, step)[k],
    decreases keys.len(),
{
    reveal(Seq::filter);
    if keys.len() > 0 {
        lemma_channel_independence(start, keys.drop_last(), k, init, step);
        let f = keys.filter(|x: Seq<u8>| x == k);
        let fp = keys.drop_last().filter(|x: Seq<u8>| x == k);
        if keys.last() == k {
            assert(f == fp.push(k));
            assert(f.drop_last() =~= fp);
        } else {
            assert(f == fp);
        }
    }
}

/// Per-channel state, keyed by channel name, each channel appearing once.
#[derive(Debug, Clone, PartialEq)]
pub struct Channels<S> {
    entries: Vec<(Vec<u8>, S)>,
}

impl<S: Copy> Channels<S> {
    /// Each channel name appears once.
    pub closed spec fn wf(&self) -> bool {
        forall|i: int, j: int|
            0 <= i < j < self.entries@.len() ==> (#[trigger] self.entries@[i]).0@ != (
            #[trigger] self.entries@[j]).0@
    }

    /// The state of each channel drawn so far.
    pub closed spec fn view(&self) -> Map<Seq<u8>, S> {
        Map::new(
            |k: Seq<u8>| exists|i: int| 0 <= i < self.entries@.len() && self.entries@[i].0@ == k,
            |k: Seq<u8>|
                self.entries@[choose|i: int| 0 <= i < self.entries@.len() && self.entries@[i].0@ == k].1,
        )
    }

    /// No channel drawn yet.
    pub fn new() -> (r: Channels<S>)
        ensures
            r.wf(),
            r.view() == Map::<Seq<u8>, S>::empty(),
    {
        let r = Channels { entries: Vec::new() };
        proof {
            assert(r.view() =~= Map::<Seq<u8>, S>::empty());
        }
        r
    }

    fn find(&self, key: &Vec<u8>) -> (r: Option<usize>)
        requires
            self.wf(),
        ensures
            r matches Some(i) ==> i < self.entries@.len() && self.entries@[i as int].0@ == key@,
            r is None ==> forall|i: int| 0 <= i < self.entries@.len() ==> self.entries@[i].0@ != key@,
    {
        let mut i: usize = 0;
        while i < self.entries.len()
            invariant
                i <= self.entries@.len(),
                forall|j: int| 0 <= j < i ==> self.entries@[j].0@ != key@,
            decreases self.entries@.len() - i,
        {
            if bytes_equal(&self.entries[i].0, key) {
                return Some(i);
            }
            i += 1;
        }
        None
    }

    /// The state of channel `key`, if it was drawn before.
    pub fn get(&self, key: &Vec<u8>) -> (r: Option<S>)
        requires
            self.wf(),
        ensures
            r == (if self.view().contains_key(key@) {
                Some(self.view()[key@])
            } else {
                None
            }),
    {
        match self.find(key) {
            Some(i) => {
                proof {
                    let c = choose|c: int| 0 <= c < self.entries@.len() && self.entries@[c].0@ == key@;
                    if c != i {
                        if c < i {
                            assert(self.entries@[c].0@ != self.entries@[i as int].0@);
                        } else {
                            assert(self.entries@[i as int].0@ != self.entries@[c].0@);
                        }
                    }
                }
                Some(self.entries[i].1)
            },
            None => None,
        }
    }

    /// Sets the state of channel `key`, leaving every other channel as it was.
    pub fn set(&mut self, key: Vec<u8>, state: S)
        requires
            old(self).wf(),
        ensures
            final(self).wf(),
            final(self).view() == old(self).view().insert(key@, state),
    {
        let ghost old_view = self.view();
        match self.find(&key) {
            Some(i) => {
                let ghost ks = key@;
                self.entries.set(i, (key, state));
                proof {
                    assert forall|a: int, b: int| 0 <= a < b < self.entries@.len() implies (
                    #[trigger] self.entries@[a]).0@ != (#[trigger] self.entries@[b]).0@ by {
                        assert(old(self).entries@[a].0@ != old(self).entries@[b].0@);
                    }
                    assert forall|k: Seq<u8>| #[trigger] self.view().contains_key(k) == old_view.insert(ks, state).contains_key(k) by {
                        if exists|j: int| 0 <= j < old(self).entries@.len() && old(self).entries@[j].0@ == k {
                            let j = choose|j: int| 0 <= j < old(self).entries@.len() && old(self).entries@[j].0@ == k;
                            if j == i {
                                assert(self.entries@[j].0@ == k);
                            } else {
                                assert(self.entries@[j] == old(self).entries@[j]);
                            }
                        }
                        if exists|j: int| 0 <= j < self.entries@.len() && self.entries@[j].0@ == k {
                            let j = choose|j: int| 0 <= j < self.entries@.len() && self.entries@[j].0@ == k;
                            if j != i {
                                assert(self.entries@[j] == old(self).entries@[j]);
                            }
                        }
                    }
                    assert forall|k: Seq<u8>| #[trigger] self.view().contains_key(k) implies self.view()[k] == old_view.insert(ks, state)[k] by {
                        let c = choose|c: int| 0 <= c < self.entries@.len() && self.entries@[c].0@ == k;
                        if k == ks {
                            if c != i {
                                if c < i {
                                    assert(self.entries@[c].0@ != self.entries@[i as int].0@);
                                } else {
                                    assert(self.entries@[i as int].0@ != self.entries@[c].0@);
                                }
                            }
                        } else {
                            assert(c != i);
                            assert(self.entries@[c] == old(self).entries@[c]);
                            let c0 = choose|c0: int| 0 <= c0 < old(self).entries@.len() && old(self).entries@[c0].0@ == k;
                            if c0 != c {
                                if c0 < c {
                                    assert(old(self).entries@[c0].0@ != old(self).entries@[c].0@);
                                } else {
                                    assert(old(self).entries@[c].0@ != old(self).entries@[c0].0@);
                                }
                            }
                        }
                    }
                    assert(self.view() =~= old_view.insert(ks, state));
                }
            },
            None => {
                let ghost ks = key@;
                self.entries.push((key, state));
                proof {
                    let n = old(self).entries@.len();
                    assert forall|k: Seq<u8>| #[trigger] self.view().contains_key(k) == old_view.insert(ks, state).contains_key(k) by {
                        if k == ks {
                            assert(self.entries@[n as int].0@ == k);
                        }
                        if exists|j: int| 0 <= j < old(self).entries@.len() && old(self).entries@[j].0@ == k {
                            let j = choose|j: int| 0 <= j < old(self).entries@.len() && old(self).entries@[j].0@ == k;
                            assert(self.entries@[j] == old(self).entries@[j]);
                        }
                        if exists|j: int| 0 <= j < self.entries@.len() && self.entries@[j].0@ == k {
                            let j = choose|j: int| 0 <= j < self.entries@.len() && self.entries@[j].0@ == k;
                            if j < n {
                                assert(self.entries@[j] == old(self).entries@[j]);
                            }
                        }
                    }
                    assert forall|k: Seq<u8>| #[trigger] self.view().contains_key(k) implies self.view()[k] == old_view.insert(ks, state)[k] by {
                        let c = choose|c: int| 0 <= c < self.entries@.len() && self.entries@[c].0@ == k;
                        if k == ks {
                            assert(c == n);
                        } else {
                            assert(c < n);
                            assert(self.entries@[c] == old(self).entries@[c]);
                            let c0 = choose|c0: int| 0 <= c0 < old(self).entries@.len() && old(self).entries@[c0].0@ == k;
                            if c0 != c {
                                if c0 < c {
                                    assert(old(self).entries@[c0].0@ != old(self).entries@[c].0@);
                                } else {
                                    assert(old(self).entries@[c].0@ != old(self).entries@[c0].0@);
                                }
                            }
                        }
                    }
                    assert(self.view() =~= old_view.insert(ks, state));
                }
            },
        }
    }
}

/// Whether `a` and `b` hold the same bytes.
pub fn bytes_equal(a: &Vec<u8>, b: &Vec<u8>) -> (r: bool)
    ensures
        r == (a@ == b@),
{
    if a.len() != b.len() {
        return false;
    }
    let mut i: usize = 0;
    while i < a.len()
        invariant
            i <= a@.len(),
            a@.len() == b@.len(),
            forall|j: int| 0 <= j < i ==> a@[j] == b@[j],
        decreases a@.len() - i,
    {
        if a[i] != b[i] {
            return false;
        }
        i += 1;
    }
    proof {
        assert(a@ =~= b@);
    }
    true
}

} // verus!
