//! DataNormalizer: validates and clamps raw rows into a canonical candle
//! sequence plus aggregate statistics.
//!
//! Per row: prices are clamped to the positive floor of one micro-unit, the
//! volume defaults to zero when the sixth field is missing, and the body and
//! volume colors are resolved by positional lookup with a defined default.
//! The candle sequence is then re-sorted ascending by timestamp (the renderer
//! does not trust input order), and the global minima and maxima are computed
//! in a single pass.

use vstd::prelude::*;
use crate::color::{Rgb, spec_black, spec_mid_gray, black, mid_gray, strip_hash, valid_hex6,
    hex_rgb, pick_from_hex};
use crate::model::{Row, Candle, ChartData, RenderStats, candle_valid, row_valid};

verus! {

/// Clamp a fixed-point price to the strictly positive floor of one micro-unit
/// (the price axis is logarithmic and undefined at or below zero).
pub open spec fn clamp1(p: u64) -> u64 {
    if p == 0 {
        1
    } else {
        p
    }
}

fn clamp_price(p: u64) -> (r: u64)
    ensures
        r == clamp1(p),
{
    if p == 0 {
        1
    } else {
        p
    }
}

/// Positional color lookup: entry `i` of `colors` parsed as hex, the given
/// default where the list is too short or the entry malformed.
pub open spec fn spec_color_at(colors: Seq<String>, i: int, default: Rgb) -> Rgb {
    if 0 <= i < colors.len() {
        if valid_hex6(strip_hash(colors[i]@)) {
            hex_rgb(strip_hash(colors[i]@))
        } else {
            default
        }
    } else {
        default
    }
}

fn color_at(colors: &Vec<String>, i: usize, default: Rgb) -> (c: Rgb)
    ensures
        c == spec_color_at(colors@, i as int, default),
{
    if i < colors.len() {
        pick_from_hex(colors[i].as_str(), default)
    } else {
        default
    }
}

/// The candle a row yields, given its resolved colors.
pub open spec fn spec_candle(r: Row, body: Rgb, vol: Rgb) -> Candle {
    Candle {
        time: r.time,
        open: clamp1(r.open),
        high: clamp1(r.high),
        low: clamp1(r.low),
        close: clamp1(r.close),
        log_open: r.log_open,
        log_high: r.log_high,
        log_low: r.log_low,
        log_close: r.log_close,
        volume: match r.volume {
            Some(v) => v,
            None => 0,
        },
        body_color: body,
        volume_color: vol,
    }
}

/// The candle row `i` of the payload yields: clamped prices, defaulted
/// volume, body color from `candle_colors[i]` (fallback opaque black) and
/// volume color from `volume_colors[i]` (fallback mid-gray).
pub open spec fn spec_normal_candle(d: ChartData, i: int) -> Candle {
    spec_candle(
        d.data@[i],
        spec_color_at(d.candle_colors@, i, spec_black()),
        spec_color_at(d.volume_colors@, i, spec_mid_gray()),
    )
}

/// The whole normalized sequence, in input order.
pub open spec fn normal_candles(d: ChartData) -> Seq<Candle> {
    Seq::new(d.data@.len(), |i: int| spec_normal_candle(d, i))
}

fn normalize_rows(d: &ChartData) -> (out: Vec<Candle>)
    ensures
        out@.len() == d.data@.len(),
        forall|i: int| 0 <= i < out@.len() ==> out@[i] == spec_normal_candle(*d, i),
{
    let n = d.data.len();
    let mut out: Vec<Candle> = Vec::new();
    let mut i: usize = 0;
    while i < n
        invariant
            n == d.data@.len(),
            i <= n,
            out@.len() == i,
            forall|k: int| 0 <= k < i ==> out@[k] == spec_normal_candle(*d, k),
        decreases n - i,
    {
        let row = &d.data[i];
        let c = Candle {
            time: row.time,
            open: clamp_price(row.open),
            high: clamp_price(row.high),
            low: clamp_price(row.low),
            close: clamp_price(row.close),
            log_open: row.log_open,
            log_high: row.log_high,
            log_low: row.log_low,
            log_close: row.log_close,
            volume: match row.volume {
                Some(v) => v,
                None => 0,
            },
            body_color: color_at(&d.candle_colors, i, black()),
            volume_color: color_at(&d.volume_colors, i, mid_gray()),
        };
        out.push(c);
        i = i + 1;
    }
    out
}

/// Nondecreasing timestamps.
pub open spec fn sorted_by_time(s: Seq<Candle>) -> bool {
    forall|i: int, j: int| 0 <= i < j < s.len() ==> s[i].time <= s[j].time
}

/// Index of the earliest candle with minimal timestamp among the first `k`.
pub open spec fn first_min_index(s: Seq<Candle>, k: int) -> int
    decreases k,
{
    if k <= 1 {
        0
    } else {
        let r = first_min_index(s, k - 1);
        if s[k - 1].time < s[r].time {
            k - 1
        } else {
            r
        }
    }
}

/// The first-minimum index is in range, minimal, and strictly undercut by no
/// earlier candle (every earlier candle is strictly later in time).
pub proof fn lemma_first_min_index(s: Seq<Candle>, k: int)
    requires
        1 <= k <= s.len(),
    ensures
        0 <= first_min_index(s, k) < k,
        forall|j: int|
            0 <= j < k ==> s[first_min_index(s, k)].time <= #[trigger] s[j].time,
        forall|j: int|
            0 <= j < first_min_index(s, k) ==> #[trigger] s[j].time > s[first_min_index(
                s,
                k,
            )].time,
    decreases k,
{
    if k > 1 {
        lemma_first_min_index(s, k - 1);
    }
}

/// The stable selection sort, as a function: repeatedly take the earliest
/// candle with minimal timestamp. Equal-time candles keep their input order.
pub open spec fn sort_by_time_spec(s: Seq<Candle>) -> Seq<Candle>
    decreases s.len(),
    via sort_by_time_spec_decreases
{
    if s.len() == 0 {
        Seq::empty()
    } else {
        let k = first_min_index(s, s.len() as int);
        seq![s[k]] + sort_by_time_spec(s.remove(k))
    }
}

#[via_fn]
proof fn sort_by_time_spec_decreases(s: Seq<Candle>) {
    if s.len() > 0 {
        lemma_first_min_index(s, s.len() as int);
    }
}

fn min_time_index(v: &Vec<Candle>) -> (k: usize)
    requires
        v@.len() > 0,
    ensures
        k < v@.len(),
        forall|j: int| 0 <= j < v@.len() ==> v@[k as int].time <= v@[j].time,
        forall|j: int| 0 <= j < k ==> v@[j].time > v@[k as int].time,
        k == first_min_index(v@, v@.len() as int),
{
    let mut k: usize = 0;
    let mut i: usize = 1;
    while i < v.len()
        invariant
            k < i <= v@.len(),
            forall|j: int| 0 <= j < i ==> v@[k as int].time <= v@[j].time,
            forall|j: int| 0 <= j < k ==> v@[j].time > v@[k as int].time,
        decreases v@.len() - i,
    {
        if v[i].time < v[k].time {
            k = i;
        }
        i = i + 1;
    }
    proof {
        lemma_first_min_index(v@, v@.len() as int);
        let f = first_min_index(v@, v@.len() as int);
        if k < f {
            assert(v@[k as int].time > v@[f].time);
            assert(v@[f].time >= v@[k as int].time);
        }
        if f < k as int {
            assert(v@[f].time > v@[k as int].time);
            assert(v@[k as int].time >= v@[f].time);
        }
    }
    k
}

/// Sorts candles ascending by timestamp, stably: the result is exactly
/// `sort_by_time_spec` of the input, which takes equal-time candles in their
/// input order. It is sorted, a permutation of the input (same multiset),
/// and every element of it comes from the input.
pub fn sort_candles_by_time(v: Vec<Candle>) -> (out: Vec<Candle>)
    ensures
        out@ == sort_by_time_spec(v@),
        out@.len() == v@.len(),
        sorted_by_time(out@),
        out@.to_multiset() == v@.to_multiset(),
        forall|i: int| 0 <= i < out@.len() ==> v@.contains(#[trigger] out@[i]),
{
    let mut rem = v;
    let mut out: Vec<Candle> = Vec::new();
    let ghost orig = rem@;
    proof {
        broadcast use vstd::multiset::group_multiset_axioms;
        broadcast use vstd::seq_lib::to_multiset_contains;

        assert(out@.to_multiset().add(rem@.to_multiset()) =~= orig.to_multiset());
        assert(out@ + sort_by_time_spec(rem@) =~= sort_by_time_spec(orig));
    }
    while rem.len() > 0
        invariant
            out@.len() + rem@.len() == orig.len(),
            out@ + sort_by_time_spec(rem@) =~= sort_by_time_spec(orig),
            out@.to_multiset().add(rem@.to_multiset()) =~= orig.to_multiset(),
            sorted_by_time(out@),
            forall|i: int, j: int|
                0 <= i < out@.len() && 0 <= j < rem@.len() ==> out@[i].time <= rem@[j].time,
            forall|i: int| 0 <= i < out@.len() ==> orig.contains(#[trigger] out@[i]),
            forall|j: int| 0 <= j < rem@.len() ==> orig.contains(#[trigger] rem@[j]),
        decreases rem@.len(),
    {
        let k = min_time_index(&rem);
        let ghost rem_before = rem@;
        let c = rem.remove(k);
        proof {
            broadcast use vstd::multiset::group_multiset_axioms;

            vstd::seq_lib::to_multiset_build(out@, c);
            vstd::seq_lib::to_multiset_remove(rem_before, k as int);
            vstd::seq_lib::to_multiset_contains(rem_before, c);
            assert(rem_before.contains(c));
            assert(out@.push(c).to_multiset().add(rem@.to_multiset()) =~= out@.to_multiset().add(
                rem_before.to_multiset(),
            ));
            assert(forall|j: int|
                0 <= j < rem@.len() ==> rem_before.contains(#[trigger] rem@[j]));
            assert(sort_by_time_spec(rem_before) == seq![c] + sort_by_time_spec(rem@));
            assert(out@.push(c) + sort_by_time_spec(rem@) =~= out@ + sort_by_time_spec(
                rem_before,
            ));
        }
        out.push(c);
    }
    proof {
        broadcast use vstd::multiset::group_multiset_axioms;
        broadcast use vstd::seq_lib::to_multiset_contains;

        assert(out@.to_multiset().add(rem@.to_multiset()) =~= out@.to_multiset());
        assert(out@ + sort_by_time_spec(rem@) =~= out@);
    }
    out
}

/// Every field of the candle lies within the stats' bounds.
pub open spec fn candle_within_stats(c: Candle, s: RenderStats) -> bool {
    &&& s.min_price <= c.open <= s.max_price
    &&& s.min_price <= c.high <= s.max_price
    &&& s.min_price <= c.low <= s.max_price
    &&& s.min_price <= c.close <= s.max_price
    &&& s.min_log <= c.log_open <= s.max_log
    &&& s.min_log <= c.log_high <= s.max_log
    &&& s.min_log <= c.log_low <= s.max_log
    &&& s.min_log <= c.log_close <= s.max_log
    &&& c.volume <= s.max_volume
}

/// One of the candle's four prices equals `p`.
pub open spec fn has_price(c: Candle, p: u64) -> bool {
    c.open == p || c.high == p || c.low == p || c.close == p
}

/// One of the candle's four log-prices equals `l`.
pub open spec fn has_log(c: Candle, l: i64) -> bool {
    c.log_open == l || c.log_high == l || c.log_low == l || c.log_close == l
}

/// The stats are exactly the global minima and maxima: they bound every
/// candle, and each bound is attained (the maximal volume may be zero when
/// every row's volume is zero or missing).
pub open spec fn stats_exact(cs: Seq<Candle>, s: RenderStats) -> bool {
    &&& forall|i: int| 0 <= i < cs.len() ==> candle_within_stats(#[trigger] cs[i], s)
    &&& exists|i: int| 0 <= i < cs.len() && has_price(#[trigger] cs[i], s.min_price)
    &&& exists|i: int| 0 <= i < cs.len() && has_price(#[trigger] cs[i], s.max_price)
    &&& exists|i: int| 0 <= i < cs.len() && has_log(#[trigger] cs[i], s.min_log)
    &&& exists|i: int| 0 <= i < cs.len() && has_log(#[trigger] cs[i], s.max_log)
    &&& (s.max_volume == 0 || exists|i: int|
        0 <= i < cs.len() && #[trigger] cs[i].volume == s.max_volume)
}

fn min_u64(a: u64, b: u64) -> (r: u64)
    ensures
        r == if a <= b { a } else { b },
{
    if a <= b {
        a
    } else {
        b
    }
}

fn max_u64(a: u64, b: u64) -> (r: u64)
    ensures
        r == if a >= b { a } else { b },
{
    if a >= b {
        a
    } else {
        b
    }
}

fn min_i64(a: i64, b: i64) -> (r: i64)
    ensures
        r == if a <= b { a } else { b },
{
    if a <= b {
        a
    } else {
        b
    }
}

fn max_i64(a: i64, b: i64) -> (r: i64)
    ensures
        r == if a >= b { a } else { b },
{
    if a >= b {
        a
    } else {
        b
    }
}

/// Single pass over a non-empty candle sequence computing the global
/// min/max price, min/max log-price and max volume.
pub fn compute_stats(cs: &Vec<Candle>) -> (s: RenderStats)
    requires
        cs@.len() > 0,
    ensures
        stats_exact(cs@, s),
{
    let c0 = &cs[0];
    let mut s = RenderStats {
        min_price: min_u64(min_u64(c0.open, c0.high), min_u64(c0.low, c0.close)),
        max_price: max_u64(max_u64(c0.open, c0.high), max_u64(c0.low, c0.close)),
        max_volume: c0.volume,
        min_log: min_i64(min_i64(c0.log_open, c0.log_high), min_i64(c0.log_low, c0.log_close)),
        max_log: max_i64(max_i64(c0.log_open, c0.log_high), max_i64(c0.log_low, c0.log_close)),
    };
    let mut i: usize = 1;
    while i < cs.len()
        invariant
            1 <= i <= cs@.len(),
            forall|k: int| 0 <= k < i ==> candle_within_stats(#[trigger] cs@[k], s),
            exists|k: int| 0 <= k < i && has_price(#[trigger] cs@[k], s.min_price),
            exists|k: int| 0 <= k < i && has_price(#[trigger] cs@[k], s.max_price),
            exists|k: int| 0 <= k < i && has_log(#[trigger] cs@[k], s.min_log),
            exists|k: int| 0 <= k < i && has_log(#[trigger] cs@[k], s.max_log),
            s.max_volume == 0 || exists|k: int|
                0 <= k < i && #[trigger] cs@[k].volume == s.max_volume,
        decreases cs@.len() - i,
    {
        let c = &cs[i];
        s = RenderStats {
            min_price: min_u64(s.min_price, min_u64(min_u64(c.open, c.high), min_u64(c.low, c.close))),
            max_price: max_u64(s.max_price, max_u64(max_u64(c.open, c.high), max_u64(c.low, c.close))),
            max_volume: max_u64(s.max_volume, c.volume),
            min_log: min_i64(s.min_log, min_i64(min_i64(c.log_open, c.log_high), min_i64(c.log_low, c.log_close))),
            max_log: max_i64(s.max_log, max_i64(max_i64(c.log_open, c.log_high), max_i64(c.log_low, c.log_close))),
        };
        i = i + 1;
    }
    s
}

/// DataNormalizer: the empty payload yields `None` (the no-data signal);
/// otherwise the normalized candles of `normal_candles`, re-sorted ascending
/// by timestamp, together with their exact aggregate statistics.
pub fn normalize(d: &ChartData) -> (r: Option<(Vec<Candle>, RenderStats)>)
    ensures
        (d.data@.len() == 0) == (r is None),
        match r {
            Some((cs, s)) => {
                &&& cs@.len() == d.data@.len()
                &&& cs@ == sort_by_time_spec(normal_candles(*d))
                &&& sorted_by_time(cs@)
                &&& cs@.to_multiset() == normal_candles(*d).to_multiset()
                &&& forall|i: int|
                    0 <= i < cs@.len() ==> normal_candles(*d).contains(#[trigger] cs@[i])
                &&& stats_exact(cs@, s)
            },
            None => true,
        },
{
    if d.data.len() == 0 {
        return None;
    }
    let rows = normalize_rows(d);
    proof {
        assert(rows@ =~= normal_candles(*d));
    }
    let cs = sort_candles_by_time(rows);
    let s = compute_stats(&cs);
    Some((cs, s))
}

/// A candle built from a valid row is valid: its bounded fields are copied
/// from the row's.
pub proof fn lemma_normal_candles_valid(d: ChartData)
    ensures
        forall|i: int|
            0 <= i < d.data@.len() && row_valid(d.data@[i]) ==> candle_valid(
                #[trigger] normal_candles(d)[i],
            ),
{
}

} // verus!
