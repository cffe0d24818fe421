//! Statistics derived from the session, the price cache and the catalog.
use vstd::prelude::*;
use std::collections::HashMap;
use crate::types::{
    AggregatedDrop, FarmSessionState, ItemInfo, PersistedPriceEntry, SessionStats, ONE_UNIT,
};
use crate::session::{clamp_i32, session_wf};
use crate::prices::{is_base, is_base_currency, is_price_stale, is_stale};
use crate::types::clone_opt_string;

verus! {

broadcast use vstd::std_specs::hash::group_hash_axioms;

/// Most distinct drop lines that the statistics can sum without overflow.
pub const MAX_DROP_LINES: usize = 1_000_000;

/// Bound on the value of one drop line, in micro-units.
pub open spec fn line_bound() -> int {
    0x4000_0000_0000_0000_0000_0000
}

/// Value of a drop line: one unit per piece of base currency, else the
/// cached price even when stale, else nothing.
pub open spec fn line_value(
    prices: Map<i64, PersistedPriceEntry>,
    items: Map<i64, ItemInfo>,
    line: (i64, i32),
) -> int {
    if is_base(items, line.0) {
        ONE_UNIT * line.1
    } else if prices.contains_key(line.0) {
        prices[line.0].price * line.1
    } else {
        0
    }
}

/// The line is valued at a stale cached price.
pub open spec fn line_is_stale(
    prices: Map<i64, PersistedPriceEntry>,
    items: Map<i64, ItemInfo>,
    line: (i64, i32),
    now: i64,
) -> bool {
    !is_base(items, line.0) && prices.contains_key(line.0) && is_stale(prices[line.0], now)
}

pub open spec fn total_value(
    prices: Map<i64, PersistedPriceEntry>,
    items: Map<i64, ItemInfo>,
    d: Seq<(i64, i32)>,
) -> int
    decreases d.len(),
{
    if d.len() == 0 {
        0
    } else {
        total_value(prices, items, d.drop_last()) + line_value(prices, items, d.last())
    }
}

pub open spec fn stale_lines(
    prices: Map<i64, PersistedPriceEntry>,
    items: Map<i64, ItemInfo>,
    d: Seq<(i64, i32)>,
    now: i64,
) -> int
    decreases d.len(),
{
    if d.len() == 0 {
        0
    } else {
        stale_lines(prices, items, d.drop_last(), now) + if line_is_stale(
            prices,
            items,
            d.last(),
            now,
        ) {
            1int
        } else {
            0int
        }
    }
}

pub open spec fn total_items(d: Seq<(i64, i32)>) -> int
    decreases d.len(),
{
    if d.len() == 0 {
        0
    } else {
        total_items(d.drop_last()) + d.last().1
    }
}

/// Seconds spent on the current map at `now`, never negative.
pub open spec fn current_map_elapsed(s: FarmSessionState, now: i64) -> int {
    match s.current_map_started {
        Some(st) => if now - st > 0 { clamp_i32(now - st) } else { 0 },
        None => 0,
    }
}

/// Mean completed-map time rounded to the nearest second; before the first
/// completion, the time on the current map; else zero.
pub open spec fn avg_map_duration(s: FarmSessionState, now: i64) -> int {
    if s.maps_completed > 0 {
        (2 * s.total_duration_sec + s.maps_completed) / (2 * s.maps_completed)
    } else if s.is_on_map && current_map_elapsed(s, now) > 0 {
        current_map_elapsed(s, now)
    } else {
        0
    }
}

/// `x / d` rounded toward zero, for positive `d`.
pub open spec fn div_toward_zero(x: int, d: int) -> int {
    if x >= 0 { x / d } else { -((-x) / d) }
}

/// Value per hour of session time; zero before any time has passed.
pub open spec fn hourly_profit(value: int, duration_sec: int) -> int {
    if duration_sec > 0 { div_toward_zero(value * 3600, duration_sec) } else { 0 }
}

pub open spec fn session_stats(
    s: FarmSessionState,
    prices: Map<i64, PersistedPriceEntry>,
    items: Map<i64, ItemInfo>,
    now: i64,
    paused: bool,
) -> SessionStats {
    SessionStats {
        total_items: total_items(s.drops@) as i64,
        unique_items: s.drops@.len() as i64,
        total_value: total_value(prices, items, s.drops@) as i128,
        maps_completed: s.maps_completed,
        duration_sec: s.session_duration_sec,
        avg_map_duration_sec: avg_map_duration(s, now) as i32,
        stale_price_lines: stale_lines(prices, items, s.drops@, now) as i64,
        hourly_profit: hourly_profit(
            total_value(prices, items, s.drops@),
            s.session_duration_sec as int,
        ) as i128,
        is_paused: paused,
    }
}

proof fn lemma_line_value_bound(
    prices: Map<i64, PersistedPriceEntry>,
    items: Map<i64, ItemInfo>,
    line: (i64, i32),
)
    ensures
        -line_bound() <= line_value(prices, items, line) <= line_bound(),
{
    let q = line.1 as int;
    if is_base(items, line.0) {
        assert(-line_bound() <= ONE_UNIT * q <= line_bound()) by (nonlinear_arith)
            requires
                i32::MIN <= q <= i32::MAX,
        ;
    } else if prices.contains_key(line.0) {
        let p = prices[line.0].price as int;
        assert(-line_bound() <= p * q <= line_bound()) by (nonlinear_arith)
            requires
                i64::MIN <= p <= i64::MAX,
                i32::MIN <= q <= i32::MAX,
        ;
    }
}

proof fn lemma_rounded_mean_bound(t: int, m: int)
    requires
        0 <= t,
        1 <= m,
    ensures
        0 <= (2 * t + m) / (2 * m) <= t,
{
    let x = 2 * t + m;
    let d = 2 * m;
    let q = x / d;
    vstd::arithmetic::div_mod::lemma_fundamental_div_mod(x, d);
    assert(0 <= q <= t) by (nonlinear_arith)
        requires
            x == d * q + x % d,
            0 <= x % d < d,
            d == 2 * m,
            x == 2 * t + m,
            1 <= m,
            0 <= t,
    ;
}

/// The value of the drops is bounded by their number of lines.
pub proof fn lemma_total_value_bound(
    prices: Map<i64, PersistedPriceEntry>,
    items: Map<i64, ItemInfo>,
    d: Seq<(i64, i32)>,
)
    ensures
        -(d.len() * line_bound()) <= total_value(prices, items, d) <= d.len() * line_bound(),
    decreases d.len(),
{
    if d.len() > 0 {
        lemma_total_value_bound(prices, items, d.drop_last());
        lemma_line_value_bound(prices, items, d.last());
    }
}

/// Sum of quantities, sum of values and count of stale lines of the drops.
fn sum_drops(
    drops: &Vec<(i64, i32)>,
    prices: &HashMap<i64, PersistedPriceEntry>,
    items: &HashMap<i64, ItemInfo>,
    now: i64,
) -> (r: (i64, i128, i64))
    requires
        drops@.len() <= MAX_DROP_LINES,
    ensures
        r.0 == total_items(drops@),
        r.1 == total_value(prices@, items@, drops@),
        r.2 == stale_lines(prices@, items@, drops@, now),
        -(MAX_DROP_LINES * line_bound()) <= r.1 <= MAX_DROP_LINES * line_bound(),
{
    let mut qty: i64 = 0;
    let mut value: i128 = 0;
    let mut stale: i64 = 0;
    let mut i: usize = 0;
    while i < drops.len()
        invariant
            i <= drops@.len() <= MAX_DROP_LINES,
            qty == total_items(drops@.take(i as int)),
            value == total_value(prices@, items@, drops@.take(i as int)),
            stale == stale_lines(prices@, items@, drops@.take(i as int), now),
            -(i * 0x8000_0000) <= qty <= i * 0x8000_0000,
            -(i * line_bound()) <= value <= i * line_bound(),
            0 <= stale <= i,
        decreases drops@.len() - i,
    {
        let (id, q) = drops[i];
        assert(drops@.take(i + 1).drop_last() == drops@.take(i as int));
        assert(drops@.take(i + 1).last() == drops@[i as int]);
        proof {
            lemma_line_value_bound(prices@, items@, drops@[i as int]);
        }
        qty = qty + q as i64;
        if is_base_currency(items, id) {
            value = value + ONE_UNIT as i128 * q as i128;
        } else {
            match prices.get(&id) {
                Some(entry) => {
                    value = value + entry.price as i128 * q as i128;
                    if is_price_stale(entry, now) {
                        stale = stale + 1;
                    }
                },
                None => {},
            }
        }
        i += 1;
    }
    assert(drops@.take(drops@.len() as int) == drops@);
    (qty, value, stale)
}

/// Session statistics at `now`: item count, distinct items, value (stale
/// prices included, their lines counted), map count, mean map time, session
/// time and value per hour.
pub fn get_session_stats(
    s: &FarmSessionState,
    prices: &HashMap<i64, PersistedPriceEntry>,
    items: &HashMap<i64, ItemInfo>,
    now: i64,
    paused: bool,
) -> (r: SessionStats)
    requires
        session_wf(*s),
        s.drops@.len() <= MAX_DROP_LINES,
    ensures
        r == session_stats(*s, prices@, items@, now, paused),
{
    let (total_items, total_value, stale_price_lines) = sum_drops(&s.drops, prices, items, now);
    let elapsed: i32 = match s.current_map_started {
        Some(started) => {
            let d: i128 = now as i128 - started as i128;
            if d > 0 {
                if d > i32::MAX as i128 {
                    i32::MAX
                } else {
                    d as i32
                }
            } else {
                0
            }
        },
        None => 0,
    };
    let avg_map_duration_sec: i32 = if s.maps_completed > 0 {
        let t = s.total_duration_sec as i64;
        let m = s.maps_completed as i64;
        proof {
            lemma_rounded_mean_bound(t as int, m as int);
        }
        ((2 * t + m) / (2 * m)) as i32
    } else if s.is_on_map && elapsed > 0 {
        elapsed
    } else {
        0
    };
    let duration_sec = s.session_duration_sec;
    let hourly_profit: i128 = if duration_sec > 0 {
        let d = duration_sec as i128;
        if total_value >= 0 {
            (total_value * 3600) / d
        } else {
            -(((-total_value) * 3600) / d)
        }
    } else {
        0
    };
    assert(avg_map_duration(*s, now) == avg_map_duration_sec);
    SessionStats {
        total_items,
        unique_items: s.drops.len() as i64,
        total_value,
        maps_completed: s.maps_completed,
        duration_sec,
        avg_map_duration_sec,
        stale_price_lines,
        hourly_profit,
        is_paused: paused,
    }
}

/// The view row of a drop line at `now`.
pub open spec fn aggregated_row(
    prices: Map<i64, PersistedPriceEntry>,
    items: Map<i64, ItemInfo>,
    line: (i64, i32),
    now: i64,
) -> AggregatedDrop {
    let id = line.0;
    let info = if items.contains_key(id) { Some(items[id]) } else { None };
    if is_base(items, id) {
        AggregatedDrop {
            game_id: id,
            item_info: info,
            quantity: line.1,
            total_value: line_value(prices, items, line) as i128,
            unit_price: ONE_UNIT,
            price_updated_at: Some(now),
            price_is_stale: false,
            is_previous_season: false,
            league_name: None,
        }
    } else if prices.contains_key(id) {
        AggregatedDrop {
            game_id: id,
            item_info: info,
            quantity: line.1,
            total_value: line_value(prices, items, line) as i128,
            unit_price: prices[id].price,
            price_updated_at: Some(prices[id].updated_at),
            price_is_stale: is_stale(prices[id], now),
            is_previous_season: !prices[id].is_current_league,
            league_name: prices[id].league_name,
        }
    } else {
        AggregatedDrop {
            game_id: id,
            item_info: info,
            quantity: line.1,
            total_value: 0,
            unit_price: 0,
            price_updated_at: None,
            price_is_stale: false,
            is_previous_season: false,
            league_name: None,
        }
    }
}

/// The view rows of all drop lines, in line order.
pub open spec fn aggregated_rows(
    prices: Map<i64, PersistedPriceEntry>,
    items: Map<i64, ItemInfo>,
    d: Seq<(i64, i32)>,
    now: i64,
) -> Seq<AggregatedDrop> {
    d.map_values(|line: (i64, i32)| aggregated_row(prices, items, line, now))
}

/// Rows in non-increasing order of value.
pub open spec fn sorted_by_value_desc(rows: Seq<AggregatedDrop>) -> bool {
    forall|i: int, j: int| 0 <= i < j < rows.len() ==> rows[i].total_value >= rows[j].total_value
}

fn aggregate_line(
    prices: &HashMap<i64, PersistedPriceEntry>,
    items: &HashMap<i64, ItemInfo>,
    line: (i64, i32),
    now: i64,
) -> (r: AggregatedDrop)
    ensures
        r == aggregated_row(prices@, items@, line, now),
{
    let (id, qty) = line;
    proof {
        lemma_line_value_bound(prices@, items@, line);
    }
    let item_info = match items.get(&id) {
        Some(info) => Some(info.duplicate()),
        None => None,
    };
    if is_base_currency(items, id) {
        return AggregatedDrop {
            game_id: id,
            item_info,
            quantity: qty,
            total_value: ONE_UNIT as i128 * qty as i128,
            unit_price: ONE_UNIT,
            price_updated_at: Some(now),
            price_is_stale: false,
            is_previous_season: false,
            league_name: None,
        };
    }
    match prices.get(&id) {
        Some(p) => AggregatedDrop {
            game_id: id,
            item_info,
            quantity: qty,
            total_value: p.price as i128 * qty as i128,
            unit_price: p.price,
            price_updated_at: Some(p.updated_at),
            price_is_stale: is_price_stale(p, now),
            is_previous_season: !p.is_current_league,
            league_name: clone_opt_string(&p.league_name),
        },
        None => AggregatedDrop {
            game_id: id,
            item_info,
            quantity: qty,
            total_value: 0,
            unit_price: 0,
            price_updated_at: None,
            price_is_stale: false,
            is_previous_season: false,
            league_name: None,
        },
    }
}

/// One row per drop line, with its unit price, value, price age, staleness
/// and league, sorted by value from largest to smallest.
pub fn get_aggregated_drops(
    s: &FarmSessionState,
    prices: &HashMap<i64, PersistedPriceEntry>,
    items: &HashMap<i64, ItemInfo>,
    now: i64,
) -> (r: Vec<AggregatedDrop>)
    ensures
        r@.to_multiset() == aggregated_rows(prices@, items@, s.drops@, now).to_multiset(),
        sorted_by_value_desc(r@),
{
    broadcast use vstd::seq_lib::group_to_multiset_ensures;

    let ghost rows = aggregated_rows(prices@, items@, s.drops@, now);
    let mut out: Vec<AggregatedDrop> = Vec::new();
    let mut i: usize = 0;
    while i < s.drops.len()
        invariant
            i <= s.drops@.len(),
            rows.len() == s.drops@.len(),
            forall|k: int| 0 <= k < rows.len() ==> #[trigger] rows[k] == aggregated_row(
                prices@,
                items@,
                s.drops@[k],
                now,
            ),
            out@.to_multiset() == rows.take(i as int).to_multiset(),
            sorted_by_value_desc(out@),
        decreases s.drops@.len() - i,
    {
        let row = aggregate_line(prices, items, s.drops[i], now);
        let mut pos: usize = 0;
        while pos < out.len() && out[pos].total_value >= row.total_value
            invariant
                pos <= out@.len(),
                forall|k: int| 0 <= k < pos ==> #[trigger] out@[k].total_value >= row.total_value,
            decreases out@.len() - pos,
        {
            pos += 1;
        }
        let ghost before = out@;
        out.insert(pos, row);
        assert(rows.take(i + 1) == rows.take(i as int).push(rows[i as int]));
        proof {
            vstd::seq_lib::to_multiset_insert(before, pos as int, row);
            vstd::seq_lib::to_multiset_build(rows.take(i as int), rows[i as int]);
        }
        assert forall|a: int, b: int| 0 <= a < b < out@.len() implies out@[a].total_value
            >= out@[b].total_value by {
            if b < pos {
            } else if a < pos && b == pos {
            } else if a < pos {
                assert(out@[b] == before[b - 1]);
            } else if a == pos {
                assert(out@[b] == before[b - 1]);
                assert(before[pos as int].total_value < row.total_value);
            } else {
                assert(out@[a] == before[a - 1]);
                assert(out@[b] == before[b - 1]);
            }
        }
        i += 1;
    }
    assert(rows.take(s.drops@.len() as int) == rows);
    out
}

} // verus!
