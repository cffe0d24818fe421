//! The price cache: local observations, remote merges with recency and
//! league policy, staleness and the effective price.
use vstd::prelude::*;
use std::collections::HashMap;
use crate::types::{ItemInfo, PersistedPriceEntry, PriceWithLeague, ONE_UNIT, PRICE_TTL_SEC};

verus! {

broadcast use vstd::std_specs::hash::group_hash_axioms;

/// Item `id` is the catalog's base currency.
pub open spec fn is_base(items: Map<i64, ItemInfo>, id: i64) -> bool {
    items.contains_key(id) && items[id].is_base_currency
}

/// Every cached price is positive.
pub open spec fn prices_wf(prices: Map<i64, PersistedPriceEntry>) -> bool {
    forall|id: i64| #[trigger] prices.contains_key(id) ==> prices[id].price > 0
}

/// The entry is older than the price lifetime at time `now`.
pub open spec fn is_stale(e: PersistedPriceEntry, now: i64) -> bool {
    now - e.updated_at > PRICE_TTL_SEC
}

/// An entry observed in the current league, with no league name.
pub open spec fn current_entry(price: i64, ts: i64) -> PersistedPriceEntry {
    PersistedPriceEntry { price, updated_at: ts, is_current_league: true, league_name: None }
}

/// The cache after a local observation of `price` for `id` at `now`.
pub open spec fn after_local_price(
    prices: Map<i64, PersistedPriceEntry>,
    items: Map<i64, ItemInfo>,
    id: i64,
    price: i64,
    now: i64,
) -> Map<i64, PersistedPriceEntry> {
    if is_base(items, id) || price <= 0 {
        prices
    } else {
        prices.insert(id, current_entry(price, now))
    }
}

/// The cache after one remote row `(id, price, updated_at)`: stored when
/// the item has no entry or the row is strictly newer.
pub open spec fn after_remote_row(
    prices: Map<i64, PersistedPriceEntry>,
    items: Map<i64, ItemInfo>,
    row: (i64, i64, i64),
) -> Map<i64, PersistedPriceEntry> {
    let (id, price, ts) = row;
    if is_base(items, id) || price <= 0 {
        prices
    } else if !prices.contains_key(id) || ts > prices[id].updated_at {
        prices.insert(id, current_entry(price, ts))
    } else {
        prices
    }
}

pub open spec fn after_remote_rows(
    prices: Map<i64, PersistedPriceEntry>,
    items: Map<i64, ItemInfo>,
    rows: Seq<(i64, i64, i64)>,
) -> Map<i64, PersistedPriceEntry>
    decreases rows.len(),
{
    if rows.len() == 0 {
        prices
    } else {
        after_remote_row(after_remote_rows(prices, items, rows.drop_last()), items, rows.last())
    }
}

/// The entry that a league-tagged row stands for.
pub open spec fn league_entry(row: PriceWithLeague) -> PersistedPriceEntry {
    PersistedPriceEntry {
        price: row.price,
        updated_at: row.last_updated,
        is_current_league: row.is_current_league,
        league_name: Some(row.league_name),
    }
}

/// A league-tagged row replaces the stored entry when there is none, when
/// it is strictly newer, or when it is of the current league and the
/// stored one is not.
pub open spec fn league_row_wins(old: PersistedPriceEntry, row: PriceWithLeague) -> bool {
    row.last_updated > old.updated_at || (!old.is_current_league && row.is_current_league)
}

pub open spec fn after_league_row(
    prices: Map<i64, PersistedPriceEntry>,
    items: Map<i64, ItemInfo>,
    row: PriceWithLeague,
) -> Map<i64, PersistedPriceEntry> {
    if is_base(items, row.game_id) || row.price <= 0 {
        prices
    } else if !prices.contains_key(row.game_id) || league_row_wins(prices[row.game_id], row) {
        prices.insert(row.game_id, league_entry(row))
    } else {
        prices
    }
}

pub open spec fn after_league_rows(
    prices: Map<i64, PersistedPriceEntry>,
    items: Map<i64, ItemInfo>,
    rows: Seq<PriceWithLeague>,
) -> Map<i64, PersistedPriceEntry>
    decreases rows.len(),
{
    if rows.len() == 0 {
        prices
    } else {
        after_league_row(after_league_rows(prices, items, rows.drop_last()), items, rows.last())
    }
}

/// The price used for fresh valuation: one unit for the base currency,
/// else the cached price while it is not stale.
pub open spec fn effective_price(
    prices: Map<i64, PersistedPriceEntry>,
    items: Map<i64, ItemInfo>,
    id: i64,
    now: i64,
) -> Option<i64> {
    if is_base(items, id) {
        Some(ONE_UNIT)
    } else if prices.contains_key(id) && !is_stale(prices[id], now) {
        Some(prices[id].price)
    } else {
        None
    }
}

/// Whether `id` is the base currency of the catalog.
pub fn is_base_currency(items: &HashMap<i64, ItemInfo>, id: i64) -> (r: bool)
    ensures
        r == is_base(items@, id),
{
    match items.get(&id) {
        Some(item) => item.is_base_currency,
        None => false,
    }
}

/// Whether the entry has outlived the price lifetime at `now`.
pub fn is_price_stale(entry: &PersistedPriceEntry, now: i64) -> (r: bool)
    ensures
        r == is_stale(*entry, now),
{
    now as i128 - entry.updated_at as i128 > PRICE_TTL_SEC as i128
}

/// Records a local price observation at `now`; ignored for the base
/// currency and for a non-positive price.
pub fn update_price(
    prices: &mut HashMap<i64, PersistedPriceEntry>,
    items: &HashMap<i64, ItemInfo>,
    game_id: i64,
    price: i64,
    now: i64,
)
    ensures
        final(prices)@ == after_local_price(old(prices)@, items@, game_id, price, now),
{
    if is_base_currency(items, game_id) || price <= 0 {
        return;
    }
    prices.insert(
        game_id,
        PersistedPriceEntry { price, updated_at: now, is_current_league: true, league_name: None },
    );
}

/// Merges remote rows `(id, price, updated_at)` in order: a row is stored
/// when the item has no entry or the row is strictly newer; base-currency
/// and non-positive rows are skipped.
pub fn merge_remote_prices(
    prices: &mut HashMap<i64, PersistedPriceEntry>,
    items: &HashMap<i64, ItemInfo>,
    rows: Vec<(i64, i64, i64)>,
)
    ensures
        final(prices)@ == after_remote_rows(old(prices)@, items@, rows@),
{
    let mut i: usize = 0;
    while i < rows.len()
        invariant
            i <= rows.len(),
            prices@ == after_remote_rows(old(prices)@, items@, rows@.take(i as int)),
        decreases rows.len() - i,
    {
        let (game_id, price, ts) = rows[i];
        assert(rows@.take(i + 1).drop_last() == rows@.take(i as int));
        if !is_base_currency(items, game_id) && price > 0 {
            let replace = match prices.get(&game_id) {
                None => true,
                Some(existing) => ts > existing.updated_at,
            };
            if replace {
                prices.insert(
                    game_id,
                    PersistedPriceEntry {
                        price,
                        updated_at: ts,
                        is_current_league: true,
                        league_name: None,
                    },
                );
            }
        }
        i += 1;
    }
    assert(rows@.take(rows.len() as int) == rows@);
}

/// Merges league-tagged rows in order: a row is stored when the item has no
/// entry, when it is strictly newer, or when it is of the current league
/// and the stored entry is not; base-currency and non-positive rows are
/// skipped.
pub fn merge_prices_with_league(
    prices: &mut HashMap<i64, PersistedPriceEntry>,
    items: &HashMap<i64, ItemInfo>,
    rows: Vec<PriceWithLeague>,
)
    ensures
        final(prices)@ == after_league_rows(old(prices)@, items@, rows@),
{
    let mut i: usize = 0;
    while i < rows.len()
        invariant
            i <= rows.len(),
            prices@ == after_league_rows(old(prices)@, items@, rows@.take(i as int)),
        decreases rows.len() - i,
    {
        let row = &rows[i];
        assert(rows@.take(i + 1).drop_last() == rows@.take(i as int));
        if !is_base_currency(items, row.game_id) && row.price > 0 {
            let replace = match prices.get(&row.game_id) {
                None => true,
                Some(existing) => row.last_updated > existing.updated_at || (
                !existing.is_current_league && row.is_current_league),
            };
            if replace {
                prices.insert(
                    row.game_id,
                    PersistedPriceEntry {
                        price: row.price,
                        updated_at: row.last_updated,
                        is_current_league: row.is_current_league,
                        league_name: Some(row.league_name.clone()),
                    },
                );
            }
        }
        i += 1;
    }
    assert(rows@.take(rows.len() as int) == rows@);
}

/// The price for fresh valuation at `now`: one unit for the base currency,
/// the cached price while not stale, else none.
pub fn get_effective_price(
    prices: &HashMap<i64, PersistedPriceEntry>,
    items: &HashMap<i64, ItemInfo>,
    game_id: i64,
    now: i64,
) -> (r: Option<i64>)
    ensures
        r == effective_price(prices@, items@, game_id, now),
{
    if is_base_currency(items, game_id) {
        return Some(ONE_UNIT);
    }
    match prices.get(&game_id) {
        Some(entry) => {
            if is_price_stale(entry, now) {
                None
            } else {
                Some(entry.price)
            }
        },
        None => None,
    }
}

/// Recency for same-league updates: a row that is not newer than the
/// stored entry of its item, from the same league, leaves the cache as it
/// was; and a current-league row always replaces a stored previous-league
/// entry, even when its timestamp is older.
pub proof fn lemma_merge_recency_and_league(
    prices: Map<i64, PersistedPriceEntry>,
    items: Map<i64, ItemInfo>,
    row: PriceWithLeague,
    plain: (i64, i64, i64),
)
    ensures
        prices.contains_key(plain.0) && plain.2 <= prices[plain.0].updated_at
            ==> after_remote_row(prices, items, plain) == prices,
        prices.contains_key(row.game_id) && row.is_current_league
            == prices[row.game_id].is_current_league && row.last_updated
            <= prices[row.game_id].updated_at ==> after_league_row(prices, items, row) == prices,
        prices.contains_key(row.game_id) && !prices[row.game_id].is_current_league
            && row.is_current_league && !is_base(items, row.game_id) && row.price > 0
            ==> after_league_row(prices, items, row)[row.game_id] == league_entry(row),
{
}

/// The base currency is worth exactly one unit and is never stale, at any
/// time and whatever the cache holds.
pub proof fn lemma_base_currency_price(
    prices: Map<i64, PersistedPriceEntry>,
    items: Map<i64, ItemInfo>,
    id: i64,
    now: i64,
)
    requires
        is_base(items, id),
    ensures
        effective_price(prices, items, id, now) == Some(ONE_UNIT),
{
}

/// Merges and local observations never touch the base currency's entry
/// and keep every cached price positive.
pub proof fn lemma_merges_keep_base_and_wf(
    prices: Map<i64, PersistedPriceEntry>,
    items: Map<i64, ItemInfo>,
    rows: Seq<(i64, i64, i64)>,
    lrows: Seq<PriceWithLeague>,
    id: i64,
    price: i64,
    now: i64,
    base: i64,
)
    requires
        is_base(items, base),
        prices_wf(prices),
    ensures
        after_remote_rows(prices, items, rows).contains_key(base) == prices.contains_key(base),
        after_remote_rows(prices, items, rows)[base] == prices[base],
        prices_wf(after_remote_rows(prices, items, rows)),
        after_league_rows(prices, items, lrows).contains_key(base) == prices.contains_key(base),
        after_league_rows(prices, items, lrows)[base] == prices[base],
        prices_wf(after_league_rows(prices, items, lrows)),
        after_local_price(prices, items, id, price, now).contains_key(base)
            == prices.contains_key(base),
        after_local_price(prices, items, id, price, now)[base] == prices[base],
        prices_wf(after_local_price(prices, items, id, price, now)),
{
    lemma_remote_rows_keep(prices, items, rows, base);
    lemma_league_rows_keep(prices, items, lrows, base);
}

/// What a batch merge keeps: positive prices, and the base currency's entry.
pub proof fn lemma_remote_rows_keep(
    prices: Map<i64, PersistedPriceEntry>,
    items: Map<i64, ItemInfo>,
    rows: Seq<(i64, i64, i64)>,
    base: i64,
)
    requires
        prices_wf(prices),
    ensures
        is_base(items, base) ==> after_remote_rows(prices, items, rows).contains_key(base)
            == prices.contains_key(base),
        is_base(items, base) ==> after_remote_rows(prices, items, rows)[base] == prices[base],
        prices_wf(after_remote_rows(prices, items, rows)),
    decreases rows.len(),
{
    if rows.len() > 0 {
        lemma_remote_rows_keep(prices, items, rows.drop_last(), base);
    }
}

/// What a batch merge keeps: positive prices, and the base currency's entry.
pub proof fn lemma_league_rows_keep(
    prices: Map<i64, PersistedPriceEntry>,
    items: Map<i64, ItemInfo>,
    rows: Seq<PriceWithLeague>,
    base: i64,
)
    requires
        prices_wf(prices),
    ensures
        is_base(items, base) ==> after_league_rows(prices, items, rows).contains_key(base)
            == prices.contains_key(base),
        is_base(items, base) ==> after_league_rows(prices, items, rows)[base] == prices[base],
        prices_wf(after_league_rows(prices, items, rows)),
    decreases rows.len(),
{
    if rows.len() > 0 {
        lemma_league_rows_keep(prices, items, rows.drop_last(), base);
    }
}

} // verus!
