//! The engine's context object: settings, the live session, the catalog,
//! the price cache and the credential, with the operations on them.
use vstd::prelude::*;
use std::collections::HashMap;
use crate::types::{
    AppSettings, AuthSession, ExpenseEntry, FarmSessionState, ItemDropEvent, ItemInfo,
    ManualDropEntry, MapChangeEvent, PersistedPriceEntry, PriceWithLeague, is_default_settings,
    is_empty_session, ONE_UNIT, SessionStats, AggregatedDrop, clone_opt_string,
};
use crate::stats;
use crate::outside::now_secs;
use crate::stats::{session_stats, aggregated_rows, sorted_by_value_desc, MAX_DROP_LINES};
use crate::session::{add_clamped, clamp_i32, line_of, session_wf, unique_ids, after_map_change};
use crate::prices::{
    after_league_rows, after_local_price, after_remote_rows, current_entry, effective_price,
    is_base, prices_wf, lemma_remote_rows_keep, lemma_league_rows_keep,
};
use crate::prices;

verus! {

broadcast use vstd::std_specs::hash::group_hash_axioms;

/// The engine's state. Callers serialise the mutating operations.
pub struct AppState {
    pub settings: AppSettings,
    pub session: FarmSessionState,
    /// Catalog: item id to metadata.
    pub items_cache: HashMap<i64, ItemInfo>,
    /// Price cache: item id to its latest price.
    pub prices_cache: HashMap<i64, PersistedPriceEntry>,
    pub is_connected: bool,
    pub log_path: Option<String>,
    pub auth_session: Option<AuthSession>,
    /// While set, drops are not recorded.
    pub is_paused: bool,
}

/// The drop lines after `q` more of item `id`: its line grows (held to
/// `i32`), or a new line is added.
pub open spec fn add_to_lines(d: Seq<(i64, i32)>, id: i64, q: i32) -> Seq<(i64, i32)> {
    if exists|i: int| line_of(d, id, i) {
        let i = choose|i: int| line_of(d, id, i);
        d.update(i, (id, clamp_i32(d[i].1 + q) as i32))
    } else {
        d.push((id, q))
    }
}

/// The session after a pickup: recorded only in an active, unpaused
/// session and for an item of the catalog.
pub open spec fn drop_recorded(
    s: FarmSessionState,
    items: Map<i64, ItemInfo>,
    paused: bool,
    e: ItemDropEvent,
) -> bool {
    s.started_at.is_some() && !paused && items.contains_key(e.game_id)
}

/// The price cache after loading a snapshot: entries already present are
/// kept, new positive ones are added, the first of repeated ids wins.
pub open spec fn after_loaded_prices(
    prices: Map<i64, PersistedPriceEntry>,
    loaded: Seq<(i64, PersistedPriceEntry)>,
) -> Map<i64, PersistedPriceEntry>
    decreases loaded.len(),
{
    if loaded.len() == 0 {
        prices
    } else {
        let p = after_loaded_prices(prices, loaded.drop_last());
        let (id, e) = loaded.last();
        if p.contains_key(id) || e.price <= 0 {
            p
        } else {
            p.insert(id, e)
        }
    }
}

/// The catalog after loading `batch`, later items replacing earlier ones.
pub open spec fn after_loaded_items(items: Map<i64, ItemInfo>, batch: Seq<ItemInfo>) -> Map<
    i64,
    ItemInfo,
>
    decreases batch.len(),
{
    if batch.len() == 0 {
        items
    } else {
        after_loaded_items(items, batch.drop_last()).insert(batch.last().game_id, batch.last())
    }
}

/// The price cache after loading `batch` at `now`: each base-currency item
/// of the batch gets a price of one unit observed at `now`.
pub open spec fn after_base_prices(
    prices: Map<i64, PersistedPriceEntry>,
    batch: Seq<ItemInfo>,
    now: i64,
) -> Map<i64, PersistedPriceEntry>
    decreases batch.len(),
{
    if batch.len() == 0 {
        prices
    } else {
        let p = after_base_prices(prices, batch.drop_last(), now);
        if batch.last().is_base_currency {
            p.insert(batch.last().game_id, current_entry(ONE_UNIT, now))
        } else {
            p
        }
    }
}

/// `b` is `a` after starting a session at `now`: a fresh session with only
/// its start time and preset set, the pause flag cleared, all else kept.
pub open spec fn start_step(a: AppState, b: AppState, preset_id: Option<String>, now: i64) -> bool {
    &&& b.session.started_at == Some(now)
    &&& b.session.preset_id == preset_id
    &&& is_empty_session(FarmSessionState { started_at: None, preset_id: None, ..b.session })
    &&& b == (AppState { session: b.session, is_paused: false, ..a })
}

/// `b` is `a` after ending its session, which `r` hands back: an empty,
/// inactive session and the pause flag cleared, all else kept.
pub open spec fn end_step(a: AppState, b: AppState, r: FarmSessionState) -> bool {
    &&& r == a.session
    &&& is_empty_session(b.session)
    &&& b == (AppState { session: b.session, is_paused: false, ..a })
}

/// Ending a session and starting the next one right after leaves no map
/// count and no drops, whatever the ended session held.
pub proof fn lemma_end_then_start_is_fresh(
    a: AppState,
    b: AppState,
    c: AppState,
    r: FarmSessionState,
    preset_id: Option<String>,
    now: i64,
)
    requires
        end_step(a, b, r),
        start_step(b, c, preset_id, now),
    ensures
        c.session.maps_completed == 0,
        c.session.drops@.len() == 0,
        c.session.started_at == Some(now),
{
}

/// The index of the line of item `id`, if there is one.
fn find_line(d: &Vec<(i64, i32)>, id: i64) -> (r: Option<usize>)
    ensures
        match r {
            Some(i) => line_of(d@, id, i as int),
            None => !exists|i: int| line_of(d@, id, i),
        },
{
    let mut i: usize = 0;
    while i < d.len()
        invariant
            i <= d@.len(),
            forall|k: int| 0 <= k < i ==> #[trigger] d@[k].0 != id,
        decreases d@.len() - i,
    {
        if d[i].0 == id {
            return Some(i);
        }
        i += 1;
    }
    None
}

impl AppState {
    /// The engine's invariant: the session is well-formed and every cached
    /// price is positive.
    pub open spec fn wf(&self) -> bool {
        session_wf(self.session) && prices_wf(self.prices_cache@)
    }

    /// A fresh engine: default settings, no session, empty caches.
    pub fn new() -> (r: AppState)
        ensures
            r.wf(),
            is_default_settings(r.settings),
            is_empty_session(r.session),
            r.items_cache@ == Map::<i64, ItemInfo>::empty(),
            r.prices_cache@ == Map::<i64, PersistedPriceEntry>::empty(),
            !r.is_connected,
            r.log_path.is_none(),
            r.auth_session.is_none(),
            !r.is_paused,
    {
        AppState {
            settings: AppSettings::default(),
            session: FarmSessionState::default(),
            items_cache: HashMap::new(),
            prices_cache: HashMap::new(),
            is_connected: false,
            log_path: None,
            auth_session: None,
            is_paused: false,
        }
    }

    /// Starts a new session at `now`, replacing any other, and clears the
    /// pause flag.
    pub fn start_session_at(&mut self, preset_id: Option<String>, now: i64)
        requires
            old(self).wf(),
        ensures
            final(self).wf(),
            start_step(*old(self), *final(self), preset_id, now),
    {
        self.is_paused = false;
        self.session = FarmSessionState::started(now, preset_id);
    }

    /// Ends the session: hands back what it held and leaves an empty,
    /// inactive, unpaused session.
    pub fn end_session(&mut self) -> (r: FarmSessionState)
        requires
            old(self).wf(),
        ensures
            final(self).wf(),
            end_step(*old(self), *final(self), r),
    {
        self.is_paused = false;
        let mut ended = FarmSessionState::default();
        core::mem::swap(&mut self.session, &mut ended);
        ended
    }

    /// Installs a recovered session snapshot: only one with a start time
    /// and well-formed; its pause flag is restored. Reports whether it did.
    pub fn load_session_from_disk(&mut self, loaded: Option<FarmSessionState>) -> (r: bool)
        requires
            old(self).wf(),
        ensures
            final(self).wf(),
            r == (loaded.is_some() && loaded.unwrap().started_at.is_some() && session_wf(
                loaded.unwrap(),
            )),
            r ==> *final(self) == (AppState {
                session: loaded.unwrap(),
                is_paused: loaded.unwrap().is_paused,
                ..*old(self)
            }),
            !r ==> *final(self) == *old(self),
    {
        match loaded {
            Some(s) => {
                if s.started_at.is_some() && s.is_well_formed() {
                    self.is_paused = s.is_paused;
                    self.session = s;
                    true
                } else {
                    false
                }
            },
            None => false,
        }
    }

    /// Sets the pause flag; an active session records it too.
    pub fn set_paused(&mut self, paused: bool)
        requires
            old(self).wf(),
        ensures
            final(self).wf(),
            final(self).is_paused == paused,
            final(self).session == (if old(self).session.started_at.is_some() {
                FarmSessionState { is_paused: paused, ..old(self).session }
            } else {
                old(self).session
            }),
            *final(self) == (AppState {
                session: final(self).session,
                is_paused: paused,
                ..*old(self)
            }),
    {
        self.is_paused = paused;
        if self.session.started_at.is_some() {
            self.session.is_paused = paused;
        }
    }

    /// Records the wall-clock session time of an active session.
    pub fn update_session_duration(&mut self, duration_sec: i32)
        requires
            old(self).wf(),
        ensures
            final(self).wf(),
            *final(self) == (AppState {
                session: if old(self).session.started_at.is_some() {
                    FarmSessionState { session_duration_sec: duration_sec, ..old(self).session }
                } else {
                    old(self).session
                },
                ..*old(self)
            }),
    {
        if self.session.started_at.is_some() {
            self.session.session_duration_sec = duration_sec;
        }
    }

    pub fn is_paused(&self) -> (r: bool)
        ensures
            r == self.is_paused,
    {
        self.is_paused
    }

    /// Applies a map transition to the session (see `handle_map_change` of
    /// the session).
    pub fn handle_map_change(&mut self, event: &MapChangeEvent)
        requires
            old(self).wf(),
        ensures
            final(self).wf(),
            *final(self) == (AppState {
                session: after_map_change(old(self).session, *event),
                ..*old(self)
            }),
    {
        proof {
            crate::session::lemma_map_change_keeps_wf(self.session, *event);
        }
        self.session.handle_map_change(event);
    }

    /// Records a pickup: ignored without an active session, while paused,
    /// and for an item the catalog does not know; else the item's count
    /// grows by the quantity.
    pub fn add_drop(&mut self, event: &ItemDropEvent)
        requires
            old(self).wf(),
        ensures
            final(self).wf(),
            drop_recorded(old(self).session, old(self).items_cache@, old(self).is_paused, *event)
                ==> final(self).session.drops@ == add_to_lines(
                old(self).session.drops@,
                event.game_id,
                event.quantity,
            ),
            !drop_recorded(old(self).session, old(self).items_cache@, old(self).is_paused, *event)
                ==> final(self).session.drops@ == old(self).session.drops@,
            *final(self) == (AppState {
                session: FarmSessionState { drops: final(self).session.drops, ..old(self).session },
                ..*old(self)
            }),
    {
        if self.session.started_at.is_none() || self.is_paused || !self.items_cache.contains_key(
            &event.game_id,
        ) {
            return;
        }
        let id = event.game_id;
        match find_line(&self.session.drops, id) {
            Some(i) => {
                let ghost d = self.session.drops@;
                let n = add_clamped(self.session.drops[i].1, event.quantity as i128);
                self.session.drops.set(i, (id, n));
                assert(unique_ids(self.session.drops@)) by {
                    assert forall|a: int, b: int|
                        0 <= a < b < self.session.drops@.len() implies self.session.drops@[a].0
                        != self.session.drops@[b].0 by {
                        if a != i && b != i {
                            assert(d[a].0 != d[b].0);
                        } else if a == i {
                            assert(d[i as int].0 != d[b].0);
                        } else {
                            assert(d[a].0 != d[i as int].0);
                        }
                    }
                }
            },
            None => {
                let ghost d = self.session.drops@;
                self.session.drops.push((id, event.quantity));
                assert(unique_ids(self.session.drops@)) by {
                    assert forall|a: int, b: int|
                        0 <= a < b < self.session.drops@.len() implies self.session.drops@[a].0
                        != self.session.drops@[b].0 by {
                        if b < d.len() {
                            assert(d[a].0 != d[b].0);
                        } else {
                            assert(!line_of(d, id, a));
                        }
                    }
                }
            },
        }
    }

    /// Adds an expense; allowed with or without an active session.
    pub fn add_expense(
        &mut self,
        id: String,
        game_id: Option<i64>,
        name: String,
        name_ru: Option<String>,
        quantity: i32,
        price: i64,
    )
        requires
            old(self).wf(),
        ensures
            final(self).wf(),
            final(self).session.expenses@ == old(self).session.expenses@.push(
                ExpenseEntry { id, game_id, name, name_ru, quantity, price },
            ),
            *final(self) == (AppState {
                session: FarmSessionState {
                    expenses: final(self).session.expenses,
                    ..old(self).session
                },
                ..*old(self)
            }),
    {
        self.session.expenses.push(ExpenseEntry { id, game_id, name, name_ru, quantity, price });
    }

    /// Adds a hand-entered drop; only to an active session.
    pub fn add_manual_drop(
        &mut self,
        id: String,
        game_id: Option<i64>,
        name: String,
        name_ru: Option<String>,
        quantity: i32,
        price: i64,
    )
        requires
            old(self).wf(),
        ensures
            final(self).wf(),
            final(self).session.manual_drops@ == (if old(self).session.started_at.is_some() {
                old(self).session.manual_drops@.push(
                    ManualDropEntry { id, game_id, name, name_ru, quantity, price },
                )
            } else {
                old(self).session.manual_drops@
            }),
            *final(self) == (AppState {
                session: FarmSessionState {
                    manual_drops: final(self).session.manual_drops,
                    ..old(self).session
                },
                ..*old(self)
            }),
    {
        if self.session.started_at.is_some() {
            self.session.manual_drops.push(
                ManualDropEntry { id, game_id, name, name_ru, quantity, price },
            );
        }
    }

    /// Records a local price observation at `now` (see `prices::update_price`).
    pub fn update_price_at(&mut self, game_id: i64, price: i64, now: i64)
        requires
            old(self).wf(),
        ensures
            final(self).wf(),
            final(self).prices_cache@ == after_local_price(
                old(self).prices_cache@,
                old(self).items_cache@,
                game_id,
                price,
                now,
            ),
            *final(self) == (AppState { prices_cache: final(self).prices_cache, ..*old(self) }),
    {
        prices::update_price(&mut self.prices_cache, &self.items_cache, game_id, price, now);
    }

    /// Merges remote rows `(id, price, updated_at)` into the cache.
    pub fn merge_remote_prices(&mut self, rows: Vec<(i64, i64, i64)>)
        requires
            old(self).wf(),
        ensures
            final(self).wf(),
            final(self).prices_cache@ == after_remote_rows(
                old(self).prices_cache@,
                old(self).items_cache@,
                rows@,
            ),
            *final(self) == (AppState { prices_cache: final(self).prices_cache, ..*old(self) }),
    {
        proof {
            lemma_remote_rows_keep(self.prices_cache@, self.items_cache@, rows@, 0);
        }
        prices::merge_remote_prices(&mut self.prices_cache, &self.items_cache, rows);
    }

    /// Merges league-tagged remote rows into the cache.
    pub fn merge_prices_with_league(&mut self, rows: Vec<PriceWithLeague>)
        requires
            old(self).wf(),
        ensures
            final(self).wf(),
            final(self).prices_cache@ == after_league_rows(
                old(self).prices_cache@,
                old(self).items_cache@,
                rows@,
            ),
            *final(self) == (AppState { prices_cache: final(self).prices_cache, ..*old(self) }),
    {
        proof {
            lemma_league_rows_keep(self.prices_cache@, self.items_cache@, rows@, 0);
        }
        prices::merge_prices_with_league(&mut self.prices_cache, &self.items_cache, rows);
    }

    /// The price for fresh valuation at `now`.
    pub fn get_effective_price_at(&self, game_id: i64, now: i64) -> (r: Option<i64>)
        ensures
            r == effective_price(self.prices_cache@, self.items_cache@, game_id, now),
    {
        prices::get_effective_price(&self.prices_cache, &self.items_cache, game_id, now)
    }

    /// The cached price of the item, stale or not.
    pub fn get_price(&self, game_id: i64) -> (r: Option<i64>)
        ensures
            r == (if self.prices_cache@.contains_key(game_id) {
                Some(self.prices_cache@[game_id].price)
            } else {
                None
            }),
    {
        match self.prices_cache.get(&game_id) {
            Some(e) => Some(e.price),
            None => None,
        }
    }

    /// Adds a price snapshot read back from disk without overwriting what
    /// the cache already holds; non-positive prices are skipped.
    pub fn load_prices_cache_from_disk(&mut self, loaded: Vec<(i64, PersistedPriceEntry)>)
        requires
            old(self).wf(),
        ensures
            final(self).wf(),
            final(self).prices_cache@ == after_loaded_prices(old(self).prices_cache@, loaded@),
            *final(self) == (AppState { prices_cache: final(self).prices_cache, ..*old(self) }),
    {
        let mut i: usize = 0;
        while i < loaded.len()
            invariant
                i <= loaded@.len(),
                self.prices_cache@ == after_loaded_prices(
                    old(self).prices_cache@,
                    loaded@.take(i as int),
                ),
                prices_wf(self.prices_cache@),
                *self == (AppState { prices_cache: self.prices_cache, ..*old(self) }),
            decreases loaded@.len() - i,
        {
            assert(loaded@.take(i + 1).drop_last() == loaded@.take(i as int));
            let id = loaded[i].0;
            if !self.prices_cache.contains_key(&id) && loaded[i].1.price > 0 {
                let e = &loaded[i].1;
                self.prices_cache.insert(
                    id,
                    PersistedPriceEntry {
                        price: e.price,
                        updated_at: e.updated_at,
                        is_current_league: e.is_current_league,
                        league_name: crate::types::clone_opt_string(&e.league_name),
                    },
                );
            }
            i += 1;
        }
        assert(loaded@.take(loaded@.len() as int) == loaded@);
    }

    /// Loads catalog items (a later item replaces an earlier one of the same
    /// id) and gives each base-currency item of the batch a price of one
    /// unit observed at `now`.
    pub fn load_items_cache_at(&mut self, items: Vec<ItemInfo>, now: i64)
        requires
            old(self).wf(),
        ensures
            final(self).wf(),
            final(self).items_cache@ == after_loaded_items(old(self).items_cache@, items@),
            final(self).prices_cache@ == after_base_prices(old(self).prices_cache@, items@, now),
            *final(self) == (AppState {
                items_cache: final(self).items_cache,
                prices_cache: final(self).prices_cache,
                ..*old(self)
            }),
    {
        let mut i: usize = 0;
        while i < items.len()
            invariant
                i <= items@.len(),
                self.items_cache@ == after_loaded_items(
                    old(self).items_cache@,
                    items@.take(i as int),
                ),
                self.prices_cache@ == after_base_prices(
                    old(self).prices_cache@,
                    items@.take(i as int),
                    now,
                ),
                prices_wf(self.prices_cache@),
                *self == (AppState {
                    items_cache: self.items_cache,
                    prices_cache: self.prices_cache,
                    ..*old(self)
                }),
            decreases items@.len() - i,
        {
            assert(items@.take(i + 1).drop_last() == items@.take(i as int));
            let item = items[i].duplicate();
            let id = item.game_id;
            let base = item.is_base_currency;
            self.items_cache.insert(id, item);
            if base {
                self.prices_cache.insert(
                    id,
                    PersistedPriceEntry {
                        price: ONE_UNIT,
                        updated_at: now,
                        is_current_league: true,
                        league_name: None,
                    },
                );
            }
            i += 1;
        }
        assert(items@.take(items@.len() as int) == items@);
    }

    /// Removes every expense with the given id.
    pub fn remove_expense(&mut self, id: &str)
        requires
            old(self).wf(),
        ensures
            final(self).wf(),
            final(self).session.expenses@ == old(self).session.expenses@.filter(
                |e: ExpenseEntry| e.id@ != id@,
            ),
            *final(self) == (AppState {
                session: FarmSessionState {
                    expenses: final(self).session.expenses,
                    ..old(self).session
                },
                ..*old(self)
            }),
    {
        let ghost pred = |e: ExpenseEntry| e.id@ != id@;
        let key = id.to_owned();
        let mut kept: Vec<ExpenseEntry> = Vec::new();
        let mut i: usize = 0;
        while i < self.session.expenses.len()
            invariant
                i <= self.session.expenses@.len(),
                self.session == old(self).session,
                kept@ == self.session.expenses@.take(i as int).filter(pred),
                key@ == id@,
                pred == (|e: ExpenseEntry| e.id@ != id@),
            decreases self.session.expenses@.len() - i,
        {
            let ghost d = self.session.expenses@;
            assert(d.take(i + 1).drop_last() == d.take(i as int));
            assert(d.take(i + 1).last() == d[i as int]);
            proof {
                reveal(Seq::filter);
                assert(d.take(i + 1).filter(pred) == if pred(d[i as int]) {
                    d.take(i as int).filter(pred).push(d[i as int])
                } else {
                    d.take(i as int).filter(pred)
                });
            }
            if !(self.session.expenses[i].id == key) {
                kept.push(self.session.expenses[i].duplicate());
            }
            i += 1;
        }
        assert(self.session.expenses@.take(self.session.expenses@.len() as int)
            == self.session.expenses@);
        self.session.expenses = kept;
    }

    /// Removes every hand-entered drop with the given id.
    pub fn remove_manual_drop(&mut self, id: &str)
        requires
            old(self).wf(),
        ensures
            final(self).wf(),
            final(self).session.manual_drops@ == old(self).session.manual_drops@.filter(
                |e: ManualDropEntry| e.id@ != id@,
            ),
            *final(self) == (AppState {
                session: FarmSessionState {
                    manual_drops: final(self).session.manual_drops,
                    ..old(self).session
                },
                ..*old(self)
            }),
    {
        let ghost pred = |e: ManualDropEntry| e.id@ != id@;
        let key = id.to_owned();
        let mut kept: Vec<ManualDropEntry> = Vec::new();
        let mut i: usize = 0;
        while i < self.session.manual_drops.len()
            invariant
                i <= self.session.manual_drops@.len(),
                self.session == old(self).session,
                kept@ == self.session.manual_drops@.take(i as int).filter(pred),
                key@ == id@,
                pred == (|e: ManualDropEntry| e.id@ != id@),
            decreases self.session.manual_drops@.len() - i,
        {
            let ghost d = self.session.manual_drops@;
            assert(d.take(i + 1).drop_last() == d.take(i as int));
            assert(d.take(i + 1).last() == d[i as int]);
            proof {
                reveal(Seq::filter);
                assert(d.take(i + 1).filter(pred) == if pred(d[i as int]) {
                    d.take(i as int).filter(pred).push(d[i as int])
                } else {
                    d.take(i as int).filter(pred)
                });
            }
            if !(self.session.manual_drops[i].id == key) {
                kept.push(self.session.manual_drops[i].duplicate());
            }
            i += 1;
        }
        assert(self.session.manual_drops@.take(self.session.manual_drops@.len() as int)
            == self.session.manual_drops@);
        self.session.manual_drops = kept;
    }

    /// A copy of the expenses.
    pub fn get_expenses(&self) -> (r: Vec<ExpenseEntry>)
        ensures
            r@ == self.session.expenses@,
    {
        let mut out: Vec<ExpenseEntry> = Vec::new();
        let mut i: usize = 0;
        while i < self.session.expenses.len()
            invariant
                i <= self.session.expenses@.len(),
                out@ == self.session.expenses@.take(i as int),
            decreases self.session.expenses@.len() - i,
        {
            out.push(self.session.expenses[i].duplicate());
            assert(self.session.expenses@.take(i + 1) == self.session.expenses@.take(i as int).push(self.session.expenses@[i as int]));
            i += 1;
        }
        assert(self.session.expenses@.take(self.session.expenses@.len() as int)
            == self.session.expenses@);
        out
    }

    /// A copy of the hand-entered drops.
    pub fn get_manual_drops(&self) -> (r: Vec<ManualDropEntry>)
        ensures
            r@ == self.session.manual_drops@,
    {
        let mut out: Vec<ManualDropEntry> = Vec::new();
        let mut i: usize = 0;
        while i < self.session.manual_drops.len()
            invariant
                i <= self.session.manual_drops@.len(),
                out@ == self.session.manual_drops@.take(i as int),
            decreases self.session.manual_drops@.len() - i,
        {
            out.push(self.session.manual_drops[i].duplicate());
            assert(self.session.manual_drops@.take(i + 1) == self.session.manual_drops@.take(i as int).push(self.session.manual_drops@[i as int]));
            i += 1;
        }
        assert(self.session.manual_drops@.take(self.session.manual_drops@.len() as int)
            == self.session.manual_drops@);
        out
    }

    /// The catalog entry of the item.
    pub fn get_item_info(&self, game_id: i64) -> (r: Option<ItemInfo>)
        ensures
            r == (if self.items_cache@.contains_key(game_id) {
                Some(self.items_cache@[game_id])
            } else {
                None
            }),
    {
        match self.items_cache.get(&game_id) {
            Some(info) => Some(info.duplicate()),
            None => None,
        }
    }

    /// Session statistics at `now` (see `stats::get_session_stats`).
    pub fn get_session_stats_at(&self, now: i64) -> (r: SessionStats)
        requires
            self.wf(),
            self.session.drops@.len() <= MAX_DROP_LINES,
        ensures
            r == session_stats(
                self.session,
                self.prices_cache@,
                self.items_cache@,
                now,
                self.is_paused,
            ),
    {
        stats::get_session_stats(
            &self.session,
            &self.prices_cache,
            &self.items_cache,
            now,
            self.is_paused,
        )
    }

    /// The per-item drop view at `now`, by value from largest to smallest.
    pub fn get_aggregated_drops_at(&self, now: i64) -> (r: Vec<AggregatedDrop>)
        ensures
            r@.to_multiset() == aggregated_rows(
                self.prices_cache@,
                self.items_cache@,
                self.session.drops@,
                now,
            ).to_multiset(),
            sorted_by_value_desc(r@),
    {
        stats::get_aggregated_drops(&self.session, &self.prices_cache, &self.items_cache, now)
    }

    /// Replaces the settings with ones read back from disk, if any.
    pub fn load_settings_from_disk(&mut self, loaded: Option<AppSettings>)
        ensures
            *final(self) == (match loaded {
                Some(st) => AppState { settings: st, ..*old(self) },
                None => *old(self),
            }),
    {
        if let Some(st) = loaded {
            self.settings = st;
        }
    }

    /// Sets the log path and records it in the settings.
    pub fn set_log_path(&mut self, path: Option<String>)
        ensures
            *final(self) == (AppState {
                log_path: path,
                settings: AppSettings { custom_log_path: path, ..old(self).settings },
                ..*old(self)
            }),
    {
        self.log_path = clone_opt_string(&path);
        self.settings.custom_log_path = path;
    }

    pub fn get_log_path(&self) -> (r: Option<String>)
        ensures
            r == self.log_path,
    {
        clone_opt_string(&self.log_path)
    }

    pub fn get_custom_log_path(&self) -> (r: Option<String>)
        ensures
            r == self.settings.custom_log_path,
    {
        clone_opt_string(&self.settings.custom_log_path)
    }

    /// Installs or clears the in-memory credential.
    pub fn set_auth_session(&mut self, session: Option<AuthSession>)
        ensures
            *final(self) == (AppState { auth_session: session, ..*old(self) }),
    {
        self.auth_session = session;
    }

    pub fn get_auth_email(&self) -> (r: Option<String>)
        ensures
            r == (match self.auth_session {
                Some(a) => a.user_email,
                None => None,
            }),
    {
        match &self.auth_session {
            Some(a) => clone_opt_string(&a.user_email),
            None => None,
        }
    }

    pub fn get_auth_user_id(&self) -> (r: Option<String>)
        ensures
            r == (match self.auth_session {
                Some(a) => a.user_id,
                None => None,
            }),
    {
        match &self.auth_session {
            Some(a) => clone_opt_string(&a.user_id),
            None => None,
        }
    }

    /// Records the user id and e-mail that the identity service reported
    /// for the held credential; without a credential nothing changes.
    pub fn patch_auth_user(&mut self, user_id: String, user_email: Option<String>)
        ensures
            *final(self) == (match old(self).auth_session {
                Some(a) => AppState {
                    auth_session: Some(
                        AuthSession { user_id: Some(user_id), user_email, ..a },
                    ),
                    ..*old(self)
                },
                None => *old(self),
            }),
    {
        if let Some(a) = &mut self.auth_session {
            a.user_id = Some(user_id);
            a.user_email = user_email;
        }
    }

    pub fn is_logged_in(&self) -> (r: bool)
        ensures
            r == self.auth_session.is_some(),
    {
        self.auth_session.is_some()
    }

    /// The held access token while it has not expired at `now`.
    pub fn valid_cached_token(&self, now: i64) -> (r: Option<String>)
        ensures
            r == (match self.auth_session {
                Some(a) => if now < a.expires_at {
                    Some(a.access_token)
                } else {
                    None
                },
                None => None,
            }),
    {
        match &self.auth_session {
            Some(a) => {
                if now < a.expires_at {
                    Some(a.access_token.clone())
                } else {
                    None
                }
            },
            None => None,
        }
    }

    /// Applies the outcome of a token refresh: a new credential replaces
    /// the held one and its token is returned; a failed refresh clears the
    /// credential, which forces a new login.
    pub fn finish_token_refresh(&mut self, refreshed: Option<AuthSession>) -> (r: Option<String>)
        ensures
            *final(self) == (AppState { auth_session: refreshed, ..*old(self) }),
            r == (match refreshed {
                Some(a) => Some(a.access_token),
                None => None,
            }),
    {
        match refreshed {
            Some(a) => {
                let token = a.access_token.clone();
                self.auth_session = Some(a);
                Some(token)
            },
            None => {
                self.auth_session = None;
                None
            },
        }
    }

    /// Starts a new session now (see `start_session_at`).
    pub fn start_session(&mut self, preset_id: Option<String>)
        requires
            old(self).wf(),
        ensures
            final(self).wf(),
            exists|now: i64| start_step(*old(self), *final(self), preset_id, now),
    {
        let now = now_secs();
        self.start_session_at(preset_id, now);
    }

    /// Records a local price observation now (see `update_price_at`).
    pub fn update_price(&mut self, game_id: i64, price: i64)
        requires
            old(self).wf(),
        ensures
            final(self).wf(),
            exists|now: i64|
                final(self).prices_cache@ == after_local_price(
                    old(self).prices_cache@,
                    old(self).items_cache@,
                    game_id,
                    price,
                    now,
                ),
            *final(self) == (AppState { prices_cache: final(self).prices_cache, ..*old(self) }),
    {
        let now = now_secs();
        self.update_price_at(game_id, price, now);
    }

    /// The price for fresh valuation now (see `get_effective_price_at`).
    pub fn get_effective_price(&self, game_id: i64) -> (r: Option<i64>)
        ensures
            exists|now: i64| r == effective_price(self.prices_cache@, self.items_cache@, game_id, now),
            is_base(self.items_cache@, game_id) ==> r == Some(ONE_UNIT),
    {
        let now = now_secs();
        self.get_effective_price_at(game_id, now)
    }

    /// Session statistics now (see `get_session_stats_at`).
    pub fn get_session_stats(&self) -> (r: SessionStats)
        requires
            self.wf(),
            self.session.drops@.len() <= MAX_DROP_LINES,
        ensures
            exists|now: i64|
                r == session_stats(
                    self.session,
                    self.prices_cache@,
                    self.items_cache@,
                    now,
                    self.is_paused,
                ),
    {
        let now = now_secs();
        self.get_session_stats_at(now)
    }

    /// The per-item drop view now (see `get_aggregated_drops_at`).
    pub fn get_aggregated_drops(&self) -> (r: Vec<AggregatedDrop>)
        ensures
            exists|now: i64|
                r@.to_multiset() == (#[trigger] aggregated_rows(
                    self.prices_cache@,
                    self.items_cache@,
                    self.session.drops@,
                    now,
                )).to_multiset(),
            sorted_by_value_desc(r@),
    {
        let now = now_secs();
        self.get_aggregated_drops_at(now)
    }

    /// Loads catalog items now (see `load_items_cache_at`).
    pub fn load_items_cache(&mut self, items: Vec<ItemInfo>)
        requires
            old(self).wf(),
        ensures
            final(self).wf(),
            final(self).items_cache@ == after_loaded_items(old(self).items_cache@, items@),
            exists|now: i64|
                final(self).prices_cache@ == after_base_prices(
                    old(self).prices_cache@,
                    items@,
                    now,
                ),
            *final(self) == (AppState {
                items_cache: final(self).items_cache,
                prices_cache: final(self).prices_cache,
                ..*old(self)
            }),
    {
        let now = now_secs();
        self.load_items_cache_at(items, now);
    }

    pub fn is_session_active(&self) -> (r: bool)
        ensures
            r == self.session.started_at.is_some(),
    {
        self.session.started_at.is_some()
    }
}

impl FarmSessionState {
    /// Whether the session is well-formed.
    pub fn is_well_formed(&self) -> (r: bool)
        ensures
            r == session_wf(*self),
    {
        if self.maps_completed < 0 || self.total_duration_sec < 0 {
            return false;
        }
        let on_enter = match self.last_map_event_type {
            Some(crate::types::MapEventType::EnterMap) => true,
            _ => false,
        };
        if on_enter && !self.is_on_map {
            return false;
        }
        let n = self.drops.len();
        let mut i: usize = 0;
        while i < n
            invariant
                n == self.drops@.len(),
                i <= n,
                forall|a: int, b: int| 0 <= a < b < n && a < i ==> self.drops@[a].0 != self.drops@[b].0,
            decreases n - i,
        {
            let mut j: usize = i + 1;
            while j < n
                invariant
                    n == self.drops@.len(),
                    i < n,
                    i + 1 <= j <= n,
                    forall|a: int, b: int| 0 <= a < b < n && a < i ==> self.drops@[a].0 != self.drops@[b].0,
                    forall|b: int| i < b < j ==> self.drops@[i as int].0 != #[trigger] self.drops@[b].0,
                decreases n - j,
            {
                if self.drops[i].0 == self.drops[j].0 {
                    return false;
                }
                j += 1;
            }
            i += 1;
        }
        true
    }
}

} // verus!
