use tli_companion::commands::{apply_history_limit, auth_status, check_log_path, item_from_row, log_file_status, LogPathError};
use tli_companion::history::{
    add_session_to_history, build_history_record, delete_session_from_history, legacy_price_entries,
    new_history_record, SessionHistoryRecord,
};
use tli_companion::paths::{sanitize_user_id, session_history_path};
use tli_companion::search::{search_items, search_items_lowered};
use tli_companion::state::AppState;
use tli_companion::types::{
    AuthSession, ExpenseEntry, FarmSessionState, ItemDropEvent, ItemInfo, MapChangeEvent, MapEventType,
    PersistedPriceEntry, PriceWithLeague, ONE_UNIT,
};

const T0: i64 = 1_700_000_000;
const BASE: i64 = 100300;
const GEM: i64 = 5001;

fn item(id: i64, name: &str, base: bool) -> ItemInfo {
    ItemInfo {
        game_id: id,
        name: name.to_string(),
        name_en: Some(name.to_string()),
        name_ru: None,
        name_cn: None,
        category: "currency".to_string(),
        icon_url: None,
        is_base_currency: base,
    }
}

fn engine() -> AppState {
    let mut st = AppState::new();
    st.load_items_cache_at(vec![item(BASE, "Flame Elementium", true), item(GEM, "Ember Gem", false)], T0);
    st
}

fn map_event(kind: MapEventType, scene: &str, ts: i64) -> MapChangeEvent {
    MapChangeEvent { event_type: kind, scene_name: scene.to_string(), timestamp: ts }
}

fn drop_event(id: i64, qty: i32) -> ItemDropEvent {
    ItemDropEvent { game_id: id, quantity: qty, timestamp: T0, page_id: 1, slot_id: 1 }
}

fn quantity_of(st: &AppState, id: i64) -> Option<i32> {
    st.session.drops.iter().find(|(k, _)| *k == id).map(|(_, q)| *q)
}

fn record(id: &str) -> SessionHistoryRecord {
    SessionHistoryRecord {
        id: id.to_string(),
        started_at: T0,
        ended_at: T0 + 10,
        maps_completed: 1,
        total_duration_sec: 10,
        total_profit: 0,
        total_expenses: 0,
        total_income: 0,
        remote_id: None,
    }
}

#[test]
fn map_scenario_enter_exit_and_redundant_exit() {
    let mut st = engine();
    st.start_session_at(None, T0);
    st.handle_map_change(&map_event(MapEventType::EnterMap, "A", T0 + 5));
    st.handle_map_change(&map_event(MapEventType::ExitToHideout, "A", T0 + 65));
    assert_eq!(st.session.maps_completed, 1);
    assert_eq!(st.session.total_duration_sec, 60);
    st.handle_map_change(&map_event(MapEventType::ExitToHideout, "A", T0 + 66));
    assert_eq!(st.session.maps_completed, 1);
    assert_eq!(st.session.total_duration_sec, 60);
}

#[test]
fn two_exits_far_apart_count_one_map() {
    let mut st = engine();
    st.start_session_at(None, T0);
    st.handle_map_change(&map_event(MapEventType::ExitToHideout, "Hideout", T0 + 30));
    st.handle_map_change(&map_event(MapEventType::ExitToHideout, "Hideout", T0 + 40));
    assert_eq!(st.session.maps_completed, 1);
    // No EnterMap was seen: the map is taken to have started with the session.
    assert_eq!(st.session.total_duration_sec, 30);
    assert_eq!(st.session.last_map_event_ts, Some(T0 + 40));
}

#[test]
fn quick_repeat_of_enter_is_ignored() {
    let mut st = engine();
    st.start_session_at(None, T0);
    st.handle_map_change(&map_event(MapEventType::EnterMap, "A", T0 + 5));
    st.handle_map_change(&map_event(MapEventType::EnterMap, "A", T0 + 7));
    assert_eq!(st.session.current_map_started, Some(T0 + 5));
    assert_eq!(st.session.last_map_event_ts, Some(T0 + 5));
    st.handle_map_change(&map_event(MapEventType::ExitToHideout, "A", T0 + 20));
    st.handle_map_change(&map_event(MapEventType::ExitToHideout, "A", T0 + 21));
    assert_eq!(st.session.maps_completed, 1);
    assert_eq!(st.session.total_duration_sec, 15);
}

#[test]
fn non_positive_map_duration_is_dropped() {
    let mut st = engine();
    st.start_session_at(None, T0);
    st.handle_map_change(&map_event(MapEventType::EnterMap, "A", T0 + 50));
    st.handle_map_change(&map_event(MapEventType::ExitToHideout, "B", T0 + 40));
    assert_eq!(st.session.maps_completed, 1);
    assert_eq!(st.session.total_duration_sec, 0);
    assert!(!st.session.is_on_map);
}

#[test]
fn map_events_without_session_do_nothing() {
    let mut st = engine();
    st.handle_map_change(&map_event(MapEventType::EnterMap, "A", T0 + 5));
    st.handle_map_change(&map_event(MapEventType::ExitToHideout, "A", T0 + 65));
    assert_eq!(st.session.maps_completed, 0);
    assert!(st.session.last_map_event_type.is_none());
}

#[test]
fn end_then_start_is_fresh() {
    let mut st = engine();
    st.start_session_at(Some("preset".to_string()), T0);
    st.add_drop(&drop_event(GEM, 4));
    st.handle_map_change(&map_event(MapEventType::ExitToHideout, "A", T0 + 65));
    st.set_paused(true);
    let ended = st.end_session();
    assert_eq!(ended.maps_completed, 1);
    assert_eq!(ended.drops, vec![(GEM, 4)]);
    assert!(!st.is_session_active());
    assert!(!st.is_paused());
    st.start_session_at(None, T0 + 100);
    assert_eq!(st.session.maps_completed, 0);
    assert!(st.session.drops.is_empty());
    assert_eq!(st.session.started_at, Some(T0 + 100));
}

#[test]
fn drops_are_counted_for_known_items_only() {
    let mut st = engine();
    st.add_drop(&drop_event(GEM, 1));
    assert!(st.session.drops.is_empty());
    st.start_session_at(None, T0);
    st.add_drop(&drop_event(GEM, 2));
    st.add_drop(&drop_event(GEM, 3));
    st.add_drop(&drop_event(777, 9));
    assert_eq!(quantity_of(&st, GEM), Some(5));
    assert_eq!(quantity_of(&st, 777), None);
    st.set_paused(true);
    st.add_drop(&drop_event(GEM, 10));
    assert_eq!(quantity_of(&st, GEM), Some(5));
    assert!(st.session.is_paused);
}

#[test]
fn stats_total_value_scenario() {
    let mut st = engine();
    st.start_session_at(None, T0);
    st.update_price_at(GEM, 10 * ONE_UNIT, T0);
    st.add_drop(&drop_event(BASE, 3));
    st.add_drop(&drop_event(GEM, 2));
    let stats = st.get_session_stats_at(T0 + 10);
    assert_eq!(stats.total_value, 23 * ONE_UNIT as i128);
    assert_eq!(stats.stale_price_lines, 0);
    assert_eq!(stats.total_items, 5);
    assert_eq!(stats.unique_items, 2);
}

#[test]
fn stale_prices_still_count_but_are_flagged() {
    let mut st = engine();
    st.start_session_at(None, T0);
    st.update_price_at(GEM, 10 * ONE_UNIT, T0);
    st.add_drop(&drop_event(GEM, 2));
    let stats = st.get_session_stats_at(T0 + 3601);
    assert_eq!(stats.total_value, 20 * ONE_UNIT as i128);
    assert_eq!(stats.stale_price_lines, 1);
    let stats = st.get_session_stats_at(T0 + 3600);
    assert_eq!(stats.stale_price_lines, 0);
    assert_eq!(st.get_effective_price_at(GEM, T0 + 3600), Some(10 * ONE_UNIT));
    assert_eq!(st.get_effective_price_at(GEM, T0 + 3601), None);
    assert_eq!(st.get_price(GEM), Some(10 * ONE_UNIT));
}

#[test]
fn average_map_time_and_hourly_profit() {
    let mut st = engine();
    st.start_session_at(None, T0);
    st.handle_map_change(&map_event(MapEventType::EnterMap, "A", T0));
    st.handle_map_change(&map_event(MapEventType::ExitToHideout, "A", T0 + 30));
    st.handle_map_change(&map_event(MapEventType::EnterMap, "B", T0 + 40));
    st.handle_map_change(&map_event(MapEventType::ExitToHideout, "B", T0 + 71));
    st.update_session_duration(60);
    st.add_drop(&drop_event(BASE, 3));
    let stats = st.get_session_stats_at(T0 + 100);
    assert_eq!(stats.maps_completed, 2);
    // 61 seconds over two maps: 30.5 rounds to 31.
    assert_eq!(stats.avg_map_duration_sec, 31);
    assert_eq!(stats.duration_sec, 60);
    assert_eq!(stats.hourly_profit, 180 * ONE_UNIT as i128);
}

#[test]
fn average_map_time_before_first_completion() {
    let mut st = engine();
    st.start_session_at(None, T0);
    st.handle_map_change(&map_event(MapEventType::EnterMap, "A", T0 + 10));
    let stats = st.get_session_stats_at(T0 + 55);
    assert_eq!(stats.avg_map_duration_sec, 45);
    assert_eq!(stats.hourly_profit, 0);
}

#[test]
fn merge_keeps_newer_prices() {
    let mut st = engine();
    st.merge_remote_prices(vec![(GEM, 5 * ONE_UNIT, T0 + 100)]);
    st.merge_remote_prices(vec![(GEM, 7 * ONE_UNIT, T0 + 50)]);
    assert_eq!(st.get_price(GEM), Some(5 * ONE_UNIT));
    st.merge_remote_prices(vec![(GEM, 8 * ONE_UNIT, T0 + 100)]);
    assert_eq!(st.get_price(GEM), Some(5 * ONE_UNIT));
    st.merge_remote_prices(vec![(GEM, 9 * ONE_UNIT, T0 + 101), (GEM, 0, T0 + 200), (BASE, 4 * ONE_UNIT, T0 + 300)]);
    assert_eq!(st.get_price(GEM), Some(9 * ONE_UNIT));
    assert_eq!(st.get_price(BASE), Some(ONE_UNIT));
}

fn league_row(id: i64, price: i64, ts: i64, current: bool) -> PriceWithLeague {
    PriceWithLeague {
        game_id: id,
        price,
        last_updated: ts,
        league_id: if current { 11 } else { 10 },
        league_name: if current { "SS11".to_string() } else { "SS10".to_string() },
        is_current_league: current,
    }
}

#[test]
fn current_league_row_wins_over_older_league() {
    let mut st = engine();
    st.merge_prices_with_league(vec![league_row(GEM, 4 * ONE_UNIT, T0 + 500, false)]);
    let e = &st.prices_cache[&GEM];
    assert!(!e.is_current_league);
    assert_eq!(e.league_name.as_deref(), Some("SS10"));
    st.merge_prices_with_league(vec![league_row(GEM, 6 * ONE_UNIT, T0 + 100, true)]);
    let e = &st.prices_cache[&GEM];
    assert_eq!(e.price, 6 * ONE_UNIT);
    assert!(e.is_current_league);
    assert_eq!(e.updated_at, T0 + 100);
    st.merge_prices_with_league(vec![league_row(GEM, 2 * ONE_UNIT, T0 + 50, true)]);
    assert_eq!(st.get_price(GEM), Some(6 * ONE_UNIT));
}

#[test]
fn base_currency_is_always_one_unit() {
    let mut st = engine();
    st.update_price_at(BASE, 50 * ONE_UNIT, T0);
    assert_eq!(st.get_price(BASE), Some(ONE_UNIT));
    assert_eq!(st.get_effective_price_at(BASE, T0 + 1_000_000_000), Some(ONE_UNIT));
    assert_eq!(st.get_effective_price(BASE), Some(ONE_UNIT));
    assert_eq!(st.get_effective_price_at(GEM, T0), None);
}

#[test]
fn local_price_rejects_non_positive() {
    let mut st = engine();
    st.update_price_at(GEM, 0, T0);
    assert_eq!(st.get_price(GEM), None);
    st.update_price_at(GEM, -3, T0);
    assert_eq!(st.get_price(GEM), None);
}

#[test]
fn aggregated_drops_sorted_by_value() {
    let mut st = engine();
    st.load_items_cache_at(vec![item(42, "Rare Core", false)], T0);
    st.start_session_at(None, T0);
    st.update_price_at(GEM, 2 * ONE_UNIT, T0);
    st.add_drop(&drop_event(BASE, 3));
    st.add_drop(&drop_event(GEM, 4));
    st.add_drop(&drop_event(42, 1));
    let rows = st.get_aggregated_drops_at(T0 + 5);
    let ids: Vec<i64> = rows.iter().map(|r| r.game_id).collect();
    assert_eq!(ids, vec![GEM, BASE, 42]);
    assert_eq!(rows[0].total_value, 8 * ONE_UNIT as i128);
    assert_eq!(rows[1].unit_price, ONE_UNIT);
    assert_eq!(rows[1].price_updated_at, Some(T0 + 5));
    assert_eq!(rows[2].unit_price, 0);
    assert_eq!(rows[2].price_updated_at, None);
    assert_eq!(rows[2].item_info.as_ref().map(|i| i.name.clone()), Some("Rare Core".to_string()));
}

#[test]
fn expenses_and_manual_drops() {
    let mut st = engine();
    st.add_expense("e1".to_string(), Some(GEM), "Ember Gem".to_string(), None, 2, 3 * ONE_UNIT);
    st.add_manual_drop("m1".to_string(), None, "Ring".to_string(), None, 1, 50 * ONE_UNIT);
    assert_eq!(st.get_expenses().len(), 1);
    assert!(st.get_manual_drops().is_empty());
    st.start_session_at(None, T0);
    st.add_expense("e1".to_string(), None, "Map key".to_string(), None, 1, ONE_UNIT);
    st.add_expense("e2".to_string(), None, "Compass".to_string(), None, 1, ONE_UNIT);
    st.add_manual_drop("m1".to_string(), None, "Ring".to_string(), None, 1, 50 * ONE_UNIT);
    st.remove_expense("e1");
    let names: Vec<String> = st.get_expenses().into_iter().map(|e| e.name).collect();
    assert_eq!(names, vec!["Compass".to_string()]);
    st.remove_manual_drop("m1");
    assert!(st.get_manual_drops().is_empty());
}

#[test]
fn recovered_session_needs_start_time() {
    let mut st = engine();
    assert!(!st.load_session_from_disk(Some(FarmSessionState::default())));
    assert!(!st.load_session_from_disk(None));
    let mut s = FarmSessionState::started(T0, None);
    s.is_paused = true;
    s.maps_completed = 3;
    assert!(st.load_session_from_disk(Some(s)));
    assert!(st.is_paused());
    assert_eq!(st.session.maps_completed, 3);
    let mut bad = FarmSessionState::started(T0, None);
    bad.drops = vec![(GEM, 1), (GEM, 2)];
    assert!(!st.load_session_from_disk(Some(bad)));
}

#[test]
fn loaded_prices_do_not_overwrite() {
    let mut st = engine();
    st.update_price_at(GEM, 3 * ONE_UNIT, T0);
    let entry = |p: i64| PersistedPriceEntry { price: p, updated_at: T0 - 10, is_current_league: true, league_name: None };
    st.load_prices_cache_from_disk(vec![(GEM, entry(9 * ONE_UNIT)), (42, entry(4 * ONE_UNIT)), (43, entry(0))]);
    assert_eq!(st.get_price(GEM), Some(3 * ONE_UNIT));
    assert_eq!(st.get_price(42), Some(4 * ONE_UNIT));
    assert_eq!(st.get_price(43), None);
}

#[test]
fn legacy_prices_keep_positive_entries() {
    let out = legacy_price_entries(&vec![(1, 2 * ONE_UNIT), (2, 0), (3, -5), (4, 7)], T0);
    assert_eq!(out.len(), 2);
    assert_eq!(out[0].0, 1);
    assert_eq!(out[0].1.updated_at, T0);
    assert!(out[0].1.is_current_league);
    assert_eq!(out[1].0, 4);
    assert_eq!(out[1].1.price, 7);
}

#[test]
fn history_is_newest_first_and_capped() {
    let mut log: Vec<SessionHistoryRecord> = Vec::new();
    for i in 0..105 {
        add_session_to_history(&mut log, record(&format!("r{}", i)));
    }
    assert_eq!(log.len(), 100);
    assert_eq!(log[0].id, "r104");
    assert_eq!(log[99].id, "r5");
    let removed = delete_session_from_history(&mut log, "r50");
    assert_eq!(removed.map(|r| r.id), Some("r50".to_string()));
    assert_eq!(log.len(), 99);
    assert!(delete_session_from_history(&mut log, "nope").is_none());
    assert_eq!(log.len(), 99);
    apply_history_limit(&mut log, None);
    assert_eq!(log.len(), 20);
    apply_history_limit(&mut log, Some(-1));
    assert_eq!(log.len(), 20);
    apply_history_limit(&mut log, Some(3));
    assert_eq!(log.len(), 3);
}

#[test]
fn history_record_totals() {
    let mut s = FarmSessionState::started(T0, None);
    s.maps_completed = 2;
    s.expenses.push(ExpenseEntry { id: "e".to_string(), game_id: None, name: "x".to_string(), name_ru: None, quantity: 3, price: 2 * ONE_UNIT });
    let mut st = engine();
    st.start_session_at(None, T0);
    st.add_drop(&drop_event(BASE, 10));
    st.update_session_duration(120);
    let stats = st.get_session_stats_at(T0 + 130);
    let r = build_history_record("id-1".to_string(), &s, &stats, T0 + 200);
    assert_eq!(r.total_income, 10 * ONE_UNIT as i128);
    assert_eq!(r.total_expenses, 6 * ONE_UNIT as i128);
    assert_eq!(r.total_profit, 4 * ONE_UNIT as i128);
    assert_eq!(r.started_at, T0);
    assert_eq!(r.ended_at, T0 + 200);
    assert_eq!(r.total_duration_sec, 120);
    assert_eq!(r.maps_completed, 2);
    let fresh = new_history_record(&s, &stats).unwrap();
    assert_eq!(fresh.id.len(), 36);
    assert_ne!(fresh.id, new_history_record(&s, &stats).unwrap().id);
}

#[test]
fn search_is_case_insensitive() {
    let items = vec![item(1, "Flame Elementium", true), item(2, "Ember Gem", false), item(3, "Flame Sand", false)];
    let found = search_items(&items, "FLAME");
    let ids: Vec<i64> = found.iter().map(|i| i.game_id).collect();
    assert_eq!(ids, vec![1, 3]);
    assert_eq!(search_items(&items, "").len(), 3);
    assert!(search_items(&items, "zzz").is_empty());
    assert_eq!(search_items_lowered(&items, "gem").len(), 1);
}

#[test]
fn search_caps_results() {
    let items: Vec<ItemInfo> = (0..80).map(|i| item(i, &format!("Stone {}", i), false)).collect();
    assert_eq!(search_items(&items, "").len(), 30);
    let found = search_items(&items, "stone");
    assert_eq!(found.len(), 50);
    assert_eq!(found[49].game_id, 49);
}

#[test]
fn user_id_is_sanitised_for_file_names() {
    assert_eq!(sanitize_user_id("ab/../c-d_e.f"), "abc-d_ef");
    if let Some(f) = session_history_path("u/1") {
        assert_eq!(f.file_name, "sessions_u1.json");
        assert_eq!(f.app_dir, "tli-companion");
    }
}

#[test]
fn log_path_must_be_the_game_log() {
    assert_eq!(check_log_path(false, Some("UE_game.log")), Err(LogPathError::Missing));
    assert_eq!(check_log_path(true, None), Err(LogPathError::InvalidPath));
    assert_eq!(check_log_path(true, Some("ue_GAME.LOG")), Ok(()));
    assert_eq!(check_log_path(true, Some("passwords.txt")), Err(LogPathError::NotGameLog));
    assert_eq!(LogPathError::Missing.message(), "File does not exist");
}

#[test]
fn log_status_activity_window() {
    let s = log_file_status(true, Some((10, Some(30))));
    assert!(s.exists && s.is_active);
    assert_eq!(s.size_bytes, Some(10));
    let s = log_file_status(true, Some((10, Some(60))));
    assert!(!s.is_active);
    let s = log_file_status(false, Some((10, Some(1))));
    assert!(!s.exists && !s.is_active && s.size_bytes.is_none());
    let s = log_file_status(true, None);
    assert!(s.exists && !s.is_active);
}

#[test]
fn catalog_row_defaults() {
    let i = item_from_row(42, None, Some("Камень".to_string()), None, None, None, false);
    assert_eq!(i.name, "ID: 42");
    assert_eq!(i.category, "unknown");
    let i = item_from_row(-7, None, None, None, Some("gear".to_string()), None, true);
    assert_eq!(i.name, "ID: -7");
    assert_eq!(i.category, "gear");
    assert!(i.is_base_currency);
}

#[test]
fn settings_defaults_and_log_path() {
    let mut st = AppState::new();
    assert_eq!(st.settings.language, "ru");
    assert_eq!(st.settings.auction_fee_rate, 125_000);
    assert!(st.settings.minimize_to_tray && st.settings.always_on_top);
    st.set_log_path(Some("C:/game/UE_game.log".to_string()));
    assert_eq!(st.get_log_path(), Some("C:/game/UE_game.log".to_string()));
    assert_eq!(st.get_custom_log_path(), Some("C:/game/UE_game.log".to_string()));
}

#[test]
fn token_fast_path_and_refresh_outcome() {
    let mut st = AppState::new();
    assert!(!st.is_logged_in());
    st.set_auth_session(Some(AuthSession { access_token: "tok".to_string(), expires_at: T0 + 60, user_id: Some("u1".to_string()), user_email: Some("a@b.c".to_string()) }));
    assert_eq!(st.valid_cached_token(T0), Some("tok".to_string()));
    assert_eq!(st.valid_cached_token(T0 + 60), None);
    assert_eq!(st.get_auth_user_id(), Some("u1".to_string()));
    assert_eq!(st.get_auth_email(), Some("a@b.c".to_string()));
    assert_eq!(st.finish_token_refresh(None), None);
    assert!(!st.is_logged_in());
    let fresh = AuthSession { access_token: "new".to_string(), expires_at: T0 + 3600, user_id: None, user_email: None };
    assert_eq!(st.finish_token_refresh(Some(fresh)), Some("new".to_string()));
    assert!(st.is_logged_in());
    st.patch_auth_user("u9".to_string(), Some("z@y.x".to_string()));
    assert_eq!(st.get_auth_user_id(), Some("u9".to_string()));
    assert_eq!(st.valid_cached_token(T0), Some("new".to_string()));
    let status = auth_status(&st);
    assert!(status.is_logged_in);
    assert_eq!(status.email, Some("z@y.x".to_string()));
    st.set_auth_session(None);
    st.patch_auth_user("u9".to_string(), None);
    assert!(!st.is_logged_in());
}

#[test]
fn close_session_makes_record_when_signed_in() {
    let mut st = engine();
    st.start_session_at(None, T0);
    st.add_drop(&drop_event(BASE, 2));
    let (stats, rec) = st.close_session();
    assert_eq!(stats.total_value, 2 * ONE_UNIT as i128);
    assert!(rec.is_none());
    assert!(!st.is_session_active());
    st.set_auth_session(Some(AuthSession { access_token: "t".to_string(), expires_at: T0, user_id: Some("u".to_string()), user_email: None }));
    st.start_session_at(None, T0);
    st.add_drop(&drop_event(BASE, 5));
    let (_, rec) = st.close_session();
    let rec = rec.unwrap();
    assert_eq!(rec.total_income, 5 * ONE_UNIT as i128);
    assert_eq!(rec.started_at, T0);
}
