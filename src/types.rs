//! The library's data types.
use vstd::prelude::*;

verus! {

/// Micro-units in one unit of the base currency.
pub const ONE_UNIT: i64 = 1_000_000;

/// Lifetime of a cached price, in seconds.
pub const PRICE_TTL_SEC: i64 = 3600;

/// The two kinds of map transition that the log reports.
#[derive(Clone, Copy, Debug, PartialEq, Eq, Structural)]
pub enum MapEventType {
    /// Entering a map.
    EnterMap,
    /// Leaving a map for the hideout.
    ExitToHideout,
}

/// A map transition seen in the log.
#[derive(Clone, Debug)]
pub struct MapChangeEvent {
    pub event_type: MapEventType,
    pub scene_name: String,
    /// Unix seconds.
    pub timestamp: i64,
}

/// An item pickup seen in the log.
#[derive(Clone, Debug)]
pub struct ItemDropEvent {
    pub game_id: i64,
    pub quantity: i32,
    /// Unix seconds.
    pub timestamp: i64,
    pub page_id: i32,
    pub slot_id: i32,
}

/// An auction price search seen in the log; prices in micro-units.
#[derive(Clone, Debug)]
pub struct PriceSearchEvent {
    pub game_id: i64,
    pub prices: Vec<i64>,
    pub currency_id: i64,
    /// Unix seconds.
    pub timestamp: i64,
    pub sync_id: i32,
}

/// One parsed log event.
#[derive(Clone, Debug)]
pub enum LogEvent {
    ItemDrop(ItemDropEvent),
    PriceSearch(PriceSearchEvent),
    MapChange(MapChangeEvent),
}

/// Catalog metadata of an item.
#[derive(Clone, Debug)]
pub struct ItemInfo {
    pub game_id: i64,
    /// Primary display name.
    pub name: String,
    pub name_en: Option<String>,
    pub name_ru: Option<String>,
    pub name_cn: Option<String>,
    pub category: String,
    pub icon_url: Option<String>,
    /// The base currency's price is one unit by definition.
    pub is_base_currency: bool,
}

/// A hand-entered expense; `price` is the unit price in micro-units.
#[derive(Clone, Debug)]
pub struct ExpenseEntry {
    pub id: String,
    pub game_id: Option<i64>,
    pub name: String,
    pub name_ru: Option<String>,
    pub quantity: i32,
    pub price: i64,
}

/// A hand-entered drop (uniques, equipment); `price` in micro-units.
#[derive(Clone, Debug)]
pub struct ManualDropEntry {
    pub id: String,
    pub game_id: Option<i64>,
    pub name: String,
    pub name_ru: Option<String>,
    pub quantity: i32,
    pub price: i64,
}

/// A cached price: micro-units, when it was observed, and its league.
#[derive(Clone, Debug)]
pub struct PersistedPriceEntry {
    pub price: i64,
    /// Unix seconds.
    pub updated_at: i64,
    /// False for a price carried over from a previous league.
    pub is_current_league: bool,
    pub league_name: Option<String>,
}

/// The live farm session.
#[derive(Clone, Debug)]
pub struct FarmSessionState {
    pub session_id: Option<String>,
    /// Set while a session is active.
    pub started_at: Option<i64>,
    pub maps_completed: i32,
    /// Sum of completed map durations, in seconds.
    pub total_duration_sec: i32,
    pub is_on_map: bool,
    pub current_map_started: Option<i64>,
    pub last_map_event_type: Option<MapEventType>,
    pub last_map_event_ts: Option<i64>,
    pub last_map_scene: Option<String>,
    /// Item id and quantity picked up, one line per distinct item.
    pub drops: Vec<(i64, i32)>,
    pub preset_id: Option<String>,
    pub is_paused: bool,
    pub expenses: Vec<ExpenseEntry>,
    pub manual_drops: Vec<ManualDropEntry>,
    /// Wall-clock session time, set by an outside clock driver.
    pub session_duration_sec: i32,
}

/// One row of the per-item drop view; money in micro-units.
#[derive(Clone, Debug)]
pub struct AggregatedDrop {
    pub game_id: i64,
    pub item_info: Option<ItemInfo>,
    pub quantity: i32,
    pub total_value: i128,
    pub unit_price: i64,
    pub price_updated_at: Option<i64>,
    pub price_is_stale: bool,
    pub is_previous_season: bool,
    pub league_name: Option<String>,
}

/// Derived statistics of the session; money in micro-units.
#[derive(Clone, Debug)]
pub struct SessionStats {
    pub total_items: i64,
    pub unique_items: i64,
    pub total_value: i128,
    pub maps_completed: i32,
    pub duration_sec: i32,
    pub avg_map_duration_sec: i32,
    pub stale_price_lines: i64,
    /// Value per hour of session time, in micro-units.
    pub hourly_profit: i128,
    pub is_paused: bool,
}

/// User profile as the remote service returns it.
#[derive(Clone, Debug)]
pub struct UserProfile {
    pub id: String,
    pub username: Option<String>,
    pub display_name: Option<String>,
    pub avatar_url: Option<String>,
    pub level: Option<i32>,
    pub total_xp: Option<i32>,
}

/// What the user interface is told of the login state.
#[derive(Clone, Debug)]
pub struct AuthStatus {
    pub is_logged_in: bool,
    pub email: Option<String>,
}

/// State of the game's log file as last looked at.
#[derive(Clone, Debug)]
pub struct LogFileStatus {
    pub exists: bool,
    pub is_active: bool,
    pub last_modified_secs_ago: Option<u64>,
    pub size_bytes: Option<u64>,
}

/// Address and public key of the remote price service.
#[derive(Clone, Debug)]
pub struct SupabaseConfig {
    pub url: String,
    pub anon_key: String,
}

/// A remote price row tagged with its league; price in micro-units.
#[derive(Clone, Debug)]
pub struct PriceWithLeague {
    pub game_id: i64,
    pub price: i64,
    /// Unix seconds.
    pub last_updated: i64,
    pub league_id: i32,
    pub league_name: String,
    pub is_current_league: bool,
}

/// A session as the remote history returns it; money in micro-units.
#[derive(Clone, Debug)]
pub struct SessionHistoryItem {
    pub id: String,
    pub started_at: i64,
    pub ended_at: Option<i64>,
    pub maps_completed: i32,
    pub total_duration_sec: i32,
    pub total_profit_calculated: Option<i128>,
    pub expenses_calculated: Option<i128>,
}

/// A signed-in user's credential held in memory.
#[derive(Clone, Debug)]
pub struct AuthSession {
    pub access_token: String,
    /// Unix seconds.
    pub expires_at: i64,
    pub user_id: Option<String>,
    pub user_email: Option<String>,
}

/// Application settings; the fee rate and the opacity are in millionths.
#[derive(Clone, Debug)]
pub struct AppSettings {
    /// Log file chosen by hand, if any.
    pub custom_log_path: Option<String>,
    pub auto_start: bool,
    pub minimize_to_tray: bool,
    pub language: String,
    pub api_url: String,
    pub layout_orientation: String,
    pub panel_direction: String,
    /// Auction fee, 125_000 for 12.5%.
    pub auction_fee_rate: i64,
    /// Window opacity, 1_000_000 for fully opaque.
    pub opacity: i64,
    pub always_on_top: bool,
}

pub fn default_true() -> (r: bool)
    ensures
        r,
{
    true
}

pub fn default_language() -> (r: String)
    ensures
        r@ == "ru"@,
{
    proof {
        reveal_strlit("ru");
    }
    "ru".to_owned()
}

pub fn default_api_url() -> (r: String)
    ensures
        r@ == "https://www.kripika.com"@,
{
    "https://www.kripika.com".to_owned()
}

pub fn default_orientation() -> (r: String)
    ensures
        r@ == "vertical"@,
{
    "vertical".to_owned()
}

pub fn default_panel_direction() -> (r: String)
    ensures
        r@ == "right"@,
{
    "right".to_owned()
}

pub fn default_auction_fee() -> (r: i64)
    ensures
        r == 125_000,
{
    125_000
}

pub fn default_opacity() -> (r: i64)
    ensures
        r == ONE_UNIT,
{
    ONE_UNIT
}

/// The settings of a fresh install.
pub open spec fn is_default_settings(s: AppSettings) -> bool {
    &&& s.custom_log_path.is_none()
    &&& !s.auto_start
    &&& s.minimize_to_tray
    &&& s.language@ == "ru"@
    &&& s.api_url@ == "https://www.kripika.com"@
    &&& s.layout_orientation@ == "vertical"@
    &&& s.panel_direction@ == "right"@
    &&& s.auction_fee_rate == 125_000
    &&& s.opacity == ONE_UNIT
    &&& s.always_on_top
}

impl Default for AppSettings {
    fn default() -> (r: AppSettings)
        ensures
            is_default_settings(r),
    {
        AppSettings {
            custom_log_path: None,
            auto_start: false,
            minimize_to_tray: default_true(),
            language: default_language(),
            api_url: default_api_url(),
            layout_orientation: default_orientation(),
            panel_direction: default_panel_direction(),
            auction_fee_rate: default_auction_fee(),
            opacity: default_opacity(),
            always_on_top: default_true(),
        }
    }
}

/// An inactive session with nothing recorded.
pub open spec fn is_empty_session(s: FarmSessionState) -> bool {
    &&& s.session_id.is_none()
    &&& s.started_at.is_none()
    &&& s.maps_completed == 0
    &&& s.total_duration_sec == 0
    &&& !s.is_on_map
    &&& s.current_map_started.is_none()
    &&& s.last_map_event_type.is_none()
    &&& s.last_map_event_ts.is_none()
    &&& s.last_map_scene.is_none()
    &&& s.drops@.len() == 0
    &&& s.preset_id.is_none()
    &&& !s.is_paused
    &&& s.expenses@.len() == 0
    &&& s.manual_drops@.len() == 0
    &&& s.session_duration_sec == 0
}

impl FarmSessionState {
    /// A session started at `now`, with nothing recorded yet.
    pub fn started(now: i64, preset_id: Option<String>) -> (r: FarmSessionState)
        ensures
            r.started_at == Some(now),
            r.preset_id == preset_id,
            is_empty_session(FarmSessionState { started_at: None, preset_id: None, ..r }),
    {
        FarmSessionState { started_at: Some(now), preset_id, ..FarmSessionState::default() }
    }
}

impl Default for FarmSessionState {
    fn default() -> (r: FarmSessionState)
        ensures
            is_empty_session(r),
    {
        FarmSessionState {
            session_id: None,
            started_at: None,
            maps_completed: 0,
            total_duration_sec: 0,
            is_on_map: false,
            current_map_started: None,
            last_map_event_type: None,
            last_map_event_ts: None,
            last_map_scene: None,
            drops: Vec::new(),
            preset_id: None,
            is_paused: false,
            expenses: Vec::new(),
            manual_drops: Vec::new(),
            session_duration_sec: 0,
        }
    }
}

/// A copy of an optional string.
pub fn clone_opt_string(o: &Option<String>) -> (r: Option<String>)
    ensures
        r == *o,
{
    match o {
        Some(x) => Some(x.clone()),
        None => None,
    }
}

impl ItemInfo {
    /// A field-for-field copy.
    pub fn duplicate(&self) -> (r: ItemInfo)
        ensures
            r == *self,
    {
        ItemInfo {
            game_id: self.game_id,
            name: self.name.clone(),
            name_en: clone_opt_string(&self.name_en),
            name_ru: clone_opt_string(&self.name_ru),
            name_cn: clone_opt_string(&self.name_cn),
            category: self.category.clone(),
            icon_url: clone_opt_string(&self.icon_url),
            is_base_currency: self.is_base_currency,
        }
    }
}

impl ExpenseEntry {
    /// A field-for-field copy.
    pub fn duplicate(&self) -> (r: ExpenseEntry)
        ensures
            r == *self,
    {
        ExpenseEntry {
            id: self.id.clone(),
            game_id: self.game_id,
            name: self.name.clone(),
            name_ru: clone_opt_string(&self.name_ru),
            quantity: self.quantity,
            price: self.price,
        }
    }
}

impl ManualDropEntry {
    /// A field-for-field copy.
    pub fn duplicate(&self) -> (r: ManualDropEntry)
        ensures
            r == *self,
    {
        ManualDropEntry {
            id: self.id.clone(),
            game_id: self.game_id,
            name: self.name.clone(),
            name_ru: clone_opt_string(&self.name_ru),
            quantity: self.quantity,
            price: self.price,
        }
    }
}

} // verus!
