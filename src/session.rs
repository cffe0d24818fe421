//! The farm session: map-transition state machine and drop counting.
use vstd::prelude::*;
use crate::types::{FarmSessionState, MapChangeEvent, MapEventType};

verus! {

/// `x` held to the range of `i32`.
pub open spec fn clamp_i32(x: int) -> int {
    if x > i32::MAX { i32::MAX as int } else if x < i32::MIN { i32::MIN as int } else { x }
}

/// `a + b`, held to the range of `i32`.
pub fn add_clamped(a: i32, b: i128) -> (r: i32)
    requires
        -0x1_0000_0000_0000_0000 <= b <= 0x1_0000_0000_0000_0000,
    ensures
        r == clamp_i32(a + b),
{
    let s: i128 = a as i128 + b;
    if s > i32::MAX as i128 {
        i32::MAX
    } else if s < i32::MIN as i128 {
        i32::MIN
    } else {
        s as i32
    }
}

pub open spec fn abs(x: int) -> int {
    if x < 0 { -x } else { x }
}

/// The drop lines name each item at most once.
pub open spec fn unique_ids(d: Seq<(i64, i32)>) -> bool {
    forall|i: int, j: int| 0 <= i < j < d.len() ==> d[i].0 != d[j].0
}

/// Line `i` is the one for item `id`.
pub open spec fn line_of(d: Seq<(i64, i32)>, id: i64, i: int) -> bool {
    0 <= i < d.len() && d[i].0 == id
}

/// The session's well-formedness: counters are non-negative, drop lines
/// are keyed uniquely, and a last seen `EnterMap` means being on a map.
pub open spec fn session_wf(s: FarmSessionState) -> bool {
    &&& s.maps_completed >= 0
    &&& s.total_duration_sec >= 0
    &&& unique_ids(s.drops@)
    &&& (s.last_map_event_type == Some(MapEventType::EnterMap) ==> s.is_on_map)
}

/// The event repeats the last recorded one (same type and scene) within 2s.
pub open spec fn is_exact_repeat(s: FarmSessionState, e: MapChangeEvent) -> bool {
    match (s.last_map_event_type, s.last_map_event_ts, s.last_map_scene) {
        (Some(t), Some(ts), Some(scene)) => t == e.event_type && scene@ == e.scene_name@
            && abs(e.timestamp - ts) <= 2,
        _ => false,
    }
}

/// An exit that follows an exit: the session is already in the hideout.
pub open spec fn is_redundant_exit(s: FarmSessionState, e: MapChangeEvent) -> bool {
    e.event_type == MapEventType::ExitToHideout && s.last_map_event_type == Some(
        MapEventType::ExitToHideout,
    )
}

/// When the map being left started: its `EnterMap`, else the session start.
pub open spec fn map_start(s: FarmSessionState) -> Option<i64> {
    if s.current_map_started.is_some() { s.current_map_started } else { s.started_at }
}

/// Accounting of an exit: one more map, its positive duration added.
pub open spec fn exit_accounting(s: FarmSessionState, ts: i64) -> FarmSessionState {
    let dur: int = match map_start(s) {
        Some(st) => ts - st,
        None => 0,
    };
    FarmSessionState {
        maps_completed: clamp_i32(s.maps_completed + 1) as i32,
        total_duration_sec: if dur > 0 {
            clamp_i32(s.total_duration_sec + dur) as i32
        } else {
            s.total_duration_sec
        },
        is_on_map: false,
        current_map_started: None,
        ..s
    }
}

/// Accounting of an entry: takes effect only when not already on a map.
pub open spec fn enter_accounting(s: FarmSessionState, ts: i64) -> FarmSessionState {
    if s.is_on_map {
        s
    } else {
        FarmSessionState { is_on_map: true, current_map_started: Some(ts), ..s }
    }
}

/// The last-event bookkeeping set to `e` (type, time and scene).
pub open spec fn record_event(s: FarmSessionState, e: MapChangeEvent) -> FarmSessionState {
    FarmSessionState {
        last_map_event_type: Some(e.event_type),
        last_map_event_ts: Some(e.timestamp),
        last_map_scene: Some(e.scene_name),
        ..s
    }
}

/// The session after the map transition `e`.
pub open spec fn after_map_change(s: FarmSessionState, e: MapChangeEvent) -> FarmSessionState {
    if s.started_at.is_none() || is_exact_repeat(s, e) {
        s
    } else if is_redundant_exit(s, e) {
        FarmSessionState {
            last_map_event_ts: Some(e.timestamp),
            last_map_scene: Some(e.scene_name),
            ..s
        }
    } else {
        match e.event_type {
            MapEventType::EnterMap => record_event(enter_accounting(s, e.timestamp), e),
            MapEventType::ExitToHideout => record_event(exit_accounting(s, e.timestamp), e),
        }
    }
}

/// The session after the transitions `es`, in order.
pub open spec fn after_map_changes(s: FarmSessionState, es: Seq<MapChangeEvent>) -> FarmSessionState
    decreases es.len(),
{
    if es.len() == 0 {
        s
    } else {
        after_map_change(after_map_changes(s, es.drop_last()), es.last())
    }
}

impl FarmSessionState {
    /// Whether the last recorded transition repeats `e` within two seconds.
    fn repeats_last_event(&self, e: &MapChangeEvent) -> (r: bool)
        ensures
            r == is_exact_repeat(*self, *e),
    {
        match (&self.last_map_event_type, &self.last_map_event_ts, &self.last_map_scene) {
            (Some(t), Some(ts), Some(scene)) => {
                let same_type = match (t, &e.event_type) {
                    (MapEventType::EnterMap, MapEventType::EnterMap) => true,
                    (MapEventType::ExitToHideout, MapEventType::ExitToHideout) => true,
                    _ => false,
                };
                let dt: i128 = e.timestamp as i128 - *ts as i128;
                let dist: i128 = if dt < 0 { -dt } else { dt };
                same_type && *scene == e.scene_name && dist <= 2
            },
            _ => false,
        }
    }

    /// Exit accounting: counts a completed map and adds its duration when
    /// positive; the map started at its `EnterMap`, else at the session start.
    pub fn handle_map_exit(&mut self, ts: i64)
        ensures
            *final(self) == (if old(self).started_at.is_none() {
                *old(self)
            } else {
                exit_accounting(*old(self), ts)
            }),
    {
        if self.started_at.is_none() {
            return;
        }
        let map_started = match self.current_map_started {
            Some(t) => Some(t),
            None => self.started_at,
        };
        self.maps_completed = add_clamped(self.maps_completed, 1);
        if let Some(started) = map_started {
            let duration: i128 = ts as i128 - started as i128;
            if duration > 0 {
                self.total_duration_sec = add_clamped(self.total_duration_sec, duration);
            }
        }
        self.is_on_map = false;
        self.current_map_started = None;
    }

    /// Entry accounting: marks the session on a map unless it already is.
    pub fn handle_map_enter(&mut self, ts: i64)
        ensures
            *final(self) == (if old(self).started_at.is_none() {
                *old(self)
            } else {
                enter_accounting(*old(self), ts)
            }),
    {
        if self.started_at.is_none() {
            return;
        }
        if self.is_on_map {
            return;
        }
        self.is_on_map = true;
        self.current_map_started = Some(ts);
    }

    /// Applies a map transition with de-duplication: exact repeats within
    /// two seconds are dropped, an exit after an exit only refreshes the
    /// last-event bookkeeping, anything else is accounted and recorded.
    /// Nothing happens while no session is active.
    pub fn handle_map_change(&mut self, event: &MapChangeEvent)
        ensures
            *final(self) == after_map_change(*old(self), *event),
    {
        if self.started_at.is_none() {
            return;
        }
        if self.repeats_last_event(event) {
            return;
        }
        let last_was_exit = match self.last_map_event_type {
            Some(MapEventType::ExitToHideout) => true,
            _ => false,
        };
        match event.event_type {
            MapEventType::ExitToHideout => {
                if last_was_exit {
                    self.last_map_event_ts = Some(event.timestamp);
                    self.last_map_scene = Some(event.scene_name.clone());
                    return;
                }
                self.handle_map_exit(event.timestamp);
            },
            MapEventType::EnterMap => {
                self.handle_map_enter(event.timestamp);
            },
        }
        self.last_map_event_type = Some(event.event_type);
        self.last_map_event_ts = Some(event.timestamp);
        self.last_map_scene = Some(event.scene_name.clone());
    }
}

/// Every map transition keeps the session well-formed.
pub proof fn lemma_map_change_keeps_wf(s: FarmSessionState, e: MapChangeEvent)
    requires
        session_wf(s),
    ensures
        session_wf(after_map_change(s, e)),
{
}

/// A run of `ExitToHideout` events with no `EnterMap` among them, however
/// far apart, completes exactly one map when the session's last recorded
/// transition was not already an exit.
pub proof fn lemma_exit_run_counts_one_map(s: FarmSessionState, es: Seq<MapChangeEvent>)
    requires
        s.started_at.is_some(),
        s.last_map_event_type != Some(MapEventType::ExitToHideout),
        es.len() >= 1,
        forall|i: int| 0 <= i < es.len() ==> (#[trigger] es[i]).event_type
            == MapEventType::ExitToHideout,
    ensures
        after_map_changes(s, es).maps_completed == clamp_i32(s.maps_completed + 1),
{
    lemma_exit_run_state(s, es);
}

proof fn lemma_exit_run_state(s: FarmSessionState, es: Seq<MapChangeEvent>)
    requires
        s.started_at.is_some(),
        s.last_map_event_type != Some(MapEventType::ExitToHideout),
        es.len() >= 1,
        forall|i: int| 0 <= i < es.len() ==> (#[trigger] es[i]).event_type
            == MapEventType::ExitToHideout,
    ensures
        after_map_changes(s, es).maps_completed == clamp_i32(s.maps_completed + 1),
        after_map_changes(s, es).last_map_event_type == Some(MapEventType::ExitToHideout),
        after_map_changes(s, es).started_at == s.started_at,
    decreases es.len(),
{
    let init = es.drop_last();
    assert(es.last() == es[es.len() - 1]);
    if es.len() == 1 {
        assert(after_map_changes(s, init) == s);
    } else {
        assert forall|i: int| 0 <= i < init.len() implies (#[trigger] init[i]).event_type
            == MapEventType::ExitToHideout by {
            assert(init[i] == es[i]);
        }
        lemma_exit_run_state(s, init);
    }
}

/// Two identical transitions (same type, same scene) within two seconds of
/// each other: the second changes neither the map count, the map time nor
/// the map sub-state.
pub proof fn lemma_quick_repeat_changes_nothing(
    s: FarmSessionState,
    e1: MapChangeEvent,
    e2: MapChangeEvent,
)
    requires
        session_wf(s),
        e1.event_type == e2.event_type,
        e1.scene_name@ == e2.scene_name@,
        abs(e2.timestamp - e1.timestamp) <= 2,
    ensures
        ({
            let s1 = after_map_change(s, e1);
            let s2 = after_map_change(s1, e2);
            &&& s2.maps_completed == s1.maps_completed
            &&& s2.total_duration_sec == s1.total_duration_sec
            &&& s2.is_on_map == s1.is_on_map
            &&& s2.current_map_started == s1.current_map_started
        }),
{
    let s1 = after_map_change(s, e1);
    if s.started_at.is_some() && !is_exact_repeat(s, e1) && !is_redundant_exit(s, e1) {
        assert(is_exact_repeat(s1, e2));
    } else if s.started_at.is_some() && !is_exact_repeat(s, e1) {
        assert(is_exact_repeat(s1, e2));
    }
}

} // verus!
