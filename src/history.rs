//! Snapshot bookkeeping: the bounded session-history log, legacy price
//! snapshots and the record of an ended session.
use vstd::prelude::*;
use crate::types::{FarmSessionState, PersistedPriceEntry, SessionStats, ExpenseEntry};
use crate::prices::current_entry;
use crate::outside::{new_record_id, now_secs};

verus! {

/// Most records the history log keeps.
pub const MAX_HISTORY: usize = 100;

/// Most expense lines an ended session can sum without overflow.
pub const MAX_EXPENSE_LINES: usize = 1_000_000;

/// A completed session as the local history keeps it; money in micro-units.
#[derive(Clone, Debug)]
pub struct SessionHistoryRecord {
    pub id: String,
    /// Unix seconds.
    pub started_at: i64,
    /// Unix seconds.
    pub ended_at: i64,
    pub maps_completed: i32,
    pub total_duration_sec: i32,
    pub total_profit: i128,
    pub total_expenses: i128,
    pub total_income: i128,
    /// Id at the remote service, once synchronised.
    pub remote_id: Option<String>,
}

/// The log after adding `r`: newest first, at most `MAX_HISTORY` records.
pub open spec fn after_add(log: Seq<SessionHistoryRecord>, r: SessionHistoryRecord) -> Seq<
    SessionHistoryRecord,
> {
    let l = seq![r] + log;
    if l.len() > MAX_HISTORY { l.take(MAX_HISTORY as int) } else { l }
}

/// `i` is the first record with id `id`.
pub open spec fn first_with_id(log: Seq<SessionHistoryRecord>, id: Seq<char>, i: int) -> bool {
    &&& 0 <= i < log.len()
    &&& log[i].id@ == id
    &&& forall|k: int| 0 <= k < i ==> (#[trigger] log[k]).id@ != id
}

/// Puts `record` at the front of the log and keeps the newest
/// `MAX_HISTORY` records.
pub fn add_session_to_history(sessions: &mut Vec<SessionHistoryRecord>, record: SessionHistoryRecord)
    ensures
        final(sessions)@ == after_add(old(sessions)@, record),
{
    sessions.insert(0, record);
    if sessions.len() > MAX_HISTORY {
        sessions.truncate(MAX_HISTORY);
    }
    assert(old(sessions)@.insert(0, record) == seq![record] + old(sessions)@);
}

/// Removes the first record with the given id and hands it back; the log is
/// unchanged when there is none.
pub fn delete_session_from_history(sessions: &mut Vec<SessionHistoryRecord>, session_id: &str) -> (r:
    Option<SessionHistoryRecord>)
    ensures
        match r {
            Some(rec) => exists|i: int|
                first_with_id(old(sessions)@, session_id@, i) && rec == old(sessions)@[i]
                    && final(sessions)@ == old(sessions)@.remove(i),
            None => (forall|i: int|
                0 <= i < old(sessions)@.len() ==> (#[trigger] old(sessions)@[i]).id@
                    != session_id@) && final(sessions)@ == old(sessions)@,
        },
{
    let key = session_id.to_owned();
    let mut i: usize = 0;
    while i < sessions.len()
        invariant
            i <= sessions@.len(),
            sessions@ == old(sessions)@,
            key@ == session_id@,
            forall|k: int| 0 <= k < i ==> (#[trigger] sessions@[k]).id@ != session_id@,
        decreases sessions@.len() - i,
    {
        if sessions[i].id == key {
            let rec = sessions.remove(i);
            assert(first_with_id(old(sessions)@, session_id@, i as int));
            return Some(rec);
        }
        i += 1;
    }
    None
}

/// Entries for a legacy price snapshot (item id and price, no timestamp):
/// each positive price becomes a current-league entry observed at `now`.
pub fn legacy_price_entries(legacy: &Vec<(i64, i64)>, now: i64) -> (r: Vec<(i64, PersistedPriceEntry)>)
    ensures
        r@ == legacy@.filter(|x: (i64, i64)| x.1 > 0).map_values(
            |x: (i64, i64)| (x.0, current_entry(x.1, now)),
        ),
{
    let ghost pred = |x: (i64, i64)| x.1 > 0;
    let ghost f = |x: (i64, i64)| (x.0, current_entry(x.1, now));
    let mut out: Vec<(i64, PersistedPriceEntry)> = Vec::new();
    let mut i: usize = 0;
    while i < legacy.len()
        invariant
            i <= legacy@.len(),
            pred == (|x: (i64, i64)| x.1 > 0),
            f == (|x: (i64, i64)| (x.0, current_entry(x.1, now))),
            out@ == legacy@.take(i as int).filter(pred).map_values(f),
        decreases legacy@.len() - i,
    {
        let (id, p) = legacy[i];
        let ghost d = legacy@;
        assert(d.take(i + 1).drop_last() == d.take(i as int));
        assert(d.take(i + 1).last() == d[i as int]);
        proof {
            reveal(Seq::filter);
        }
        if p > 0 {
            out.push(
                (id, PersistedPriceEntry { price: p, updated_at: now, is_current_league: true, league_name: None }),
            );
            assert(d.take(i + 1).filter(pred) == d.take(i as int).filter(pred).push(d[i as int]));
            assert(out@ == d.take(i + 1).filter(pred).map_values(f));
        } else {
            assert(d.take(i + 1).filter(pred) == d.take(i as int).filter(pred));
        }
        i += 1;
    }
    assert(legacy@.take(legacy@.len() as int) == legacy@);
    out
}

/// Cost of the expenses: unit price times quantity, summed.
pub open spec fn expenses_total(e: Seq<ExpenseEntry>) -> int
    decreases e.len(),
{
    if e.len() == 0 {
        0
    } else {
        expenses_total(e.drop_last()) + e.last().price * e.last().quantity
    }
}

/// The history record of a session ended at `now`, valued by `stats`.
pub open spec fn ended_record(
    id: String,
    s: FarmSessionState,
    stats: SessionStats,
    now: i64,
) -> SessionHistoryRecord {
    SessionHistoryRecord {
        id,
        started_at: match s.started_at {
            Some(t) => t,
            None => now,
        },
        ended_at: now,
        maps_completed: s.maps_completed,
        total_duration_sec: stats.duration_sec,
        total_profit: (stats.total_value - expenses_total(s.expenses@)) as i128,
        total_expenses: expenses_total(s.expenses@) as i128,
        total_income: stats.total_value,
        remote_id: None,
    }
}

/// The record of a session ended at `now`: income is the statistics'
/// value, expenses the cost of its expense lines, profit their difference.
pub fn build_history_record(
    id: String,
    session: &FarmSessionState,
    stats: &SessionStats,
    now: i64,
) -> (r: SessionHistoryRecord)
    requires
        session.expenses@.len() <= MAX_EXPENSE_LINES,
        -0x100_0000_0000_0000_0000_0000_0000_0000 <= stats.total_value
            <= 0x100_0000_0000_0000_0000_0000_0000_0000,
    ensures
        r == ended_record(id, *session, *stats, now),
{
    let mut cost: i128 = 0;
    let mut i: usize = 0;
    while i < session.expenses.len()
        invariant
            i <= session.expenses@.len() <= MAX_EXPENSE_LINES,
            cost == expenses_total(session.expenses@.take(i as int)),
            -(i * 0x4000_0000_0000_0000_0000_0000) <= cost <= i * 0x4000_0000_0000_0000_0000_0000,
        decreases session.expenses@.len() - i,
    {
        let ghost d = session.expenses@;
        assert(d.take(i + 1).drop_last() == d.take(i as int));
        assert(d.take(i + 1).last() == d[i as int]);
        let p = session.expenses[i].price as i128;
        let q = session.expenses[i].quantity as i128;
        assert(-0x4000_0000_0000_0000_0000_0000 <= p * q <= 0x4000_0000_0000_0000_0000_0000)
            by (nonlinear_arith)
            requires
                i64::MIN <= p <= i64::MAX,
                i32::MIN <= q <= i32::MAX,
        ;
        cost = cost + p * q;
        i += 1;
    }
    assert(session.expenses@.take(session.expenses@.len() as int) == session.expenses@);
    let started_at = match session.started_at {
        Some(t) => t,
        None => now,
    };
    SessionHistoryRecord {
        id,
        started_at,
        ended_at: now,
        maps_completed: session.maps_completed,
        total_duration_sec: stats.duration_sec,
        total_profit: stats.total_value - cost,
        total_expenses: cost,
        total_income: stats.total_value,
        remote_id: None,
    }
}

/// The record of a session ending now, under a fresh random id; `None`
/// when the session holds more expense lines than can be summed.
pub fn new_history_record(session: &FarmSessionState, stats: &SessionStats) -> (r: Option<
    SessionHistoryRecord,
>)
    requires
        -0x100_0000_0000_0000_0000_0000_0000_0000 <= stats.total_value
            <= 0x100_0000_0000_0000_0000_0000_0000_0000,
    ensures
        session.expenses@.len() <= MAX_EXPENSE_LINES <==> r.is_some(),
        match r {
            Some(rec) => rec.id@.len() == 36 && rec == ended_record(
                rec.id,
                *session,
                *stats,
                rec.ended_at,
            ),
            None => true,
        },
{
    if session.expenses.len() > MAX_EXPENSE_LINES {
        return None;
    }
    let id = new_record_id();
    let now = now_secs();
    Some(build_history_record(id, session, stats, now))
}

} // verus!
