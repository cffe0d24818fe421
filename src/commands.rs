//! Decisions behind the user-facing commands; the I/O around them is the
//! caller's.
use vstd::prelude::*;
use crate::types::{AuthStatus, ItemInfo, LogFileStatus, SessionStats};
use crate::state::{AppState, end_step};
use crate::history::{SessionHistoryRecord, MAX_EXPENSE_LINES, ended_record, new_history_record};
use crate::stats::{session_stats, lemma_total_value_bound, line_bound, total_value, MAX_DROP_LINES};
use crate::outside::{now_secs, ascii_lower, decimal, eq_ignore_ascii_case, i64_to_text, push_text};

verus! {

/// A log modified within this many seconds counts as active.
pub const LOG_ACTIVE_WINDOW_SEC: u64 = 60;

/// Number of history records returned when no limit is given.
pub const DEFAULT_HISTORY_LIMIT: i32 = 20;

/// The only log file name that may be chosen.
pub open spec fn allowed_log_name() -> Seq<char> {
    "UE_game.log"@
}

/// Status of the log file from what the file system said: whether it
/// exists and, when its metadata could be read, its size and the seconds
/// since its last change (if known). A log is active when it changed
/// within the last minute.
pub fn log_file_status(exists: bool, metadata: Option<(u64, Option<u64>)>) -> (r: LogFileStatus)
    ensures
        r == (if !exists {
            LogFileStatus {
                exists: false,
                is_active: false,
                last_modified_secs_ago: None,
                size_bytes: None,
            }
        } else {
            match metadata {
                Some((size, ago)) => LogFileStatus {
                    exists: true,
                    is_active: match ago {
                        Some(secs) => secs < LOG_ACTIVE_WINDOW_SEC,
                        None => false,
                    },
                    last_modified_secs_ago: ago,
                    size_bytes: Some(size),
                },
                None => LogFileStatus {
                    exists: true,
                    is_active: false,
                    last_modified_secs_ago: None,
                    size_bytes: None,
                },
            }
        }),
{
    if !exists {
        return LogFileStatus {
            exists: false,
            is_active: false,
            last_modified_secs_ago: None,
            size_bytes: None,
        };
    }
    match metadata {
        Some((size, ago)) => {
            let is_active = match ago {
                Some(secs) => secs < LOG_ACTIVE_WINDOW_SEC,
                None => false,
            };
            LogFileStatus {
                exists: true,
                is_active,
                last_modified_secs_ago: ago,
                size_bytes: Some(size),
            }
        },
        None => LogFileStatus {
            exists: true,
            is_active: false,
            last_modified_secs_ago: None,
            size_bytes: None,
        },
    }
}

/// Why a chosen log path is refused.
#[derive(Clone, Copy, Debug, PartialEq, Eq, Structural)]
pub enum LogPathError {
    /// No file at that path.
    Missing,
    /// The path has no file name.
    InvalidPath,
    /// The file is not the game's log.
    NotGameLog,
}

impl LogPathError {
    /// The message shown to the user.
    pub fn message(&self) -> (r: String)
        ensures
            r@ == (match *self {
                LogPathError::Missing => "File does not exist"@,
                LogPathError::InvalidPath => "Invalid path"@,
                LogPathError::NotGameLog => "Only UE_game.log is supported for security reasons"@,
            }),
    {
        match self {
            LogPathError::Missing => "File does not exist".to_owned(),
            LogPathError::InvalidPath => "Invalid path".to_owned(),
            LogPathError::NotGameLog => "Only UE_game.log is supported for security reasons".to_owned(),
        }
    }
}

/// Whether a log path may be used, from whether the file exists and its
/// file name (if it has one): only `UE_game.log`, in any ASCII case, so
/// that no other file of the user's can be read through this setting.
pub fn check_log_path(exists: bool, file_name: Option<&str>) -> (r: Result<(), LogPathError>)
    ensures
        !exists ==> r == Err::<(), LogPathError>(LogPathError::Missing),
        exists && file_name.is_none() ==> r == Err::<(), LogPathError>(LogPathError::InvalidPath),
        exists && file_name.is_some() ==> (r is Ok <==> (file_name.unwrap()@.len()
            == allowed_log_name().len() && forall|i: int|
            0 <= i < allowed_log_name().len() ==> ascii_lower(#[trigger] file_name.unwrap()@[i])
                == ascii_lower(allowed_log_name()[i]))),
        exists && file_name.is_some() && r is Err ==> r == Err::<(), LogPathError>(
            LogPathError::NotGameLog,
        ),
{
    if !exists {
        return Err(LogPathError::Missing);
    }
    match file_name {
        Some(name) => {
            if eq_ignore_ascii_case(name, "UE_game.log") {
                Ok(())
            } else {
                Err(LogPathError::NotGameLog)
            }
        },
        None => Err(LogPathError::InvalidPath),
    }
}

/// The history cut to the requested number of records (20 by default); a
/// negative limit cuts nothing.
pub fn apply_history_limit(sessions: &mut Vec<SessionHistoryRecord>, limit: Option<i32>)
    ensures
        ({
            let n: int = match limit {
                Some(l) => l as int,
                None => DEFAULT_HISTORY_LIMIT as int,
            };
            final(sessions)@ == if 0 <= n < old(sessions)@.len() {
                old(sessions)@.take(n)
            } else {
                old(sessions)@
            }
        }),
{
    let n: i32 = match limit {
        Some(l) => l,
        None => DEFAULT_HISTORY_LIMIT,
    };
    if n >= 0 && (n as usize) < sessions.len() {
        sessions.truncate(n as usize);
    }
}

/// A catalog entry from a remote catalog row: the display name is the
/// English name, else `ID: <id>`; the category defaults to `unknown`.
pub fn item_from_row(
    game_id: i64,
    name_en: Option<String>,
    name_ru: Option<String>,
    name_cn: Option<String>,
    category: Option<String>,
    icon_url: Option<String>,
    is_base_currency: bool,
) -> (r: ItemInfo)
    ensures
        r.game_id == game_id,
        r.name@ == (match name_en {
            Some(n) => n@,
            None => "ID: "@ + decimal(game_id as int),
        }),
        r.name_en == name_en,
        r.name_ru == name_ru,
        r.name_cn == name_cn,
        r.category@ == (match category {
            Some(c) => c@,
            None => "unknown"@,
        }),
        r.icon_url == icon_url,
        r.is_base_currency == is_base_currency,
{
    let name = match &name_en {
        Some(n) => n.clone(),
        None => {
            let mut s = String::new();
            push_text(&mut s, "ID: ");
            let digits = i64_to_text(game_id);
            push_text(&mut s, digits.as_str());
            assert(Seq::<char>::empty() + "ID: "@ == "ID: "@);
            s
        },
    };
    let category = match category {
        Some(c) => c,
        None => "unknown".to_owned(),
    };
    ItemInfo {
        game_id,
        name,
        name_en,
        name_ru,
        name_cn,
        category,
        icon_url,
        is_base_currency,
    }
}

/// What the user interface is told of the login state.
pub fn auth_status(state: &AppState) -> (r: AuthStatus)
    ensures
        r.is_logged_in == state.auth_session.is_some(),
        r.email == (match state.auth_session {
            Some(a) => a.user_email,
            None => None,
        }),
{
    AuthStatus { is_logged_in: state.is_logged_in(), email: state.get_auth_email() }
}

impl AppState {
    /// Ends the session the way the user's command does: the final
    /// statistics are taken now, a history record is made when a user is
    /// signed in (and the expenses can be summed), then the session is
    /// reset.
    pub fn close_session(&mut self) -> (r: (SessionStats, Option<SessionHistoryRecord>))
        requires
            old(self).wf(),
            old(self).session.drops@.len() <= MAX_DROP_LINES,
        ensures
            final(self).wf(),
            end_step(*old(self), *final(self), old(self).session),
            exists|now: i64|
                r.0 == session_stats(
                    old(self).session,
                    old(self).prices_cache@,
                    old(self).items_cache@,
                    now,
                    old(self).is_paused,
                ),
            r.1.is_some() <==> (old(self).auth_session.is_some() && (match old(
                self,
            ).auth_session {
                Some(a) => a.user_id.is_some(),
                None => false,
            }) && old(self).session.expenses@.len() <= MAX_EXPENSE_LINES),
            match r.1 {
                Some(rec) => rec == ended_record(rec.id, old(self).session, r.0, rec.ended_at),
                None => true,
            },
    {
        let now = now_secs();
        let stats = self.get_session_stats_at(now);
        proof {
            let d = self.session.drops@;
            lemma_total_value_bound(self.prices_cache@, self.items_cache@, d);
            let t = total_value(self.prices_cache@, self.items_cache@, d);
            assert(d.len() * line_bound() <= MAX_DROP_LINES * line_bound()) by (nonlinear_arith)
                requires
                    d.len() <= MAX_DROP_LINES,
                    line_bound() > 0,
            ;
            assert(stats.total_value == t);
        }
        let record = match self.get_auth_user_id() {
            Some(_) => new_history_record(&self.session, &stats),
            None => None,
        };
        let _ended = self.end_session();
        (stats, record)
    }
}

} // verus!
