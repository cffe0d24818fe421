//! Where the snapshots live: one file per concern under the application's
//! directory inside the platform's local data directory.
use vstd::prelude::*;
use vstd::std_specs::iter::IteratorSpec;
use crate::outside::{char_is_alphanumeric, data_local_dir, is_alnum, push_char, push_text};

verus! {

/// A snapshot file: the platform data directory, the application's
/// directory inside it, and the file's name.
#[derive(Clone, Debug)]
pub struct DataFile {
    pub base_dir: String,
    pub app_dir: String,
    pub file_name: String,
}

/// A character kept in a file name: alphanumeric, `-` or `_`.
pub open spec fn is_name_char(c: char) -> bool {
    is_alnum(c) || c == '-' || c == '_'
}

/// A file `name` in the application's directory, when the platform has a
/// local data directory.
fn data_file(name: &str) -> (r: Option<DataFile>)
    ensures
        match r {
            Some(f) => f.app_dir@ == "tli-companion"@ && f.file_name@ == name@,
            None => true,
        },
{
    match data_local_dir() {
        Some(base_dir) => {
            proof {
                reveal_strlit("tli-companion");
            }
            Some(DataFile { base_dir, app_dir: "tli-companion".to_owned(), file_name: name.to_owned() })
        },
        None => None,
    }
}

/// The price-cache snapshot.
pub fn prices_cache_path() -> (r: Option<DataFile>)
    ensures
        match r {
            Some(f) => f.app_dir@ == "tli-companion"@ && f.file_name@ == "prices_cache.json"@,
            None => true,
        },
{
    data_file("prices_cache.json")
}

/// The settings snapshot.
pub fn settings_path() -> (r: Option<DataFile>)
    ensures
        match r {
            Some(f) => f.app_dir@ == "tli-companion"@ && f.file_name@ == "settings.json"@,
            None => true,
        },
{
    data_file("settings.json")
}

/// The active-session snapshot.
pub fn session_path() -> (r: Option<DataFile>)
    ensures
        match r {
            Some(f) => f.app_dir@ == "tli-companion"@ && f.file_name@ == "active_session.json"@,
            None => true,
        },
{
    data_file("active_session.json")
}

/// The user id with every character dropped that is not alphanumeric, `-`
/// or `_`, so that it cannot leave the directory it is put in.
pub fn sanitize_user_id(user_id: &str) -> (r: String)
    ensures
        r@ == user_id@.filter(|c: char| is_name_char(c)),
{
    let ghost pred = |c: char| is_name_char(c);
    let ghost src = user_id@;
    let mut out = String::new();
    let mut it = user_id.chars();
    let ghost mut k: int = 0;
    loop
        invariant
            0 <= k <= src.len(),
            pred == (|c: char| is_name_char(c)),
            it.obeys_prophetic_iter_laws(),
            it.remaining() == src.skip(k),
            out@ == src.take(k).filter(pred),
        ensures
            out@ == src.filter(pred),
        decreases src.len() - k,
    {
        let next = it.next();
        match next {
            Some(c) => {
                assert(src.take(k + 1).drop_last() == src.take(k));
                assert(src.take(k + 1).last() == src[k]);
                assert(src.skip(k)[0] == src[k]);
                assert(src.skip(k).drop_first() == src.skip(k + 1));
                proof {
                    reveal(Seq::filter);
                }
                if char_is_alphanumeric(c) || c == '-' || c == '_' {
                    push_char(&mut out, c);
                }
                proof {
                    k = k + 1;
                }
            },
            None => {
                assert(src.take(k) == src);
                assert(out@ == src.filter(pred));
                break;
            },
        }
    }
    out
}

/// The session-history log of a user: `sessions_<id>.json`, the id
/// sanitised by `sanitize_user_id`.
pub fn session_history_path(user_id: &str) -> (r: Option<DataFile>)
    ensures
        match r {
            Some(f) => f.app_dir@ == "tli-companion"@ && f.file_name@ == "sessions_"@
                + user_id@.filter(|c: char| is_name_char(c)) + ".json"@,
            None => true,
        },
{
    let safe = sanitize_user_id(user_id);
    let mut name = String::new();
    push_text(&mut name, "sessions_");
    push_text(&mut name, safe.as_str());
    push_text(&mut name, ".json");
    assert(name@ == Seq::<char>::empty() + "sessions_"@ + safe@ + ".json"@);
    assert(Seq::<char>::empty() + "sessions_"@ == "sessions_"@);
    data_file(name.as_str())
}

} // verus!
