use crate::text::{concat, decimal, spec_decimal};
use vstd::prelude::*;

verus! {

/// What `std::path::Path::join` makes of two paths on the platform that the
/// library is built for.
pub uninterp spec fn path_join(base: Seq<char>, child: Seq<char>) -> Seq<char>;

/// `std::path::Path::join`: `child` adjoined to `base` by the rules of the
/// platform. Both are text, so the joined path is text as well and comes
/// back unchanged.
#[verifier::external_body]
pub(crate) fn join_path(base: &str, child: &str) -> (joined: String)
    ensures
        joined@ == path_join(base@, child@),
{
    std::path::Path::new(base).join(child).to_string_lossy().into_owned()
}

/// What `std::path::Path::parent` makes of a path on the platform that the
/// library is built for.
pub uninterp spec fn path_parent(path: Seq<char>) -> Option<Seq<char>>;

/// `std::path::Path::parent`: the path without its last component, if it
/// has one to lose. The path is text, so its parent is text as well and
/// comes back unchanged.
#[verifier::external_body]
pub(crate) fn parent_path(path: &str) -> (parent: Option<String>)
    ensures
        crate::text::opt_text(parent) == path_parent(path@),
{
    std::path::Path::new(path).parent().map(|p| p.to_string_lossy().into_owned())
}

/// `dirs::home_dir`: the home directory of the user who runs the process, if
/// the system names one. Nothing is promised of it.
#[verifier::external_body]
pub(crate) fn home_dir() -> (home: Option<String>) {
    dirs::home_dir().map(|p| p.to_string_lossy().into_owned())
}

/// `std::time::SystemTime::now`, as microseconds since the Unix epoch, or
/// `None` where the clock stands before it. Nothing is promised of the number.
#[verifier::external_body]
pub(crate) fn micros_since_epoch() -> (micros: Option<u128>) {
    std::time::SystemTime::now().duration_since(std::time::UNIX_EPOCH).ok().map(|d| d.as_micros())
}

/// What `chrono::DateTime::from_timestamp_micros` and `to_rfc3339` write for
/// a moment given in microseconds since the Unix epoch: the moment in UTC, or
/// `None` for a moment that chrono cannot hold.
pub uninterp spec fn rfc3339(micros: int) -> Option<Seq<char>>;

/// `chrono::DateTime::from_timestamp_micros`, written by
/// `DateTime::to_rfc3339`: the moment in UTC as RFC 3339 writes it. Neither
/// call can fail but by handing back `None`.
#[verifier::external_body]
pub(crate) fn rfc3339_of(micros: i64) -> (text: Option<String>)
    ensures
        crate::text::opt_text(text) == rfc3339(micros as int),
{
    chrono::DateTime::from_timestamp_micros(micros).map(|t| t.to_rfc3339())
}

/// The microseconds since the Unix epoch that the clock shows; zero where it
/// stands before the epoch.
pub(crate) fn now_micros() -> (micros: u128) {
    match micros_since_epoch() {
        Some(m) => m,
        None => 0,
    }
}

/// The time stamp of a moment given in microseconds since the Unix epoch:
/// the moment in UTC as RFC 3339 writes it. A moment too late to be held
/// counts as the latest that fits 64 bits, and one that still cannot be
/// written as the epoch itself.
pub open spec fn spec_timestamp(micros: nat) -> Seq<char> {
    let held = if micros > i64::MAX {
        i64::MAX as int
    } else {
        micros as int
    };
    match rfc3339(held) {
        Some(text) => text,
        None => "1970-01-01T00:00:00+00:00"@,
    }
}

/// The time stamp of a moment given in microseconds since the Unix epoch.
pub fn timestamp_from_micros(micros: u128) -> (stamp: String)
    ensures
        stamp@ == spec_timestamp(micros as nat),
{
    let held: i64 = if micros > 0x7FFF_FFFF_FFFF_FFFF {
        0x7FFF_FFFF_FFFF_FFFF
    } else {
        micros as i64
    };
    match rfc3339_of(held) {
        Some(text) => text,
        None => "1970-01-01T00:00:00+00:00".to_string(),
    }
}

/// The time stamp of the present moment.
pub fn get_timestamp() -> (now: String)
    ensures
        exists|micros: nat| now@ == spec_timestamp(micros),
{
    let micros = now_micros();
    let now = timestamp_from_micros(micros);
    assert(now@ == spec_timestamp(micros as nat));
    now
}

/// The directory `section`/`db_name` under `storage_path`.
pub open spec fn spec_db_path(storage_path: Seq<char>, section: Seq<char>, db_name: Seq<char>) -> Seq<
    char,
> {
    path_join(path_join(storage_path, section), db_name)
}

/// The directory `section`/`db_name` under `storage_path`.
fn db_path(storage_path: &str, section: &str, db_name: &str) -> (path: String)
    ensures
        path@ == spec_db_path(storage_path@, section@, db_name@),
{
    let parent = join_path(storage_path, section);
    join_path(parent.as_str(), db_name)
}

/// Where the files of a fresh installation are kept: `.local-db` under the
/// home directory, or under the working directory where no home is known.
pub open spec fn spec_default_storage_path(home: Option<Seq<char>>) -> Seq<char> {
    match home {
        Some(dir) => path_join(dir, ".local-db"@),
        None => ".local-db"@,
    }
}

/// Where the files of a fresh installation are kept, given the home
/// directory.
pub fn default_storage_path_in(home: Option<&str>) -> (path: String)
    ensures
        path@ == spec_default_storage_path(
            match home {
                Some(dir) => Some(dir@),
                None => None,
            },
        ),
{
    match home {
        Some(dir) => join_path(dir, ".local-db"),
        None => ".local-db".to_string(),
    }
}

/// Where the files of a fresh installation are kept for the user who runs
/// the process.
pub fn get_default_storage_path() -> (path: String)
    ensures
        exists|home: Option<Seq<char>>| path@ == spec_default_storage_path(home),
{
    match home_dir() {
        Some(dir) => {
            let path = default_storage_path_in(Some(dir.as_str()));
            assert(path@ == spec_default_storage_path(Some(dir@)));
            path
        },
        None => {
            let path = default_storage_path_in(None);
            assert(path@ == spec_default_storage_path(None));
            path
        },
    }
}

/// Where the registry file is kept: `state.json` in `.local-db` under the
/// home directory, or under the working directory where no home is known.
pub open spec fn spec_state_path(home: Option<Seq<char>>) -> Seq<char> {
    match home {
        Some(dir) => path_join(path_join(dir, ".local-db"@), "state.json"@),
        None => ".local-db/state.json"@,
    }
}

/// Where the registry file is kept, given the home directory.
pub fn state_path_in(home: Option<&str>) -> (path: String)
    ensures
        path@ == spec_state_path(
            match home {
                Some(dir) => Some(dir@),
                None => None,
            },
        ),
{
    match home {
        Some(dir) => {
            let store = join_path(dir, ".local-db");
            join_path(store.as_str(), "state.json")
        },
        None => ".local-db/state.json".to_string(),
    }
}

/// Where the registry file is kept for the user who runs the process.
pub fn state_path() -> (path: String)
    ensures
        exists|home: Option<Seq<char>>| path@ == spec_state_path(home),
{
    match home_dir() {
        Some(dir) => {
            let path = state_path_in(Some(dir.as_str()));
            assert(path@ == spec_state_path(Some(dir@)));
            path
        },
        None => {
            let path = state_path_in(None);
            assert(path@ == spec_state_path(None));
            path
        },
    }
}

/// The directory of an engine's binaries.
pub fn get_db_bin_path(storage_path: &str, db_name: &str) -> (path: String)
    ensures
        path@ == spec_db_path(storage_path@, "bin"@, db_name@),
{
    db_path(storage_path, "bin", db_name)
}

/// The directory of an engine's configuration.
pub fn get_db_config_path(storage_path: &str, db_name: &str) -> (path: String)
    ensures
        path@ == spec_db_path(storage_path@, "config"@, db_name@),
{
    db_path(storage_path, "config", db_name)
}

/// The directory of an engine's data.
pub fn get_db_data_path(storage_path: &str, db_name: &str) -> (path: String)
    ensures
        path@ == spec_db_path(storage_path@, "data"@, db_name@),
{
    db_path(storage_path, "data", db_name)
}

/// The directory of an engine's logs.
pub fn get_db_log_path(storage_path: &str, db_name: &str) -> (path: String)
    ensures
        path@ == spec_db_path(storage_path@, "logs"@, db_name@),
{
    db_path(storage_path, "logs", db_name)
}

/// The directory of an engine's backups.
pub fn get_db_backup_path(storage_path: &str, db_name: &str) -> (path: String)
    ensures
        path@ == spec_db_path(storage_path@, "backups"@, db_name@),
{
    db_path(storage_path, "backups", db_name)
}

/// The id that stands for a moment given in microseconds since the epoch.
pub fn id_from_micros(micros: u128) -> (id: String)
    ensures
        id@ == spec_decimal(micros as nat),
        id@.len() > 0,
{
    decimal(micros)
}

/// A fresh id: the microseconds since the epoch, in decimal. A clock that
/// stands before the epoch gives the id of moment zero.
pub fn generate_id() -> (id: String)
    ensures
        exists|micros: nat| id@ == spec_decimal(micros),
        id@.len() > 0,
{
    let micros: u128 = now_micros();
    let id = id_from_micros(micros);
    assert(id@ == spec_decimal(micros as nat));
    id
}

/// `prefix`, a hyphen, then `suffix`.
pub fn hyphenate(prefix: &str, suffix: &str) -> (joined: String)
    ensures
        joined@ == prefix@ + "-"@ + suffix@,
{
    let mut joined = concat(prefix, "-");
    joined.append(suffix);
    joined
}

} // verus!
