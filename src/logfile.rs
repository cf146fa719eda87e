//! Where the dated log file lives: a fixed directory under the user's home,
//! one file per day named after the date.
use vstd::prelude::*;
use crate::paths::{join_path, joined};

verus! {

/// The name of the log directory under the home directory.
pub open spec fn log_dir_name() -> Seq<char> {
    seq!['f', 'i', 'l', 'e', '-', 'w', 'a', 't', 'c', 'h', 'e', 'r', '-', 'b', 'a', 'c', 'k', 'u', 'p']
}

/// The log directory for the home directory `home`.
pub open spec fn log_dir_of(home: Seq<char>) -> Seq<char> {
    joined(home, log_dir_name())
}

/// The log file for the day written `stamp`, under the home directory `home`.
pub open spec fn log_file_of(home: Seq<char>, stamp: Seq<char>) -> Seq<char> {
    joined(log_dir_of(home), stamp + seq!['.', 'l', 'o', 'g'])
}

/// The log directory under `home`.
pub fn log_directory(home: &str) -> (r: String)
    ensures
        r@ == log_dir_of(home@),
{
    proof {
        reveal_strlit("file-watcher-backup");
    }
    join_path(home, "file-watcher-backup")
}

/// The log file for the day written `stamp`, under `home`.
pub fn log_file_path(home: &str, stamp: &str) -> (r: String)
    ensures
        r@ == log_file_of(home@, stamp@),
{
    let dir = log_directory(home);
    let name = String::from_str(stamp);
    proof {
        reveal_strlit(".log");
    }
    let name = name.concat(".log");
    join_path(dir.as_str(), name.as_str())
}

/// Text made only of digits and the signs `-` and `+`, at least ten long:
/// the shape of a date written as year, month and day.
pub open spec fn is_date_stamp(s: Seq<char>) -> bool {
    s.len() >= 10 && forall|i: int|
        0 <= i < s.len() ==> ('0' <= #[trigger] s[i] <= '9' || s[i] == '-' || s[i] == '+')
}

/// The date of the instant `secs` seconds after the epoch, in UTC, written as
/// year, month and day.
pub uninterp spec fn date_stamp_of(secs: i64) -> Seq<char>;

/// Relies on `std::time::SystemTime::duration_since`, applied to the system
/// clock and the epoch: the whole seconds since the epoch, none when the clock
/// reads before the epoch. It depends on the clock, so nothing more is stated.
#[verifier::external_body]
fn seconds_since_epoch() -> (r: Option<u64>) {
    std::time::SystemTime::now().duration_since(std::time::UNIX_EPOCH).ok().map(|d| d.as_secs())
}

/// Relies on `chrono::DateTime::from_timestamp` and its `format("%Y-%m-%d")`:
/// the UTC date of `secs`, none outside chrono's range of dates. `%Y` writes
/// at least four digits, with a sign outside the years 0 to 9999; `%m` and
/// `%d` write two digits each.
#[verifier::external_body]
fn utc_date_stamp(secs: i64) -> (r: Option<String>)
    ensures
        r matches Some(s) ==> s@ == date_stamp_of(secs) && is_date_stamp(s@),
{
    chrono::DateTime::from_timestamp(secs, 0).map(|t| t.format("%Y-%m-%d").to_string())
}

/// Today's log file under `home`, named after the local date, where the local
/// time is `utc_offset` seconds ahead of UTC. None when the clock reads before
/// the epoch or the date is out of range.
pub fn todays_log_file_path(home: &str, utc_offset: i32) -> (r: Option<String>)
    ensures
        r matches Some(p) ==> exists|local: i64|
            #![trigger date_stamp_of(local)]
            local - utc_offset >= 0 && is_date_stamp(date_stamp_of(local)) && p@ == log_file_of(
                home@,
                date_stamp_of(local),
            ),
{
    let secs = match seconds_since_epoch() {
        Some(s) => s,
        None => return None,
    };
    if secs > i64::MAX as u64 {
        return None;
    }
    let local = match (secs as i64).checked_add(utc_offset as i64) {
        Some(l) => l,
        None => return None,
    };
    match utc_date_stamp(local) {
        Some(stamp) => {
            let p = log_file_path(home, stamp.as_str());
            assert(local - utc_offset >= 0 && is_date_stamp(date_stamp_of(local)) && p@
                == log_file_of(home@, date_stamp_of(local)));
            Some(p)
        },
        None => None,
    }
}

} // verus!
