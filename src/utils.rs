use vstd::prelude::*;

verus! {

/// Layout of displayed timestamps: `YYYY-MM-DD HH:MM:SS`.
pub const TIMESTAMP_FORMAT: &'static str = "%Y-%m-%d %H:%M:%S";

/// Latest Unix time that is formatted: one day before the end of the year 9999, so that
/// no time zone (all offsets are under a day) carries it into a five-digit year.
pub const MAX_FORMATTED_UNIX_SECS: u64 = 253402214399;

/// Relies on std's SystemTime::now, read as whole seconds since the Unix epoch
/// (0 for a clock set before it). Nothing is promised of the value.
#[verifier::external_body]
fn now_unix_secs() -> (r: u64) {
    match std::time::SystemTime::now().duration_since(std::time::UNIX_EPOCH) {
        Ok(d) => d.as_secs(),
        Err(_) => 0,
    }
}

pub open spec fn is_digit(c: char) -> bool {
    '0' <= c && c <= '9'
}

/// Text of the form `YYYY-MM-DD HH:MM:SS`: 19 characters, digits but for the separators.
pub open spec fn is_timestamp_text(s: Seq<char>) -> bool {
    &&& s.len() == 19
    &&& s[4] == '-' && s[7] == '-' && s[10] == ' ' && s[13] == ':' && s[16] == ':'
    &&& forall|i: int|
        0 <= i < 19 && i != 4 && i != 7 && i != 10 && i != 13 && i != 16 ==> is_digit(#[trigger] s[i])
}

/// Relies on chrono's DateTime::from_timestamp, DateTime::with_timezone(&Local) and
/// DateTime::format with the layout `%Y-%m-%d %H:%M:%S`. from_timestamp accepts every
/// second from the epoch to the year 9999; the local offset is under a day, so the local
/// year has four digits, which `%Y` zero-pads to 4, as `%m`, `%d`, `%H`, `%M`, `%S` pad to 2.
/// Which local time comes out depends on the machine's time zone and is not stated.
#[verifier::external_body]
fn local_time_text(secs: i64, layout: &str) -> (r: Option<String>)
    requires
        0 <= secs <= MAX_FORMATTED_UNIX_SECS,
        layout@ == "%Y-%m-%d %H:%M:%S"@,
    ensures
        r is Some,
        is_timestamp_text(r->0@),
{
    match chrono::DateTime::from_timestamp(secs, 0) {
        Some(t) => Some(t.with_timezone(&chrono::Local).format(layout).to_string()),
        None => None,
    }
}

/// The time `unix_secs` (seconds since the Unix epoch) as local `YYYY-MM-DD HH:MM:SS`;
/// empty from the last day of the year 9999 on.
pub fn format_system_time(unix_secs: u64) -> (r: String)
    ensures
        unix_secs <= MAX_FORMATTED_UNIX_SECS ==> is_timestamp_text(r@),
        unix_secs > MAX_FORMATTED_UNIX_SECS ==> r@.len() == 0,
{
    if unix_secs > MAX_FORMATTED_UNIX_SECS {
        return String::new();
    }
    proof {
        reveal_strlit("%Y-%m-%d %H:%M:%S");
    }
    match local_time_text(unix_secs as i64, TIMESTAMP_FORMAT) {
        Some(t) => t,
        None => String::new(),
    }
}

/// The current time, formatted as `format_system_time` does (empty only for a clock set
/// past the year 9998).
pub fn get_formatted_current_timestamp() -> (r: String)
    ensures
        is_timestamp_text(r@) || r@.len() == 0,
{
    format_system_time(now_unix_secs())
}

/// Current Unix time in seconds.
pub fn current_unix_time() -> (r: u64) {
    now_unix_secs()
}

/// Location of the application's configuration file.
pub fn get_config_path() -> (r: String)
    ensures
        r@ == "/etc/treat-dispenser-api/config.yaml"@,
{
    String::from_str("/etc/treat-dispenser-api/config.yaml")
}

/// Location of the stored weight-sensor calibration.
pub fn get_calibration_file_path() -> (r: String)
    ensures
        r@ == "/etc/treat-dispenser-api/calibration.json"@,
{
    String::from_str("/etc/treat-dispenser-api/calibration.json")
}

/// Location of the NEMA 14 pin settings.
pub fn get_nema14_config_path() -> (r: String)
    ensures
        r@ == "/etc/treat-dispenser-api/nema14.yaml"@,
{
    String::from_str("/etc/treat-dispenser-api/nema14.yaml")
}

} // verus!
