use vstd::prelude::*;
use vstd::string::StrSliceExecFns;
use vstd::string::StringExecFns;

verus! {

/// Lower bound (inclusive) on the timestamps the formatter accepts:
/// keeps the represented year non-negative in every zone, the boundary
/// below which chrono cannot render RFC 2822.
pub const MIN_FORMAT_SECS: i64 = -62_100_000_000;

/// Upper bound (exclusive) on the timestamps the formatter accepts:
/// keeps the represented year below five digits in every zone, the
/// boundary above which chrono cannot render RFC 2822.
pub const MAX_FORMAT_SECS: i64 = 250_000_000_000;

/// Names chrono's RFC 2822 rendering of an instant in a zone: for a
/// known zone name the text is a function of the instant and the zone
/// alone, through chrono-tz's compiled time zone table.
pub uninterp spec fn rfc2822_of(secs: int, zone: Seq<char>) -> Seq<char>;

/// Names which zone names chrono-tz's table knows: whether `Tz::from_str`
/// accepts the text, a function of the text alone.
pub uninterp spec fn zone_ok(zone: Seq<char>) -> bool;

/// Relies on chrono-tz's zone lookup and chrono's
/// `DateTime::from_timestamp`, `with_timezone` and `to_rfc2822`.  Within
/// the timestamp bounds the instant is always representable, so `Some`
/// comes exactly when the zone name is known, and then holds the RFC
/// 2822 text of the instant in that zone.  The bounds stay clear of the
/// years where `to_rfc2822` panics.
#[verifier::external_body]
fn rfc2822_in_zone(secs: i64, zone: &str) -> (r: Option<String>)
    requires
        MIN_FORMAT_SECS <= secs < MAX_FORMAT_SECS,
    ensures
        r is Some <==> zone_ok(zone@),
        r matches Some(s) ==> s@ == rfc2822_of(secs as int, zone@),
{
    let tz: chrono_tz::Tz = match zone.parse() {
        Ok(t) => t,
        Err(_) => return None,
    };
    match chrono::DateTime::from_timestamp(secs, 0) {
        Some(dt) => Some(dt.with_timezone(&tz).to_rfc2822()),
        None => None,
    }
}

/// The trimming the result page shows: the first 5 characters of the
/// RFC 2822 text (the weekday, comma and space) and the 3 characters
/// of the seconds (`:ss`, which always sit 9 to 6 before the end, ahead
/// of the fixed-width ` +zzzz` offset) are dropped; day, month, year,
/// hour, minute and offset stay.
pub open spec fn rfc822z_spec(s: Seq<char>) -> Seq<char> {
    s.subrange(5, s.len() - 9) + s.subrange(s.len() - 6, s.len() as int)
}

/// Trims an RFC 2822 date-time text to its RFC 822Z-style display form.
pub fn rfc822z_trim(s: &str) -> (r: String)
    requires
        s@.len() >= 25,
    ensures
        r@ == rfc822z_spec(s@),
{
    let n: usize = s.unicode_len();
    let first = s.substring_char(5, n - 9);
    let last = s.substring_char(n - 6, n);
    let mut out: String = first.to_owned();
    out.append(last);
    out
}

/// Converts a UTC timestamp from the datastore to the display text in
/// the client's time zone: the RFC 2822 rendering trimmed to its RFC
/// 822Z-style form.  Succeeds exactly when the zone name is known and
/// the rendered text is long enough to trim; `None` otherwise.
pub fn convert_datetime(tzone: &str, secs: i64) -> (r: Option<String>)
    requires
        MIN_FORMAT_SECS <= secs < MAX_FORMAT_SECS,
    ensures
        r is Some <==> zone_ok(tzone@) && rfc2822_of(secs as int, tzone@).len() >= 25,
        r matches Some(out) ==> out@ == rfc822z_spec(rfc2822_of(secs as int, tzone@)),
{
    match rfc2822_in_zone(secs, tzone) {
        Some(full) => {
            if full.as_str().unicode_len() >= 25 {
                Some(rfc822z_trim(full.as_str()))
            } else {
                None
            }
        },
        None => None,
    }
}

} // verus!
