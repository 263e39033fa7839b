//! The observability timestamp carried by every packet: a human-readable
//! local date-time with millisecond precision and UTC offset.  It is never
//! used for ordering or deduplication; the receiving side may parse it
//! back to measure latency, and a malformed timestamp is never fatal.
use vstd::prelude::*;

verus! {

/// What the fixed-format timestamp parser yields for a given string:
/// the moment it names in epoch milliseconds, or nothing when the string
/// does not match the format.
pub uninterp spec fn parsed_epoch_millis(s: Seq<char>) -> Option<i64>;

/// Relies on chrono::Local::now and chrono::DateTime::format: the current
/// local wall-clock time rendered with the fixed timestamp format
/// (year,month,day,hour,minute,second,milliseconds,offset).
#[verifier::external_body]
pub fn get_formatted_time() -> (r: String) {
    let dt: chrono::DateTime<chrono::Local> = chrono::Local::now();
    format!("{}", dt.format("%Y,%m,%d,%H,%M,%S,%3f,%z"))
}

/// Relies on chrono::DateTime::parse_from_str with the fixed timestamp
/// format, whose result depends on the input characters alone, and on
/// chrono::DateTime::timestamp_millis to read the parsed moment out as
/// epoch milliseconds.
#[verifier::external_body]
pub fn parse_timestamp(date: &str) -> (r: Option<i64>)
    ensures
        r == parsed_epoch_millis(date@),
{
    match chrono::DateTime::parse_from_str(date, "%Y,%m,%d,%H,%M,%S,%3f,%z") {
        Ok(v) => Some(v.timestamp_millis()),
        Err(_) => None,
    }
}

/// Relies on chrono::Local::now and timestamp_millis: the present moment
/// in epoch milliseconds.
#[verifier::external_body]
pub fn epoch_millis_now() -> (r: i64) {
    chrono::Local::now().timestamp_millis()
}

/// A received packet's latency: the present moment minus the moment its
/// timestamp names, when the timestamp parses and the difference fits;
/// observability only.
pub fn packet_latency_ms(timestamp: &str, now_ms: i64) -> (r: Option<i64>)
    ensures
        match r {
            Some(d) => {
                &&& parsed_epoch_millis(timestamp@) matches Some(t) && d == now_ms - t
                &&& i64::MIN <= now_ms - (parsed_epoch_millis(timestamp@)->Some_0 as int)
                    <= i64::MAX
            },
            None => parsed_epoch_millis(timestamp@) is None || !(i64::MIN <= now_ms - (
            parsed_epoch_millis(timestamp@)->Some_0 as int) <= i64::MAX),
        },
{
    match parse_timestamp(timestamp) {
        Some(t) => {
            let wide: i128 = (now_ms as i128) - (t as i128);
            if i64::MIN as i128 <= wide && wide <= i64::MAX as i128 {
                Some(wide as i64)
            } else {
                None
            }
        },
        None => None,
    }
}

} // verus!
