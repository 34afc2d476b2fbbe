use vstd::prelude::*;

verus! {

/// Timestamps below this are taken to be in seconds, the others in milliseconds.
pub const MILLIS_THRESHOLD: i64 = 1_000_000_000_000;

/// A timestamp in milliseconds: one given in seconds is scaled by 1000.
pub fn normalize_timestamp(value: i64) -> (r: i64)
    requires
        value >= MIN_TIMESTAMP,
    ensures
        r == (if value < MILLIS_THRESHOLD {
            value * 1000
        } else {
            value as int
        }),
{
    if value < MILLIS_THRESHOLD {
        assert(i64::MIN <= value * 1000 <= i64::MAX) by (nonlinear_arith)
            requires
                value >= -9_223_372_036_854_775,
                value < 1_000_000_000_000,
        ;
        value * 1000
    } else {
        value
    }
}

/// The smallest timestamp that `normalize_timestamp` accepts.
pub const MIN_TIMESTAMP: i64 = -9_223_372_036_854_775;

/// The start and end of an activity in milliseconds, or none when neither is
/// given.
pub fn activity_timestamps(start: Option<i64>, end: Option<i64>) -> (r: Option<(Option<i64>, Option<i64>)>)
    requires
        start matches Some(s) ==> s >= MIN_TIMESTAMP,
        end matches Some(e) ==> e >= MIN_TIMESTAMP,
    ensures
        r is None <==> start is None && end is None,
        r matches Some((s, e)) ==> {
            &&& s is Some == start is Some
            &&& e is Some == end is Some
            &&& s matches Some(v) ==> v == (if start->0 < MILLIS_THRESHOLD {
                start->0 * 1000
            } else {
                start->0 as int
            })
            &&& e matches Some(v) ==> v == (if end->0 < MILLIS_THRESHOLD {
                end->0 * 1000
            } else {
                end->0 as int
            })
        },
{
    if start.is_none() && end.is_none() {
        return None;
    }
    let s = match start {
        Some(v) => Some(normalize_timestamp(v)),
        None => None,
    };
    let e = match end {
        Some(v) => Some(normalize_timestamp(v)),
        None => None,
    };
    Some((s, e))
}

} // verus!
