use vstd::prelude::*;

use vstd::math::abs;

verus! {

/// Earliest epoch second this library hands to the calendar crate:
/// midnight on the first day of year 0.
pub const MIN_FORMAT_EPOCH: i64 = -62_167_219_200;

/// Latest epoch second this library hands to the calendar crate:
/// the last second of year 9999.
pub const MAX_FORMAT_EPOCH: i64 = 253_402_300_799;

/// What the calendar crate renders for an epoch second in UTC: an RFC 3339
/// string with second precision and a numeric offset, such as
/// `2018-01-26T18:30:09+00:00`.
pub uninterp spec fn rfc3339_of(t: int) -> Seq<char>;

/// What the calendar crate renders for an epoch second at a fixed east
/// offset: an RFC 2822 string such as `Tue, 1 Jul 2003 10:52:37 +0200`.
pub uninterp spec fn rfc2822_of(t: int, offset_secs: int) -> Seq<char>;

/// The epoch second now.
///
/// Relies on `chrono::Utc::now`. The machine's clock may say anything, so
/// nothing is promised of the result.
#[verifier::external_body]
pub(crate) fn now_epoch() -> i64 {
    chrono::Utc::now().timestamp()
}

/// Renders an epoch second as an RFC 3339 string in UTC.
///
/// Relies on `chrono::DateTime::from_timestamp`, which accepts every second
/// of the years 0 through 9999, and on `chrono::DateTime::to_rfc3339_opts`,
/// whose output is ASCII. The result is a function of the epoch second
/// alone and is named `rfc3339_of`.
#[verifier::external_body]
pub(crate) fn format_rfc3339_utc(secs: i64) -> (r: String)
    requires
        MIN_FORMAT_EPOCH <= secs <= MAX_FORMAT_EPOCH,
    ensures
        r@ == rfc3339_of(secs as int),
        vstd::string::string_is_ascii(&r),
{
    let dt = chrono::DateTime::from_timestamp(secs, 0).unwrap();
    dt.to_rfc3339_opts(chrono::SecondsFormat::Secs, false)
}

/// Renders an epoch second at a fixed east offset as an RFC 2822 string.
///
/// Relies on `chrono::FixedOffset::east_opt`, defined for offsets strictly
/// within one day; `chrono::DateTime::from_timestamp`; and
/// `chrono::DateTime::to_rfc2822`, which renders every local time of the
/// years 0 through 9999 and always ends in a space followed by a
/// five-character numeric offset. The result is a function of the two
/// arguments alone and is named `rfc2822_of`.
#[verifier::external_body]
pub(crate) fn format_rfc2822(secs: i64, offset_secs: i32) -> (r: String)
    requires
        -86_399 <= offset_secs <= 86_399,
        MIN_FORMAT_EPOCH <= secs + offset_secs <= MAX_FORMAT_EPOCH,
    ensures
        r@ == rfc2822_of(secs as int, offset_secs as int),
        r@.len() >= 6,
{
    let tz = chrono::FixedOffset::east_opt(offset_secs).unwrap();
    let dt = chrono::DateTime::from_timestamp(secs, 0).unwrap().with_timezone(&tz);
    dt.to_rfc2822()
}

/// Draws an integer from a half-open range with the thread-local random
/// number generator.
///
/// Relies on `rand::random_range`, which returns a value of the given
/// range, uniformly distributed, and panics when the range is empty.
#[verifier::external_body]
fn random_in_range(lo: i64, hi: i64) -> (r: i64)
    requires
        lo < hi,
    ensures
        lo <= r < hi,
{
    rand::random_range(lo..hi)
}

/// Draws a random duration of `min_secs` plus a variance drawn uniformly
/// from `-max_secs` up to (not including) `max_secs`. When `max_secs`
/// exceeds `min_secs` the result can be negative, and a schedule built
/// from such draws can fall out of order; whether the remote tolerates
/// that is an open question, so the sampling range is deliberately not
/// clamped.
pub fn generate_random_duration(min_secs: i64, max_secs: i64) -> (d: i64)
    requires
        0 < max_secs,
        min_secs + max_secs <= i64::MAX,
        i64::MIN <= min_secs - max_secs,
    ensures
        min_secs - max_secs <= d < min_secs + max_secs,
{
    let v = random_in_range(-max_secs, max_secs);
    min_secs + v
}

/// Synthesizes the schedule for `count` modules ending at `end`: `count + 1`
/// boundary epoch seconds whose last entry is `end`, each earlier boundary
/// a freshly drawn duration before the next. The first boundary doubles as
/// the overall start time and is returned separately.
///
/// Every consecutive gap lies in the sampling range, so when `min_secs`
/// exceeds `max_secs` the boundaries strictly increase; when it does not,
/// a drawn duration may be zero or negative and the schedule may fall out
/// of order, as the sampling contract allows.
pub fn generate_time_vec(end: i64, min_secs: i64, max_secs: i64, count: usize) -> (r: (
    i64,
    Vec<i64>,
))
    requires
        0 < max_secs,
        end + count * (abs(min_secs as int) + max_secs) <= i64::MAX,
        i64::MIN <= end - count * (abs(min_secs as int) + max_secs),
    ensures
        r.1@.len() == count + 1,
        r.1@[count as int] == end,
        r.0 == r.1@[0],
        forall|i: int|
            0 <= i < count ==> min_secs - max_secs <= r.1@[i + 1] - #[trigger] r.1@[i]
                < min_secs + max_secs,
        min_secs > max_secs ==> forall|i: int|
            0 <= i < count ==> #[trigger] r.1@[i] < r.1@[i + 1],
        forall|i: int|
            0 <= i <= count ==> end - count * (abs(min_secs as int) + max_secs) <= #[trigger] r.1@[i]
                <= end + count * (abs(min_secs as int) + max_secs),
{
    let ghost bound: int = abs(min_secs as int) + max_secs;
    let mut boundaries: Vec<i64> = Vec::new();
    boundaries.push(end);
    let mut start_time: i64 = end;
    let mut k: usize = 0;
    while k < count
        invariant
            k <= count,
            0 < max_secs,
            bound == abs(min_secs as int) + max_secs,
            end + count * bound <= i64::MAX,
            i64::MIN <= end - count * bound,
            boundaries@.len() == k + 1,
            boundaries@[k as int] == end,
            boundaries@[0] == start_time,
            end - k * bound <= start_time <= end + k * bound,
            forall|j: int| 0 <= j <= k ==> end - k * bound <= #[trigger] boundaries@[j] <= end + k
                * bound,
            forall|i: int|
                0 <= i < k ==> min_secs - max_secs <= boundaries@[i + 1]
                    - #[trigger] boundaries@[i] < min_secs + max_secs,
        decreases count - k,
    {
        proof {
            assert((k + 1) * bound <= count * bound && k * bound <= count * bound) by (nonlinear_arith)
                requires
                    k < count,
                    bound >= 1,
            ;
            assert((k + 1) * bound == k * bound + bound) by (nonlinear_arith);
        }
        let duration = generate_random_duration(min_secs, max_secs);
        let ghost before = boundaries@;
        start_time = start_time - duration;
        boundaries.insert(0, start_time);
        proof {
            assert forall|j: int| 0 <= j <= k + 1 implies end - (k + 1) * bound <= #[trigger] boundaries@[j]
                <= end + (k + 1) * bound by {
                if j == 0 {
                    assert(boundaries@[0] == start_time);
                } else {
                    assert(boundaries@[j] == before[j - 1]);
                    assert(end - k * bound <= before[j - 1] <= end + k * bound);
                }
            }
            assert forall|i: int|
                0 <= i < k + 1 implies min_secs - max_secs <= boundaries@[i + 1]
                - #[trigger] boundaries@[i] < min_secs + max_secs by {
                if i == 0 {
                    assert(boundaries@[1] - boundaries@[0] == duration);
                } else {
                    assert(boundaries@[i + 1] == before[i]);
                    assert(boundaries@[i] == before[i - 1]);
                    assert(min_secs - max_secs <= before[i] - before[i - 1] < min_secs + max_secs);
                }
            }
        }
        k = k + 1;
    }
    proof {
        if min_secs > max_secs {
            assert forall|i: int| 0 <= i < count implies #[trigger] boundaries@[i] < boundaries@[i
                + 1] by {
                assert(min_secs - max_secs <= boundaries@[i + 1] - boundaries@[i]);
            }
        }
    }
    (start_time, boundaries)
}

/// Law: a schedule whose consecutive boundaries each strictly advance is
/// strictly increasing overall, so its last boundary, the session end, is
/// its largest.
pub proof fn lemma_schedule_strictly_increasing(ts: Seq<i64>)
    requires
        forall|i: int| 0 <= i < ts.len() - 1 ==> #[trigger] ts[i] < ts[i + 1],
    ensures
        forall|i: int, j: int| 0 <= i < j < ts.len() ==> ts[i] < ts[j],
    decreases ts.len(),
{
    if ts.len() > 1 {
        lemma_schedule_strictly_increasing(ts.drop_last());
        assert forall|i: int, j: int| 0 <= i < j < ts.len() implies ts[i] < ts[j] by {
            if j == ts.len() - 1 {
                assert(ts[j - 1] < ts[j]);
                if i < j - 1 {
                    assert(ts.drop_last()[i] == ts[i] && ts.drop_last()[j - 1] == ts[j - 1]);
                }
            } else {
                assert(ts.drop_last()[i] == ts[i] && ts.drop_last()[j] == ts[j]);
            }
        }
    }
}

/// Renders each boundary of a schedule as an RFC 3339 string, refusing a
/// schedule with an entry outside the years 0 through 9999.
pub fn render_times(times: &Vec<i64>) -> (r: Option<Vec<String>>)
    ensures
        r matches Some(v) ==> {
            &&& v@.len() == times@.len()
            &&& forall|i: int| 0 <= i < v@.len() ==> #[trigger] v@[i]@ == rfc3339_of(times@[i] as int)
        },
        r is Some <==> forall|i: int|
            0 <= i < times@.len() ==> MIN_FORMAT_EPOCH <= #[trigger] times@[i] <= MAX_FORMAT_EPOCH,
{
    let mut out: Vec<String> = Vec::new();
    let mut i: usize = 0;
    while i < times.len()
        invariant
            i <= times@.len(),
            out@.len() == i,
            forall|j: int| 0 <= j < i ==> #[trigger] out@[j]@ == rfc3339_of(times@[j] as int),
            forall|j: int|
                0 <= j < i ==> MIN_FORMAT_EPOCH <= #[trigger] times@[j] <= MAX_FORMAT_EPOCH,
        decreases times@.len() - i,
    {
        let t = times[i];
        if t < MIN_FORMAT_EPOCH || t > MAX_FORMAT_EPOCH {
            return None;
        }
        out.push(format_rfc3339_utc(t));
        i = i + 1;
    }
    Some(out)
}

} // verus!
