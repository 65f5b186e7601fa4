//! Mappers between date and time values, held as the numbers they consist
//! of: a count of seconds since the Unix epoch (or a span in seconds) and a
//! nanosecond part.
use vstd::prelude::*;

use std::convert::Infallible;

use crate::with::error::MapperError;
use crate::with::mappers::{TypeFallibleMapper, TypeMapper};

verus! {

pub const NANOS_PER_SEC: i64 = 1_000_000_000;

pub const NANOS_PER_MILLI: i64 = 1_000_000;

pub const MILLIS_PER_SEC: i64 = 1_000;

/// A span of time: whole seconds and a nanosecond part below one second,
/// within `i64::MAX` milliseconds either way.
#[derive(Clone, Copy, Debug, PartialEq, Eq, Structural)]
pub struct Duration {
    pub secs: i64,
    pub nanos: u32,
}

/// A date and time without time zone: seconds since the Unix epoch and a
/// nanosecond part.
#[derive(Clone, Copy, Debug, PartialEq, Eq, Structural)]
pub struct NaiveDateTime {
    pub secs: i64,
    pub nanos: u32,
}

/// A date and time in UTC.
#[derive(Clone, Copy, Debug, PartialEq, Eq, Structural)]
pub struct UtcDateTime {
    pub utc: NaiveDateTime,
}

/// A date and time at a fixed offset from UTC, held as its UTC instant and
/// the offset in seconds.
#[derive(Clone, Copy, Debug, PartialEq, Eq, Structural)]
pub struct FixedOffsetDateTime {
    pub utc: NaiveDateTime,
    pub offset_secs: i32,
}

impl Duration {
    /// The span in nanoseconds.
    pub open spec fn total_nanos(&self) -> int {
        self.secs * NANOS_PER_SEC + self.nanos as int
    }

    pub open spec fn wf(&self) -> bool {
        &&& self.nanos < NANOS_PER_SEC
        &&& -(i64::MAX as int) * NANOS_PER_MILLI <= self.total_nanos()
        &&& self.total_nanos() <= (i64::MAX as int) * NANOS_PER_MILLI
    }

    /// Whole seconds, truncated toward zero.
    pub open spec fn num_seconds(&self) -> int {
        if self.secs < 0 && self.nanos > 0 {
            self.secs + 1
        } else {
            self.secs as int
        }
    }

    /// Whole milliseconds, truncated toward zero.
    pub open spec fn num_milliseconds(&self) -> int {
        if self.secs < 0 && self.nanos > 0 {
            (self.secs + 1) * MILLIS_PER_SEC - (NANOS_PER_SEC - self.nanos as int) / (
            NANOS_PER_MILLI as int)
        } else {
            self.secs * MILLIS_PER_SEC + (self.nanos as int) / (NANOS_PER_MILLI as int)
        }
    }
}

/// Whole seconds (rounded down) of a count of milliseconds.
pub open spec fn millis_secs(ms: int) -> int {
    ms / 1000
}

/// Nanoseconds above the whole seconds of a count of milliseconds.
pub open spec fn millis_nanos(ms: int) -> int {
    (ms % 1000) * 1_000_000
}

/// The duration of a count of milliseconds.
pub open spec fn millis_duration(ms: int) -> Duration {
    Duration { secs: millis_secs(ms) as i64, nanos: millis_nanos(ms) as u32 }
}

/// Splits milliseconds into whole seconds, rounded down, and the nanoseconds
/// above them.
pub fn split_millis(from: i64) -> (r: (i64, u32))
    ensures
        r.0 == millis_secs(from as int),
        r.1 == millis_nanos(from as int),
        r.1 < NANOS_PER_SEC,
{
    if from >= 0 {
        (from / MILLIS_PER_SEC, ((from % MILLIS_PER_SEC) * NANOS_PER_MILLI) as u32)
    } else {
        let p: i64 = -(from + 1);
        (-(p / MILLIS_PER_SEC) - 1, ((999 - p % MILLIS_PER_SEC) * NANOS_PER_MILLI) as u32)
    }
}

/// Mapper between `NaiveDateTime` and a UTC date time.
pub fn chrono_naive_to_utc(from: NaiveDateTime) -> (r: UtcDateTime)
    ensures
        r.utc == from,
{
    UtcDateTime { utc: from }
}

/// Mapper between `NaiveDateTime` and a UTC date time.
pub fn try_chrono_naive_to_utc(from: NaiveDateTime) -> (r: Result<UtcDateTime, Infallible>)
    ensures
        r matches Ok(d) && d.utc == from,
{
    Ok(chrono_naive_to_utc(from))
}

/// Mapper between a UTC date time and `NaiveDateTime`.
pub fn chrono_utc_to_naive(from: UtcDateTime) -> (r: NaiveDateTime)
    ensures
        r == from.utc,
{
    from.utc
}

/// Mapper between a UTC date time and `NaiveDateTime`.
pub fn try_chrono_utc_to_naive(from: UtcDateTime) -> (r: Result<NaiveDateTime, Infallible>)
    ensures
        r matches Ok(n) && n == from.utc,
{
    Ok(chrono_utc_to_naive(from))
}

/// Mapper between `NaiveDateTime` and a date time at offset zero.
pub fn chrono_naive_to_fixed_offset(from: NaiveDateTime) -> (r: FixedOffsetDateTime)
    ensures
        r.utc == from,
        r.offset_secs == 0,
{
    FixedOffsetDateTime { utc: from, offset_secs: 0 }
}

/// Mapper between `NaiveDateTime` and a date time at offset zero.
pub fn try_chrono_naive_to_fixed_offset(from: NaiveDateTime) -> (r: Result<
    FixedOffsetDateTime,
    Infallible,
>)
    ensures
        r matches Ok(d) && d.utc == from && d.offset_secs == 0,
{
    Ok(chrono_naive_to_fixed_offset(from))
}

/// Mapper between a date time at a fixed offset and its UTC `NaiveDateTime`.
pub fn chrono_fixed_offset_to_naive(from: FixedOffsetDateTime) -> (r: NaiveDateTime)
    ensures
        r == from.utc,
{
    from.utc
}

/// Mapper between a date time at a fixed offset and its UTC `NaiveDateTime`.
pub fn try_chrono_fixed_offset_to_naive(from: FixedOffsetDateTime) -> (r: Result<
    NaiveDateTime,
    Infallible,
>)
    ensures
        r matches Ok(n) && n == from.utc,
{
    Ok(chrono_fixed_offset_to_naive(from))
}

/// Mapper between `Duration` and whole seconds.
pub fn chrono_duration_to_seconds(from: Duration) -> (r: i64)
    requires
        from.wf(),
    ensures
        r == from.num_seconds(),
{
    if from.secs < 0 && from.nanos > 0 {
        from.secs + 1
    } else {
        from.secs
    }
}

/// Mapper between `Duration` and whole seconds.
pub fn try_chrono_duration_to_seconds(from: Duration) -> (r: Result<i64, Infallible>)
    requires
        from.wf(),
    ensures
        r matches Ok(s) && s == from.num_seconds(),
{
    Ok(chrono_duration_to_seconds(from))
}

/// Mapper between seconds and `Duration`; the seconds must be within
/// `i64::MAX` milliseconds either way.
pub fn seconds_to_chrono_duration(from: i64) -> (r: Duration)
    requires
        -(i64::MAX / MILLIS_PER_SEC) <= from <= i64::MAX / MILLIS_PER_SEC,
    ensures
        r.wf(),
        r.total_nanos() == from * NANOS_PER_SEC,
        r.nanos == 0,
        r == (Duration { secs: from, nanos: 0 }),
{
    let r = Duration { secs: from, nanos: 0 };
    assert(-(i64::MAX as int) * NANOS_PER_MILLI <= r.total_nanos() <= (i64::MAX as int)
        * NANOS_PER_MILLI) by (nonlinear_arith)
        requires
            r.total_nanos() == from * NANOS_PER_SEC,
            -(i64::MAX / MILLIS_PER_SEC) <= from <= i64::MAX / MILLIS_PER_SEC,
    ;
    r
}

/// Mapper between seconds and `Duration`.
pub fn try_seconds_to_chrono_duration(from: i64) -> (r: Result<Duration, Infallible>)
    requires
        -(i64::MAX / MILLIS_PER_SEC) <= from <= i64::MAX / MILLIS_PER_SEC,
    ensures
        r matches Ok(d) && d.wf() && d.total_nanos() == from * NANOS_PER_SEC,
{
    Ok(seconds_to_chrono_duration(from))
}

/// Mapper between `Duration` and whole milliseconds.
pub fn chrono_duration_to_millis(from: Duration) -> (r: i64)
    requires
        from.wf(),
    ensures
        r == from.num_milliseconds(),
{
    let ghost s = from.secs as int;
    let ghost n = from.nanos as int;
    if from.secs < 0 && from.nanos > 0 {
        let part: i64 = ((NANOS_PER_SEC - from.nanos as i64) / NANOS_PER_MILLI) as i64;
        assert(-(i64::MAX as int) <= (s + 1) * 1000 - (1_000_000_000 - n) / 1_000_000 <= 0)
            by (nonlinear_arith)
            requires
                -(i64::MAX as int) * 1_000_000 <= s * 1_000_000_000 + n,
                0 < n < 1_000_000_000,
                s < 0,
        ;
        assert(-(i64::MAX as int) <= (s + 1) * 1000 <= 0) by (nonlinear_arith)
            requires
                -(i64::MAX as int) * 1_000_000 <= s * 1_000_000_000 + n,
                0 < n < 1_000_000_000,
                s < 0,
        ;
        (from.secs + 1) * MILLIS_PER_SEC - part
    } else {
        let part: i64 = (from.nanos / 1_000_000) as i64;
        assert(-(i64::MAX as int) <= s * 1000 + n / 1_000_000 <= i64::MAX) by (nonlinear_arith)
            requires
                -(i64::MAX as int) * 1_000_000 <= s * 1_000_000_000 + n,
                s * 1_000_000_000 + n <= (i64::MAX as int) * 1_000_000,
                0 <= n < 1_000_000_000,
                s >= 0 || n == 0,
        ;
        assert(-(i64::MAX as int) <= s * 1000 <= i64::MAX) by (nonlinear_arith)
            requires
                -(i64::MAX as int) * 1_000_000 <= s * 1_000_000_000 + n,
                s * 1_000_000_000 + n <= (i64::MAX as int) * 1_000_000,
                0 <= n < 1_000_000_000,
                s >= 0 || n == 0,
        ;
        from.secs * MILLIS_PER_SEC + part
    }
}

/// Mapper between `Duration` and whole milliseconds.
pub fn try_chrono_duration_to_millis(from: Duration) -> (r: Result<i64, Infallible>)
    requires
        from.wf(),
    ensures
        r matches Ok(m) && m == from.num_milliseconds(),
{
    Ok(chrono_duration_to_millis(from))
}

/// Mapper between milliseconds and `Duration`; `i64::MIN` is out of range.
pub fn millis_to_chrono_duration(from: i64) -> (r: Duration)
    requires
        from >= -i64::MAX,
    ensures
        r.wf(),
        r.total_nanos() == from * NANOS_PER_MILLI,
        r == millis_duration(from as int),
{
    let (secs, nanos) = split_millis(from);
    Duration { secs, nanos }
}

/// Mapper between milliseconds and `Duration`.
pub fn try_millis_to_chrono_duration(from: i64) -> (r: Result<Duration, Infallible>)
    requires
        from >= -i64::MAX,
    ensures
        r matches Ok(d) && d.wf() && d.total_nanos() == from * NANOS_PER_MILLI,
{
    Ok(millis_to_chrono_duration(from))
}

/// Mapper between the date time types, keeping the instant.
pub struct DateTimeMapper;

impl TypeMapper<UtcDateTime, NaiveDateTime> for DateTimeMapper {
    open spec fn map_requires(from: UtcDateTime) -> bool {
        true
    }

    open spec fn obeys_map_spec() -> bool {
        true
    }

    open spec fn map_spec(from: UtcDateTime) -> NaiveDateTime {
        from.utc
    }

    fn map(from: UtcDateTime) -> (r: NaiveDateTime) {
        from.utc
    }
}

impl TypeMapper<FixedOffsetDateTime, NaiveDateTime> for DateTimeMapper {
    open spec fn map_requires(from: FixedOffsetDateTime) -> bool {
        true
    }

    open spec fn obeys_map_spec() -> bool {
        true
    }

    open spec fn map_spec(from: FixedOffsetDateTime) -> NaiveDateTime {
        from.utc
    }

    fn map(from: FixedOffsetDateTime) -> (r: NaiveDateTime) {
        from.utc
    }
}

impl TypeMapper<UtcDateTime, FixedOffsetDateTime> for DateTimeMapper {
    open spec fn map_requires(from: UtcDateTime) -> bool {
        true
    }

    open spec fn obeys_map_spec() -> bool {
        true
    }

    open spec fn map_spec(from: UtcDateTime) -> FixedOffsetDateTime {
        FixedOffsetDateTime { utc: from.utc, offset_secs: 0 }
    }

    fn map(from: UtcDateTime) -> (r: FixedOffsetDateTime) {
        FixedOffsetDateTime { utc: from.utc, offset_secs: 0 }
    }
}

impl TypeMapper<FixedOffsetDateTime, UtcDateTime> for DateTimeMapper {
    open spec fn map_requires(from: FixedOffsetDateTime) -> bool {
        true
    }

    open spec fn obeys_map_spec() -> bool {
        true
    }

    open spec fn map_spec(from: FixedOffsetDateTime) -> UtcDateTime {
        UtcDateTime { utc: from.utc }
    }

    fn map(from: FixedOffsetDateTime) -> (r: UtcDateTime) {
        UtcDateTime { utc: from.utc }
    }
}

impl TypeMapper<NaiveDateTime, UtcDateTime> for DateTimeMapper {
    open spec fn map_requires(from: NaiveDateTime) -> bool {
        true
    }

    open spec fn obeys_map_spec() -> bool {
        true
    }

    open spec fn map_spec(from: NaiveDateTime) -> UtcDateTime {
        UtcDateTime { utc: from }
    }

    fn map(from: NaiveDateTime) -> (r: UtcDateTime) {
        chrono_naive_to_utc(from)
    }
}

impl TypeMapper<NaiveDateTime, FixedOffsetDateTime> for DateTimeMapper {
    open spec fn map_requires(from: NaiveDateTime) -> bool {
        true
    }

    open spec fn obeys_map_spec() -> bool {
        true
    }

    open spec fn map_spec(from: NaiveDateTime) -> FixedOffsetDateTime {
        FixedOffsetDateTime { utc: from, offset_secs: 0 }
    }

    fn map(from: NaiveDateTime) -> (r: FixedOffsetDateTime) {
        chrono_naive_to_fixed_offset(from)
    }
}

/// Whether chrono holds a UTC date time at these seconds and nanoseconds
/// since the Unix epoch.
pub uninterp spec fn timestamp_valid(secs: int, nanos: int) -> bool;

/// Relies on chrono's `DateTime::from_timestamp`: whether it gives a date
/// time for these seconds and nanoseconds (it depends on the two numbers
/// alone: chrono's calendar range and a nanosecond part below two seconds).
#[verifier::external_body]
fn timestamp_in_range(secs: i64, nanos: u32) -> (r: bool)
    ensures
        r == timestamp_valid(secs as int, nanos as int),
{
    ::chrono::DateTime::from_timestamp(secs, nanos).is_some()
}

/// The outcome of reading a timestamp as a date time: the date time of `n`
/// when chrono holds it, else the out-of-range error.
pub open spec fn timestamp_outcome<T>(n: NaiveDateTime, r: Result<T, MapperError>, value: T) -> bool {
    if timestamp_valid(n.secs as int, n.nanos as int) {
        r == Ok::<T, MapperError>(value)
    } else {
        r matches Err(e) && e.spec_message() == "Date out of range"@
    }
}

fn out_of_range<T>() -> (r: Result<T, MapperError>)
    ensures
        r matches Err(e) && e.spec_message() == "Date out of range"@,
{
    Err(MapperError::new("Date out of range"))
}

/// The UTC date time `n` stands for, when chrono holds it.
fn checked_naive(n: NaiveDateTime) -> (r: Result<NaiveDateTime, MapperError>)
    ensures
        timestamp_outcome(n, r, n),
{
    if timestamp_in_range(n.secs, n.nanos) {
        Ok(n)
    } else {
        out_of_range()
    }
}

/// Milliseconds of a date time since the Unix epoch, when it fits in `i64`.
pub open spec fn millis_fit(n: NaiveDateTime) -> bool {
    &&& n.nanos < NANOS_PER_SEC
    &&& i64::MIN / 1000 < n.secs < i64::MAX / 1000
}

pub open spec fn timestamp_millis(n: NaiveDateTime) -> i64 {
    (n.secs * 1000 + n.nanos / 1_000_000) as i64
}

fn timestamp_millis_exec(n: NaiveDateTime) -> (r: i64)
    requires
        millis_fit(n),
    ensures
        r == timestamp_millis(n),
{
    n.secs * MILLIS_PER_SEC + (n.nanos / 1_000_000) as i64
}

/// Mapper between durations or date times and seconds.
pub struct SecondsMapper;

impl TypeMapper<Duration, i64> for SecondsMapper {
    open spec fn map_requires(from: Duration) -> bool {
        from.wf()
    }

    open spec fn obeys_map_spec() -> bool {
        true
    }

    open spec fn map_spec(from: Duration) -> i64 {
        from.num_seconds() as i64
    }

    fn map(from: Duration) -> (r: i64) {
        chrono_duration_to_seconds(from)
    }
}

impl TypeMapper<i64, Duration> for SecondsMapper {
    open spec fn map_requires(from: i64) -> bool {
        -(i64::MAX / MILLIS_PER_SEC) <= from <= i64::MAX / MILLIS_PER_SEC
    }

    open spec fn obeys_map_spec() -> bool {
        true
    }

    open spec fn map_spec(from: i64) -> Duration {
        Duration { secs: from, nanos: 0 }
    }

    fn map(from: i64) -> (r: Duration) {
        seconds_to_chrono_duration(from)
    }
}

impl TypeMapper<NaiveDateTime, i64> for SecondsMapper {
    open spec fn map_requires(from: NaiveDateTime) -> bool {
        true
    }

    open spec fn obeys_map_spec() -> bool {
        true
    }

    open spec fn map_spec(from: NaiveDateTime) -> i64 {
        from.secs
    }

    fn map(from: NaiveDateTime) -> (r: i64) {
        from.secs
    }
}

impl TypeMapper<UtcDateTime, i64> for SecondsMapper {
    open spec fn map_requires(from: UtcDateTime) -> bool {
        true
    }

    open spec fn obeys_map_spec() -> bool {
        true
    }

    open spec fn map_spec(from: UtcDateTime) -> i64 {
        from.utc.secs
    }

    fn map(from: UtcDateTime) -> (r: i64) {
        from.utc.secs
    }
}

impl TypeMapper<FixedOffsetDateTime, i64> for SecondsMapper {
    open spec fn map_requires(from: FixedOffsetDateTime) -> bool {
        true
    }

    open spec fn obeys_map_spec() -> bool {
        true
    }

    open spec fn map_spec(from: FixedOffsetDateTime) -> i64 {
        from.utc.secs
    }

    fn map(from: FixedOffsetDateTime) -> (r: i64) {
        from.utc.secs
    }
}

impl TypeFallibleMapper<i64, NaiveDateTime> for SecondsMapper {
    type Error = MapperError;

    open spec fn obeys_try_map_spec() -> bool {
        true
    }

    open spec fn try_map_ensures(from: i64, r: Result<NaiveDateTime, MapperError>) -> bool {
        let n = NaiveDateTime { secs: from, nanos: 0 };
        timestamp_outcome(n, r, n)
    }

    fn try_map(from: i64) -> (r: Result<NaiveDateTime, MapperError>) {
        checked_naive(NaiveDateTime { secs: from, nanos: 0 })
    }
}

impl TypeFallibleMapper<i64, UtcDateTime> for SecondsMapper {
    type Error = MapperError;

    open spec fn obeys_try_map_spec() -> bool {
        true
    }

    open spec fn try_map_ensures(from: i64, r: Result<UtcDateTime, MapperError>) -> bool {
        let n = NaiveDateTime { secs: from, nanos: 0 };
        timestamp_outcome(n, r, UtcDateTime { utc: n })
    }

    fn try_map(from: i64) -> (r: Result<UtcDateTime, MapperError>) {
        match checked_naive(NaiveDateTime { secs: from, nanos: 0 }) {
            Ok(n) => Ok(UtcDateTime { utc: n }),
            Err(e) => Err(e),
        }
    }
}

impl TypeFallibleMapper<i64, FixedOffsetDateTime> for SecondsMapper {
    type Error = MapperError;

    open spec fn obeys_try_map_spec() -> bool {
        true
    }

    open spec fn try_map_ensures(from: i64, r: Result<FixedOffsetDateTime, MapperError>) -> bool {
        let n = NaiveDateTime { secs: from, nanos: 0 };
        timestamp_outcome(n, r, FixedOffsetDateTime { utc: n, offset_secs: 0 })
    }

    fn try_map(from: i64) -> (r: Result<FixedOffsetDateTime, MapperError>) {
        match checked_naive(NaiveDateTime { secs: from, nanos: 0 }) {
            Ok(n) => Ok(FixedOffsetDateTime { utc: n, offset_secs: 0 }),
            Err(e) => Err(e),
        }
    }
}

/// Mapper between durations or date times and milliseconds.
pub struct MillisecondsMapper;

impl TypeMapper<Duration, i64> for MillisecondsMapper {
    open spec fn map_requires(from: Duration) -> bool {
        from.wf()
    }

    open spec fn obeys_map_spec() -> bool {
        true
    }

    open spec fn map_spec(from: Duration) -> i64 {
        from.num_milliseconds() as i64
    }

    fn map(from: Duration) -> (r: i64) {
        chrono_duration_to_millis(from)
    }
}

impl TypeMapper<i64, Duration> for MillisecondsMapper {
    open spec fn map_requires(from: i64) -> bool {
        from >= -i64::MAX
    }

    open spec fn obeys_map_spec() -> bool {
        true
    }

    open spec fn map_spec(from: i64) -> Duration {
        millis_duration(from as int)
    }

    fn map(from: i64) -> (r: Duration) {
        millis_to_chrono_duration(from)
    }
}

impl TypeMapper<NaiveDateTime, i64> for MillisecondsMapper {
    open spec fn map_requires(from: NaiveDateTime) -> bool {
        millis_fit(from)
    }

    open spec fn obeys_map_spec() -> bool {
        true
    }

    open spec fn map_spec(from: NaiveDateTime) -> i64 {
        timestamp_millis(from)
    }

    fn map(from: NaiveDateTime) -> (r: i64) {
        timestamp_millis_exec(from)
    }
}

impl TypeMapper<UtcDateTime, i64> for MillisecondsMapper {
    open spec fn map_requires(from: UtcDateTime) -> bool {
        millis_fit(from.utc)
    }

    open spec fn obeys_map_spec() -> bool {
        true
    }

    open spec fn map_spec(from: UtcDateTime) -> i64 {
        timestamp_millis(from.utc)
    }

    fn map(from: UtcDateTime) -> (r: i64) {
        timestamp_millis_exec(from.utc)
    }
}

impl TypeMapper<FixedOffsetDateTime, i64> for MillisecondsMapper {
    open spec fn map_requires(from: FixedOffsetDateTime) -> bool {
        millis_fit(from.utc)
    }

    open spec fn obeys_map_spec() -> bool {
        true
    }

    open spec fn map_spec(from: FixedOffsetDateTime) -> i64 {
        timestamp_millis(from.utc)
    }

    fn map(from: FixedOffsetDateTime) -> (r: i64) {
        timestamp_millis_exec(from.utc)
    }
}

/// The date time of a count of milliseconds since the Unix epoch.
pub open spec fn millis_time(from: i64) -> NaiveDateTime {
    NaiveDateTime { secs: millis_secs(from as int) as i64, nanos: millis_nanos(from as int) as u32 }
}

fn millis_naive(from: i64) -> (r: Result<NaiveDateTime, MapperError>)
    ensures
        timestamp_outcome(millis_time(from), r, millis_time(from)),
{
    let (secs, nanos) = split_millis(from);
    checked_naive(NaiveDateTime { secs, nanos })
}

impl TypeFallibleMapper<i64, NaiveDateTime> for MillisecondsMapper {
    type Error = MapperError;

    open spec fn obeys_try_map_spec() -> bool {
        true
    }

    open spec fn try_map_ensures(from: i64, r: Result<NaiveDateTime, MapperError>) -> bool {
        timestamp_outcome(millis_time(from), r, millis_time(from))
    }

    fn try_map(from: i64) -> (r: Result<NaiveDateTime, MapperError>) {
        millis_naive(from)
    }
}

impl TypeFallibleMapper<i64, UtcDateTime> for MillisecondsMapper {
    type Error = MapperError;

    open spec fn obeys_try_map_spec() -> bool {
        true
    }

    open spec fn try_map_ensures(from: i64, r: Result<UtcDateTime, MapperError>) -> bool {
        timestamp_outcome(millis_time(from), r, UtcDateTime { utc: millis_time(from) })
    }

    fn try_map(from: i64) -> (r: Result<UtcDateTime, MapperError>) {
        match millis_naive(from) {
            Ok(n) => Ok(UtcDateTime { utc: n }),
            Err(e) => Err(e),
        }
    }
}

impl TypeFallibleMapper<i64, FixedOffsetDateTime> for MillisecondsMapper {
    type Error = MapperError;

    open spec fn obeys_try_map_spec() -> bool {
        true
    }

    open spec fn try_map_ensures(from: i64, r: Result<FixedOffsetDateTime, MapperError>) -> bool {
        timestamp_outcome(
            millis_time(from),
            r,
            FixedOffsetDateTime { utc: millis_time(from), offset_secs: 0 },
        )
    }

    fn try_map(from: i64) -> (r: Result<FixedOffsetDateTime, MapperError>) {
        match millis_naive(from) {
            Ok(n) => Ok(FixedOffsetDateTime { utc: n, offset_secs: 0 }),
            Err(e) => Err(e),
        }
    }
}

} // verus!
